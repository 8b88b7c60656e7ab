use stochastic::embedding::{circulant_column, pair_draws};
use stochastic::path::NoisePath;
use stochastic::plan::{motion_plan, noise_plan, MotionPlan, NoisePlan};
use stochastic::{lag, Distance};

#[test]
fn zero_distance() {
    assert_eq!(<usize as Distance>::zero(), 0);
}

#[test]
fn lag_is_symmetric() {
    assert_eq!(lag(3, 7), 4);
    assert_eq!(lag(7, 3), 4);
    assert_eq!(lag(5, 5), 0);
    assert_eq!(lag(0, usize::MAX), usize::MAX);
    assert_eq!(lag(usize::MAX, 0), usize::MAX);
}

#[test]
fn variance_is_taken_at_lag_zero() {
    for t in 0..3usize {
        assert_eq!(lag(t, t), <usize as Distance>::zero());
    }
}

#[test]
fn column_reflects_covariances() {
    let cov = vec![10, 20, 30, 40];
    assert_eq!(circulant_column(&cov), vec![10, 20, 30, 40, 30, 20]);
}

#[test]
fn column_of_one_increment() {
    let cov = vec![1.0, -0.25];
    assert_eq!(circulant_column(&cov), vec![1.0, -0.25]);
}

#[test]
fn column_is_symmetric() {
    let cov: Vec<u32> = (0..42).map(|i| i * i + 1).collect();
    let column = circulant_column(&cov);
    let m = column.len();
    assert_eq!(m, 82);
    assert_eq!(column[0], cov[0]);
    for i in 1..42 {
        assert_eq!(column[i], cov[i]);
        assert_eq!(column[m - i], column[i]);
    }
}

#[test]
fn draws_pair_in_order() {
    let draws = vec![1, 2, 3, 4, 5, 6];
    assert_eq!(pair_draws(&draws), vec![(1, 2), (3, 4), (5, 6)]);
}

#[test]
fn odd_draw_is_left_unused() {
    let draws = vec![1.5, -2.5, 0.25];
    assert_eq!(pair_draws(&draws), vec![(1.5, -2.5)]);
    assert!(pair_draws(&Vec::<f64>::new()).is_empty());
}

#[test]
fn same_draws_give_same_pairs() {
    let draws: Vec<i64> = (0..168).map(|k| k * 7 - 300).collect();
    let first = pair_draws(&draws);
    let second = pair_draws(&draws.clone());
    assert_eq!(first.len(), 84);
    assert_eq!(first, second);
    for (k, pair) in first.iter().enumerate() {
        assert_eq!(*pair, (draws[2 * k], draws[2 * k + 1]));
    }
}

#[test]
fn noise_plan_boundaries() {
    assert_eq!(noise_plan(0), NoisePlan::Empty);
    assert_eq!(noise_plan(1), NoisePlan::Direct);
    assert_eq!(noise_plan(2), NoisePlan::Embedding { n: 1 });
    assert_eq!(noise_plan(10), NoisePlan::Embedding { n: 9 });
}

#[test]
fn motion_plan_boundaries() {
    assert_eq!(motion_plan(0), MotionPlan::Empty);
    assert_eq!(motion_plan(1), MotionPlan::Origin);
    assert_eq!(motion_plan(2), MotionPlan::Increments { increments: 1 });
    assert_eq!(motion_plan(42), MotionPlan::Increments { increments: 41 });
}

#[test]
fn path_reads_once_in_order() {
    let mut path = NoisePath::new(vec![0.5, -1.0, 2.0]);
    assert_eq!(path.len(), 3);
    assert_eq!(path.next(), Some(0.5));
    assert_eq!(path.next(), Some(-1.0));
    assert_eq!(path.next(), Some(2.0));
    assert_eq!(path.next(), None);
    assert_eq!(path.next(), None);
    assert_eq!(path.into_vec(), vec![0.5, -1.0, 2.0]);
}

#[test]
fn empty_path_yields_nothing() {
    let mut path = NoisePath::<f64>::new(Vec::new());
    assert_eq!(path.len(), 0);
    assert_eq!(path.next(), None);
    assert!(path.into_vec().is_empty());
}
