use contest_ranking::median::{median, Median};

fn value_of(m: Median) -> f64 {
    m.twice() as f64 / 2.0
}

#[test]
fn median_of_odd_count_is_middle_value() {
    let mut values = vec![2, 3, 5];
    let m = median(&mut values).unwrap();
    assert_eq!(m.twice(), 6);
    assert_eq!(value_of(m), 3.0);
}

#[test]
fn median_of_even_count_is_mean_of_middle_pair() {
    let mut values = vec![2, 4];
    let m = median(&mut values).unwrap();
    assert_eq!(m.twice(), 6);
    assert_eq!(value_of(m), 3.0);
}

#[test]
fn median_of_even_count_may_be_a_half() {
    let mut values = vec![1, 2, 3, 4];
    let m = median(&mut values).unwrap();
    assert_eq!(m.twice(), 5);
    assert_eq!(value_of(m), 2.5);
}

#[test]
fn median_of_nothing_is_none() {
    let mut values: Vec<i32> = Vec::new();
    assert!(median(&mut values).is_none());
    assert!(values.is_empty());
}

#[test]
fn median_of_one_value_is_that_value() {
    let mut values = vec![4];
    assert_eq!(median(&mut values).unwrap().twice(), 8);
}

#[test]
fn median_sorts_the_values_in_place() {
    let mut values = vec![5, 2, 3, 1, 4, 2];
    let m = median(&mut values).unwrap();
    assert_eq!(values, vec![1, 2, 2, 3, 4, 5]);
    assert_eq!(m.twice(), 5);
}

#[test]
fn median_does_not_depend_on_order() {
    let mut a = vec![5, 1, 4, 2, 3];
    let mut b = vec![3, 2, 1, 5, 4];
    let mut c = vec![1, 2, 3, 4, 5];
    let ma = median(&mut a).unwrap().twice();
    let mb = median(&mut b).unwrap().twice();
    let mc = median(&mut c).unwrap().twice();
    assert_eq!(ma, 6);
    assert_eq!(mb, 6);
    assert_eq!(mc, 6);
}

#[test]
fn median_resists_an_outlier() {
    let mut values = vec![4, 4, 1, 4, 5];
    assert_eq!(median(&mut values).unwrap().twice(), 8);
}

#[test]
fn median_of_negative_values() {
    let mut values = vec![-3, -1, -2, -4];
    let m = median(&mut values).unwrap();
    assert_eq!(m.twice(), -5);
    assert_eq!(value_of(m), -2.5);
}

#[test]
fn median_of_extreme_values_is_exact() {
    let mut values = vec![i32::MAX, i32::MAX];
    assert_eq!(median(&mut values).unwrap().twice(), 2 * (i32::MAX as i64));
    let mut values = vec![i32::MIN, i32::MIN];
    assert_eq!(median(&mut values).unwrap().twice(), 2 * (i32::MIN as i64));
    let mut values = vec![i32::MIN, i32::MAX];
    assert_eq!(median(&mut values).unwrap().twice(), -1);
}

#[test]
fn median_constructors_agree_with_median() {
    assert_eq!(Median::of_value(3).twice(), 6);
    assert_eq!(Median::of_pair(2, 5).twice(), 7);
    let mut values = vec![5, 2];
    assert_eq!(median(&mut values).unwrap().twice(), Median::of_pair(2, 5).twice());
}
