use std::cell::RefCell;
use yabai_get_windows::utils::{Either, IterEitherExt};

fn sample() -> Vec<Either<u32, String>> {
    vec![
        Either::Left(1),
        Either::Right("a".to_string()),
        Either::Left(2),
        Either::Right("b".to_string()),
    ]
}

#[test]
fn map_left_maps_the_left_values_only() {
    let mapped = sample().map_left(|n| n * 10).into_vec();
    assert_eq!(
        mapped,
        vec![
            Either::Left(10),
            Either::Right("a".to_string()),
            Either::Left(20),
            Either::Right("b".to_string()),
        ]
    );
}

#[test]
fn map_right_maps_the_right_values_only() {
    let mapped = sample().map_right(|s| s.len()).into_vec();
    assert_eq!(
        mapped,
        vec![Either::Left(1), Either::Right(1), Either::Left(2), Either::Right(1)]
    );
}

#[test]
fn map_left_may_change_the_type() {
    let mapped = sample().map_left(|n| format!("#{}", n)).into_vec();
    assert_eq!(
        mapped,
        vec![
            Either::Left("#1".to_string()),
            Either::Right("a".to_string()),
            Either::Left("#2".to_string()),
            Either::Right("b".to_string()),
        ]
    );
}

#[test]
fn mapped_items_come_one_by_one_from_the_first() {
    let mut mapped = sample().map_left(|n| n + 1);
    assert_eq!(mapped.next(), Some(Either::Left(2)));
    assert_eq!(mapped.next(), Some(Either::Right("a".to_string())));
    assert_eq!(mapped.next(), Some(Either::Left(3)));
    assert_eq!(mapped.next(), Some(Either::Right("b".to_string())));
    assert_eq!(mapped.next(), None);
    assert_eq!(mapped.next(), None);
}

#[test]
fn mapper_is_called_in_the_order_of_the_items() {
    let seen = RefCell::new(Vec::new());
    let _ = sample().map_left(|n| {
        seen.borrow_mut().push(n);
        n
    });
    assert_eq!(seen.into_inner(), vec![1, 2]);
}

#[test]
fn mapping_nothing_gives_nothing() {
    let empty: Vec<Either<u8, u8>> = Vec::new();
    assert!(empty.map_left(|n| n).into_vec().is_empty());
    let empty: Vec<Either<u8, u8>> = Vec::new();
    assert_eq!(empty.map_right(|n| n).next(), None);
}
