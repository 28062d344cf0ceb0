use controllable::facade::{ControllableValue, Notice};
use controllable::rules::{is_controlled, observe, select, Observation};
use controllable::store::UncontrolledValue;

#[test]
fn observer_tells_the_three_cases_apart() {
    assert_eq!(observe(&Some(1), &Some(1)), Observation::Unchanged);
    assert_eq!(observe(&None::<i32>, &None), Observation::Unchanged);
    assert_eq!(observe(&Some(1), &Some(2)), Observation::Changed);
    assert_eq!(observe(&None, &Some(2)), Observation::Changed);
    assert_eq!(observe(&Some(1), &None), Observation::Cleared);
}

#[test]
fn control_follows_the_input() {
    assert!(is_controlled(&Some(0)));
    assert!(!is_controlled(&None::<i32>));
    assert_eq!(select(&Some(2), &Some(1)), &Some(2));
    assert_eq!(select(&Some(2), &None), &Some(2));
    assert_eq!(select(&None, &Some(1)), &Some(1));
    assert_eq!(select(&None::<i32>, &None), &None);
}

#[test]
fn store_write_reports_new_concrete_values() {
    let mut store = UncontrolledValue::new(None);
    assert_eq!(store.get(), &None);
    assert_eq!(store.write(Some(5)), Some(5));
    assert_eq!(store.get(), &Some(5));
    assert_eq!(store.write(Some(5)), None);
    assert_eq!(store.write(None), None);
    assert_eq!(store.get(), &None);
    assert_eq!(store.write(None), None);
    assert_eq!(store.write(Some(5)), Some(5));
    assert_eq!(store.write(Some(6)), Some(6));
    assert_eq!(store.get(), &Some(6));
}

#[test]
fn store_run_is_reported_once() {
    let mut store = UncontrolledValue::new(None);
    let mut fired = Vec::new();
    for value in [Some(1), Some(1), None, None, Some(1), Some(2), Some(2), Some(2), Some(3)] {
        if let Some(v) = store.write(value) {
            fired.push(v);
        }
    }
    assert_eq!(fired, vec![1, 1, 2, 3]);
}

#[test]
fn store_seed_counts_as_seen() {
    let mut store = UncontrolledValue::new(Some(4));
    assert_eq!(store.get(), &Some(4));
    assert_eq!(store.write(Some(4)), None);
    assert_eq!(store.write(Some(5)), Some(5));
}

#[test]
fn store_update_works_in_place() {
    let mut store = UncontrolledValue::new(Some(String::from("a")));
    assert_eq!(store.update(|v| *v = v.take().map(|s| s + "b")), Some(String::from("ab")));
    assert_eq!(store.get(), &Some(String::from("ab")));
    assert_eq!(store.update(|_| {}), None);
    assert_eq!(store.update(|v| *v = None), None);
    assert_eq!(store.get(), &None);
}

#[test]
fn facade_uncontrolled_set() {
    let mut value = ControllableValue::new(None);
    assert_eq!(value.set(&None, 5), Notice::Observed(5));
    assert_eq!(value.get(&None), &Some(5));
    assert_eq!(value.set(&None, 5), Notice::Silent);
    assert_eq!(value.get(&None), &Some(5));
}

#[test]
fn facade_controlled_set() {
    let mut value = ControllableValue::new(Some(1));
    assert_eq!(value.get(&Some(2)), &Some(2));
    assert_eq!(value.set(&Some(2), 3), Notice::Forwarded(Some(3)));
    assert_eq!(value.get(&Some(2)), &Some(2));
    assert_eq!(value.get(&None), &Some(1));
}

#[test]
fn facade_read_follows_the_input() {
    let mut value = ControllableValue::new(None);
    assert_eq!(value.get(&None), &None);
    value.set(&None, 4);
    assert_eq!(value.get(&None), &Some(4));
    assert_eq!(value.get(&Some(7)), &Some(7));
    for n in 0..6 {
        let input = if n % 2 == 0 { Some(n) } else { None };
        let expected = if n % 2 == 0 { Some(n) } else { Some(4) };
        assert_eq!(value.get(&input), &expected);
    }
}

#[test]
fn facade_uncontrolled_update() {
    let mut value = ControllableValue::new(None);
    assert_eq!(value.update(&None, |v| *v = Some(v.unwrap_or(0) + 1)), Notice::Observed(1));
    assert_eq!(value.update(&None, |v| *v = Some(v.unwrap_or(0) + 1)), Notice::Observed(2));
    assert_eq!(value.update(&None, |v| *v = Some(v.unwrap_or(0))), Notice::Silent);
    assert_eq!(value.update(&None, |v| *v = None), Notice::Silent);
    assert_eq!(value.get(&None), &None);
}

#[test]
fn facade_controlled_update_forwards_even_an_empty_outcome() {
    let mut value = ControllableValue::new(Some(1));
    let input = Some(20);
    assert_eq!(value.update(&input, |v| *v = v.map(|n| n * 2)), Notice::Forwarded(Some(40)));
    assert_eq!(value.update(&input, |v| *v = None), Notice::Forwarded(None));
    assert_eq!(input, Some(20));
    assert_eq!(value.get(&None), &Some(1));
}

#[test]
fn facade_controlled_writes_leave_the_store_alone() {
    let mut value = ControllableValue::new(Some(1));
    assert_eq!(value.set(&None, 2), Notice::Observed(2));
    let input = Some(50);
    assert_eq!(value.set(&input, 3), Notice::Forwarded(Some(3)));
    assert_eq!(value.update(&input, |v| *v = Some(v.unwrap_or(0) + 1)), Notice::Forwarded(Some(51)));
    assert_eq!(value.set(&input, 3), Notice::Forwarded(Some(3)));
    assert_eq!(value.get(&input), &Some(50));
    assert_eq!(value.get(&None), &Some(2));
}

#[test]
fn facade_set_calls_back_once_or_not_at_all() {
    let mut value = ControllableValue::new(Some(6));
    assert_eq!(value.set(&None, 6).delivered(), None);
    assert_eq!(value.set(&None, 7).delivered(), Some(7));
    assert_eq!(value.set(&None, 7).delivered(), None);
    assert_eq!(value.set(&None, 6).delivered(), Some(6));
}

#[test]
fn notice_delivers_concrete_values_only() {
    assert_eq!(Notice::<i32>::Silent.delivered(), None);
    assert_eq!(Notice::Forwarded(Some(1)).delivered(), Some(1));
    assert_eq!(Notice::<i32>::Forwarded(None).delivered(), None);
    assert_eq!(Notice::Observed(2).delivered(), Some(2));
}

#[test]
fn store_reports_the_worked_sequences() {
    let mut store = UncontrolledValue::new(None);
    let mut fired = Vec::new();
    for value in [Some(1), Some(1), None, Some(1), Some(2), Some(2)] {
        fired.extend(store.write(value));
    }
    assert_eq!(fired, vec![1, 1, 2]);
    assert_eq!(store.get(), &Some(2));

    let mut store = UncontrolledValue::new(Some(1));
    let mut fired = Vec::new();
    for value in [Some(1), None, Some(1)] {
        fired.extend(store.write(value));
    }
    assert_eq!(fired, vec![1]);
    assert_eq!(store.get(), &Some(1));
}

#[test]
fn facade_five_reads_follow_five_inputs() {
    let value = ControllableValue::new(Some(1));
    let reads: Vec<Option<i32>> = [None, Some(7), None, Some(8), None]
        .iter()
        .map(|input| *value.get(input))
        .collect();
    assert_eq!(reads, vec![Some(1), Some(7), Some(1), Some(8), Some(1)]);
}

#[test]
fn facade_store_survives_a_controlled_stretch() {
    let mut value = ControllableValue::new(Some(1));
    assert_eq!(value.set(&Some(2), 3), Notice::Forwarded(Some(3)));
    assert_eq!(value.update(&Some(2), |v| *v = Some(99)), Notice::Forwarded(Some(99)));
    assert_eq!(value.get(&None), &Some(1));
}

#[test]
fn facade_two_controlled_sets_are_forwarded_twice() {
    let mut value = ControllableValue::new(None);
    assert_eq!(value.set(&Some(0), 3).delivered(), Some(3));
    assert_eq!(value.set(&Some(0), 3).delivered(), Some(3));
    assert_eq!(value.get(&None), &None::<i32>);
}

#[test]
fn notice_tells_whether_the_store_was_written() {
    assert!(Notice::<i32>::Silent.stored());
    assert!(Notice::Observed(1).stored());
    assert!(!Notice::Forwarded(Some(1)).stored());
    assert!(!Notice::<i32>::Forwarded(None).stored());
    let mut value = ControllableValue::new(Some(1));
    assert!(value.set(&None, 1).stored());
    assert!(value.update(&None, |v| *v = None).stored());
    assert!(!value.set(&Some(5), 1).stored());
}

#[test]
fn facade_payload_need_not_be_copy() {
    let mut value = ControllableValue::new(Some(String::from("a")));
    assert_eq!(value.set(&None, String::from("a")), Notice::Silent);
    assert_eq!(value.set(&None, String::from("b")), Notice::Observed(String::from("b")));
    let notice = value.update(&None, |v| {
        if let Some(text) = v {
            text.push('c');
        }
    });
    assert_eq!(notice, Notice::Observed(String::from("bc")));
    assert_eq!(value.get(&None), &Some(String::from("bc")));
}

#[test]
fn facade_increment_in_both_modes() {
    let mut value = ControllableValue::new(None);
    assert_eq!(value.update(&None, |v| *v = Some(v.unwrap_or(0) + 1)), Notice::Observed(1));
    assert_eq!(
        value.update(&Some(5), |v| *v = Some(v.unwrap_or(0) + 1)),
        Notice::Forwarded(Some(6))
    );
    assert_eq!(value.get(&None), &Some(1));
    let mut value = ControllableValue::new(Some(1));
    assert_eq!(
        value.update(&Some(10), |v| *v = Some(v.unwrap_or(0) + 1)),
        Notice::Forwarded(Some(11))
    );
    assert_eq!(value.get(&Some(10)), &Some(10));
    assert_eq!(value.update(&Some(10), |_| {}), Notice::Forwarded(Some(10)));
}
