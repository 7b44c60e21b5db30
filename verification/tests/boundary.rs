use index_proxy::fault::Fault;
use index_proxy::guard::{settle, Completion, Failure, Outcome};
use index_proxy::marshal::{boolean_to_host, height_to_host, index_from_host, length_to_host};
use index_proxy::proof_list::{check_overwrite, check_range, plan_truncate};

#[test]
fn index_from_host_keeps_non_negative_values() {
    assert_eq!(index_from_host(0), 0);
    assert_eq!(index_from_host(1), 1);
    assert_eq!(index_from_host(42), 42);
    assert_eq!(index_from_host(i64::MAX), 9_223_372_036_854_775_807);
}

#[test]
fn index_from_host_maps_negative_values_past_every_length() {
    assert_eq!(index_from_host(-1), u64::MAX);
    assert_eq!(index_from_host(-2), 18_446_744_073_709_551_614);
    assert_eq!(index_from_host(i64::MIN), 9_223_372_036_854_775_808);
    assert_eq!(index_from_host(i64::MIN + 1), 9_223_372_036_854_775_809);
}

#[test]
fn length_to_host_keeps_the_bits() {
    assert_eq!(length_to_host(0), 0);
    assert_eq!(length_to_host(3), 3);
    assert_eq!(length_to_host(9_223_372_036_854_775_807), i64::MAX);
    assert_eq!(length_to_host(9_223_372_036_854_775_808), i64::MIN);
    assert_eq!(length_to_host(u64::MAX), -1);
}

#[test]
fn length_survives_the_round_trip() {
    for length in [0u64, 1, 255, 1 << 40, (1 << 63) - 1, 1 << 63, u64::MAX - 1, u64::MAX] {
        assert_eq!(index_from_host(length_to_host(length)), length);
    }
}

#[test]
fn height_and_boolean_to_host() {
    assert_eq!(height_to_host(0), 0);
    assert_eq!(height_to_host(1), 1);
    assert_eq!(height_to_host(58), 58);
    assert_eq!(height_to_host(255), 255);
    assert_eq!(boolean_to_host(true), 1);
    assert_eq!(boolean_to_host(false), 0);
}

#[test]
fn overwrite_needs_a_position_inside_the_list() {
    assert_eq!(check_overwrite(0, 1), Ok(()));
    assert_eq!(check_overwrite(2, 3), Ok(()));
    assert_eq!(check_overwrite(3, 3), Err(Fault::IndexOutOfBounds));
    assert_eq!(check_overwrite(4, 3), Err(Fault::IndexOutOfBounds));
    assert_eq!(check_overwrite(0, 0), Err(Fault::IndexOutOfBounds));
    assert_eq!(check_overwrite(u64::MAX, u64::MAX), Err(Fault::IndexOutOfBounds));
    assert_eq!(check_overwrite(u64::MAX - 1, u64::MAX), Ok(()));
}

#[test]
fn overwrite_at_a_negative_host_index_is_out_of_bounds() {
    assert_eq!(check_overwrite(index_from_host(-1), 10), Err(Fault::IndexOutOfBounds));
    assert_eq!(check_overwrite(index_from_host(9), 10), Ok(()));
}

#[test]
fn truncate_to_length_or_more_does_nothing() {
    assert_eq!(plan_truncate(3, 3), None);
    assert_eq!(plan_truncate(3, 4), None);
    assert_eq!(plan_truncate(0, 0), None);
    assert_eq!(plan_truncate(0, 7), None);
    assert_eq!(plan_truncate(5, u64::MAX), None);
}

#[test]
fn truncate_below_length_keeps_that_many() {
    assert_eq!(plan_truncate(3, 2), Some(2));
    assert_eq!(plan_truncate(3, 0), Some(0));
    assert_eq!(plan_truncate(u64::MAX, 1), Some(1));
}

#[test]
fn range_start_must_not_pass_its_end() {
    assert_eq!(check_range(1, 3), Ok(()));
    assert_eq!(check_range(0, 0), Ok(()));
    assert_eq!(check_range(5, 5), Ok(()));
    assert_eq!(check_range(3, 1), Err(Fault::IllegalRange));
    assert_eq!(check_range(1, 0), Err(Fault::IllegalRange));
    assert_eq!(check_range(0, u64::MAX), Ok(()));
}

#[test]
fn returned_value_crosses_without_a_failure() {
    let outcome = settle(Completion::Returned(Some(vec![1u8, 2, 3])), None);
    assert_eq!(outcome, Outcome { value: Some(vec![1u8, 2, 3]), failure: None });
    let outcome = settle(Completion::Returned(7i64), 0);
    assert_eq!(outcome.value, 7);
    assert_eq!(outcome.failure, None);
}

#[test]
fn absent_value_is_no_failure() {
    let outcome: Outcome<Option<Vec<u8>>> = settle(Completion::Returned(None), None);
    assert_eq!(outcome.value, None);
    assert_eq!(outcome.failure, None);
}

#[test]
fn refusal_hands_over_the_fallback_and_one_failure() {
    let outcome = settle(Completion::Refused(Fault::SnapshotModification), 0i64);
    assert_eq!(outcome.value, 0);
    assert_eq!(outcome.failure, Some(Failure::Refused(Fault::SnapshotModification)));
    let outcome: Outcome<Option<Vec<u8>>> =
        settle(Completion::Refused(Fault::IndexOutOfBounds), None);
    assert_eq!(outcome.value, None);
    assert_eq!(outcome.failure, Some(Failure::Refused(Fault::IndexOutOfBounds)));
}

#[test]
fn abort_hands_over_the_fallback_and_its_description() {
    let outcome = settle(Completion::Aborted("store went away".to_string()), false);
    assert!(!outcome.value);
    assert_eq!(outcome.failure, Some(Failure::Aborted("store went away".to_string())));
    assert_eq!(outcome.failure.unwrap().message(), "store went away");
}

#[test]
fn every_fault_has_its_message() {
    assert_eq!(Fault::UnknownHandle.message(), "Invalid handle value.");
    assert_eq!(Fault::WrongResource.message(), "Wrong resource type for the handle.");
    assert_eq!(Fault::SnapshotModification.message(), "Unable to modify snapshot.");
    assert_eq!(Fault::IndexOutOfBounds.message(), "Index out of bounds.");
    assert_eq!(Fault::IllegalRange.message(), "Illegal range boundaries.");
    assert_eq!(Fault::HandlesExhausted.message(), "No handle left to issue.");
    assert_eq!(
        Failure::Refused(Fault::SnapshotModification).message(),
        "Unable to modify snapshot."
    );
}
