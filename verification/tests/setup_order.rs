//! Tests of the one-shot setup state machine: the socket is opened, bound,
//! and joined to the group in that order, and in no other.

use kmrelay::setup::{apply_event, next_action, SetupAction, SetupEvent, SetupState};

#[test]
fn setup_succeeds_in_order() {
    let s0 = SetupState::Uninitialized;
    assert_eq!(next_action(&s0), Some(SetupAction::Open));
    let s1 = apply_event(&s0, &SetupEvent::OpenOk).expect("open is admitted first");
    assert_eq!(s1, SetupState::Opened);
    assert_eq!(next_action(&s1), Some(SetupAction::Bind));
    let s2 = apply_event(&s1, &SetupEvent::BindOk).expect("bind follows open");
    assert_eq!(s2, SetupState::Bound);
    assert_eq!(next_action(&s2), Some(SetupAction::Join));
    let s3 = apply_event(&s2, &SetupEvent::JoinOk).expect("join follows bind");
    assert_eq!(s3, SetupState::Joined);
    // Fully set up: nothing left to do before the loop starts.
    assert_eq!(next_action(&s3), None);
}

#[test]
fn bind_before_open_is_rejected() {
    assert_eq!(apply_event(&SetupState::Uninitialized, &SetupEvent::BindOk), None);
}

#[test]
fn join_before_bind_is_rejected() {
    assert_eq!(apply_event(&SetupState::Uninitialized, &SetupEvent::JoinOk), None);
    assert_eq!(apply_event(&SetupState::Opened, &SetupEvent::JoinOk), None);
}

#[test]
fn setup_steps_are_one_shot() {
    // A step that already happened is not admitted again.
    assert_eq!(apply_event(&SetupState::Opened, &SetupEvent::OpenOk), None);
    assert_eq!(apply_event(&SetupState::Bound, &SetupEvent::BindOk), None);
    assert_eq!(apply_event(&SetupState::Joined, &SetupEvent::JoinOk), None);
}
