use sdtx::event::{ControlCall, Phase};
use sdtx::Lifecycle;

#[test]
fn enable_then_disable_once() {
    let (mut life, call) = Lifecycle::start();
    assert_eq!(call, ControlCall::EnableEvents);
    assert!(!life.can_read());
    life.enabled(true);
    assert!(life.can_read());
    assert_eq!(life.release(), Some(ControlCall::DisableEvents));
    assert_eq!(life.phase(), Phase::Released);
    assert!(!life.can_read());
    assert_eq!(life.release(), None);
}

#[test]
fn failed_enable_is_not_undone() {
    let (mut life, call) = Lifecycle::start();
    assert_eq!(call, ControlCall::EnableEvents);
    life.enabled(false);
    assert_eq!(life.phase(), Phase::Failed);
    assert!(!life.can_read());
    assert_eq!(life.release(), None);
}

#[test]
fn teardown_without_enable_outcome_asks_nothing() {
    let (mut life, _) = Lifecycle::start();
    assert_eq!(life.phase(), Phase::Enabling);
    assert_eq!(life.release(), None);
}
