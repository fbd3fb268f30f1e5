use lora_core::errors::CoreError;
use lora_core::events::MacEvent;
use lora_core::events::MacResponse;
use lora_core::timer::handle_mac_response;
use lora_core::timer::process_tick;
use lora_core::timer::TimerContext;

#[test]
fn fires_exactly_at_target() {
    let mut t = TimerContext::new();
    t.arm(5);
    for _ in 0..4 {
        assert!(!t.tick());
    }
    assert!(t.tick());
    // After firing the context is idle and fully reset.
    assert!(!t.enabled);
    assert_eq!(t.count, 0);
    assert_eq!(t.target, 0);
    // Ticks after the firing change nothing.
    assert!(!t.tick());
}

#[test]
fn fires_on_first_tick_when_armed_for_one() {
    let mut t = TimerContext::new();
    t.arm(1);
    assert!(t.tick());
    assert!(!t.tick());
}

#[test]
fn tick_while_idle_is_tolerated() {
    let mut t = TimerContext::new();
    assert!(!t.tick());
    assert!(!t.enabled);
    assert_eq!(t.count, 0);
    assert_eq!(t.target, 0);
}

#[test]
fn disarm_before_target_never_fires() {
    let mut t = TimerContext::new();
    t.arm(5);
    assert!(!t.tick());
    assert!(!t.tick());
    t.disarm();
    assert!(!t.enabled);
    assert_eq!(t.count, 0);
    assert_eq!(t.target, 0);
    for _ in 0..10 {
        assert!(!t.tick());
    }
}

#[test]
fn rearm_replaces_prior_target() {
    let mut t = TimerContext::new();
    t.arm(3);
    assert!(!t.tick());
    // Re-arm while counting: last write wins.
    t.arm(5);
    assert_eq!(t.count, 0);
    assert_eq!(t.target, 5);
    // The old target's remaining two ticks no longer fire.
    assert!(!t.tick());
    assert!(!t.tick());
    // Reaching the new target does.
    assert!(!t.tick());
    assert!(!t.tick());
    assert!(t.tick());
}

#[test]
fn process_tick_emits_one_timer_fired() {
    let mut t = TimerContext::new();
    t.arm(2);
    assert_eq!(process_tick(&mut t), None);
    assert_eq!(process_tick(&mut t), Some(MacEvent::TimerFired));
    assert_eq!(process_tick(&mut t), None);
}

#[test]
fn timer_request_arms_the_timer() {
    let mut t = TimerContext::new();
    assert_eq!(handle_mac_response(&mut t, MacResponse::TimerRequest(4)), Ok(()));
    assert!(t.enabled);
    assert_eq!(t.target, 4);
    for _ in 0..3 {
        assert!(!t.tick());
    }
    assert!(t.tick());
}

#[test]
fn timer_request_for_zero_ticks_is_rejected() {
    let mut t = TimerContext::new();
    assert_eq!(
        handle_mac_response(&mut t, MacResponse::TimerRequest(0)),
        Err(CoreError::ConfigurationError)
    );
    assert!(!t.enabled);
}

#[test]
fn mac_error_surfaces_as_protocol_error() {
    let mut t = TimerContext::new();
    t.arm(7);
    assert_eq!(
        handle_mac_response(&mut t, MacResponse::Error),
        Err(CoreError::ProtocolError)
    );
    // The timer is left untouched.
    assert!(t.enabled);
    assert_eq!(t.target, 7);
}
