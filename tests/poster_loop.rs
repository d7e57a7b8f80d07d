use topgg::autoposter::{ConfigError, LoopAction, LoopEvent, Phase, PostLoop, ReceiverSlot};
use topgg::error::{error_for_status, Error};

#[test]
fn interval_below_minimum_is_refused() {
    assert!(matches!(
        PostLoop::new(899, true),
        Err(ConfigError::IntervalTooShort { secs: 899 })
    ));
    assert!(PostLoop::new(0, false).is_err());
    let l = PostLoop::new(900, true).ok().unwrap();
    assert_eq!(l.interval_secs(), 900);
    assert_eq!(l.phase(), Phase::Signal);
}

#[test]
fn ratelimit_failure_is_reported_once_with_retry_after() {
    let mut l = PostLoop::new(900, true).ok().unwrap();
    assert!(matches!(l.first_action::<topgg::error::Result<()>>(), LoopAction::WaitForSignal));
    assert!(matches!(l.on_event::<topgg::error::Result<()>>(LoopEvent::Signalled), LoopAction::PostStats));
    let outcome = error_for_status(429, Some(30));
    match l.on_event(LoopEvent::Posted(outcome)) {
        LoopAction::Report(Err(Error::Ratelimit { retry_after })) => assert_eq!(retry_after, 30),
        _ => panic!("expected the rate-limit outcome to be reported"),
    }
    match l.on_event::<topgg::error::Result<()>>(LoopEvent::Reported { delivered: true }) {
        LoopAction::Sleep { secs } => assert_eq!(secs, 900),
        _ => panic!("expected a cooldown"),
    }
    assert!(matches!(l.on_event::<topgg::error::Result<()>>(LoopEvent::Slept), LoopAction::WaitForSignal));
}

#[test]
fn simple_handler_loop_posts_on_interval() {
    let mut l = PostLoop::new(1800, false).ok().unwrap();
    assert!(matches!(l.first_action::<u8>(), LoopAction::PostStats));
    assert!(matches!(l.on_event(LoopEvent::Posted(1u8)), LoopAction::Report(1)));
    assert!(matches!(l.on_event::<u8>(LoopEvent::Reported { delivered: true }), LoopAction::Sleep { secs: 1800 }));
    assert!(matches!(l.on_event::<u8>(LoopEvent::Slept), LoopAction::PostStats));
}

#[test]
fn cancelled_loop_never_posts_again() {
    let mut l = PostLoop::new(900, false).ok().unwrap();
    assert!(matches!(l.on_event::<u8>(LoopEvent::Cancelled), LoopAction::Exit));
    assert_eq!(l.phase(), Phase::Stopped);
    assert!(matches!(l.on_event(LoopEvent::Posted(3u8)), LoopAction::Exit));
    assert!(matches!(l.on_event::<u8>(LoopEvent::Signalled), LoopAction::Exit));
    assert!(matches!(l.on_event::<u8>(LoopEvent::Slept), LoopAction::Exit));
}

#[test]
fn loop_ends_when_observer_is_gone() {
    let mut l = PostLoop::new(900, true).ok().unwrap();
    l.on_event::<u8>(LoopEvent::Signalled);
    l.on_event(LoopEvent::Posted(0u8));
    assert!(matches!(l.on_event::<u8>(LoopEvent::Reported { delivered: false }), LoopAction::Exit));
    assert_eq!(l.phase(), Phase::Stopped);
}

#[test]
fn mismatched_event_is_ignored() {
    let mut l = PostLoop::new(900, true).ok().unwrap();
    assert!(matches!(l.on_event::<u8>(LoopEvent::Slept), LoopAction::Ignore));
    assert_eq!(l.phase(), Phase::Signal);
}

#[test]
fn receiver_can_be_taken_once() {
    let mut slot = ReceiverSlot::new(vec![1u8, 2]);
    assert!(slot.is_available());
    slot.receiver_mut().push(3);
    let r = slot.take();
    assert_eq!(r, vec![1, 2, 3]);
    assert!(!slot.is_available());
}

#[test]
fn status_codes_map_to_errors() {
    assert!(error_for_status(200, None).is_ok());
    assert!(error_for_status(204, Some(5)).is_ok());
    assert!(matches!(error_for_status(401, None), Err(Error::Unauthorized)));
    assert!(matches!(error_for_status(404, None), Err(Error::NotFound)));
    assert!(matches!(error_for_status(429, Some(12)), Err(Error::Ratelimit { retry_after: 12 })));
    assert!(matches!(error_for_status(429, None), Err(Error::InternalServerError)));
    assert!(matches!(error_for_status(500, None), Err(Error::InternalServerError)));
    assert!(matches!(error_for_status(302, None), Err(Error::InternalServerError)));
    let e = error_for_status(429, Some(30)).err().unwrap();
    assert_eq!(e.retry_after(), Some(30));
    assert_eq!(Error::NotFound.retry_after(), None);
}
