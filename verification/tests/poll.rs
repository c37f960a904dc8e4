use surf_disco::client::Client;
use surf_disco::poll::{Connecting, PollAction, RETRY_SECS};
use surf_disco::time::Duration;
use surf_disco::{Error, StatusCode, Address};

struct Unit;

impl Error for Unit {
    fn catch_all(_status: StatusCode, _msg: String) -> Self {
        Unit
    }
}

fn connecting(timeout: Option<Duration>) -> Connecting {
    let client = Client::<Unit>::new(Address::parse("http://localhost").unwrap());
    client.connect(timeout)
}

#[test]
fn attempts_are_ten_seconds_apart() {
    assert_eq!(RETRY_SECS, 10);
    let mut c = connecting(None);
    for i in 0..5u64 {
        assert!(matches!(c.clock(Duration::from_secs(10 * i)), PollAction::Try));
        let status = if i % 2 == 0 { None } else { Some(StatusCode { code: 503 }) };
        assert!(matches!(c.answered(status, Duration::from_secs(10 * i)), PollAction::Sleep { secs: 10 }));
    }
    assert!(matches!(c.clock(Duration::from_secs(50)), PollAction::Try));
    assert!(matches!(
        c.answered(Some(StatusCode { code: 200 }), Duration::from_secs(51)),
        PollAction::Finish(true)
    ));
}

#[test]
fn only_the_status_ok_is_a_success() {
    for code in [199u16, 201, 204, 299, 301, 400, 500] {
        let mut c = connecting(None);
        assert!(matches!(c.clock(Duration::from_secs(0)), PollAction::Try));
        let action = c.answered(Some(StatusCode { code }), Duration::from_secs(0));
        assert!(matches!(action, PollAction::Sleep { .. }));
    }
}

#[test]
fn connecting_fails_when_time_is_up() {
    let mut c = connecting(Some(Duration::new(10, 1)));
    assert!(matches!(c.clock(Duration::from_secs(0)), PollAction::Try));
    assert!(matches!(c.answered(None, Duration::from_secs(0)), PollAction::Sleep { .. }));
    assert!(matches!(c.clock(Duration::from_secs(10)), PollAction::Try));
    assert!(matches!(c.answered(None, Duration::from_secs(10)), PollAction::Sleep { .. }));
    assert!(matches!(c.clock(Duration::new(10, 1)), PollAction::Finish(false)));
}

#[test]
fn an_answer_that_comes_too_late_does_not_count() {
    let ok = Some(StatusCode { code: 200 });
    let mut c = connecting(Some(Duration::from_secs(5)));
    assert!(matches!(c.clock(Duration::from_secs(0)), PollAction::Try));
    assert!(matches!(c.answered(ok, Duration::from_secs(5)), PollAction::Finish(false)));
    let mut c = connecting(Some(Duration::from_secs(5)));
    assert!(matches!(c.clock(Duration::from_secs(0)), PollAction::Try));
    assert!(matches!(c.answered(None, Duration::from_secs(6)), PollAction::Finish(false)));
    let mut c = connecting(Some(Duration::from_secs(5)));
    assert!(matches!(c.clock(Duration::from_secs(0)), PollAction::Try));
    assert!(matches!(c.answered(ok, Duration::new(4, 999_999_999)), PollAction::Finish(true)));
}

#[test]
fn no_time_no_attempt() {
    let mut c = connecting(Some(Duration::from_secs(0)));
    assert!(matches!(c.clock(Duration::from_secs(0)), PollAction::Finish(false)));
}

#[test]
fn durations_are_compared_by_seconds_then_nanoseconds() {
    let a = Duration::new(1, 999_999_999);
    let b = Duration::new(2, 0);
    let c = Duration::new(2, 1);
    assert!(a.is_shorter(&b) && b.is_shorter(&c) && a.is_shorter(&c));
    assert!(!b.is_shorter(&a) && !b.is_shorter(&b));
    assert_eq!(c.as_secs(), 2);
    assert_eq!(c.subsec_nanos(), 1);
}
