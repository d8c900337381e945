use tower_limits::{
    release_outcome, resolve_limited, Bind, Error, InFlightLimit, Rate, RateLimit, RateLimitLayer, Readiness,
    Release, State, Status, Timeout, Update, WatchService,
};

const MS: u64 = 1_000_000;
const SECOND: u64 = 1_000_000_000;

struct Svc(usize);

struct MakeSvc;

impl Bind<usize> for MakeSvc {
    type Service = Svc;

    fn spec_bind(&self, t: usize) -> Svc {
        Svc(t)
    }

    fn bind(&mut self, t: &usize) -> Svc {
        Svc(*t)
    }
}

fn answer(svc: &mut WatchService<usize, MakeSvc>) -> usize {
    svc.get_mut().0
}

#[test]
fn rebind() {
    let mut svc = WatchService::new(&1, MakeSvc);

    assert!(!svc.poll_rebind(Update::Unchanged), "ready");
    assert_eq!(answer(&mut svc), 1, "call");

    assert!(!svc.poll_rebind(Update::Unchanged), "ready");
    assert_eq!(answer(&mut svc), 1, "call");

    assert!(svc.poll_rebind(Update::Changed(&2)), "ready");
    assert_eq!(answer(&mut svc), 2, "call");

    // Two stores between polls: only the latest value is seen.
    assert!(svc.poll_rebind(Update::Changed(&4)), "ready");
    assert_eq!(answer(&mut svc), 4, "call");

    assert!(!svc.poll_rebind(Update::Closed), "ready");
    assert_eq!(answer(&mut svc), 4, "call");
    assert!(svc.is_closed());
}

#[test]
fn rebind_pinned_after_publisher_is_gone() {
    let mut svc = WatchService::new(&1, MakeSvc);
    for v in [2usize, 3, 4] {
        assert!(svc.poll_rebind(Update::Changed(&v)));
        assert_eq!(answer(&mut svc), v);
    }
    assert!(!svc.poll_rebind(Update::Closed));
    assert!(!svc.poll_rebind(Update::Changed(&9)));
    assert!(!svc.poll_rebind(Update::Unchanged));
    assert_eq!(answer(&mut svc), 4);
    assert_eq!(svc.get_ref().0, 4);
}

#[test]
fn rate_quota_per_window() {
    let rate = Rate::new(3, SECOND);
    let mut limit = RateLimit::new((), rate, 0);

    for _ in 0..3 {
        assert!(limit.poll_ready(0));
        assert!(limit.call(0));
    }
    assert_eq!(limit.state(), State::Limited { until: SECOND });
    assert!(!limit.poll_ready(500 * MS));
    assert!(!limit.poll_ready(SECOND - 1));

    assert!(limit.poll_ready(SECOND));
    assert_eq!(limit.state(), State::Ready { until: 2 * SECOND, rem: 3 });
    for i in 0..3u64 {
        assert!(limit.poll_ready(SECOND + i * MS));
        assert!(limit.call(SECOND + i * MS));
    }
    assert!(!limit.poll_ready(SECOND + 10 * MS));
}

#[test]
fn rate_window_rolls_lazily() {
    let mut limit = RateLimit::new("svc", Rate::new(2, 100), 0);
    assert!(limit.call(10));
    assert_eq!(limit.state(), State::Ready { until: 110, rem: 1 });
    // The window is over: the next call opens a new one at its own instant.
    assert!(limit.call(500));
    assert_eq!(limit.state(), State::Ready { until: 600, rem: 1 });
    assert!(limit.call(510));
    assert_eq!(limit.state(), State::Limited { until: 600 });
    assert_eq!(*limit.get_ref(), "svc");
    assert_eq!(limit.into_inner(), "svc");
}

#[test]
fn rate_call_while_limited_is_refused() {
    let mut limit = RateLimit::new((), Rate::new(1, 50), 0);
    assert!(limit.call(0));
    assert_eq!(limit.state(), State::Limited { until: 50 });
    assert!(!limit.call(10));
    assert!(!limit.call(60));
    let refused: Status<u8, Error<()>> = resolve_limited(false, Status::Ready(3u8));
    assert_eq!(refused, Status::Failed(Error::RateLimited));
    let passed: Status<u8, Error<&str>> = resolve_limited(true, Status::Failed("boom"));
    assert_eq!(passed, Status::Failed(Error::Inner("boom")));
    let value: Status<u8, Error<()>> = resolve_limited(true, Status::Ready(3u8));
    assert_eq!(value, Status::Ready(3));
}

#[test]
fn rate_construction_rejects_zero() {
    assert!(Rate::try_new(0, SECOND).is_none());
    assert!(Rate::try_new(3, 0).is_none());
    assert!(Rate::try_new(0, 0).is_none());
    let rate = Rate::try_new(3, SECOND).unwrap();
    assert_eq!(rate.num(), 3);
    assert_eq!(rate.per(), SECOND);
}

#[test]
fn rate_layer_builds_limiters() {
    let layer = RateLimitLayer::new(5, 20);
    assert_eq!(layer.rate().num(), 5);
    assert_eq!(layer.rate().per(), 20);
    let limit = layer.layer(7u32, 3);
    assert_eq!(limit.state(), State::Ready { until: 3, rem: 5 });
    assert_eq!(*limit.get_ref(), 7);
}

#[test]
fn deadline_inner_completes_first() {
    let timeout = Timeout::new(100 * MS);
    let deadline = timeout.call(0);
    assert_eq!(deadline.at(), 100 * MS);
    let r: Status<u32, Error<()>> = deadline.poll(Status::NotReady, 20 * MS);
    assert_eq!(r, Status::NotReady);
    let r: Status<u32, Error<()>> = deadline.poll(Status::Ready(42), 50 * MS);
    assert_eq!(r, Status::Ready(42));
}

#[test]
fn deadline_elapses_never_before() {
    let deadline = Timeout::new(100 * MS).call(5 * MS);
    let r: Status<u32, Error<()>> = deadline.poll(Status::NotReady, 104 * MS);
    assert_eq!(r, Status::NotReady);
    let r: Status<u32, Error<()>> = deadline.poll(Status::NotReady, 105 * MS);
    assert_eq!(r, Status::Failed(Error::Elapsed));
    // Completion wins even once the deadline has passed.
    let r: Status<u32, Error<()>> = deadline.poll(Status::Ready(1), 150 * MS);
    assert_eq!(r, Status::Ready(1));
    let r: Status<u32, Error<&str>> = deadline.poll(Status::Failed("bad"), 150 * MS);
    assert_eq!(r, Status::Failed(Error::Inner("bad")));
}

#[test]
fn deadline_saturates() {
    let deadline = Timeout::new(10).call(u64::MAX - 3);
    assert_eq!(deadline.at(), u64::MAX);
}

#[test]
fn admission_ready_does_not_double_reserve() {
    let mut limit = InFlightLimit::new((), 1);
    let mut other = limit.fork(());
    assert_eq!(limit.poll_ready(), Readiness::Reserved);
    assert_eq!(limit.poll_ready(), Readiness::Held);
    assert_eq!(limit.poll_ready(), Readiness::Held);
    assert!(limit.reserved());
    assert_eq!(other.poll_ready(), Readiness::Full);
    assert_eq!(limit.release_reservation(), Release::Freed { prev: 1, wake: true });
    assert_eq!(other.poll_ready(), Readiness::Reserved);
}

#[test]
fn admission_end_to_end() {
    let mut a = InFlightLimit::new("slow", 1);
    let mut b = a.fork("slow");
    assert_eq!(a.poll_ready(), Readiness::Reserved);
    let mut ticket_a = a.call();
    assert!(ticket_a.admitted());
    assert!(!a.reserved());

    assert_eq!(b.poll_ready(), Readiness::Full);
    let mut ticket_b = b.call();
    assert!(!ticket_b.admitted());
    let (r, rel) = ticket_b.resolve::<u8, ()>(Status::Ready(1));
    assert_eq!(r, Status::Failed(Error::NoCapacity));
    assert_eq!(rel, Release::Idle);

    let (r, rel) = ticket_a.resolve::<u8, ()>(Status::NotReady);
    assert_eq!(r, Status::NotReady);
    assert_eq!(rel, Release::Idle);
    assert!(ticket_a.held());
    let (r, rel) = ticket_a.resolve::<u8, ()>(Status::Ready(9));
    assert_eq!(r, Status::Ready(9));
    assert_eq!(rel, Release::Freed { prev: 1, wake: true });
    assert!(!ticket_a.held());
    // A resolved ticket releases nothing more.
    assert_eq!(ticket_a.abandon(), Release::Idle);
    let (r, _) = ticket_a.resolve::<u8, ()>(Status::Ready(9));
    assert_eq!(r, Status::Failed(Error::NoCapacity));

    assert_eq!(b.poll_ready(), Readiness::Reserved);
}

#[test]
fn admission_error_and_abandon_free_one_slot_each() {
    let mut limit = InFlightLimit::new((), 2);
    let mut t1 = limit.call();
    let mut t2 = limit.call();
    let mut t3 = limit.call();
    assert!(t1.admitted() && t2.admitted());
    assert!(!t3.admitted());
    let (r, rel) = t1.resolve::<(), &str>(Status::Failed("inner"));
    assert_eq!(r, Status::Failed(Error::Inner("inner")));
    assert_eq!(rel, Release::Freed { prev: 2, wake: true });
    assert_eq!(t2.abandon(), Release::Freed { prev: 1, wake: false });
    assert_eq!(t2.abandon(), Release::Idle);
    assert_eq!(t3.abandon(), Release::Idle);
    assert_eq!(limit.shared().release(), Release::Idle);
    assert_eq!(limit.poll_ready(), Readiness::Reserved);
    assert!(limit.call().admitted());
    assert!(limit.call().held());
}

#[test]
fn admission_zero_never_admits() {
    let mut limit = InFlightLimit::new(0u8, 0);
    assert_eq!(limit.max(), 0);
    assert_eq!(limit.poll_ready(), Readiness::Full);
    let mut t = limit.call();
    assert!(!t.admitted());
    let (r, _) = t.resolve::<(), ()>(Status::Ready(()));
    assert_eq!(r, Status::Failed(Error::NoCapacity));
    assert_eq!(limit.into_inner(), 0);
}

#[test]
fn admission_into_inner_returns_reservation() {
    let mut limit = InFlightLimit::new(5u8, 1);
    let other = limit.fork(6u8);
    assert_eq!(limit.poll_ready(), Readiness::Reserved);
    assert_eq!(*limit.get_ref(), 5);
    *limit.get_mut() = 7;
    assert_eq!(limit.into_inner(), 7);
    let mut other = other;
    assert_eq!(other.poll_ready(), Readiness::Reserved);
}

#[test]
fn status_lift_wraps_inner_error() {
    let s: Status<u8, &str> = Status::Failed("e");
    assert_eq!(s.lift(), Status::Failed(Error::Inner("e")));
    let s: Status<u8, &str> = Status::NotReady;
    assert_eq!(s.lift(), Status::NotReady);
}

#[test]
fn release_outcome_wakes_only_from_the_bound() {
    assert_eq!(release_outcome(Ok(3), 3), Release::Freed { prev: 3, wake: true });
    assert_eq!(release_outcome(Ok(2), 3), Release::Freed { prev: 2, wake: false });
    assert_eq!(release_outcome(Err(0), 3), Release::Idle);
}

#[test]
fn rebind_builds_from_initial_value() {
    let svc = WatchService::new(&7, MakeSvc);
    assert_eq!(svc.get_ref().0, 7);
    assert!(!svc.is_closed());
}
