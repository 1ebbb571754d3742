use tantraos::el0::{el0_entry_step, poll_code, yield_now, El0Step, PollOutcome, YieldFuture};
use tantraos::thread::{self, Key, LazyKey};
use tantraos::time::Duration;

#[test]
fn thread_stubs() {
    let t = thread::current();
    assert_eq!(t.id(), 1);
    assert_eq!(thread::available_parallelism().ok(), Some(1));
    thread::yield_now();
    thread::sleep(Duration::from_nanos(10));
    thread::park();
    thread::park_timeout(Duration::from_nanos(10));
    thread::unpark(&t);
    thread::exit();
}

#[test]
fn keys_hold_nothing() {
    let k = Key::new();
    k.set(0x1234);
    assert_eq!(k.get(), 0);
    thread::set(&k, 0x99);
    assert_eq!(thread::get(&k), 0);
    k.destroy();
    assert_eq!(LazyKey::new().get(), 0);
}

#[test]
fn yield_future_pends_once() {
    let mut f = yield_now();
    assert_eq!(f.poll(), PollOutcome::Pending { wake: true });
    assert_eq!(f.poll(), PollOutcome::Ready);
    assert_eq!(f.poll(), PollOutcome::Ready);
    let mut g = YieldFuture::new();
    assert_eq!(g.poll(), PollOutcome::Pending { wake: true });
}

#[test]
fn entry_loop_steps() {
    assert_eq!(poll_code(PollOutcome::Ready), 1);
    assert_eq!(poll_code(PollOutcome::Pending { wake: false }), 0);
    assert_eq!(el0_entry_step(0), El0Step::Yield);
    assert_eq!(el0_entry_step(1), El0Step::Return { value: 1 });
    assert_eq!(el0_entry_step(255), El0Step::Return { value: 255 });
    assert_eq!(el0_entry_step(poll_code(PollOutcome::Ready)), El0Step::Return { value: 1 });
}
