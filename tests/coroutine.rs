use coroutine::coroutine::{
    failure_message, Coroutine, Error, Failure, Options, State, Suspension, Transfer,
};
use coroutine::stack::{StackPool, DEFAULT_STACK_SIZE};

fn named(pool: &mut StackPool, name: &str) -> Coroutine<i32> {
    Coroutine::spawn_opts(Options { name: Some(name.to_string()), stack_size: 4096 }, pool)
}

#[test]
fn generator_yields_in_order_then_fails_for_good() {
    let mut pool = StackPool::new();
    let mut co: Coroutine<i32> = Coroutine::spawn(&mut pool);
    assert_eq!(co.state(), State::Created);
    let n = 5;
    let mut got = Vec::new();
    for k in 0..n {
        assert!(matches!(co.resume(), Transfer::Enter(None)));
        assert_eq!(co.state(), State::Running);
        got.push(co.suspend(co.yield_with(k)).0.unwrap().unwrap());
    }
    assert_eq!(got, vec![0, 1, 2, 3, 4]);
    assert!(matches!(co.resume(), Transfer::Enter(None)));
    let (r, d) = co.suspend(Suspension::Returned);
    assert!(matches!(r, Ok(None)));
    assert!(d.is_none());
    assert!(co.is_finished());
    for _ in 0..3 {
        assert!(matches!(co.resume(), Transfer::Done(Err(Error::Panicked))));
        assert!(matches!(co.resume_with(1), Transfer::Done(Err(Error::Panicked))));
        assert_eq!(co.state(), State::Finished);
    }
}

#[test]
fn composite_payloads_cross_unchanged() {
    let mut pool = StackPool::new();
    let mut co: Coroutine<(i64, String)> = Coroutine::spawn(&mut pool);
    match co.resume_with((-7, "mlem".to_string())) {
        Transfer::Enter(Some(v)) => assert_eq!(v, (-7, "mlem".to_string())),
        _ => panic!("the body must be entered with the value sent"),
    }
    let (r, _) = co.suspend(Suspension::Yielded((1337, "back".to_string())));
    assert_eq!(r.unwrap(), Some((1337, "back".to_string())));
}

#[test]
fn failure_is_captured_and_logged_once() {
    let mut pool = StackPool::new();
    let mut co = named(&mut pool, "worker");
    assert_eq!(co.name(), Some("worker"));
    co.resume_with(1);
    let (r, d) = co.suspend(Suspension::Failed(Failure::Owned("bad input".to_string())));
    assert!(matches!(r, Err(Error::Panicked)));
    let d = d.unwrap();
    assert_eq!(d.name, "worker");
    assert_eq!(d.message, "bad input");
    assert!(co.is_finished());
    assert!(matches!(co.resume(), Transfer::Done(Err(Error::Panicked))));
}

#[test]
fn opaque_failure_uses_fallback_message() {
    let mut pool = StackPool::new();
    let mut co: Coroutine<i32> = Coroutine::spawn(&mut pool);
    assert_eq!(co.name(), None);
    co.resume();
    let (r, d) = co.suspend(Suspension::Failed(Failure::Opaque));
    assert!(matches!(r, Err(Error::Panicked)));
    let d = d.unwrap();
    assert_eq!(d.name, "<unnamed>");
    assert_eq!(d.message, "Box<Any>");
}

#[test]
fn forced_unwind_is_not_an_error() {
    let mut pool = StackPool::new();
    let mut co = named(&mut pool, "quiet");
    co.resume();
    let (r, d) = co.suspend(Suspension::Failed(Failure::ForceUnwind));
    assert!(matches!(r, Ok(None)));
    assert!(d.is_none());
    assert!(co.is_finished());
}

#[test]
fn failure_messages() {
    assert_eq!(failure_message(&Failure::Owned("a".to_string())), Some("a".to_string()));
    assert_eq!(failure_message(&Failure::Borrowed("b")), Some("b".to_string()));
    assert_eq!(failure_message(&Failure::Opaque), Some("Box<Any>".to_string()));
    assert_eq!(failure_message(&Failure::ForceUnwind), None);
}

#[test]
fn default_options() {
    let o = Options::default();
    assert!(o.name.is_none());
    assert_eq!(o.stack_size, DEFAULT_STACK_SIZE);
}

#[test]
fn spawn_takes_stack_of_requested_size_and_release_returns_it() {
    let mut pool = StackPool::new();
    let co = named(&mut pool, "a");
    assert_eq!(co.stack().size(), 4096);
    assert_eq!(pool.allocations(), 1);
    assert_eq!(pool.idle(), 0);
    assert!(!co.needs_unwind());
    assert!(!co.release(&mut pool));
    assert_eq!(pool.idle(), 1);
    let mut co = named(&mut pool, "b");
    assert_eq!(pool.allocations(), 1);
    co.resume();
    assert!(co.needs_unwind());
    assert!(co.release(&mut pool));
    let mut co = named(&mut pool, "c");
    co.resume();
    co.suspend(Suspension::Returned);
    assert!(!co.needs_unwind());
    assert!(!co.release(&mut pool));
    assert_eq!(pool.idle(), 1);
    assert_eq!(pool.allocations(), 1);
}
