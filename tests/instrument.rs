use midoku_cli::{instrument, printit, timeit};
use std::cell::RefCell;
use std::time::{Duration, Instant};

fn halve(x: u32) -> Result<u32, String> {
    if x % 2 == 0 {
        Ok(x / 2)
    } else {
        Err(format!("{} is odd", x))
    }
}

#[test]
fn timeit_returns_the_result_and_reports_the_name() {
    let reported = RefCell::new(Vec::new());
    let r = timeit("halve", halve, 8, |name: &str, _elapsed: Duration| {
        reported.borrow_mut().push(name.to_string())
    });
    assert_eq!(r, Ok(4));
    assert_eq!(*reported.borrow(), vec!["halve".to_string()]);
}

#[test]
fn timeit_reports_on_failure_too() {
    let reported = RefCell::new(0u32);
    let r = timeit("halve", halve, 7, |_name: &str, _elapsed: Duration| {
        *reported.borrow_mut() += 1
    });
    assert_eq!(r, Err("7 is odd".to_string()));
    assert_eq!(*reported.borrow(), 1);
}

#[test]
fn timeit_measures_the_call() {
    let measured = RefCell::new(Duration::ZERO);
    let slow = |ms: u64| {
        let start = Instant::now();
        while start.elapsed() < Duration::from_millis(ms) {}
        ms
    };
    let r = timeit("slow", slow, 20, |_name: &str, elapsed: Duration| {
        *measured.borrow_mut() = elapsed
    });
    assert_eq!(r, 20);
    assert!(*measured.borrow() >= Duration::from_millis(20));
}

#[test]
fn printit_shows_only_success() {
    let shown = RefCell::new(Vec::new());
    let r = printit(halve, 10, |v: &u32| shown.borrow_mut().push(*v));
    assert_eq!(r, Ok(5));
    let r = printit(halve, 3, |v: &u32| shown.borrow_mut().push(*v));
    assert_eq!(r, Err("3 is odd".to_string()));
    assert_eq!(*shown.borrow(), vec![5]);
}

#[test]
fn instrument_is_transparent() {
    for x in 0..10u32 {
        let r = instrument("halve", halve, x, |_: &str, _: Duration| {}, |_: &u32| {});
        assert_eq!(r, halve(x));
    }
}

#[test]
fn instrument_reports_time_then_value() {
    let events = RefCell::new(Vec::new());
    let r = instrument(
        "halve",
        halve,
        12,
        |name: &str, _: Duration| events.borrow_mut().push(format!("time {}", name)),
        |v: &u32| events.borrow_mut().push(format!("value {}", v)),
    );
    assert_eq!(r, Ok(6));
    assert_eq!(
        *events.borrow(),
        vec!["time halve".to_string(), "value 6".to_string()]
    );
}

#[test]
fn instrument_reports_only_time_on_failure() {
    let events = RefCell::new(Vec::new());
    let r = instrument(
        "halve",
        halve,
        5,
        |name: &str, _: Duration| events.borrow_mut().push(format!("time {}", name)),
        |v: &u32| events.borrow_mut().push(format!("value {}", v)),
    );
    assert_eq!(r, Err("5 is odd".to_string()));
    assert_eq!(*events.borrow(), vec!["time halve".to_string()]);
}
