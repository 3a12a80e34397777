use std::sync::atomic::{AtomicUsize, Ordering};
use std::sync::Arc;
use std::time::{Duration, Instant};

use anisette_bridge::{Bridge, BridgePoll, Headers, Pool};

fn stub_headers() -> Headers {
    let mut h = Headers::new();
    h.insert(String::from("X-Test"), String::from("1"));
    h
}

fn busy_wait(d: Duration) {
    let start = Instant::now();
    while start.elapsed() < d {}
}

/// Drives every bridge to completion, polling round-robin, and returns the
/// reports in order. Panics rather than spinning forever.
fn drive_all<F>(bridges: &mut Vec<Bridge>, make_work: F) -> Vec<BridgePoll>
where
    F: Fn(usize) -> Box<dyn FnOnce() -> Result<Headers, String> + Send + 'static>,
{
    let deadline = Instant::now() + Duration::from_secs(15);
    let mut reports: Vec<Option<BridgePoll>> = Vec::new();
    for _ in 0..bridges.len() {
        reports.push(None);
    }
    while reports.iter().any(|r| r.is_none()) {
        assert!(Instant::now() < deadline, "a bridge never completed");
        for (i, bridge) in bridges.iter_mut().enumerate() {
            if reports[i].is_none() {
                match bridge.poll(make_work(i), || ()) {
                    BridgePoll::Pending => {}
                    done => reports[i] = Some(done),
                }
            }
        }
        busy_wait(Duration::from_millis(1));
    }
    reports.into_iter().map(|r| r.unwrap()).collect()
}

#[test]
fn five_requests_on_a_pool_of_two_all_succeed() {
    let pool = Pool::new(2).unwrap();
    let calls = Arc::new(AtomicUsize::new(0));
    let mut bridges: Vec<Bridge> = (0..5).map(|_| Bridge::new(&pool)).collect();
    let counter = Arc::clone(&calls);
    let reports = drive_all(&mut bridges, move |_| {
        let c = Arc::clone(&counter);
        Box::new(move || {
            c.fetch_add(1, Ordering::SeqCst);
            Ok(stub_headers())
        })
    });
    assert_eq!(reports.len(), 5);
    for report in reports {
        match report {
            BridgePoll::Ready(h) => {
                assert!(h.len() >= 1);
                assert_eq!(h.get(&String::from("X-Test")), Some(&String::from("1")));
            }
            _ => panic!("every request must succeed"),
        }
    }
    busy_wait(Duration::from_millis(20));
    assert_eq!(calls.load(Ordering::SeqCst), 5);
}

#[test]
fn stress_more_tasks_than_workers() {
    // k tasks of short pseudo-random durations on a pool of n < k workers:
    // all complete, each exactly once, and the wall clock shows at most n
    // of them ran concurrently
    let n: usize = 3;
    let k: usize = 9;
    let min_task = Duration::from_millis(10);
    let pool = Pool::new(n).unwrap();
    let calls = Arc::new(AtomicUsize::new(0));
    let mut bridges: Vec<Bridge> = (0..k).map(|_| Bridge::new(&pool)).collect();

    let started = Instant::now();
    let counter = Arc::clone(&calls);
    let reports = drive_all(&mut bridges, move |i| {
        let c = Arc::clone(&counter);
        // a small linear-congruential draw, different per task
        let extra = (i.wrapping_mul(1103515245).wrapping_add(12345) >> 4) % 20;
        Box::new(move || {
            busy_wait(min_task + Duration::from_millis(extra as u64));
            c.fetch_add(1, Ordering::SeqCst);
            Ok(stub_headers())
        })
    });
    let elapsed = started.elapsed();

    assert!(reports.iter().all(|r| matches!(r, BridgePoll::Ready(_))));
    busy_wait(Duration::from_millis(20));
    assert_eq!(calls.load(Ordering::SeqCst), k);
    let rounds = (k + n - 1) / n;
    assert!(
        elapsed >= min_task * rounds as u32,
        "{} tasks of at least {:?} on {} workers finished in {:?}",
        k,
        min_task,
        n,
        elapsed
    );
}

#[test]
fn single_worker_serializes_three_sleeps() {
    let pool = Pool::new(1).unwrap();
    let mut bridges: Vec<Bridge> = (0..3).map(|_| Bridge::new(&pool)).collect();
    let started = Instant::now();
    let reports = drive_all(&mut bridges, |_| {
        Box::new(|| {
            busy_wait(Duration::from_millis(50));
            Ok(stub_headers())
        })
    });
    let elapsed = started.elapsed();
    assert!(reports.iter().all(|r| matches!(r, BridgePoll::Ready(_))));
    assert!(
        elapsed >= Duration::from_millis(150),
        "three 50ms tasks on one worker took only {:?}",
        elapsed
    );
    assert!(
        elapsed < Duration::from_millis(250),
        "three 50ms tasks on one worker took {:?}",
        elapsed
    );
}
