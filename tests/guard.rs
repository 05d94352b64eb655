use img_utils::guard::{ExecutionGuard, GuardPoll, POLL_INTERVAL_MS};

#[test]
fn new_guard_is_free() {
    assert!(!ExecutionGuard::new().is_busy());
}

#[test]
fn claim_then_claim_again_fails() {
    let mut g = ExecutionGuard::new();
    assert!(g.try_claim());
    assert!(g.is_busy());
    assert!(!g.try_claim());
    assert!(g.is_busy());
}

#[test]
fn poll_waits_one_interval_while_busy() {
    let mut g = ExecutionGuard::new();
    assert_eq!(g.poll(), GuardPoll::Claimed);
    assert_eq!(g.poll(), GuardPoll::Wait(100));
    assert_eq!(POLL_INTERVAL_MS, 100);
}

/// Eight units of work submitted at once, each holding the guard for a few
/// rounds; in every round each unit either polls or, holding, works.
#[test]
fn concurrent_units_never_overlap() {
    let mut g = ExecutionGuard::new();
    let n = 8;
    let work_rounds = [3, 1, 4, 1, 5, 9, 2, 6];
    let mut left: Vec<Option<u32>> = vec![None; n];
    let mut finished = vec![false; n];
    let mut calls: Vec<usize> = Vec::new();
    let mut round = 0;
    while finished.iter().any(|f| !f) {
        round += 1;
        assert!(round < 1000);
        for unit in (0..n).rev() {
            if finished[unit] {
                continue;
            }
            match left[unit] {
                None => {
                    if g.poll() == GuardPoll::Claimed {
                        left[unit] = Some(work_rounds[unit]);
                        calls.push(unit);
                    }
                }
                Some(1) => {
                    g.release();
                    left[unit] = None;
                    finished[unit] = true;
                }
                Some(k) => left[unit] = Some(k - 1),
            }
            let holders = left.iter().filter(|l| l.is_some()).count();
            assert!(holders <= 1);
            assert_eq!(g.is_busy(), holders == 1);
        }
    }
    let mut sorted = calls.clone();
    sorted.sort();
    assert_eq!(sorted, (0..n).collect::<Vec<_>>());
}

fn faulty_call() -> Result<(), String> {
    Err(String::from("native fault"))
}

fn good_call() -> Result<(), String> {
    Ok(())
}

#[test]
fn fault_releases_guard_for_next_operation() {
    let mut g = ExecutionGuard::new();
    assert_eq!(g.poll(), GuardPoll::Claimed);
    let outcome = faulty_call();
    g.release();
    assert!(outcome.is_err());
    assert!(!g.is_busy());
    assert_eq!(g.poll(), GuardPoll::Claimed);
    assert!(good_call().is_ok());
    g.release();
    assert!(!g.is_busy());
}
