use std::sync::{Arc, Mutex};
use std::time::Duration;

use loadgen::budget::{CallBudget, Grant};
use loadgen::dispatch::{begin_request, simulate_dispatch, DispatchLoop, DispatchState, WaveAction};
use loadgen::errors::LoadGenError;
use loadgen::signal::ExhaustionSignal;

#[test]
fn budget_grants_exactly_total() {
    let mut b = CallBudget::new(3);
    let mut granted = 0;
    for _ in 0..10 {
        if b.try_acquire() == Grant::Granted {
            granted += 1;
        }
    }
    assert_eq!(granted, 3);
    assert!(b.is_exhausted());
    assert_eq!(b.granted(), 3);
    assert_eq!(b.remaining(), 0);
    assert_eq!(b.total(), 3);
}

#[test]
fn empty_budget_denies() {
    let mut b = CallBudget::new(0);
    assert_eq!(b.try_acquire(), Grant::Denied);
    assert_eq!(b.remaining(), 0);
}

#[test]
fn full_run_grants_total_for_any_rate() {
    for rate in [1u32, 2, 3, 7, 100, 1000] {
        for total in [1u32, 2, 10, 99, 100, 101, 1000] {
            assert_eq!(simulate_dispatch(rate, total).unwrap(), total);
        }
    }
}

#[test]
fn zero_rate_is_a_configuration_error() {
    assert!(matches!(simulate_dispatch(0, 10), Err(LoadGenError::ZeroRateError)));
    assert!(matches!(DispatchLoop::new(0), Err(LoadGenError::ZeroRateError)));
}

#[test]
fn loop_launches_waves_until_exhaustion() {
    let mut lp = DispatchLoop::new(5).unwrap();
    assert_eq!(lp.rate(), 5);
    assert_eq!(lp.state(), DispatchState::Running);
    assert_eq!(lp.step(false), WaveAction::Launch(5));
    assert_eq!(lp.step(false), WaveAction::Launch(5));
    assert_eq!(lp.step(true), WaveAction::Halt);
    assert_eq!(lp.state(), DispatchState::Draining);
    lp.stop();
    assert_eq!(lp.state(), DispatchState::Stopped);
}

#[test]
fn repeated_exhaustion_signal_is_harmless() {
    let mut sig = ExhaustionSignal::new();
    assert!(!sig.is_delivered());
    assert!(sig.deliver());
    assert!(!sig.deliver());
    assert!(!sig.deliver());
    assert!(sig.is_delivered());
    let mut lp = DispatchLoop::new(2).unwrap();
    assert_eq!(lp.step(sig.is_delivered()), WaveAction::Halt);
    assert_eq!(lp.step(sig.is_delivered()), WaveAction::Halt);
    assert_eq!(lp.state(), DispatchState::Draining);
    lp.stop();
    assert_eq!(lp.step(true), WaveAction::Halt);
    assert_eq!(lp.step(false), WaveAction::Halt);
    assert_eq!(lp.state(), DispatchState::Stopped);
}

#[test]
fn denied_request_delivers_signal() {
    let mut b = CallBudget::new(1);
    let mut sig = ExhaustionSignal::new();
    assert_eq!(begin_request(&mut b, &mut sig), Grant::Granted);
    assert!(!sig.is_delivered());
    assert_eq!(begin_request(&mut b, &mut sig), Grant::Denied);
    assert!(sig.is_delivered());
    assert_eq!(begin_request(&mut b, &mut sig), Grant::Denied);
    assert!(sig.is_delivered());
}

fn stress_run(total: u32, rate: u32) -> u32 {
    let rt = tokio::runtime::Builder::new_multi_thread()
        .worker_threads(8)
        .enable_time()
        .build()
        .unwrap();
    rt.block_on(async move {
        let budget = Arc::new(Mutex::new(CallBudget::new(total)));
        let signal = Arc::new(Mutex::new(ExhaustionSignal::new()));
        let granted = Arc::new(Mutex::new(0u32));
        let mut lp = DispatchLoop::new(rate).unwrap();
        let mut handles = Vec::new();
        let mut wave: u64 = 0;
        loop {
            let exhausted = signal.lock().unwrap().is_delivered();
            match lp.step(exhausted) {
                WaveAction::Halt => break,
                WaveAction::Launch(n) => {
                    for k in 0..n {
                        let budget = Arc::clone(&budget);
                        let signal = Arc::clone(&signal);
                        let granted = Arc::clone(&granted);
                        let jitter = (wave * 7 + k as u64 * 13) % 5;
                        handles.push(tokio::spawn(async move {
                            tokio::time::sleep(Duration::from_millis(jitter)).await;
                            let g = {
                                let mut b = budget.lock().unwrap();
                                let mut s = signal.lock().unwrap();
                                begin_request(&mut b, &mut s)
                            };
                            if g == Grant::Granted {
                                tokio::time::sleep(Duration::from_millis(jitter)).await;
                                *granted.lock().unwrap() += 1;
                            }
                        }));
                    }
                    tokio::time::sleep(Duration::from_millis(2)).await;
                    wave += 1;
                }
            }
        }
        lp.stop();
        for h in handles {
            h.await.unwrap();
        }
        let n = *granted.lock().unwrap();
        n
    })
}

#[test]
fn concurrent_dispatch_grants_exactly_total() {
    for _ in 0..3 {
        assert_eq!(stress_run(1000, 100), 1000);
    }
}
