use std::sync::{Arc, Mutex};

use write_gate::clock::{Duration, Instant};
use write_gate::gates::{in_ms, soon, woken, Calls, Scripted, Switch};
use write_gate::messages::OutgoingMessages;
use write_gate::requests;
use write_gate::requests::{cancel, market_data, place};
use write_gate::write::{begin_gated, Action, FrameWrite, Pace};
use write_gate::write_gate::{
    describe, Admit, BoxedCall, Deadline, GateReason, OutgoingMeta, Waiting, WriteCall, WriteGate,
};

const NOW: Instant = Instant { nanos: 5_000_000_000 };

/// A gate that answers every write alike, counting its calls.
struct Always {
    deadline: Deadline,
    answer: Admit,
    calls: Arc<Mutex<Calls>>,
}

struct Call {
    deadline: Deadline,
    answer: Admit,
    calls: Arc<Mutex<Calls>>,
}

impl WriteGate for Always {
    fn begin(&self, _meta: &OutgoingMeta) -> BoxedCall {
        self.calls.lock().expect("not poisoned").begin();
        BoxedCall(Box::new(Call {
            deadline: self.deadline,
            answer: self.answer,
            calls: Arc::clone(&self.calls),
        }))
    }
}

impl WriteCall for Call {
    fn deadline(&self) -> Deadline {
        self.deadline
    }
    fn ask(&mut self) -> Admit {
        self.answer
    }
}

impl Drop for Call {
    fn drop(&mut self) {
        self.calls.lock().expect("not poisoned").end();
    }
}

fn counts(calls: &Mutex<Calls>) -> (usize, usize) {
    let calls = calls.lock().expect("not poisoned");
    (calls.begun(), calls.ended())
}

#[test]
fn a_gate_is_asked_under_a_lock_it_never_waits_on() {
    // A compile-time reminder of the contract: `ask` is synchronous, so the
    // writer's lock can never be held across a wait inside it.
    fn assert_sync_ask(call: &mut dyn WriteCall) -> Admit {
        call.ask()
    }
    let gate = Always { deadline: soon(NOW), answer: Admit::Write, calls: Arc::new(Mutex::new(Calls::new())) };
    let mut call = gate.begin(&describe(&place(1), None, false));
    let recorded = Mutex::new(());
    let _guard = recorded.lock().expect("not poisoned");
    assert_eq!(assert_sync_ask(call.0.as_mut()), Admit::Write);
}

#[test]
fn a_write_begins_with_one_call_and_its_deadline() {
    let calls = Arc::new(Mutex::new(Calls::new()));
    let gate: Arc<dyn WriteGate> =
        Arc::new(Always { deadline: in_ms(NOW, 300), answer: Admit::Write, calls: Arc::clone(&calls) });
    let (call, write) = begin_gated(&*gate, &describe(&place(8), None, false));
    assert_eq!(write.pace, Pace::Gated(in_ms(NOW, 300)));
    assert_eq!(write.action, Action::Look);
    assert_eq!(write.waiting, Waiting::Start);
    assert_eq!(FrameWrite::for_call(&*call.0), write);
    assert!(call.0.wakeup().is_none());
    assert_eq!(counts(&calls), (1, 0));
    drop(call);
    assert_eq!(counts(&calls), (1, 1));
}

#[test]
fn deadlines_are_told_from_now() {
    assert_eq!(soon(NOW), Deadline::At(Instant { nanos: 15_000_000_000 }));
    assert_eq!(in_ms(NOW, 20), Deadline::At(Instant { nanos: 5_020_000_000 }));
    assert_eq!(in_ms(NOW, 0), Deadline::At(NOW));
}

#[test]
fn a_switch_answers_by_message() {
    let later = Admit::Later { retry_at: Instant { nanos: 65_000_000_000 } };
    let refused = Admit::Refuse(GateReason { code: 1, text: "test" });
    let mut switch = Switch::new(true, Duration::from_secs(10));
    assert_eq!(switch.deadline(NOW), soon(NOW));
    assert_eq!(switch.ask(&describe(&requests::time(), None, false), NOW), later);
    assert_eq!(switch.ask(&describe(&place(1), None, false), NOW), refused);
    assert_eq!(switch.ask(&describe(&market_data(), None, false), NOW), refused);
    assert!(switch.has_parked(1));
    assert!(!switch.has_parked(2));
    switch.refuse = false;
    switch.hold_placements = true;
    assert_eq!(switch.ask(&describe(&place(1), None, false), NOW), later);
    assert_eq!(switch.ask(&describe(&cancel(1), None, false), NOW), Admit::Write);
    assert_eq!(switch.ask(&describe(b"", None, true), NOW), Admit::Write);
    assert!(switch.has_parked(2));
    switch.held = usize::MAX;
    assert_eq!(switch.ask(&describe(&requests::time(), None, false), NOW), later);
    assert_eq!(switch.held, 0);
}

#[test]
fn a_gate_that_wakes_opens_at_its_first_answer() {
    let later = Admit::Later { retry_at: Instant { nanos: 65_000_000_000 } };
    let mut gate = woken(true, 10_000, true);
    assert_eq!(gate.deadline(NOW), in_ms(NOW, 10_000));
    assert_eq!(gate.ask(NOW), (later, true));
    assert_eq!(gate.ask(NOW), (Admit::Write, false));
    assert_eq!(gate.asked, 2);

    let mut shut = woken(false, 400, false);
    assert_eq!(shut.ask(NOW), (later, false));
    assert_eq!(shut.ask(NOW), (later, false));
    shut.open = true;
    assert_eq!(shut.ask(NOW), (Admit::Write, false));
}

#[test]
fn a_script_counts_what_it_is_asked() {
    let mut gate = Scripted::new(
        |meta: &OutgoingMeta| match meta.message {
            Some(OutgoingMessages::CancelOrder) => in_ms(NOW, 300),
            _ => Deadline::NoWait,
        },
        |meta: &OutgoingMeta| match meta.order_id {
            Some(20) => Admit::Later { retry_at: NOW },
            _ => Admit::Write,
        },
    );
    assert_eq!(gate.deadline(&describe(&cancel(11), None, false)), in_ms(NOW, 300));
    assert_eq!(gate.deadline(&describe(&place(11), None, false)), Deadline::NoWait);
    assert_eq!(gate.ask(&describe(&place(20), None, false)), Admit::Later { retry_at: NOW });
    assert_eq!(gate.ask(&describe(&place(21), None, false)), Admit::Write);
    assert_eq!((gate.deadlines, gate.asked), (2, 2));
}
