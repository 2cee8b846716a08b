//! The event-loop state machine: which control decision each dispatched
//! event produces, and when the loop terminates.

use vstd::prelude::*;

verus! {

/// The dispatch loop's state. It starts out `NotStarted`, enters `Running`
/// on loop entry, and moves to `Exiting` when a window-close request is
/// observed; `Exiting` is terminal and returns control to the caller of the
/// materializing operation.
#[derive(Clone, Copy, PartialEq, Eq, Structural, Debug)]
pub enum LoopState {
    NotStarted,
    Running,
    Exiting,
}

/// A dispatched window or system event, reduced to what the loop's control
/// decision depends on: the first-tick initialization event, a window-close
/// request, or anything else (all other event kinds are observed but ignored
/// by this core).
#[derive(Clone, Copy, PartialEq, Eq, Structural, Debug)]
pub enum LoopEvent {
    InitTick,
    CloseRequested,
    Other,
}

/// The control decision an iteration hands back to the dispatch loop:
/// block waiting for the next event, or terminate the loop.
#[derive(Clone, Copy, PartialEq, Eq, Structural, Debug)]
pub enum ControlDecision {
    Wait,
    Exit,
}

/// One iteration of the dispatch loop: a close request moves the loop to
/// `Exiting` and terminates it; every other event leaves the loop running
/// and waiting for the next event. A loop already `Exiting` stays so.
pub open spec fn step_spec(s: LoopState, e: LoopEvent) -> (LoopState, ControlDecision) {
    if e is CloseRequested || s is Exiting {
        (LoopState::Exiting, ControlDecision::Exit)
    } else {
        (LoopState::Running, ControlDecision::Wait)
    }
}

/// The dispatch-loop runner, owned by exactly one materialized window and
/// passed by exclusive ownership into whatever drives the native loop.
pub struct LoopRunner {
    pub state: LoopState,
}

impl LoopRunner {
    /// A runner whose loop has not been entered yet.
    pub fn new() -> (r: Self)
        ensures
            r.state is NotStarted,
    {
        LoopRunner { state: LoopState::NotStarted }
    }

    /// Dispatches one event and returns the control decision for this
    /// iteration, exactly as `step_spec` describes.
    pub fn step(&mut self, event: LoopEvent) -> (d: ControlDecision)
        ensures
            (final(self).state, d) == step_spec(old(self).state, event),
    {
        match event {
            LoopEvent::CloseRequested => {
                self.state = LoopState::Exiting;
                ControlDecision::Exit
            },
            _ => {
                if self.state == LoopState::Exiting {
                    ControlDecision::Exit
                } else {
                    self.state = LoopState::Running;
                    ControlDecision::Wait
                }
            },
        }
    }

    /// Dispatches the given events in order until one of them terminates the
    /// loop. Returns the index of the terminating event: the first close
    /// request, if there is one; the events before it leave the loop running.
    /// With no close request among the events the whole sequence is consumed
    /// and the loop is still live (a real dispatch loop would keep waiting).
    pub fn drive(&mut self, events: &Vec<LoopEvent>) -> (r: Option<usize>)
        requires
            old(self).state is NotStarted,
        ensures
            match r {
                Some(i) => {
                    &&& i < events@.len()
                    &&& events@[i as int] is CloseRequested
                    &&& forall|j: int| 0 <= j < i ==> !(events@[j] is CloseRequested)
                    &&& final(self).state is Exiting
                },
                None => {
                    &&& forall|j: int| 0 <= j < events@.len() ==> !(events@[j] is CloseRequested)
                    &&& final(self).state == (if events@.len() == 0 {
                        LoopState::NotStarted
                    } else {
                        LoopState::Running
                    })
                },
            },
    {
        let mut i: usize = 0;
        while i < events.len()
            invariant
                i <= events@.len(),
                forall|j: int| 0 <= j < i ==> !(events@[j] is CloseRequested),
                self.state == (if i == 0 {
                    LoopState::NotStarted
                } else {
                    LoopState::Running
                }),
            decreases events@.len() - i,
        {
            let d = self.step(events[i]);
            match d {
                ControlDecision::Exit => {
                    return Some(i);
                },
                ControlDecision::Wait => {},
            }
            i = i + 1;
        }
        None
    }
}

} // verus!
