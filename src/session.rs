//! The decisions of a task that drives a shared handle: after each device
//! operation it polls its control channel without blocking, and a closed
//! channel ends it.
use vstd::prelude::*;
use crate::error::{Error, ErrorKind};

verus! {

/// What a non-blocking poll of the control channel found.
#[derive(PartialEq, Eq, Structural, Clone, Copy, Debug)]
pub enum ControlSignal {
    /// Nothing was sent.
    Idle,
    /// The controller asked for the task's service (for instance, to
    /// discard the input buffer).
    Request,
    /// The controller is gone: the task must stop.
    Closed,
}

/// What the task does next.
#[derive(PartialEq, Eq, Structural, Clone, Copy, Debug)]
pub enum Step {
    /// Go round again.
    Continue,
    /// Hand on the `n` bytes just read, then go round again.
    Deliver(usize),
    /// Hand on the `n` bytes just read (there may be none), perform the
    /// requested service, then go round again.
    Serve(usize),
    /// Stop, issuing no further device operation.
    Stop,
    /// Stop and report the error: retrying would not mend it.
    Fail,
}

/// The step after a device operation that gave `outcome` and a poll that
/// found `signal`. A closed channel stops the task whatever the operation
/// gave; a timeout is routine and only goes round again; any other error
/// ends the task.
pub open spec fn step_for(outcome: Result<usize, ErrorKind>, signal: ControlSignal) -> Step {
    if signal == ControlSignal::Closed {
        Step::Stop
    } else {
        match outcome {
            Err(k) => if k == ErrorKind::Timeout {
                if signal == ControlSignal::Request {
                    Step::Serve(0)
                } else {
                    Step::Continue
                }
            } else {
                Step::Fail
            },
            Ok(n) => if signal == ControlSignal::Request {
                Step::Serve(n)
            } else if n == 0 {
                Step::Continue
            } else {
                Step::Deliver(n)
            },
        }
    }
}

/// The kind of an operation's outcome, with its count on success.
pub open spec fn outcome_kind(outcome: Result<usize, Error>) -> Result<usize, ErrorKind> {
    match outcome {
        Ok(n) => Ok(n),
        Err(e) => Err(e.kind),
    }
}

/// Decides the next step of a task driving a shared handle.
pub fn next_step(outcome: &Result<usize, Error>, signal: ControlSignal) -> (r: Step)
    ensures
        r == step_for(outcome_kind(*outcome), signal),
        signal == ControlSignal::Closed ==> r == Step::Stop,
        (r is Deliver) ==> outcome is Ok && r->Deliver_0 == outcome->Ok_0 && outcome->Ok_0 > 0,
        (r is Serve && outcome is Ok) ==> r->Serve_0 == outcome->Ok_0,
        (r is Serve && outcome is Err) ==> r->Serve_0 == 0,
{
    if signal == ControlSignal::Closed {
        return Step::Stop;
    }
    match outcome {
        Err(e) => {
            if e.kind == ErrorKind::Timeout {
                if signal == ControlSignal::Request {
                    Step::Serve(0)
                } else {
                    Step::Continue
                }
            } else {
                Step::Fail
            }
        },
        Ok(n) => {
            if signal == ControlSignal::Request {
                Step::Serve(*n)
            } else if *n == 0 {
                Step::Continue
            } else {
                Step::Deliver(*n)
            }
        },
    }
}

} // verus!
