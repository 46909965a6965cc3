use vstd::prelude::*;

use crate::input::Reaction;
use crate::Pager;

verus! {

/// The failures that end a pager.
#[derive(Copy, Clone, Debug, PartialEq, Eq, Structural)]
pub enum PagerError {
    TerminalSetupFailed,
    LockInconsistent,
    ProducerTaskFailed,
}

/// The phase of the dynamic loop.
#[derive(Copy, Clone, Debug, PartialEq, Eq, Structural)]
pub enum LoopPhase {
    Running,
    Searching,
    Terminating,
}

/// Where the producer's task stands.
#[derive(Copy, Clone, Debug, PartialEq, Eq, Structural)]
pub enum ProducerState {
    Working,
    Finished,
    Failed,
}

/// What the loop reports back after doing its work.
#[derive(Copy, Clone, Debug, PartialEq, Eq, Structural)]
pub enum LoopEvent {
    /// An input event was applied; `capturing` tells whether a pattern is
    /// being typed afterwards.
    Reacted { reaction: Reaction, capturing: bool },
    /// Content changed, or the wait for input timed out.
    Tick,
    /// Cancellation was requested from the producer.
    CancelSent,
    /// The producer's task ended; `ok` is false when it ended abnormally.
    ProducerEnded { ok: bool },
    /// The shared state could not be locked.
    LockLost,
}

/// What the loop does next.
#[derive(Copy, Clone, Debug, PartialEq, Eq, Structural)]
pub enum LoopStep {
    /// Read the state, draw the window, wait for input or an update.
    Draw,
    /// Ask the producer to stop.
    RequestCancel,
    /// Wait for the producer's task to end.
    AwaitProducer,
    /// Leave the loop: all went well.
    Finish,
    /// Leave the loop and report this failure.
    Fail(PagerError),
}

/// The decisions of the dynamic loop.
#[derive(Copy, Clone, Debug, PartialEq, Eq, Structural)]
pub struct LoopControl {
    pub phase: LoopPhase,
    pub cancel_sent: bool,
    pub producer: ProducerState,
    pub lock_lost: bool,
}

/// The control after event `ev`.
pub open spec fn advance_spec(c: LoopControl, ev: LoopEvent) -> LoopControl {
    match ev {
        LoopEvent::Reacted { reaction, capturing } => {
            if c.phase == LoopPhase::Terminating {
                c
            } else if reaction == Reaction::Quit {
                LoopControl { phase: LoopPhase::Terminating, ..c }
            } else if capturing {
                LoopControl { phase: LoopPhase::Searching, ..c }
            } else {
                LoopControl { phase: LoopPhase::Running, ..c }
            }
        },
        LoopEvent::Tick => c,
        LoopEvent::CancelSent => LoopControl { cancel_sent: true, ..c },
        LoopEvent::ProducerEnded { ok } => LoopControl {
            producer: if ok { ProducerState::Finished } else { ProducerState::Failed },
            ..c
        },
        LoopEvent::LockLost => LoopControl { phase: LoopPhase::Terminating, lock_lost: true, ..c },
    }
}

/// The step that control `c` calls for. While running, draw. Once
/// terminating: request cancellation of a working producer, then wait for it,
/// then finish, with the first failure seen.
pub open spec fn step_spec(c: LoopControl) -> LoopStep {
    if c.phase != LoopPhase::Terminating {
        LoopStep::Draw
    } else if c.producer == ProducerState::Working {
        if c.cancel_sent {
            LoopStep::AwaitProducer
        } else {
            LoopStep::RequestCancel
        }
    } else if c.lock_lost {
        LoopStep::Fail(PagerError::LockInconsistent)
    } else if c.producer == ProducerState::Failed {
        LoopStep::Fail(PagerError::ProducerTaskFailed)
    } else {
        LoopStep::Finish
    }
}

impl LoopControl {
    /// A loop that has just started, with its producer at work.
    pub fn new() -> (r: LoopControl)
        ensures
            r == (LoopControl {
                phase: LoopPhase::Running,
                cancel_sent: false,
                producer: ProducerState::Working,
                lock_lost: false,
            }),
    {
        LoopControl {
            phase: LoopPhase::Running,
            cancel_sent: false,
            producer: ProducerState::Working,
            lock_lost: false,
        }
    }

    /// Takes event `ev` into account.
    pub fn advance(&mut self, ev: LoopEvent)
        ensures
            *final(self) == advance_spec(*old(self), ev),
    {
        match ev {
            LoopEvent::Reacted { reaction, capturing } => {
                if self.phase != LoopPhase::Terminating {
                    self.phase = if reaction == Reaction::Quit {
                        LoopPhase::Terminating
                    } else if capturing {
                        LoopPhase::Searching
                    } else {
                        LoopPhase::Running
                    };
                }
            },
            LoopEvent::Tick => {},
            LoopEvent::CancelSent => {
                self.cancel_sent = true;
            },
            LoopEvent::ProducerEnded { ok } => {
                self.producer = if ok { ProducerState::Finished } else { ProducerState::Failed };
            },
            LoopEvent::LockLost => {
                self.phase = LoopPhase::Terminating;
                self.lock_lost = true;
            },
        }
    }

    /// The step to take next.
    pub fn next_step(&self) -> (r: LoopStep)
        ensures
            r == step_spec(*self),
    {
        if self.phase != LoopPhase::Terminating {
            LoopStep::Draw
        } else if self.producer == ProducerState::Working {
            if self.cancel_sent {
                LoopStep::AwaitProducer
            } else {
                LoopStep::RequestCancel
            }
        } else if self.lock_lost {
            LoopStep::Fail(PagerError::LockInconsistent)
        } else if self.producer == ProducerState::Failed {
            LoopStep::Fail(PagerError::ProducerTaskFailed)
        } else {
            LoopStep::Finish
        }
    }
}

/// Once quit is applied, the loop asks the producer to stop, waits for its
/// task, and finishes as soon as the task has ended: it never draws again and
/// never finishes while the producer still works.
pub proof fn lemma_quit_shuts_down(c: LoopControl, capturing: bool, ok: bool)
    requires
        c.producer == ProducerState::Working,
        !c.cancel_sent,
        !c.lock_lost,
    ensures
        ({
            let c1 = advance_spec(c, LoopEvent::Reacted { reaction: Reaction::Quit, capturing });
            let c2 = advance_spec(c1, LoopEvent::CancelSent);
            let c3 = advance_spec(c2, LoopEvent::ProducerEnded { ok });
            &&& step_spec(c1) == LoopStep::RequestCancel
            &&& step_spec(c2) == LoopStep::AwaitProducer
            &&& step_spec(advance_spec(c2, LoopEvent::Tick)) == LoopStep::AwaitProducer
            &&& step_spec(c3) == (if ok { LoopStep::Finish } else { LoopStep::Fail(PagerError::ProducerTaskFailed) })
        }),
{
}

/// A terminating loop never draws again, whatever happens.
pub proof fn lemma_terminating_stays(c: LoopControl, ev: LoopEvent)
    requires
        c.phase == LoopPhase::Terminating,
    ensures
        advance_spec(c, ev).phase == LoopPhase::Terminating,
        step_spec(advance_spec(c, ev)) != LoopStep::Draw,
{
}

/// How a static pager proceeds.
#[derive(Copy, Clone, Debug, PartialEq, Eq, Structural)]
pub enum StaticPlan {
    /// The text fits: print it once and return.
    RenderOnce,
    /// Enter the input loop, with input polling as the only wait.
    Interactive,
}

impl Pager {
    /// A static pager whose lines all fit in the viewport is printed once;
    /// any other enters the input loop.
    pub fn static_plan(&self) -> (r: StaticPlan)
        ensures
            r == (if self.total() <= self.height() { StaticPlan::RenderOnce } else { StaticPlan::Interactive }),
    {
        if self.line_count() <= self.rows() {
            StaticPlan::RenderOnce
        } else {
            StaticPlan::Interactive
        }
    }
}

} // verus!
