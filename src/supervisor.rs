//! The daemon's decisions, one input at a time: what the classifier
//! makes of device events and timers, and how the device side reacts to
//! read errors, ended streams and restart requests.

use vstd::prelude::*;

use crate::backoff::{Backoff, BackoffState};
use crate::classifier::{Classifier, ClassifierState};
use crate::keys::{KeyAction, KeyCode};
use crate::proto::ProtoGesture;

verus! {

/// Something that happened to the daemon.
#[derive(Clone, Copy, Debug, PartialEq, Eq, Structural)]
pub enum Input {
    /// A key pressed or released, read from a device at `at`.
    Key { code: KeyCode, action: KeyAction, at: u64 },
    /// Any other event read from a device, auto-repeat included.
    Other,
    /// The long-press timer of `code` went off at `at`.
    Timer { code: KeyCode, at: u64 },
    /// A device stream reported an error.
    ReadError,
    /// The merged device stream ended.
    StreamEnded,
    /// The set of devices changed, or a restart was asked for.
    RestartSignal,
}

/// What the daemon does with the device side after an input.
#[derive(Clone, Copy, Debug, PartialEq, Eq, Structural)]
pub enum Control {
    /// Go on reading.
    Continue,
    /// Wait this many nanoseconds, then go on reading.
    Sleep(u64),
    /// Enumerate the devices anew and read from the new set.
    Restart,
}

/// The outcome of one input: gestures to publish, a long-press timer to
/// start, and what to do next with the device side.
pub struct Step {
    pub gestures: Vec<ProtoGesture>,
    /// The key whose long-press timer is to go off `LONG_PRESS` from now.
    pub arm: Option<KeyCode>,
    pub control: Control,
}

/// The classifier and the backoff together.
pub struct SupervisorState {
    pub classifier: ClassifierState,
    pub backoff: BackoffState,
}

impl SupervisorState {
    pub open spec fn wf(self) -> bool {
        self.classifier.wf()
    }

    /// The state after `input`.
    pub open spec fn after(self, input: Input) -> SupervisorState {
        match input {
            Input::Key { code, action, at } => SupervisorState {
                classifier: match action {
                    KeyAction::Press => self.classifier.after_press(code, at),
                    KeyAction::Release => self.classifier.after_release(code, at),
                },
                backoff: self.backoff.reset(),
            },
            Input::Other => SupervisorState { backoff: self.backoff.reset(), ..self },
            Input::Timer { code, at } => SupervisorState {
                classifier: self.classifier.after_timer(code, at),
                ..self
            },
            Input::ReadError => SupervisorState { backoff: self.backoff.after_retry(), ..self },
            Input::StreamEnded | Input::RestartSignal => SupervisorState {
                backoff: self.backoff.reset(),
                ..self
            },
        }
    }

    /// The gestures that `input` yields.
    pub open spec fn gestures(self, input: Input) -> Seq<ProtoGesture> {
        match input {
            Input::Key { code, action: KeyAction::Press, at } => self.classifier.press_output(
                code,
                at,
            ),
            Input::Timer { code, at } => match self.classifier.timer_output(code, at) {
                Some(g) => seq![g],
                None => Seq::empty(),
            },
            _ => Seq::empty(),
        }
    }

    /// The key whose long-press timer `input` starts: a press starts one
    /// for its key, which replaces any pending one.
    pub open spec fn timer_to_arm(self, input: Input) -> Option<KeyCode> {
        match input {
            Input::Key { code, action: KeyAction::Press, .. } => Some(code),
            _ => None,
        }
    }

    /// What the device side does after `input`.
    pub open spec fn control(self, input: Input) -> Control {
        match input {
            Input::ReadError => if self.backoff.exhausted() {
                Control::Restart
            } else {
                Control::Sleep(self.backoff.delay())
            },
            Input::StreamEnded | Input::RestartSignal => Control::Restart,
            _ => Control::Continue,
        }
    }
}

/// The daemon's state across inputs, device restarts included.
pub struct Supervisor {
    classifier: Classifier,
    backoff: Backoff,
}

impl View for Supervisor {
    type V = SupervisorState;

    closed spec fn view(&self) -> SupervisorState {
        SupervisorState { classifier: self.classifier@, backoff: self.backoff@ }
    }
}

impl Supervisor {
    /// A fresh classifier with the given backoff.
    pub fn new(backoff: Backoff) -> (r: Supervisor)
        ensures
            r@ == (SupervisorState { classifier: ClassifierState::empty(), backoff: backoff@ }),
            r@.wf(),
    {
        Supervisor { classifier: Classifier::new(), backoff }
    }

    /// Handles one input.
    pub fn handle(&mut self, input: Input) -> (r: Step)
        requires
            old(self)@.wf(),
        ensures
            final(self)@ == old(self)@.after(input),
            r.gestures@ == old(self)@.gestures(input),
            r.arm == old(self)@.timer_to_arm(input),
            r.control == old(self)@.control(input),
            final(self)@.wf(),
    {
        match input {
            Input::Key { code, action, at } => {
                self.backoff.reset();
                match action {
                    KeyAction::Press => {
                        let gestures = self.classifier.on_press(code, at);
                        Step { gestures, arm: Some(code), control: Control::Continue }
                    },
                    KeyAction::Release => {
                        self.classifier.on_release(code, at);
                        Step { gestures: Vec::new(), arm: None, control: Control::Continue }
                    },
                }
            },
            Input::Other => {
                self.backoff.reset();
                Step { gestures: Vec::new(), arm: None, control: Control::Continue }
            },
            Input::Timer { code, at } => {
                let mut gestures: Vec<ProtoGesture> = Vec::new();
                if let Some(g) = self.classifier.on_timer(code, at) {
                    gestures.push(g);
                }
                proof {
                    assert(gestures@ =~= old(self)@.gestures(input));
                }
                Step { gestures, arm: None, control: Control::Continue }
            },
            Input::ReadError => {
                let control = match self.backoff.next_delay() {
                    Some(d) => Control::Sleep(d),
                    None => Control::Restart,
                };
                Step { gestures: Vec::new(), arm: None, control }
            },
            Input::StreamEnded | Input::RestartSignal => {
                self.backoff.reset();
                Step { gestures: Vec::new(), arm: None, control: Control::Restart }
            },
        }
    }
}

/// A read error leaves the classifier exactly as it was, and below the
/// backoff limit the daemon only waits: whatever input comes next yields
/// the gestures, and the classifier state, that it would have yielded
/// without the error. A restart of the device side keeps the classifier
/// too.
pub proof fn lemma_read_error_keeps_state(s: SupervisorState, next: Input)
    requires
        s.wf(),
    ensures
        s.after(Input::ReadError).classifier == s.classifier,
        !s.backoff.exhausted() ==> s.control(Input::ReadError) == Control::Sleep(s.backoff.delay()),
        s.after(Input::ReadError).gestures(next) == s.gestures(next),
        s.after(Input::ReadError).after(next).classifier == s.after(next).classifier,
        s.after(Input::StreamEnded).classifier == s.classifier,
        s.after(Input::RestartSignal).classifier == s.classifier,
{
}

} // verus!
