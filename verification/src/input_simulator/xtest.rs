//! The XTest backend: a persistent X11 client that presses, checks and releases
//! the keys of the chord, and never leaves one of them down if it can help it.

use vstd::prelude::*;

use crate::input_simulator::keymap::PasteKeycodes;
use crate::input_simulator::{FailureView, PasteChord, PasteFailure, paste_outcome};
use crate::x11::Screens;
use crate::text::{concat2, concat3, join_texts, joined, texts};

pub mod promises;

verus! {

/// The type of a faked key press.
pub const X11_KEY_PRESS: u8 = 2;

/// The type of a faked key release.
pub const X11_KEY_RELEASE: u8 = 3;

// ---------------------------------------------------------------------------
// Key requests
// ---------------------------------------------------------------------------
/// What went wrong with one key request.
#[derive(Debug)]
pub enum KeyFault {
    /// The request itself was refused.
    Request(String),
    /// The request could not be flushed to the server.
    Flush(String),
    /// The awaited key state was not reached.
    State(String),
}

/// A [`KeyFault`] with the text of its message.
pub enum KeyFaultView {
    Request(Seq<char>),
    Flush(Seq<char>),
    State(Seq<char>),
}

impl View for KeyFault {
    type V = KeyFaultView;

    open spec fn view(&self) -> KeyFaultView {
        match self {
            KeyFault::Request(e) => KeyFaultView::Request(e@),
            KeyFault::Flush(e) => KeyFaultView::Flush(e@),
            KeyFault::State(e) => KeyFaultView::State(e@),
        }
    }
}

/// The answer to one key request, with the text of its message.
pub open spec fn key_outcome(r: Result<(), KeyFault>) -> Result<(), KeyFaultView> {
    match r {
        Ok(_) => Ok(()),
        Err(f) => Err(f@),
    }
}

/// How a fault is reported when it happened while doing `context`.
pub open spec fn fault_text(context: Seq<char>, fault: KeyFaultView) -> Seq<char> {
    match fault {
        KeyFaultView::Request(e) => context + ": "@ + e,
        KeyFaultView::Flush(e) => "X11 flush failed: "@ + e,
        KeyFaultView::State(e) => e,
    }
}

/// The report of one key request that was made while doing `context`.
pub fn fake_key(outcome: Result<(), KeyFault>, context: &str) -> (r: Result<(), String>)
    ensures
        outcome is Ok <==> r is Ok,
        outcome matches Err(f) ==> r->Err_0@ == fault_text(context@, f@),
{
    match outcome {
        Ok(_) => Ok(()),
        Err(KeyFault::Request(e)) => Err(concat3(context, ": ", e.as_str())),
        Err(KeyFault::Flush(e)) => Err(concat2("X11 flush failed: ", e.as_str())),
        Err(KeyFault::State(e)) => Err(e),
    }
}

// ---------------------------------------------------------------------------
// Held keys
// ---------------------------------------------------------------------------
/// `held` without the key `keycode`.
pub open spec fn without(held: Seq<u8>, keycode: u8) -> Seq<u8> {
    held.filter(|h: u8| h != keycode)
}

proof fn lemma_without_push(held: Seq<u8>, h: u8, keycode: u8)
    ensures
        without(held.push(h), keycode) == if h == keycode {
            without(held, keycode)
        } else {
            without(held, keycode).push(h)
        },
{
    reveal(Seq::filter);
    assert(held.push(h).drop_last() =~= held);
}

/// A key is left in [`without`] exactly where it was there and is another key.
pub proof fn lemma_without_contains(held: Seq<u8>, keycode: u8, k: u8)
    ensures
        without(held, keycode).contains(k) <==> held.contains(k) && k != keycode,
        without(held, keycode).len() <= held.len(),
    decreases held.len(),
{
    reveal(Seq::filter);
    if held.len() > 0 {
        let front = held.drop_last();
        lemma_without_contains(front, keycode, k);
        lemma_without_push(front, held.last(), keycode);
        assert(held =~= front.push(held.last()));
        assert(held.contains(k) <==> front.contains(k) || held.last() == k) by {
            if front.contains(k) {
                let i = choose|i: int| 0 <= i < front.len() && front[i] == k;
                assert(held[i] == k);
            }
            if held.contains(k) && held.last() != k {
                let i = choose|i: int| 0 <= i < held.len() && held[i] == k;
                assert(front[i] == k);
            }
        }
        let rest = without(front, keycode);
        if held.last() != keycode {
            let all = rest.push(held.last());
            assert(all.contains(k) <==> rest.contains(k) || held.last() == k) by {
                if rest.contains(k) {
                    let i = choose|i: int| 0 <= i < rest.len() && rest[i] == k;
                    assert(all[i] == k);
                }
                if held.last() == k {
                    assert(all[rest.len() as int] == k);
                }
            }
        }
    }
}

/// Tracks keys before their press request is flushed. This deliberately treats
/// a flush error as ambiguous: the server may have received the press even
/// though the client did not receive a successful completion signal.
#[derive(Debug)]
pub struct XtestKeyGuard {
    pub held: Vec<u8>,
    pub paste_may_have_been_sent: bool,
}

impl XtestKeyGuard {
    /// A guard that holds no key.
    pub fn new() -> (r: Self)
        ensures
            r.held@ == Seq::<u8>::empty(),
            !r.paste_may_have_been_sent,
    {
        XtestKeyGuard { held: Vec::with_capacity(3), paste_may_have_been_sent: false }
    }

    /// Records the intent to press `keycode`. It is recorded before the request
    /// is flushed, so that cleanup also covers a request whose delivery became
    /// ambiguous during the flush.
    pub fn press(&mut self, keycode: u8, dispatches_paste: bool)
        ensures
            final(self).held@ == old(self).held@.push(keycode),
            final(self).paste_may_have_been_sent == (old(self).paste_may_have_been_sent
                || dispatches_paste),
    {
        self.held.push(keycode);
        self.paste_may_have_been_sent = self.paste_may_have_been_sent || dispatches_paste;
    }

    /// Forgets `keycode` once its release has gone out.
    pub fn release(&mut self, keycode: u8)
        ensures
            final(self).held@ == without(old(self).held@, keycode),
            final(self).paste_may_have_been_sent == old(self).paste_may_have_been_sent,
    {
        let mut kept: Vec<u8> = Vec::new();
        let mut i: usize = 0;
        proof {
            reveal(Seq::filter);
            assert(self.held@.take(0) =~= Seq::<u8>::empty());
            assert(without(self.held@.take(0), keycode) =~= Seq::<u8>::empty());
        }
        while i < self.held.len()
            invariant
                i <= self.held.len(),
                kept@ == without(self.held@.take(i as int), keycode),
                self.held@ == old(self).held@,
                self.paste_may_have_been_sent == old(self).paste_may_have_been_sent,
            decreases self.held.len() - i,
        {
            let key: u8 = self.held[i];
            proof {
                lemma_without_push(self.held@.take(i as int), key, keycode);
                assert(self.held@.take(i + 1) =~= self.held@.take(i as int).push(key));
            }
            if key != keycode {
                kept.push(key);
            }
            i += 1;
        }
        proof {
            assert(self.held@.take(i as int) =~= self.held@);
        }
        self.held = kept;
    }
}

// ---------------------------------------------------------------------------
// The chord as a script
// ---------------------------------------------------------------------------
/// A key of the chord.
#[derive(Debug, Clone, Copy, PartialEq, Eq, Structural)]
pub enum PasteKey {
    Ctrl,
    Shift,
    V,
}

/// One step of the chord.
#[derive(Debug, Clone, Copy, PartialEq, Eq, Structural)]
pub enum ChordStep {
    /// Press a key.
    Press { key: PasteKey, keycode: u8 },
    /// Wait until the server shows the key pressed, or released.
    Await { keycode: u8, pressed: bool },
    /// Release a key.
    Release { key: PasteKey, keycode: u8 },
}

impl ChordStep {
    /// The step presses the key that makes the target paste.
    pub open spec fn dispatches_paste(self) -> bool {
        self matches ChordStep::Press { key, .. } && key == PasteKey::V
    }

    /// What a failure of this step is reported as.
    pub open spec fn context_text(self) -> Seq<char> {
        match self {
            ChordStep::Press { key: PasteKey::Ctrl, .. } => "Failed to press Ctrl"@,
            ChordStep::Press { key: PasteKey::Shift, .. } => "Failed to press Shift"@,
            ChordStep::Press { key: PasteKey::V, .. } => "Failed to press V"@,
            ChordStep::Release { key: PasteKey::Ctrl, .. } => "Failed to release Ctrl"@,
            ChordStep::Release { key: PasteKey::Shift, .. } => "Failed to release Shift"@,
            ChordStep::Release { key: PasteKey::V, .. } => "Failed to release V"@,
            ChordStep::Await { .. } => "Failed to query X11 key state"@,
        }
    }

    /// What a failure of this step is reported as.
    pub fn context(self) -> (r: &'static str)
        ensures
            r@ == self.context_text(),
    {
        match self {
            ChordStep::Press { key: PasteKey::Ctrl, .. } => "Failed to press Ctrl",
            ChordStep::Press { key: PasteKey::Shift, .. } => "Failed to press Shift",
            ChordStep::Press { key: PasteKey::V, .. } => "Failed to press V",
            ChordStep::Release { key: PasteKey::Ctrl, .. } => "Failed to release Ctrl",
            ChordStep::Release { key: PasteKey::Shift, .. } => "Failed to release Shift",
            ChordStep::Release { key: PasteKey::V, .. } => "Failed to release V",
            ChordStep::Await { .. } => "Failed to query X11 key state",
        }
    }
}

/// Persistent XTest client: what it knows of the server it is connected to.
#[derive(Debug, Clone, Copy, PartialEq, Eq, Structural)]
pub struct XtestDevice {
    pub root_window: u32,
    pub ctrl_keycode: u8,
    pub shift_keycode: u8,
    pub v_keycode: u8,
}

impl XtestDevice {
    /// The steps of `chord` on this device: each modifier is seen down before
    /// the next key is pressed, V is released first and Ctrl last, and every key
    /// is seen up at the end.
    pub open spec fn script(self, chord: PasteChord) -> Seq<ChordStep> {
        let ctrl = self.ctrl_keycode;
        let shift = self.shift_keycode;
        let v = self.v_keycode;
        match chord {
            PasteChord::CtrlV => seq![
                ChordStep::Press { key: PasteKey::Ctrl, keycode: ctrl },
                ChordStep::Await { keycode: ctrl, pressed: true },
                ChordStep::Press { key: PasteKey::V, keycode: v },
                ChordStep::Await { keycode: v, pressed: true },
                ChordStep::Release { key: PasteKey::V, keycode: v },
                ChordStep::Release { key: PasteKey::Ctrl, keycode: ctrl },
                ChordStep::Await { keycode: v, pressed: false },
                ChordStep::Await { keycode: ctrl, pressed: false },
            ],
            PasteChord::CtrlShiftV => seq![
                ChordStep::Press { key: PasteKey::Ctrl, keycode: ctrl },
                ChordStep::Await { keycode: ctrl, pressed: true },
                ChordStep::Press { key: PasteKey::Shift, keycode: shift },
                ChordStep::Await { keycode: shift, pressed: true },
                ChordStep::Press { key: PasteKey::V, keycode: v },
                ChordStep::Await { keycode: v, pressed: true },
                ChordStep::Release { key: PasteKey::V, keycode: v },
                ChordStep::Release { key: PasteKey::Shift, keycode: shift },
                ChordStep::Release { key: PasteKey::Ctrl, keycode: ctrl },
                ChordStep::Await { keycode: v, pressed: false },
                ChordStep::Await { keycode: shift, pressed: false },
                ChordStep::Await { keycode: ctrl, pressed: false },
            ],
        }
    }

    /// The steps of `chord` on this device.
    pub fn chord_script(&self, chord: PasteChord) -> (r: Vec<ChordStep>)
        ensures
            r@ == self.script(chord),
    {
        let ctrl: u8 = self.ctrl_keycode;
        let shift: u8 = self.shift_keycode;
        let v: u8 = self.v_keycode;
        let with_shift = chord == PasteChord::CtrlShiftV;
        let mut steps: Vec<ChordStep> = Vec::new();
        steps.push(ChordStep::Press { key: PasteKey::Ctrl, keycode: ctrl });
        steps.push(ChordStep::Await { keycode: ctrl, pressed: true });
        if with_shift {
            steps.push(ChordStep::Press { key: PasteKey::Shift, keycode: shift });
            steps.push(ChordStep::Await { keycode: shift, pressed: true });
        }
        steps.push(ChordStep::Press { key: PasteKey::V, keycode: v });
        steps.push(ChordStep::Await { keycode: v, pressed: true });
        steps.push(ChordStep::Release { key: PasteKey::V, keycode: v });
        if with_shift {
            steps.push(ChordStep::Release { key: PasteKey::Shift, keycode: shift });
        }
        steps.push(ChordStep::Release { key: PasteKey::Ctrl, keycode: ctrl });
        steps.push(ChordStep::Await { keycode: v, pressed: false });
        if with_shift {
            steps.push(ChordStep::Await { keycode: shift, pressed: false });
        }
        steps.push(ChordStep::Await { keycode: ctrl, pressed: false });
        assert(steps@ =~= self.script(chord));
        steps
    }

    /// Starts `chord` on this device: the run, and the first thing to do.
    pub fn send_paste_chord(&self, chord: PasteChord) -> (r: (ChordRun, ChordAction))
        ensures
            r.0@ == chord_start(self.script(chord)),
            chord_ready(r.0@),
            r.1@ == pending_action(r.0@),
    {
        let mut run = ChordRun {
            script: self.chord_script(chord),
            position: 0,
            guard: XtestKeyGuard::new(),
            stage: ChordStage::Operating,
            pending: Vec::new(),
            failure: None,
            cleanup_errors: Vec::new(),
        };
        let ghost fresh = run@;
        run.begin_step();
        proof {
            assert(fresh.errors =~= Seq::<Seq<char>>::empty());
        }
        let action = run.action();
        (run, action)
    }
}

// ---------------------------------------------------------------------------
// Running the script
// ---------------------------------------------------------------------------
/// How far a run has come.
#[derive(Debug, Clone, Copy, PartialEq, Eq, Structural)]
pub enum ChordStage {
    /// The steps of the script, in order.
    Operating,
    /// The keys that are still held are released and every error is kept.
    Cleaning,
    /// A last attempt on keys that cleanup could not release.
    Dropping,
    /// The verdict stands.
    Finished,
}

/// What the program does next for a run.
#[derive(Debug)]
pub enum ChordAction {
    /// Fake a key press.
    Press { keycode: u8 },
    /// Fake a key release.
    Release { keycode: u8 },
    /// Wait for a key state.
    Await { keycode: u8, pressed: bool },
    /// Nothing is left to do.
    Finish(Result<(), PasteFailure>),
}

/// A key event to be faked.
#[derive(Debug, Clone, Copy, PartialEq, Eq, Structural)]
pub struct KeyEvent {
    pub key_type: u8,
    pub keycode: u8,
}

impl ChordAction {
    /// The key event that the action fakes, where it fakes one.
    pub fn key_event(&self) -> (r: Option<KeyEvent>)
        ensures
            r == match self {
                ChordAction::Press { keycode } => Some(
                    KeyEvent { key_type: X11_KEY_PRESS, keycode: *keycode },
                ),
                ChordAction::Release { keycode } => Some(
                    KeyEvent { key_type: X11_KEY_RELEASE, keycode: *keycode },
                ),
                _ => None,
            },
    {
        match self {
            ChordAction::Press { keycode } => Some(
                KeyEvent { key_type: X11_KEY_PRESS, keycode: *keycode },
            ),
            ChordAction::Release { keycode } => Some(
                KeyEvent { key_type: X11_KEY_RELEASE, keycode: *keycode },
            ),
            _ => None,
        }
    }
}

/// A [`ChordAction`] with the text of its message.
pub enum ChordActionView {
    Press { keycode: u8 },
    Release { keycode: u8 },
    Await { keycode: u8, pressed: bool },
    Finish(Result<(), FailureView>),
}

impl View for ChordAction {
    type V = ChordActionView;

    open spec fn view(&self) -> ChordActionView {
        match self {
            ChordAction::Press { keycode } => ChordActionView::Press { keycode: *keycode },
            ChordAction::Release { keycode } => ChordActionView::Release { keycode: *keycode },
            ChordAction::Await { keycode, pressed } => ChordActionView::Await {
                keycode: *keycode,
                pressed: *pressed,
            },
            ChordAction::Finish(r) => ChordActionView::Finish(paste_outcome(*r)),
        }
    }
}

/// The state of a run. Up to the end exactly one action is under way: the step
/// at `position` while operating, the release of the last of `pending` after.
#[verifier::ext_equal]
pub struct ChordView {
    pub script: Seq<ChordStep>,
    pub position: int,
    pub held: Seq<u8>,
    pub sent: bool,
    pub stage: ChordStage,
    pub pending: Seq<u8>,
    pub failure: Option<Seq<char>>,
    pub errors: Seq<Seq<char>>,
}

/// A step is about to go out: a press is on record before it does.
pub open spec fn begin_step(s: ChordView) -> ChordView {
    if s.stage == ChordStage::Operating && 0 <= s.position < s.script.len() {
        match s.script[s.position] {
            ChordStep::Press { keycode, .. } => ChordView {
                held: s.held.push(keycode),
                sent: s.sent || s.script[s.position].dispatches_paste(),
                ..s
            },
            _ => s,
        }
    } else {
        s
    }
}

/// A run of `script` whose first step is about to go out.
pub open spec fn chord_start(script: Seq<ChordStep>) -> ChordView {
    begin_step(
        ChordView {
            script,
            position: 0,
            held: Seq::empty(),
            sent: false,
            stage: ChordStage::Operating,
            pending: Seq::empty(),
            failure: None,
            errors: Seq::empty(),
        },
    )
}

/// Leaves the stages that have nothing left to do: a finished script goes on to
/// cleanup, cleanup to the last attempt, and that to the end.
pub open spec fn settle(s: ChordView) -> ChordView {
    let cleaned = if s.stage == ChordStage::Operating && (s.failure is Some || s.position
        >= s.script.len()) {
        ChordView { stage: ChordStage::Cleaning, pending: s.held, ..s }
    } else {
        s
    };
    let dropping = if cleaned.stage == ChordStage::Cleaning && cleaned.pending.len() == 0 {
        ChordView { stage: ChordStage::Dropping, pending: cleaned.held, ..cleaned }
    } else {
        cleaned
    };
    if dropping.stage == ChordStage::Dropping && dropping.pending.len() == 0 {
        ChordView { stage: ChordStage::Finished, ..dropping }
    } else {
        dropping
    }
}

/// Takes the answer to the action under way.
pub open spec fn absorb(s: ChordView, outcome: Result<(), KeyFaultView>) -> ChordView {
    match s.stage {
        ChordStage::Operating => match outcome {
            Ok(_) => ChordView {
                position: s.position + 1,
                held: match s.script[s.position] {
                    ChordStep::Release { keycode, .. } => without(s.held, keycode),
                    _ => s.held,
                },
                ..s
            },
            Err(f) => ChordView {
                failure: Some(fault_text(s.script[s.position].context_text(), f)),
                ..s
            },
        },
        ChordStage::Cleaning => match outcome {
            Ok(_) => ChordView {
                held: without(s.held, s.pending.last()),
                pending: s.pending.drop_last(),
                ..s
            },
            Err(f) => ChordView {
                errors: s.errors.push(
                    fault_text("Cleanup failed to release XTest key"@, f),
                ),
                pending: s.pending.drop_last(),
                ..s
            },
        },
        ChordStage::Dropping => ChordView {
            held: if outcome is Ok {
                without(s.held, s.pending.last())
            } else {
                s.held
            },
            pending: s.pending.drop_last(),
            ..s
        },
        ChordStage::Finished => s,
    }
}

/// One step of a run: the answer to the action under way is taken, and the next
/// action is about to go out.
pub open spec fn chord_advance(s: ChordView, outcome: Result<(), KeyFaultView>) -> ChordView {
    begin_step(settle(absorb(s, outcome)))
}

/// What the run comes to, once cleanup is over.
pub open spec fn chord_verdict(s: ChordView) -> Result<(), FailureView> {
    match s.failure {
        None => if s.errors.len() == 0 {
            Ok(())
        } else {
            Err(FailureView::Ambiguous(joined(s.errors, "; "@)))
        },
        Some(e) => if s.errors.len() > 0 {
            Err(FailureView::Ambiguous(e + "; "@ + joined(s.errors, "; "@)))
        } else if s.sent {
            Err(FailureView::Ambiguous(e))
        } else {
            Err(FailureView::Retryable(e))
        },
    }
}

/// The action under way in `s`.
pub open spec fn pending_action(s: ChordView) -> ChordActionView {
    match s.stage {
        ChordStage::Operating => match s.script[s.position] {
            ChordStep::Press { keycode, .. } => ChordActionView::Press { keycode },
            ChordStep::Await { keycode, pressed } => ChordActionView::Await { keycode, pressed },
            ChordStep::Release { keycode, .. } => ChordActionView::Release { keycode },
        },
        ChordStage::Finished => ChordActionView::Finish(chord_verdict(s)),
        _ => ChordActionView::Release { keycode: s.pending.last() },
    }
}

/// A state in which the action under way is well defined.
pub open spec fn chord_ready(s: ChordView) -> bool {
    match s.stage {
        ChordStage::Operating => 0 <= s.position < s.script.len() && s.failure is None,
        ChordStage::Finished => true,
        _ => s.pending.len() > 0,
    }
}

/// A chord on its way.
#[derive(Debug)]
pub struct ChordRun {
    script: Vec<ChordStep>,
    position: usize,
    guard: XtestKeyGuard,
    stage: ChordStage,
    pending: Vec<u8>,
    failure: Option<String>,
    cleanup_errors: Vec<String>,
}

impl View for ChordRun {
    type V = ChordView;

    closed spec fn view(&self) -> ChordView {
        ChordView {
            script: self.script@,
            position: self.position as int,
            held: self.guard.held@,
            sent: self.guard.paste_may_have_been_sent,
            stage: self.stage,
            pending: self.pending@,
            failure: crate::text::opt_text(self.failure),
            errors: texts(self.cleanup_errors@),
        }
    }
}

impl ChordRun {
    fn begin_step(&mut self)
        ensures
            final(self)@ == begin_step(old(self)@),
    {
        if self.stage == ChordStage::Operating && self.position < self.script.len() {
            match self.script[self.position] {
                ChordStep::Press { key, keycode } => {
                    self.guard.press(keycode, key == PasteKey::V);
                },
                _ => {},
            }
        }
    }

    fn settle(&mut self)
        ensures
            final(self)@ == settle(old(self)@),
    {
        if self.stage == ChordStage::Operating && (self.failure.is_some() || self.position
            >= self.script.len()) {
            self.stage = ChordStage::Cleaning;
            self.pending = self.guard.held.clone();
        }
        if self.stage == ChordStage::Cleaning && self.pending.len() == 0 {
            self.stage = ChordStage::Dropping;
            self.pending = self.guard.held.clone();
        }
        if self.stage == ChordStage::Dropping && self.pending.len() == 0 {
            self.stage = ChordStage::Finished;
        }
    }

    fn absorb(&mut self, outcome: Result<(), KeyFault>)
        requires
            chord_ready(old(self)@),
        ensures
            final(self)@ == absorb(old(self)@, key_outcome(outcome)),
    {
        match self.stage {
            ChordStage::Operating => {
                let step = self.script[self.position];
                match fake_key(outcome, step.context()) {
                    Ok(_) => {
                        if let ChordStep::Release { keycode, .. } = step {
                            self.guard.release(keycode);
                        }
                        assert(self.position < self.script.len());
                        self.position = self.position + 1;
                    },
                    Err(error) => {
                        self.failure = Some(error);
                    },
                }
            },
            ChordStage::Cleaning => {
                let keycode: u8 = self.pending[self.pending.len() - 1];
                let _ = self.pending.pop();
                match fake_key(outcome, "Cleanup failed to release XTest key") {
                    Ok(_) => {
                        self.guard.release(keycode);
                    },
                    Err(error) => {
                        let ghost before = self.cleanup_errors@;
                        self.cleanup_errors.push(error);
                        assert(texts(self.cleanup_errors@) =~= texts(before).push(error@));
                    },
                }
            },
            ChordStage::Dropping => {
                let keycode: u8 = self.pending[self.pending.len() - 1];
                let _ = self.pending.pop();
                if outcome.is_ok() {
                    self.guard.release(keycode);
                }
            },
            ChordStage::Finished => {},
        }
    }

    /// What the run comes to.
    fn verdict(&self) -> (r: Result<(), PasteFailure>)
        ensures
            paste_outcome(r) == chord_verdict(self@),
    {
        let errors_joined = join_texts(&self.cleanup_errors, "; ");
        match &self.failure {
            None => if self.cleanup_errors.len() == 0 {
                Ok(())
            } else {
                Err(PasteFailure::Ambiguous(errors_joined))
            },
            Some(error) => if self.cleanup_errors.len() > 0 {
                Err(
                    PasteFailure::Ambiguous(
                        concat3(error.as_str(), "; ", errors_joined.as_str()),
                    ),
                )
            } else if self.guard.paste_may_have_been_sent {
                Err(PasteFailure::Ambiguous(error.clone()))
            } else {
                Err(PasteFailure::Retryable(error.clone()))
            },
        }
    }

    /// The action under way.
    pub fn action(&self) -> (r: ChordAction)
        requires
            chord_ready(self@),
        ensures
            r@ == pending_action(self@),
    {
        match self.stage {
            ChordStage::Operating => match self.script[self.position] {
                ChordStep::Press { keycode, .. } => ChordAction::Press { keycode },
                ChordStep::Await { keycode, pressed } => ChordAction::Await { keycode, pressed },
                ChordStep::Release { keycode, .. } => ChordAction::Release { keycode },
            },
            ChordStage::Finished => ChordAction::Finish(self.verdict()),
            _ => ChordAction::Release { keycode: self.pending[self.pending.len() - 1] },
        }
    }

    /// Takes the answer to the action under way and says what to do next.
    pub fn advance(&mut self, outcome: Result<(), KeyFault>) -> (action: ChordAction)
        requires
            chord_ready(old(self)@),
        ensures
            final(self)@ == chord_advance(old(self)@, key_outcome(outcome)),
            chord_ready(final(self)@),
            action@ == pending_action(final(self)@),
    {
        self.absorb(outcome);
        self.settle();
        self.begin_step();
        self.action()
    }
}

// ---------------------------------------------------------------------------
// Setting the client up
// ---------------------------------------------------------------------------
/// What is known while the client is set up.
#[derive(Debug)]
pub enum XtestSetupEvent {
    /// A connection was asked for.
    Connected(Result<Screens, String>),
    /// The version of the XTest extension was asked for.
    Version { root_window: u32, outcome: Result<(), String> },
    /// The keys of the chord were looked up.
    Keycodes { root_window: u32, resolved: Result<PasteKeycodes, String> },
}

/// What the program does next while the client is set up.
#[derive(Debug)]
pub enum XtestSetupAction {
    /// Ask for this version of the XTest extension.
    QueryVersion { root_window: u32, major: u8, minor: u16 },
    /// Look the keys of the chord up.
    ResolveKeycodes { root_window: u32 },
    /// The client is ready, or it could not be set up.
    Finish(Result<XtestDevice, String>),
}

/// An [`XtestSetupAction`] with the text of its message.
pub enum XtestSetupActionView {
    QueryVersion { root_window: u32, major: u8, minor: u16 },
    ResolveKeycodes { root_window: u32 },
    Finish(Result<XtestDevice, Seq<char>>),
}

impl View for XtestSetupAction {
    type V = XtestSetupActionView;

    open spec fn view(&self) -> XtestSetupActionView {
        match self {
            XtestSetupAction::QueryVersion { root_window, major, minor } => {
                XtestSetupActionView::QueryVersion {
                    root_window: *root_window,
                    major: *major,
                    minor: *minor,
                }
            },
            XtestSetupAction::ResolveKeycodes { root_window } => {
                XtestSetupActionView::ResolveKeycodes { root_window: *root_window }
            },
            XtestSetupAction::Finish(r) => XtestSetupActionView::Finish(
                crate::text::result_text(*r),
            ),
        }
    }
}

/// A client on this root window with these key codes.
pub open spec fn client_with(root_window: u32, keycodes: PasteKeycodes) -> XtestDevice {
    XtestDevice {
        root_window,
        ctrl_keycode: keycodes.ctrl,
        shift_keycode: keycodes.shift,
        v_keycode: keycodes.v,
    }
}

/// What follows `event` while the client is set up.
pub open spec fn xtest_setup_next(event: XtestSetupEvent) -> XtestSetupActionView {
    match event {
        XtestSetupEvent::Connected(Ok(screens)) => match screens.default_root() {
            Some(root_window) => XtestSetupActionView::QueryVersion {
                root_window,
                major: 2,
                minor: 1,
            },
            None => XtestSetupActionView::Finish(Err("X11 screen not found"@)),
        },
        XtestSetupEvent::Connected(Err(e)) => XtestSetupActionView::Finish(
            Err("X11 connect failed: "@ + e@),
        ),
        XtestSetupEvent::Version { root_window, outcome: Ok(_) } => {
            XtestSetupActionView::ResolveKeycodes { root_window }
        },
        XtestSetupEvent::Version { outcome: Err(e), .. } => XtestSetupActionView::Finish(
            Err("XTest version query failed: "@ + e@),
        ),
        XtestSetupEvent::Keycodes { root_window, resolved: Ok(keycodes) } => {
            XtestSetupActionView::Finish(Ok(client_with(root_window, keycodes)))
        },
        XtestSetupEvent::Keycodes { resolved: Err(e), .. } => XtestSetupActionView::Finish(
            Err(e@),
        ),
    }
}

/// What is known while the key codes are brought up to date.
#[derive(Debug)]
pub enum RefreshEvent {
    /// The next queued event was asked for: whether it says that the keyboard map
    /// changed, or nothing where the queue is empty. `mapping_changed` is what the
    /// events before it said.
    Polled { mapping_changed: bool, outcome: Result<Option<bool>, String> },
    /// The keys of the chord were looked up again.
    Resolved(Result<PasteKeycodes, String>),
}

/// What the program does next while the key codes are brought up to date.
#[derive(Debug)]
pub enum RefreshAction {
    /// Ask for the next queued event.
    Poll { mapping_changed: bool },
    /// Look the keys of the chord up again.
    Resolve,
    /// The key codes are up to date, or could not be brought up to date.
    Finish(Result<(), String>),
}

/// A [`RefreshAction`] with the text of its message.
pub enum RefreshActionView {
    Poll { mapping_changed: bool },
    Resolve,
    Finish(Result<(), Seq<char>>),
}

impl View for RefreshAction {
    type V = RefreshActionView;

    open spec fn view(&self) -> RefreshActionView {
        match self {
            RefreshAction::Poll { mapping_changed } => RefreshActionView::Poll {
                mapping_changed: *mapping_changed,
            },
            RefreshAction::Resolve => RefreshActionView::Resolve,
            RefreshAction::Finish(r) => RefreshActionView::Finish(crate::text::result_text(*r)),
        }
    }
}

/// What follows `event` while the key codes are brought up to date.
pub open spec fn refresh_next(event: RefreshEvent) -> RefreshActionView {
    match event {
        RefreshEvent::Polled { mapping_changed, outcome: Ok(Some(is_mapping)) } => {
            RefreshActionView::Poll { mapping_changed: mapping_changed || is_mapping }
        },
        RefreshEvent::Polled { mapping_changed, outcome: Ok(None) } => if mapping_changed {
            RefreshActionView::Resolve
        } else {
            RefreshActionView::Finish(Ok(()))
        },
        RefreshEvent::Polled { outcome: Err(e), .. } => RefreshActionView::Finish(
            Err("Failed to poll X11 events: "@ + e@),
        ),
        RefreshEvent::Resolved(Ok(_)) => RefreshActionView::Finish(Ok(())),
        RefreshEvent::Resolved(Err(e)) => RefreshActionView::Finish(Err(e@)),
    }
}

impl XtestDevice {
    /// A device with these key codes.
    pub open spec fn with_keycodes(self, keycodes: PasteKeycodes) -> XtestDevice {
        XtestDevice {
            ctrl_keycode: keycodes.ctrl,
            shift_keycode: keycodes.shift,
            v_keycode: keycodes.v,
            ..self
        }
    }

    /// Sets the client up: the connection has a default screen, the server has
    /// the XTest extension, and its keyboard map has the keys of the chord.
    pub fn create(event: XtestSetupEvent) -> (action: XtestSetupAction)
        ensures
            action@ == xtest_setup_next(event),
    {
        match event {
            XtestSetupEvent::Connected(Ok(screens)) => match screens.root() {
                Some(root_window) => XtestSetupAction::QueryVersion {
                    root_window,
                    major: 2,
                    minor: 1,
                },
                None => XtestSetupAction::Finish(Err("X11 screen not found".to_string())),
            },
            XtestSetupEvent::Connected(Err(error)) => XtestSetupAction::Finish(
                Err(concat2("X11 connect failed: ", error.as_str())),
            ),
            XtestSetupEvent::Version { root_window, outcome: Ok(_) } => {
                XtestSetupAction::ResolveKeycodes { root_window }
            },
            XtestSetupEvent::Version { root_window, outcome: Err(error) } => {
                XtestSetupAction::Finish(
                    Err(concat2("XTest version query failed: ", error.as_str())),
                )
            },
            XtestSetupEvent::Keycodes { root_window, resolved: Ok(keycodes) } => {
                XtestSetupAction::Finish(
                    Ok(
                        XtestDevice {
                            root_window,
                            ctrl_keycode: keycodes.ctrl,
                            shift_keycode: keycodes.shift,
                            v_keycode: keycodes.v,
                        },
                    ),
                )
            },
            XtestSetupEvent::Keycodes { root_window, resolved: Err(error) } => {
                XtestSetupAction::Finish(Err(error))
            },
        }
    }

    /// Brings the key codes up to date: all queued events are read, and only
    /// where one of them says that the keyboard map changed are the keys looked up
    /// again.
    pub fn refresh_keymap_if_needed(&mut self, event: RefreshEvent) -> (action: RefreshAction)
        ensures
            action@ == refresh_next(event),
            *final(self) == match event {
                RefreshEvent::Resolved(Ok(keycodes)) => old(self).with_keycodes(keycodes),
                _ => *old(self),
            },
    {
        match event {
            RefreshEvent::Polled { mapping_changed, outcome: Ok(Some(is_mapping)) } => {
                RefreshAction::Poll { mapping_changed: mapping_changed || is_mapping }
            },
            RefreshEvent::Polled { mapping_changed, outcome: Ok(None) } => {
                if mapping_changed {
                    RefreshAction::Resolve
                } else {
                    RefreshAction::Finish(Ok(()))
                }
            },
            RefreshEvent::Polled { mapping_changed, outcome: Err(error) } => {
                RefreshAction::Finish(Err(concat2("Failed to poll X11 events: ", error.as_str())))
            },
            RefreshEvent::Resolved(Ok(keycodes)) => {
                self.ctrl_keycode = keycodes.ctrl;
                self.shift_keycode = keycodes.shift;
                self.v_keycode = keycodes.v;
                RefreshAction::Finish(Ok(()))
            },
            RefreshEvent::Resolved(Err(error)) => RefreshAction::Finish(Err(error)),
        }
    }
}

/// What reading the event queue `queue` leads to. Each entry says whether the
/// event reported a change of the keyboard map.
pub open spec fn drained(queue: Seq<bool>, mapping_changed: bool) -> RefreshActionView
    decreases queue.len(),
{
    if queue.len() == 0 {
        refresh_next(RefreshEvent::Polled { mapping_changed, outcome: Ok(None) })
    } else {
        match refresh_next(
            RefreshEvent::Polled { mapping_changed, outcome: Ok(Some(queue.first())) },
        ) {
            RefreshActionView::Poll { mapping_changed } => drained(
                queue.drop_first(),
                mapping_changed,
            ),
            action => action,
        }
    }
}

/// The whole event queue is read, and the keys are looked up again exactly where
/// one of the events reported a change of the keyboard map.
pub proof fn law_keys_are_resolved_again_after_a_mapping_change(
    queue: Seq<bool>,
    mapping_changed: bool,
)
    ensures
        drained(queue, mapping_changed) == if mapping_changed || queue.contains(true) {
            RefreshActionView::Resolve
        } else {
            RefreshActionView::Finish(Ok(()))
        },
    decreases queue.len(),
{
    if queue.len() > 0 {
        let rest = queue.drop_first();
        law_keys_are_resolved_again_after_a_mapping_change(
            rest,
            mapping_changed || queue.first(),
        );
        if queue.contains(true) {
            let i = choose|i: int| 0 <= i < queue.len() && queue[i];
            if i > 0 {
                assert(rest[i - 1]);
            }
        }
        if rest.contains(true) {
            let i = choose|i: int| 0 <= i < rest.len() && rest[i];
            assert(queue[i + 1]);
        }
    }
}

/// What the server answers while the client is set up.
pub struct XtestSetupAnswers {
    pub connected: Result<Screens, String>,
    pub version: Result<(), String>,
    pub resolved: Result<PasteKeycodes, String>,
}

/// The actions of setting the client up from `action` on, and where it ends.
pub open spec fn xtest_setup_course(
    answers: XtestSetupAnswers,
    action: XtestSetupActionView,
    steps: nat,
) -> (Seq<XtestSetupActionView>, XtestSetupActionView)
    decreases steps,
{
    if steps == 0 {
        (Seq::empty(), action)
    } else {
        match action {
            XtestSetupActionView::QueryVersion { root_window, .. } => {
                let next = xtest_setup_next(
                    XtestSetupEvent::Version { root_window, outcome: answers.version },
                );
                let (rest, end) = xtest_setup_course(answers, next, (steps - 1) as nat);
                (seq![action] + rest, end)
            },
            XtestSetupActionView::ResolveKeycodes { root_window } => {
                let next = xtest_setup_next(
                    XtestSetupEvent::Keycodes { root_window, resolved: answers.resolved },
                );
                let (rest, end) = xtest_setup_course(answers, next, (steps - 1) as nat);
                (seq![action] + rest, end)
            },
            XtestSetupActionView::Finish(_) => (Seq::empty(), action),
        }
    }
}

/// Setting the client up ends. It succeeds exactly where there is a connection
/// with a default screen, the extension answers, and the keys are found; the
/// client then has that screen's root window and those keys, and the extension was
/// asked for before the keys were.
pub proof fn law_client_needs_every_good_answer(answers: XtestSetupAnswers)
    ensures
        ({
            let first = xtest_setup_next(XtestSetupEvent::Connected(answers.connected));
            let (actions, end) = xtest_setup_course(answers, first, 2);
            let good = {
                &&& answers.connected matches Ok(screens) && screens.default_root() is Some
                &&& answers.version is Ok
                &&& answers.resolved is Ok
            };
            let root_window = answers.connected->Ok_0.default_root()->0;
            &&& end is Finish
            &&& end->Finish_0 is Ok <==> good
            &&& good ==> end == XtestSetupActionView::Finish(
                Ok(client_with(root_window, answers.resolved->Ok_0)),
            )
            &&& good ==> actions == seq![
                XtestSetupActionView::QueryVersion { root_window, major: 2, minor: 1 },
                XtestSetupActionView::ResolveKeycodes { root_window },
            ]
        }),
{
    reveal_with_fuel(xtest_setup_course, 3);
    let first = xtest_setup_next(XtestSetupEvent::Connected(answers.connected));
    let (actions, end) = xtest_setup_course(answers, first, 2);
    if end matches XtestSetupActionView::Finish(Ok(_)) {
        let root_window = answers.connected->Ok_0.default_root()->0;
        assert(actions =~= seq![
            XtestSetupActionView::QueryVersion { root_window, major: 2, minor: 1 },
            XtestSetupActionView::ResolveKeycodes { root_window },
        ]);
    }
}

} // verus!
