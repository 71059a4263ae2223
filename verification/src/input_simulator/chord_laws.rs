//! What holds of every run of the XTest chord, whatever the server answers.

use vstd::prelude::*;

use crate::input_simulator::xtest::{
    ChordActionView, ChordStage, ChordStep, ChordView, KeyFaultView, PasteKey, XtestDevice,
};
use crate::input_simulator::{FailureView, PasteChord};

verus! {

use crate::input_simulator::xtest::{
    absorb, begin_step, chord_advance, chord_ready, chord_start, chord_verdict,
    lemma_without_contains, pending_action, settle, without,
};

/// The state of a run once `outcomes` have been taken, one after the other.
pub open spec fn chord_after(s: ChordView, outcomes: Seq<Result<(), KeyFaultView>>) -> ChordView
    decreases outcomes.len(),
{
    if outcomes.len() == 0 {
        s
    } else {
        chord_advance(chord_after(s, outcomes.drop_last()), outcomes.last())
    }
}

/// The state of a run of `chord` on `device` once the first `n` of `outcomes`
/// have been taken.
pub open spec fn chord_at(
    device: XtestDevice,
    chord: PasteChord,
    outcomes: Seq<Result<(), KeyFaultView>>,
    n: int,
) -> ChordView {
    chord_after(chord_start(device.script(chord)), outcomes.take(n))
}

/// The step under way in `s` presses V.
pub open spec fn pressing_v(s: ChordView) -> bool {
    s.stage == ChordStage::Operating && s.script[s.position].dispatches_paste()
}

/// How many steps of the script have gone out.
pub open spec fn issued(s: ChordView) -> int {
    if s.stage == ChordStage::Operating || s.failure is Some {
        s.position + 1
    } else {
        s.position
    }
}

/// What every state of a run satisfies.
pub open spec fn chord_inv(s: ChordView) -> bool {
    &&& chord_ready(s)
    &&& 0 <= s.position <= s.script.len()
    &&& s.failure is Some ==> s.position < s.script.len()
    &&& s.stage != ChordStage::Operating && s.failure is None ==> s.position == s.script.len()
    &&& s.stage == ChordStage::Operating ==> s.errors.len() == 0
    &&& s.sent == (exists|i: int|
        0 <= i < issued(s) && (#[trigger] s.script[i]).dispatches_paste())
    &&& s.stage == ChordStage::Cleaning && s.errors.len() == 0 ==> forall|k: u8|
        s.held.contains(k) ==> #[trigger] s.pending.contains(k)
    &&& (s.stage == ChordStage::Dropping || s.stage == ChordStage::Finished) && s.errors.len() == 0
        ==> s.held.len() == 0
    &&& s.held.len() <= issued(s)
    &&& s.pending.len() <= issued(s)
}

proof fn lemma_start_inv(script: Seq<ChordStep>)
    requires
        script.len() > 0,
    ensures
        chord_inv(chord_start(script)),
        chord_start(script).script == script,
{
    let s = chord_start(script);
    assert(s.script[0].dispatches_paste() ==> s.sent);
}

proof fn lemma_absorb_cleaning(s: ChordView, outcome: Result<(), KeyFaultView>)
    requires
        chord_inv(s),
        s.stage == ChordStage::Cleaning,
    ensures
        ({
            let t = absorb(s, outcome);
            t.errors.len() == 0 ==> forall|k: u8|
                t.held.contains(k) ==> #[trigger] t.pending.contains(k)
        }),
        absorb(s, outcome).held.len() <= s.held.len(),
{
    let t = absorb(s, outcome);
    lemma_without_contains(s.held, s.pending.last(), 0);
    if t.errors.len() == 0 {
        assert forall|k: u8| t.held.contains(k) implies #[trigger] t.pending.contains(k) by {
            lemma_without_contains(s.held, s.pending.last(), k);
            assert(s.pending.contains(k));
            let i = choose|i: int| 0 <= i < s.pending.len() && s.pending[i] == k;
            assert(i < s.pending.len() - 1);
            assert(t.pending[i] == k);
        }
    }
}

proof fn lemma_advance_inv(s: ChordView, outcome: Result<(), KeyFaultView>)
    requires
        chord_inv(s),
    ensures
        chord_inv(chord_advance(s, outcome)),
        chord_advance(s, outcome).script == s.script,
        s.sent ==> chord_advance(s, outcome).sent,
{
    let a = absorb(s, outcome);
    let t = settle(a);
    let u = begin_step(t);
    match s.stage {
        ChordStage::Operating => {
            match s.script[s.position] {
                ChordStep::Release { keycode, .. } => {
                    lemma_without_contains(s.held, keycode, 0);
                },
                _ => {},
            }
        },
        ChordStage::Cleaning => {
            lemma_absorb_cleaning(s, outcome);
            if a.errors.len() == 0 && a.pending.len() == 0 && a.held.len() > 0 {
                assert(a.held.contains(a.held[0]));
                assert(a.pending.contains(a.held[0]));
            }
        },
        ChordStage::Dropping => {
            lemma_without_contains(s.held, s.pending.last(), 0);
        },
        ChordStage::Finished => {},
    }
    if s.sent {
        let i = choose|i: int| 0 <= i < issued(s) && (#[trigger] s.script[i]).dispatches_paste();
        assert(u.script[i].dispatches_paste());
        assert(i < issued(u));
    }
    if u.stage == ChordStage::Operating {
        assert(u.script[u.position].dispatches_paste() ==> u.sent);
    }
    if exists|i: int| 0 <= i < issued(u) && (#[trigger] u.script[i]).dispatches_paste() {
        let i = choose|i: int| 0 <= i < issued(u) && (#[trigger] u.script[i]).dispatches_paste();
        if i < issued(s) {
            assert(s.script[i].dispatches_paste());
        }
    }
}

/// Every state of a run satisfies the invariant, and follows from the one before.
pub proof fn lemma_run_inv(
    device: XtestDevice,
    chord: PasteChord,
    outcomes: Seq<Result<(), KeyFaultView>>,
    n: int,
)
    requires
        0 <= n <= outcomes.len(),
    ensures
        chord_inv(chord_at(device, chord, outcomes, n)),
        chord_at(device, chord, outcomes, n).script == device.script(chord),
        n > 0 ==> chord_at(device, chord, outcomes, n) == chord_advance(
            chord_at(device, chord, outcomes, n - 1),
            outcomes[n - 1],
        ),
    decreases n,
{
    if n == 0 {
        lemma_start_inv(device.script(chord));
    } else {
        lemma_run_inv(device, chord, outcomes, n - 1);
        assert(outcomes.take(n).drop_last() =~= outcomes.take(n - 1));
        lemma_advance_inv(chord_at(device, chord, outcomes, n - 1), outcomes[n - 1]);
    }
}

/// Once V may have been pressed, that is never forgotten.
proof fn lemma_sent_stays(
    device: XtestDevice,
    chord: PasteChord,
    outcomes: Seq<Result<(), KeyFaultView>>,
    k: int,
    n: int,
)
    requires
        0 <= k <= n <= outcomes.len(),
        chord_at(device, chord, outcomes, k).sent,
    ensures
        chord_at(device, chord, outcomes, n).sent,
    decreases n - k,
{
    if k < n {
        lemma_run_inv(device, chord, outcomes, n - 1);
        lemma_run_inv(device, chord, outcomes, n);
        lemma_sent_stays(device, chord, outcomes, k, n - 1);
        lemma_advance_inv(chord_at(device, chord, outcomes, n - 1), outcomes[n - 1]);
    }
}

/// A chord that is reported as retryable never pressed V, at no point of its
/// run: another backend may paste without pasting twice.
pub proof fn law_retryable_chord_never_pressed_v(
    device: XtestDevice,
    chord: PasteChord,
    outcomes: Seq<Result<(), KeyFaultView>>,
    k: int,
)
    requires
        0 <= k <= outcomes.len(),
        pending_action(chord_at(device, chord, outcomes, outcomes.len() as int)) matches
            ChordActionView::Finish(Err(FailureView::Retryable(_))),
    ensures
        !pressing_v(chord_at(device, chord, outcomes, k)),
{
    let n = outcomes.len() as int;
    lemma_run_inv(device, chord, outcomes, n);
    lemma_run_inv(device, chord, outcomes, k);
    let s = chord_at(device, chord, outcomes, k);
    if pressing_v(s) {
        assert(s.script[s.position].dispatches_paste());
        lemma_sent_stays(device, chord, outcomes, k, n);
    }
}

/// A chord that succeeded, and one that may be retried, leaves no key held.
pub proof fn law_no_key_stays_held(
    device: XtestDevice,
    chord: PasteChord,
    outcomes: Seq<Result<(), KeyFaultView>>,
)
    requires
        ({
            let action = pending_action(chord_at(device, chord, outcomes, outcomes.len() as int));
            ||| action matches ChordActionView::Finish(Ok(_))
            ||| action matches ChordActionView::Finish(Err(FailureView::Retryable(_)))
        }),
    ensures
        chord_at(device, chord, outcomes, outcomes.len() as int).held.len() == 0,
{
    lemma_run_inv(device, chord, outcomes, outcomes.len() as int);
}

/// While the script runs, every answer so far was good and the script stands at
/// the step that the number of answers says.
proof fn lemma_operating_position(
    device: XtestDevice,
    chord: PasteChord,
    outcomes: Seq<Result<(), KeyFaultView>>,
    n: int,
)
    requires
        0 <= n <= outcomes.len(),
        chord_at(device, chord, outcomes, n).stage == ChordStage::Operating,
    ensures
        chord_at(device, chord, outcomes, n).position == n,
        forall|j: int| 0 <= j < n ==> (#[trigger] outcomes[j]) is Ok,
    decreases n,
{
    if n > 0 {
        lemma_run_inv(device, chord, outcomes, n - 1);
        lemma_run_inv(device, chord, outcomes, n);
        lemma_operating_position(device, chord, outcomes, n - 1);
    }
}

/// V goes down only after the server has shown Ctrl down, and Shift too where
/// the chord has it.
pub proof fn law_modifiers_are_down_before_v(
    device: XtestDevice,
    chord: PasteChord,
    outcomes: Seq<Result<(), KeyFaultView>>,
    n: int,
)
    requires
        0 <= n <= outcomes.len(),
        pressing_v(chord_at(device, chord, outcomes, n)),
    ensures
        exists|j: int|
            0 <= j < n && (#[trigger] outcomes[j]) is Ok && pending_action(
                chord_at(device, chord, outcomes, j),
            ) == (ChordActionView::Await { keycode: device.ctrl_keycode, pressed: true }),
        chord == PasteChord::CtrlShiftV ==> exists|j: int|
            0 <= j < n && (#[trigger] outcomes[j]) is Ok && pending_action(
                chord_at(device, chord, outcomes, j),
            ) == (ChordActionView::Await { keycode: device.shift_keycode, pressed: true }),
{
    lemma_run_inv(device, chord, outcomes, n);
    lemma_operating_position(device, chord, outcomes, n);
    assert(n >= 2);
    lemma_still_operating(device, chord, outcomes, 1, n);
    assert(outcomes[1] is Ok);
    if chord == PasteChord::CtrlShiftV {
        assert(n >= 4);
        lemma_still_operating(device, chord, outcomes, 3, n);
        assert(outcomes[3] is Ok);
    }
}

proof fn lemma_still_operating(
    device: XtestDevice,
    chord: PasteChord,
    outcomes: Seq<Result<(), KeyFaultView>>,
    k: int,
    n: int,
)
    requires
        0 <= k <= n <= outcomes.len(),
        chord_at(device, chord, outcomes, n).stage == ChordStage::Operating,
    ensures
        chord_at(device, chord, outcomes, k).stage == ChordStage::Operating,
        chord_at(device, chord, outcomes, k).position == k,
        chord_at(device, chord, outcomes, k).script == device.script(chord),
    decreases n - k,
{
    lemma_run_inv(device, chord, outcomes, n);
    if k < n {
        lemma_run_inv(device, chord, outcomes, n - 1);
        lemma_still_operating(device, chord, outcomes, k, n - 1);
    } else {
        lemma_operating_position(device, chord, outcomes, n);
    }
}

/// A chord is reported as sent only if every step of its script was answered
/// well.
pub proof fn law_sent_chord_ran_its_whole_script(
    device: XtestDevice,
    chord: PasteChord,
    outcomes: Seq<Result<(), KeyFaultView>>,
)
    requires
        pending_action(chord_at(device, chord, outcomes, outcomes.len() as int)) matches
            ChordActionView::Finish(Ok(_)),
    ensures
        outcomes.len() >= device.script(chord).len(),
        forall|j: int| 0 <= j < device.script(chord).len() ==> (#[trigger] outcomes[j]) is Ok,
{
    lemma_run_inv(device, chord, outcomes, outcomes.len() as int);
    lemma_whole_script(device, chord, outcomes, outcomes.len() as int);
}

proof fn lemma_whole_script(
    device: XtestDevice,
    chord: PasteChord,
    outcomes: Seq<Result<(), KeyFaultView>>,
    n: int,
)
    requires
        0 <= n <= outcomes.len(),
        chord_at(device, chord, outcomes, n).stage != ChordStage::Operating,
        chord_at(device, chord, outcomes, n).failure is None,
    ensures
        n >= device.script(chord).len(),
        forall|j: int| 0 <= j < device.script(chord).len() ==> (#[trigger] outcomes[j]) is Ok,
    decreases n,
{
    lemma_run_inv(device, chord, outcomes, n);
    if n == 0 {
    } else {
        lemma_run_inv(device, chord, outcomes, n - 1);
        if chord_at(device, chord, outcomes, n - 1).stage == ChordStage::Operating {
            lemma_operating_position(device, chord, outcomes, n - 1);
        } else {
            lemma_whole_script(device, chord, outcomes, n - 1);
        }
    }
}

/// The release of `keycode` is under way at some point after `k` and before
/// `n`.
pub open spec fn release_requested(
    device: XtestDevice,
    chord: PasteChord,
    outcomes: Seq<Result<(), KeyFaultView>>,
    keycode: u8,
    k: int,
    n: int,
) -> bool {
    exists|j: int|
        k < j < n && #[trigger] pending_action(chord_at(device, chord, outcomes, j)) == (
        ChordActionView::Release { keycode })
}

proof fn lemma_press_is_covered(
    device: XtestDevice,
    chord: PasteChord,
    outcomes: Seq<Result<(), KeyFaultView>>,
    keycode: u8,
    k: int,
    n: int,
)
    requires
        0 <= k <= n <= outcomes.len(),
        pending_action(chord_at(device, chord, outcomes, k)) == (ChordActionView::Press {
            keycode,
        }),
    ensures
        ({
            let s = chord_at(device, chord, outcomes, n);
            ||| release_requested(device, chord, outcomes, keycode, k, n)
            ||| s.stage == ChordStage::Operating && s.held.contains(keycode)
            ||| s.stage == ChordStage::Cleaning && s.pending.contains(keycode)
        }),
    decreases n - k,
{
    lemma_run_inv(device, chord, outcomes, n);
    let s = chord_at(device, chord, outcomes, n);
    if n == k {
        if k == 0 {
            assert(outcomes.take(0) =~= Seq::empty());
        }
        assert(s.held.last() == keycode);
        assert(s.held.contains(keycode));
    } else {
        lemma_press_is_covered(device, chord, outcomes, keycode, k, n - 1);
        lemma_run_inv(device, chord, outcomes, n - 1);
        let b = chord_at(device, chord, outcomes, n - 1);
        let outcome = outcomes[n - 1];
        let a = absorb(b, outcome);
        if release_requested(device, chord, outcomes, keycode, k, n - 1) {
            let j = choose|j: int|
                k < j < n - 1 && #[trigger] pending_action(chord_at(device, chord, outcomes, j))
                    == (ChordActionView::Release { keycode });
            assert(k < j < n);
        } else if pending_action(b) == (ChordActionView::Release { keycode }) {
            assert(n - 1 != k);
        } else if b.stage == ChordStage::Operating {
            match b.script[b.position] {
                ChordStep::Release { keycode: other, .. } => {
                    lemma_without_contains(b.held, other, keycode);
                },
                _ => {},
            }
            assert(a.held.contains(keycode));
            if s.stage == ChordStage::Operating {
                let i = choose|i: int| 0 <= i < a.held.len() && a.held[i] == keycode;
                assert(s.held[i] == keycode);
            }
        } else {
            let i = choose|i: int| 0 <= i < b.pending.len() && b.pending[i] == keycode;
            assert(i < b.pending.len() - 1);
            assert(a.pending[i] == keycode);
        }
    }
}

/// Whatever the server answers, a finished run has asked for the release of
/// every key that it asked to press, after that press.
pub proof fn law_every_pressed_key_gets_a_release(
    device: XtestDevice,
    chord: PasteChord,
    outcomes: Seq<Result<(), KeyFaultView>>,
    keycode: u8,
    k: int,
)
    requires
        0 <= k <= outcomes.len(),
        pending_action(chord_at(device, chord, outcomes, k)) == (ChordActionView::Press {
            keycode,
        }),
        pending_action(chord_at(device, chord, outcomes, outcomes.len() as int))
            is Finish,
    ensures
        release_requested(device, chord, outcomes, keycode, k, outcomes.len() as int),
{
    lemma_press_is_covered(device, chord, outcomes, keycode, k, outcomes.len() as int);
}

/// A number that every answer makes smaller, until the run has finished.
pub open spec fn chord_remaining(s: ChordView) -> int {
    match s.stage {
        ChordStage::Operating => 2 * s.script.len() + 4 + (s.script.len() - s.position),
        ChordStage::Cleaning => s.script.len() + 2 + s.pending.len() as int,
        ChordStage::Dropping => 1 + s.pending.len() as int,
        ChordStage::Finished => 0,
    }
}

proof fn lemma_remaining_decreases(s: ChordView, outcome: Result<(), KeyFaultView>)
    requires
        chord_inv(s),
        s.stage != ChordStage::Finished,
    ensures
        0 <= chord_remaining(chord_advance(s, outcome)) < chord_remaining(s),
{
    lemma_advance_inv(s, outcome);
    let a = absorb(s, outcome);
    if s.stage == ChordStage::Cleaning {
        lemma_absorb_cleaning(s, outcome);
    }
    if s.stage == ChordStage::Operating {
        match s.script[s.position] {
            ChordStep::Release { keycode, .. } => {
                lemma_without_contains(s.held, keycode, 0);
            },
            _ => {},
        }
    }
}

/// Every run finishes, after at most three answers per step of the script and
/// four more.
pub proof fn law_every_chord_run_finishes(
    device: XtestDevice,
    chord: PasteChord,
    outcomes: Seq<Result<(), KeyFaultView>>,
)
    requires
        outcomes.len() >= 3 * device.script(chord).len() + 4,
    ensures
        pending_action(chord_at(device, chord, outcomes, outcomes.len() as int)) is Finish,
{
    lemma_remaining_bound(device, chord, outcomes, outcomes.len() as int);
    lemma_run_inv(device, chord, outcomes, outcomes.len() as int);
}

proof fn lemma_remaining_bound(
    device: XtestDevice,
    chord: PasteChord,
    outcomes: Seq<Result<(), KeyFaultView>>,
    n: int,
)
    requires
        0 <= n <= outcomes.len(),
    ensures
        ({
            let s = chord_at(device, chord, outcomes, n);
            s.stage == ChordStage::Finished || chord_remaining(s) + n <= 3 * device.script(
                chord,
            ).len() + 4
        }),
    decreases n,
{
    lemma_run_inv(device, chord, outcomes, n);
    if n == 0 {
        assert(outcomes.take(0) =~= Seq::empty());
    } else {
        lemma_remaining_bound(device, chord, outcomes, n - 1);
        lemma_run_inv(device, chord, outcomes, n - 1);
        let b = chord_at(device, chord, outcomes, n - 1);
        if b.stage != ChordStage::Finished {
            lemma_remaining_decreases(b, outcomes[n - 1]);
        }
    }
}

/// The step at `i` presses `k` and no step after it and before `n` releases `k`.
pub open spec fn pressed_until(script: Seq<ChordStep>, k: u8, i: int, n: int) -> bool {
    &&& script[i] matches ChordStep::Press { keycode, .. }
    &&& keycode == k
    &&& forall|j: int|
        i < j < n ==> !(#[trigger] script[j] matches ChordStep::Release { keycode, .. } && keycode
            == k)
}

proof fn lemma_good_answers(
    device: XtestDevice,
    chord: PasteChord,
    outcomes: Seq<Result<(), KeyFaultView>>,
    n: int,
)
    requires
        0 <= n < device.script(chord).len() == outcomes.len(),
        forall|j: int| 0 <= j < outcomes.len() ==> (#[trigger] outcomes[j]) is Ok,
    ensures
        ({
            let s = chord_at(device, chord, outcomes, n);
            &&& s.stage == ChordStage::Operating
            &&& s.position == n
            &&& forall|k: u8| #[trigger]
                s.held.contains(k) ==> exists|i: int|
                    0 <= i <= n && #[trigger] pressed_until(s.script, k, i, n)
        }),
    decreases n,
{
    lemma_run_inv(device, chord, outcomes, n);
    let s = chord_at(device, chord, outcomes, n);
    if n == 0 {
        assert(outcomes.take(0) =~= Seq::empty());
        assert forall|k: u8| #[trigger] s.held.contains(k) implies exists|i: int|
            0 <= i <= n && #[trigger] pressed_until(s.script, k, i, n) by {
            assert(pressed_until(s.script, k, 0, 0));
        }
    } else {
        lemma_good_answers(device, chord, outcomes, n - 1);
        lemma_run_inv(device, chord, outcomes, n - 1);
        let b = chord_at(device, chord, outcomes, n - 1);
        let a = absorb(b, outcomes[n - 1]);
        assert(outcomes[n - 1] is Ok);
        assert forall|k: u8| #[trigger] s.held.contains(k) implies exists|i: int|
            0 <= i <= n && #[trigger] pressed_until(s.script, k, i, n) by {
            if a.held.contains(k) {
                lemma_held_origin(b, outcomes[n - 1], k);
                assert(b.held.contains(k));
                let i = choose|i: int|
                    0 <= i <= n - 1 && #[trigger] pressed_until(b.script, k, i, n - 1);
                assert(pressed_until(s.script, k, i, n));
            } else {
                let m = choose|m: int| 0 <= m < s.held.len() && s.held[m] == k;
                if m < a.held.len() {
                    assert(a.held[m] == k);
                }
                assert(pressed_until(s.script, k, n, n));
            }
        }
    }
}

/// A key that is held after a good answer was held before it, and the answered
/// step did not release it.
proof fn lemma_held_origin(b: ChordView, outcome: Result<(), KeyFaultView>, k: u8)
    requires
        b.stage == ChordStage::Operating,
        outcome is Ok,
        absorb(b, outcome).held.contains(k),
    ensures
        b.held.contains(k),
        !(b.script[b.position] matches ChordStep::Release { keycode, .. } && keycode == k),
{
    match b.script[b.position] {
        ChordStep::Release { keycode, .. } => {
            lemma_without_contains(b.held, keycode, k);
        },
        _ => {},
    }
}

/// Each press of the script stands before a release of the same key, which is not
/// the last step.
proof fn lemma_each_press_has_its_release(
    device: XtestDevice,
    chord: PasteChord,
    k: u8,
    i: int,
)
    requires
        0 <= i < device.script(chord).len(),
    ensures
        !pressed_until(device.script(chord), k, i, device.script(chord).len() - 1),
{
    let script = device.script(chord);
    if pressed_until(script, k, i, script.len() - 1) {
        if chord == PasteChord::CtrlV {
            let j: int = if i == 0 { 5 } else { 4 };
            assert(script[j] matches ChordStep::Release { keycode, .. } && keycode == k);
        } else {
            let j: int = if i == 0 { 8 } else if i == 2 { 7 } else { 6 };
            assert(script[j] matches ChordStep::Release { keycode, .. } && keycode == k);
        }
    }
}

/// A server that answers every step of the script well gets the whole chord, V
/// included, and the run is then over.
pub proof fn law_good_answers_send_the_chord(
    device: XtestDevice,
    chord: PasteChord,
    outcomes: Seq<Result<(), KeyFaultView>>,
)
    requires
        outcomes.len() == device.script(chord).len(),
        forall|j: int| 0 <= j < outcomes.len() ==> (#[trigger] outcomes[j]) is Ok,
    ensures
        pending_action(chord_at(device, chord, outcomes, outcomes.len() as int)) == (
        ChordActionView::Finish(Ok(()))),
        chord_at(device, chord, outcomes, outcomes.len() as int).sent,
{
    let n = outcomes.len() as int;
    lemma_good_answers(device, chord, outcomes, n - 1);
    lemma_run_inv(device, chord, outcomes, n - 1);
    lemma_run_inv(device, chord, outcomes, n);
    let b = chord_at(device, chord, outcomes, n - 1);
    let s = chord_at(device, chord, outcomes, n);
    let a = absorb(b, outcomes[n - 1]);
    let v: int = if chord == PasteChord::CtrlV { 2 } else { 4 };
    assert(s.script[v].dispatches_paste());
    assert(outcomes[n - 1] is Ok);
    if a.held.len() > 0 {
        let k = a.held[0];
        assert(a.held.contains(k));
        lemma_held_origin(b, outcomes[n - 1], k);
        let i = choose|i: int| 0 <= i <= n - 1 && #[trigger] pressed_until(b.script, k, i, n - 1);
        lemma_each_press_has_its_release(device, chord, k, i);
    }
}

// ---------------------------------------------------------------------------
// The requests of a run
// ---------------------------------------------------------------------------
/// The request that a step of the script makes.
pub open spec fn step_action(step: ChordStep) -> ChordActionView {
    match step {
        ChordStep::Press { keycode, .. } => ChordActionView::Press { keycode },
        ChordStep::Await { keycode, pressed } => ChordActionView::Await { keycode, pressed },
        ChordStep::Release { keycode, .. } => ChordActionView::Release { keycode },
    }
}

proof fn lemma_finished_stays(
    device: XtestDevice,
    chord: PasteChord,
    outcomes: Seq<Result<(), KeyFaultView>>,
    k: int,
    n: int,
)
    requires
        0 <= k <= n <= outcomes.len(),
        chord_at(device, chord, outcomes, k).stage == ChordStage::Finished,
    ensures
        chord_at(device, chord, outcomes, n) == chord_at(device, chord, outcomes, k),
    decreases n - k,
{
    if k < n {
        lemma_finished_stays(device, chord, outcomes, k, n - 1);
        lemma_run_inv(device, chord, outcomes, n);
    }
}

/// A run that succeeded made exactly the requests of its script, one after the
/// other, and none after them.
pub proof fn law_sent_chord_requests_its_script_and_no_more(
    device: XtestDevice,
    chord: PasteChord,
    outcomes: Seq<Result<(), KeyFaultView>>,
    j: int,
)
    requires
        pending_action(chord_at(device, chord, outcomes, outcomes.len() as int)) matches
            ChordActionView::Finish(Ok(_)),
        0 <= j <= outcomes.len(),
    ensures
        pending_action(chord_at(device, chord, outcomes, j)) == if j < device.script(chord).len() {
            step_action(device.script(chord)[j])
        } else {
            ChordActionView::Finish(Ok(()))
        },
{
    law_sent_chord_ran_its_whole_script(device, chord, outcomes);
    let len = device.script(chord).len() as int;
    let first = outcomes.take(len);
    assert(forall|i: int| 0 <= i < len ==> (#[trigger] first[i]) == outcomes[i]);
    if j < len {
        lemma_good_answers(device, chord, first, j);
        assert(first.take(j) =~= outcomes.take(j));
        lemma_run_inv(device, chord, outcomes, j);
    } else {
        law_good_answers_send_the_chord(device, chord, first);
        assert(first.take(len) =~= outcomes.take(len));
        lemma_run_inv(device, chord, outcomes, len);
        lemma_finished_stays(device, chord, outcomes, len, j);
    }
}

/// The keys that the first `n` steps of `script` have pressed and not released, in
/// the order in which they were pressed.
pub open spec fn keys_left_down(script: Seq<ChordStep>, n: int) -> Seq<u8>
    decreases n,
{
    if n <= 0 {
        Seq::empty()
    } else {
        match script[n - 1] {
            ChordStep::Press { keycode, .. } => keys_left_down(script, n - 1).push(keycode),
            ChordStep::Release { keycode, .. } => without(keys_left_down(script, n - 1), keycode),
            ChordStep::Await { .. } => keys_left_down(script, n - 1),
        }
    }
}

/// The keys that may be down when the step at `k` fails: those that the steps
/// before it left down, and the key that it was to press.
pub open spec fn keys_at_risk(script: Seq<ChordStep>, k: int) -> Seq<u8> {
    match script[k] {
        ChordStep::Press { keycode, .. } => keys_left_down(script, k).push(keycode),
        _ => keys_left_down(script, k),
    }
}

/// The keys that are still held once the last `count` of `held` have been asked to
/// be released, the last one first, with these answers.
pub open spec fn still_held(
    held: Seq<u8>,
    answers: Seq<Result<(), KeyFaultView>>,
    count: int,
) -> Seq<u8>
    decreases count,
{
    if count <= 0 {
        held
    } else {
        let before = still_held(held, answers, count - 1);
        if answers[count - 1] is Ok {
            without(before, held[held.len() - count])
        } else {
            before
        }
    }
}

/// Where a run stands while every answer was good.
pub proof fn lemma_good_prefix(
    device: XtestDevice,
    chord: PasteChord,
    outcomes: Seq<Result<(), KeyFaultView>>,
    k: int,
)
    requires
        0 <= k < device.script(chord).len(),
        k <= outcomes.len(),
        forall|j: int| 0 <= j < k ==> (#[trigger] outcomes[j]) is Ok,
    ensures
        ({
            let s = chord_at(device, chord, outcomes, k);
            &&& s.stage == ChordStage::Operating
            &&& s.position == k
            &&& s.script == device.script(chord)
            &&& s.held == keys_at_risk(s.script, k)
        }),
    decreases k,
{
    lemma_run_inv(device, chord, outcomes, k);
    if k == 0 {
        assert(outcomes.take(0) =~= Seq::empty());
    } else {
        lemma_good_prefix(device, chord, outcomes, k - 1);
        assert(outcomes[k - 1] is Ok);
    }
}

proof fn lemma_still_held_within(
    held: Seq<u8>,
    answers: Seq<Result<(), KeyFaultView>>,
    count: int,
    key: u8,
)
    requires
        still_held(held, answers, count).contains(key),
    ensures
        held.contains(key),
    decreases count,
{
    if count > 0 {
        let before = still_held(held, answers, count - 1);
        lemma_without_contains(before, held[held.len() - count], key);
        lemma_still_held_within(held, answers, count - 1, key);
    }
}

/// Where a run stands once `m` answers have followed a failed step, where the keys
/// `held` may be down: at the release of one of them, at the last attempt on one
/// that is left, or at its end.
pub open spec fn cleaning_up(
    s: ChordView,
    held: Seq<u8>,
    answers: Seq<Result<(), KeyFaultView>>,
    m: int,
) -> bool {
    let left = still_held(held, answers, held.len() as int);
    &&& s.failure is Some
    &&& if m < held.len() {
        &&& s.stage == ChordStage::Cleaning
        &&& s.pending == held.take(held.len() - m)
        &&& s.held == still_held(held, answers, m)
    } else if m < held.len() + left.len() {
        &&& s.stage == ChordStage::Dropping
        &&& s.pending == left.take(left.len() - (m - held.len()))
    } else {
        s.stage == ChordStage::Finished
    }
}

proof fn lemma_cleanup_begins(
    s: ChordView,
    outcome: Result<(), KeyFaultView>,
    answers: Seq<Result<(), KeyFaultView>>,
)
    requires
        s.stage == ChordStage::Operating,
        outcome is Err,
    ensures
        cleaning_up(chord_advance(s, outcome), s.held, answers, 0),
{
    assert(s.held.take(s.held.len() as int) =~= s.held);
}

proof fn lemma_cleanup_goes_on(
    s: ChordView,
    outcome: Result<(), KeyFaultView>,
    held: Seq<u8>,
    answers: Seq<Result<(), KeyFaultView>>,
    m: int,
)
    requires
        cleaning_up(s, held, answers, m),
        0 <= m < answers.len(),
        answers[m] == outcome,
    ensures
        cleaning_up(chord_advance(s, outcome), held, answers, m + 1),
{
    let left = still_held(held, answers, held.len() as int);
    let a = absorb(s, outcome);
    if m < held.len() {
        assert(s.pending.last() == held[held.len() - (m + 1)]);
        assert(a.pending =~= held.take(held.len() - (m + 1)));
        assert(a.held == still_held(held, answers, m + 1));
        if m + 1 == held.len() {
            assert(left.take(left.len() as int) =~= left);
        }
    } else if m < held.len() + left.len() {
        assert(a.pending =~= left.take(left.len() - (m + 1 - held.len())));
    }
}

/// Where a run stands after a failed step.
pub proof fn lemma_cleanup_state(
    device: XtestDevice,
    chord: PasteChord,
    outcomes: Seq<Result<(), KeyFaultView>>,
    k: int,
    m: int,
)
    requires
        0 <= k < device.script(chord).len(),
        0 <= m,
        k + 1 + m <= outcomes.len(),
        forall|j: int| 0 <= j < k ==> (#[trigger] outcomes[j]) is Ok,
        outcomes[k] is Err,
    ensures
        cleaning_up(
            chord_at(device, chord, outcomes, k + 1 + m),
            keys_at_risk(device.script(chord), k),
            outcomes.skip(k + 1),
            m,
        ),
    decreases m,
{
    let held = keys_at_risk(device.script(chord), k);
    let answers = outcomes.skip(k + 1);
    let before = chord_at(device, chord, outcomes, k + m);
    lemma_run_inv(device, chord, outcomes, k + 1 + m);
    if m == 0 {
        lemma_good_prefix(device, chord, outcomes, k);
        lemma_cleanup_begins(before, outcomes[k], answers);
    } else {
        lemma_cleanup_state(device, chord, outcomes, k, m - 1);
        lemma_cleanup_goes_on(before, outcomes[k + m], held, answers, m - 1);
    }
}

/// After the first failed step, whatever the answers, the keys that may be down are
/// asked to be released, the key pressed last first; then those of them that this
/// did not release are asked once more, in the same order; and then the run is over
/// and reports the failure. No other key is released and none is pressed.
pub proof fn law_failed_chord_releases_in_reverse_order(
    device: XtestDevice,
    chord: PasteChord,
    outcomes: Seq<Result<(), KeyFaultView>>,
    k: int,
    m: int,
)
    requires
        0 <= k < device.script(chord).len(),
        0 <= m,
        k + 1 + m <= outcomes.len(),
        forall|j: int| 0 <= j < k ==> (#[trigger] outcomes[j]) is Ok,
        outcomes[k] is Err,
    ensures
        ({
            let action = pending_action(chord_at(device, chord, outcomes, k + 1 + m));
            let held = keys_at_risk(device.script(chord), k);
            let left = still_held(held, outcomes.skip(k + 1), held.len() as int);
            &&& if m < held.len() {
                action == (ChordActionView::Release { keycode: held[held.len() - 1 - m] })
            } else if m < held.len() + left.len() {
                action == (ChordActionView::Release {
                    keycode: left[left.len() - 1 - (m - held.len())],
                })
            } else {
                action matches ChordActionView::Finish(Err(_))
            }
            &&& forall|key: u8| #[trigger] left.contains(key) ==> held.contains(key)
        }),
{
    let held = keys_at_risk(device.script(chord), k);
    let answers = outcomes.skip(k + 1);
    let left = still_held(held, answers, held.len() as int);
    lemma_cleanup_state(device, chord, outcomes, k, m);
    assert forall|key: u8| #[trigger] left.contains(key) implies held.contains(key) by {
        lemma_still_held_within(held, answers, held.len() as int, key);
    }
}

/// The keys that may be down when a step fails are keys of the chord that an
/// earlier step, or this one, was to press.
pub proof fn law_only_pressed_keys_are_at_risk(
    device: XtestDevice,
    chord: PasteChord,
    k: int,
    key: u8,
)
    requires
        0 <= k < device.script(chord).len(),
        keys_at_risk(device.script(chord), k).contains(key),
    ensures
        exists|i: int|
            0 <= i <= k && #[trigger] step_action(device.script(chord)[i]) == (
            ChordActionView::Press { keycode: key }),
{
    let script = device.script(chord);
    let held = keys_at_risk(script, k);
    if step_action(script[k]) != (ChordActionView::Press { keycode: key }) {
        let i = choose|i: int| 0 <= i < held.len() && held[i] == key;
        assert(keys_left_down(script, k)[i] == key);
        lemma_left_down_was_pressed(script, k, key);
    }
}

proof fn lemma_left_down_was_pressed(script: Seq<ChordStep>, n: int, key: u8)
    requires
        keys_left_down(script, n).contains(key),
    ensures
        exists|i: int|
            0 <= i < n && #[trigger] step_action(script[i]) == (ChordActionView::Press {
                keycode: key,
            }),
    decreases n,
{
    if n > 0 {
        let before = keys_left_down(script, n - 1);
        match script[n - 1] {
            ChordStep::Press { keycode, .. } => {
                if keycode == key {
                    assert(step_action(script[n - 1]) == (ChordActionView::Press { keycode: key }));
                } else {
                    let all = keys_left_down(script, n);
                    let i = choose|i: int| 0 <= i < all.len() && all[i] == key;
                    assert(before[i] == key);
                    lemma_left_down_was_pressed(script, n - 1, key);
                }
            },
            ChordStep::Release { keycode, .. } => {
                lemma_without_contains(before, keycode, key);
                lemma_left_down_was_pressed(script, n - 1, key);
            },
            ChordStep::Await { .. } => {
                lemma_left_down_was_pressed(script, n - 1, key);
            },
        }
    }
}

} // verus!
