//! The xdotool fallback: how it is called, and what its exit says.

use vstd::prelude::*;

use crate::input_simulator::{PasteChord, PasteFailure};
use crate::text::{concat2, text_from_utf8_lossy};

verus! {

use crate::input_simulator::{paste_outcome, FailureView};
use crate::text::{lossy_text, texts, trimmed};

/// The program that is run.
pub const XDOTOOL: &'static str = "xdotool";

/// The delay between keys, in milliseconds. It is kept only for the last-resort
/// xdotool fallback: the primary XTest path verifies the actual key state and
/// needs no fixed inter-key delay.
pub const XDOTOOL_KEY_DELAY_MS: &'static str = "50";

/// What is known of a run of xdotool.
#[derive(Debug)]
pub enum XdotoolExit {
    /// The program could not be started.
    NotStarted(String),
    /// The program ran to its end.
    Ended { success: bool, stderr: Vec<u8> },
}

/// How xdotool calls a chord.
pub open spec fn xdotool_key(chord: PasteChord) -> Seq<char> {
    match chord {
        PasteChord::CtrlV => "ctrl+v"@,
        PasteChord::CtrlShiftV => "ctrl+shift+v"@,
    }
}

/// The arguments that have xdotool send a chord.
pub fn xdotool_arguments(chord: PasteChord) -> (r: Vec<String>)
    ensures
        texts(r@) == seq!["key"@, "--delay"@, "50"@, "--clearmodifiers"@, xdotool_key(chord)],
{
    let key: &'static str = match chord {
        PasteChord::CtrlV => "ctrl+v",
        PasteChord::CtrlShiftV => "ctrl+shift+v",
    };
    let mut arguments: Vec<String> = Vec::new();
    arguments.push("key".to_string());
    arguments.push("--delay".to_string());
    arguments.push(XDOTOOL_KEY_DELAY_MS.to_string());
    arguments.push("--clearmodifiers".to_string());
    arguments.push(key.to_string());
    proof {
        assert(texts(arguments@) =~= seq![
            "key"@,
            "--delay"@,
            "50"@,
            "--clearmodifiers"@,
            xdotool_key(chord),
        ]);
    }
    arguments
}

/// What a failed run of xdotool is reported as, from the text that it wrote to
/// its error stream.
pub fn xdotool_failure(stderr: &str) -> (r: PasteFailure)
    ensures
        r@ == FailureView::Ambiguous("xdotool failed: "@ + trimmed(stderr@)),
{
    PasteFailure::Ambiguous(concat2("xdotool failed: ", stderr.trim()))
}

/// Judges a run of xdotool. Once the process has started, a failing exit status
/// cannot prove that it emitted no input, so only a program that never started
/// leaves room for another backend.
pub fn simulate_paste_xdotool(exit: XdotoolExit) -> (r: Result<(), PasteFailure>)
    ensures
        paste_outcome(r) == match exit {
            XdotoolExit::NotStarted(e) => Err(
                FailureView::Retryable("Failed to start xdotool: "@ + e@),
            ),
            XdotoolExit::Ended { success: true, .. } => Ok(()),
            XdotoolExit::Ended { success: false, stderr } => Err(
                FailureView::Ambiguous("xdotool failed: "@ + trimmed(lossy_text(stderr@))),
            ),
        },
{
    match exit {
        XdotoolExit::NotStarted(error) => Err(
            PasteFailure::Retryable(concat2("Failed to start xdotool: ", error.as_str())),
        ),
        XdotoolExit::Ended { success, stderr } => if success {
            Ok(())
        } else {
            let text = text_from_utf8_lossy(stderr.as_slice());
            Err(xdotool_failure(text.as_str()))
        },
    }
}

} // verus!
