//! The decisions of one assembly request.
//!
//! The assembler itself runs outside this library. A request goes through
//! its phases as a state machine: the caller performs the action that a step
//! returns (run a phase, render the output, print the diagnostics) and hands
//! back what happened as the next event. Whatever text comes out at the end,
//! an encoding or the diagnostics, is delivered in a new buffer.
use vstd::prelude::*;
use crate::formats::{OutputFormat, RenderRequest, request_of};
use crate::strings::{StringTable, wasm_string_new_with};

verus! {

/// The name under which the source is handed to the assembler.
pub const SOURCE_NAME: &'static str = "asm";

/// Where a request stands.
#[derive(Clone, Copy, Debug, PartialEq, Eq, Structural)]
pub enum Stage {
    /// The assembler processes the source file.
    Processing,
    /// The assembler finalizes its output.
    WrappingUp,
    /// Both phases succeeded; the output is being rendered.
    Rendering,
    /// A phase failed; the diagnostics are being printed.
    Reporting,
    /// The resulting text has been delivered.
    Finished,
}

/// What happened to the action that was asked for.
#[derive(Clone, Copy, Debug, PartialEq, Eq, Structural)]
pub enum Event {
    /// The source file was processed without error.
    Processed,
    /// The output was finalized; it holds `artifact_len` bytes.
    WrappedUp { artifact_len: usize },
    /// The phase under way failed.
    Failed,
}

/// What the caller is to do next.
#[derive(Clone, Copy, Debug, PartialEq, Eq, Structural)]
pub enum Action {
    /// Run the finalization phase.
    Wrapup,
    /// Render the output as the request says.
    Render(RenderRequest),
    /// Print every diagnostic that the phases reported.
    PrintReport,
    /// Nothing: the event does not belong to the current stage.
    Idle,
}

/// One request: its output format and how far it has gone.
#[derive(Clone, Copy, Debug, PartialEq, Eq, Structural)]
pub struct AssembleRun {
    pub format: OutputFormat,
    pub stage: Stage,
}

/// The stage and action that follow `event` in stage `stage`.
pub open spec fn transition(stage: Stage, format: OutputFormat, event: Event) -> (Stage, Action) {
    match (stage, event) {
        (Stage::Processing, Event::Processed) => (Stage::WrappingUp, Action::Wrapup),
        (Stage::WrappingUp, Event::WrappedUp { artifact_len }) => (
            Stage::Rendering,
            Action::Render(request_of(format, artifact_len)),
        ),
        (Stage::Processing, Event::Failed) | (Stage::WrappingUp, Event::Failed) => (
            Stage::Reporting,
            Action::PrintReport,
        ),
        _ => (stage, Action::Idle),
    }
}

/// Whether the text of a request in stage `stage` is ready to deliver.
pub open spec fn awaits_text(stage: Stage) -> bool {
    stage is Rendering || stage is Reporting
}

impl AssembleRun {
    /// A request for output in `format`; its first action is to process the
    /// source file named `SOURCE_NAME`.
    pub fn new(format: OutputFormat) -> (r: AssembleRun)
        ensures
            r.format == format,
            r.stage == Stage::Processing,
    {
        AssembleRun { format, stage: Stage::Processing }
    }

    /// Takes in `event` and returns the next action.
    pub fn step(&mut self, event: Event) -> (a: Action)
        ensures
            final(self).format == old(self).format,
            (final(self).stage, a) == transition(old(self).stage, old(self).format, event),
    {
        match (self.stage, event) {
            (Stage::Processing, Event::Processed) => {
                self.stage = Stage::WrappingUp;
                Action::Wrapup
            },
            (Stage::WrappingUp, Event::WrappedUp { artifact_len }) => {
                self.stage = Stage::Rendering;
                Action::Render(self.format.request(artifact_len))
            },
            (Stage::Processing, Event::Failed) | (Stage::WrappingUp, Event::Failed) => {
                self.stage = Stage::Reporting;
                Action::PrintReport
            },
            _ => Action::Idle,
        }
    }

    /// Whether the result is an encoding of the output rather than the
    /// diagnostics of a failed phase.
    pub fn succeeded(&self) -> (r: bool)
        ensures
            r == (self.stage is Rendering),
    {
        self.stage == Stage::Rendering
    }

    /// Delivers `text`, the rendered output or the printed diagnostics, in a
    /// new buffer and returns its handle.
    pub fn finish(&mut self, strings: &mut StringTable, text: Vec<u8>) -> (h: u32)
        requires
            awaits_text(old(self).stage),
            old(strings).wf(),
            old(strings).has_room(),
            text@.len() <= u32::MAX as nat,
        ensures
            final(self).format == old(self).format,
            final(self).stage == Stage::Finished,
            final(strings).wf(),
            old(strings).is_lowest_free(h),
            final(strings)@ == old(strings)@.insert(h, text@),
    {
        self.stage = Stage::Finished;
        wasm_string_new_with(strings, text)
    }
}

/// Whatever the format, a failure of either phase leads to the diagnostics
/// and never to a rendering of the output.
pub proof fn lemma_failure_reports(stage: Stage, format: OutputFormat)
    requires
        stage is Processing || stage is WrappingUp,
    ensures
        transition(stage, format, Event::Failed) == (Stage::Reporting, Action::PrintReport),
{
}

/// A request that gets through both phases renders the whole output in the
/// format it was made with.
pub proof fn lemma_success_renders(format: OutputFormat, artifact_len: usize)
    ensures
        ({
            let (s1, a1) = transition(Stage::Processing, format, Event::Processed);
            let (s2, a2) = transition(s1, format, Event::WrappedUp { artifact_len });
            &&& a1 == Action::Wrapup
            &&& s2 == Stage::Rendering
            &&& a2 == Action::Render(request_of(format, artifact_len))
        }),
{
}

} // verus!
