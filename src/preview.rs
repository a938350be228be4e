//! The decisions of a preview session: the document and search path handed
//! to the engine, and how many engine passes to run. Each pass after the
//! first runs only when the previous log still reports missing citations or
//! references, and never more than two run.
use vstd::prelude::*;

verus! {

/// The most engine passes that one preview runs.
pub const MAX_PASSES: u32 = 2;

/// The file that the engine writes when it reads its input from standard
/// input without a job name; the viewer opens it.
pub const PREVIEW_PDF: &'static str = "texput.pdf";

/// The counts read from one engine log. A log that cannot be read counts
/// as all zero.
#[derive(Debug, Clone, Copy, PartialEq, Eq, Structural)]
pub struct LogReport {
    pub errors: usize,
    pub warnings: usize,
    pub missing_citations: usize,
    pub missing_references: usize,
}

/// Nothing is left to resolve.
pub open spec fn converged(report: LogReport) -> bool {
    report.missing_citations == 0 && report.missing_references == 0
}

impl LogReport {
    /// The report of a log that could not be read.
    pub fn empty() -> (r: LogReport)
        ensures
            r.errors == 0,
            r.warnings == 0,
            r.missing_citations == 0,
            r.missing_references == 0,
    {
        LogReport { errors: 0, warnings: 0, missing_citations: 0, missing_references: 0 }
    }

    /// Whether nothing is left to resolve.
    pub fn is_converged(&self) -> (r: bool)
        ensures
            r == converged(*self),
    {
        self.missing_citations == 0 && self.missing_references == 0
    }
}

/// What a preview session does next.
#[derive(Debug, Clone, Copy, PartialEq, Eq, Structural)]
pub enum PreviewAction {
    /// Run the engine for the given pass, counted from 1.
    Compile { pass: u32 },
    /// Open the viewer on the result.
    OpenViewer,
}

/// The state of the compile loop: how many passes have run, and whether
/// the loop is over.
#[derive(Debug, Clone, Copy, PartialEq, Eq, Structural)]
pub struct PreviewLoop {
    pub passes: u32,
    pub finished: bool,
}

impl PreviewLoop {
    /// At most the pass budget has run, and the loop is over once it is
    /// spent.
    pub open spec fn wf(self) -> bool {
        &&& self.passes <= MAX_PASSES
        &&& self.passes == MAX_PASSES ==> self.finished
    }
}

/// The state before any pass.
pub open spec fn initial_loop() -> PreviewLoop {
    PreviewLoop { passes: 0, finished: false }
}

/// The action that a state calls for.
pub open spec fn next_action(s: PreviewLoop) -> PreviewAction {
    if s.finished {
        PreviewAction::OpenViewer
    } else {
        PreviewAction::Compile { pass: (s.passes + 1) as u32 }
    }
}

/// The state after a pass whose log gave `report`: the loop is over when
/// the log reports nothing missing or the budget is spent.
pub open spec fn after_pass(s: PreviewLoop, report: LogReport) -> PreviewLoop {
    PreviewLoop {
        passes: (s.passes + 1) as u32,
        finished: converged(report) || s.passes + 1 >= MAX_PASSES,
    }
}

impl PreviewLoop {
    pub fn new() -> (r: PreviewLoop)
        ensures
            r == initial_loop(),
            r.wf(),
    {
        PreviewLoop { passes: 0, finished: false }
    }

    /// The action that the current state calls for.
    pub fn next(&self) -> (r: PreviewAction)
        requires
            self.wf(),
        ensures
            r == next_action(*self),
    {
        if self.finished {
            PreviewAction::OpenViewer
        } else {
            PreviewAction::Compile { pass: self.passes + 1 }
        }
    }

    /// Takes in the log report of the pass that has just run.
    pub fn record(&mut self, report: &LogReport)
        requires
            old(self).wf(),
            !old(self).finished,
        ensures
            *final(self) == after_pass(*old(self), *report),
            final(self).wf(),
    {
        let passes = self.passes + 1;
        self.passes = passes;
        self.finished = report.is_converged() || passes >= MAX_PASSES;
    }
}

/// The preview loop runs the engine once when the first log reports no
/// missing citation or reference; otherwise it runs it a second time, and
/// then opens the viewer whatever the second log reports.
pub proof fn lemma_preview_passes(first: LogReport, second: LogReport)
    ensures
        next_action(initial_loop()) == (PreviewAction::Compile { pass: 1 }),
        converged(first) ==> next_action(after_pass(initial_loop(), first))
            == PreviewAction::OpenViewer,
        !converged(first) ==> next_action(after_pass(initial_loop(), first)) == (
        PreviewAction::Compile { pass: 2 }),
        !converged(first) ==> next_action(after_pass(after_pass(initial_loop(), first), second))
            == PreviewAction::OpenViewer,
{
}

/// The engine's search path for a preview: the problems directory, then
/// the include directory, each ended by `:`, so that the engine's own
/// search path still follows.
pub open spec fn search_path(problems_dir: Seq<char>, include_dir: Seq<char>) -> Seq<char> {
    problems_dir + ":"@ + include_dir + ":"@
}

/// The value of the engine's search-path variable for a preview.
pub fn preview_search_path(problems_dir: &str, include_dir: &str) -> (r: String)
    ensures
        r@ == search_path(problems_dir@, include_dir@),
{
    let mut s = String::from_str(problems_dir);
    s.append(":");
    s.append(include_dir);
    s.append(":");
    s
}

} // verus!
