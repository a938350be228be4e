use teach::latexdoc::make_preview_sheet;
use teach::course_items::SheetConfig;
use teach::preview::{preview_search_path, LogReport, PreviewAction, PreviewLoop, MAX_PASSES, PREVIEW_PDF};

fn report(citations: usize, references: usize) -> LogReport {
    LogReport { errors: 0, warnings: 0, missing_citations: citations, missing_references: references }
}

fn count_passes(reports: &[LogReport]) -> usize {
    let mut lp = PreviewLoop::new();
    let mut runs = 0;
    loop {
        match lp.next() {
            PreviewAction::Compile { pass } => {
                runs += 1;
                assert_eq!(pass as usize, runs);
                lp.record(&reports[runs - 1]);
            }
            PreviewAction::OpenViewer => return runs,
        }
    }
}

#[test]
fn preview_stops_after_first_pass_when_nothing_is_missing() {
    assert_eq!(count_passes(&[report(0, 0)]), 1);
}

#[test]
fn preview_runs_twice_when_references_are_missing() {
    assert_eq!(count_passes(&[report(0, 3), report(0, 0)]), 2);
    assert_eq!(count_passes(&[report(1, 0), report(0, 0)]), 2);
}

#[test]
fn preview_never_runs_a_third_pass() {
    assert_eq!(count_passes(&[report(2, 2), report(2, 2), report(2, 2)]), 2);
    assert_eq!(MAX_PASSES, 2);
}

#[test]
fn empty_log_report_counts_as_converged() {
    let r = LogReport::empty();
    assert!(r.is_converged());
    assert!(!report(0, 1).is_converged());
}

#[test]
fn preview_search_path_ends_with_separator() {
    assert_eq!(preview_search_path("/c/problems", "/c/include"), "/c/problems:/c/include:");
    assert_eq!(PREVIEW_PDF, "texput.pdf");
}

#[test]
fn preview_document_holds_problem_and_solution() {
    let doc = make_preview_sheet("fermat", &SheetConfig::default());
    assert_eq!(doc.author, "preview");
    assert_eq!(doc.title, "fermat Preview");
    let text = doc.render();
    let expected = "\\documentclass{article}\n\\date{}\n\n\\title{fermat Preview}\n\\author{preview}\n\\begin{document}\n\\maketitle\n\\begin{enumerate}\n\\item\\input{fermat/problem.tex}\n\\vspace*{2em}\\hrule\n\n\\textbf{Solution}\\par\n\\input{fermat/solution.tex}\n\\end{enumerate}\n\\end{document}\n";
    assert_eq!(text, expected);
}

