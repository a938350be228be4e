use latex::{DocumentClass, Element, ParagraphElement, PreambleElement};
use teach::course_items::{Metadata, SheetConfig};
use teach::latexdoc::{make_coursework_sheet, make_problem_sheet, make_sheet};

fn strings(items: &[&str]) -> Vec<String> {
    items.iter().map(|s| s.to_string()).collect()
}

fn metadata(other: &[(&str, &str)]) -> Metadata {
    Metadata {
        author: "A. Teacher".to_string(),
        other: other.iter().map(|(k, v)| (k.to_string(), v.to_string())).collect(),
    }
}

fn style(class: Option<&str>, mac: Option<&str>, preamble: Option<&str>) -> SheetConfig {
    SheetConfig {
        document_class: class.map(|s| s.to_string()),
        problem_macro: mac.map(|s| s.to_string()),
        include_preamble: preamble.map(|s| s.to_string()),
    }
}

fn preamble_lines(doc: &teach::latexdoc::Document) -> Vec<String> {
    doc.preamble
        .iter()
        .map(|e| match e {
            PreambleElement::UserDefined(s) => s.clone(),
            other => panic!("unexpected preamble entry {:?}", other),
        })
        .collect()
}

fn environments(doc: &teach::latexdoc::Document) -> Vec<(String, Vec<String>)> {
    doc.elements
        .iter()
        .filter_map(|e| match e {
            Element::Environment(n, l) => Some((n.clone(), l.clone())),
            _ => None,
        })
        .collect()
}

#[test]
fn metadata_extras_become_commands_in_order() {
    let md = metadata(&[("k1", "v1"), ("k2", "v2")]);
    let doc = make_problem_sheet("T", "", "2023-24", &md, &strings(&["p"]), &SheetConfig::default());
    let lines = preamble_lines(&doc);
    assert_eq!(lines, strings(&["\\date{2023-24}", "\\k1{v1}", "\\k2{v2}"]));
    let text = doc.render();
    assert_eq!(text.matches("\\k1{v1}\n").count(), 1);
    assert_eq!(text.matches("\\k2{v2}\n").count(), 1);
    assert!(text.find("\\k1{v1}").unwrap() < text.find("\\k2{v2}").unwrap());
}

#[test]
fn document_class_defaults_to_article() {
    let md = metadata(&[]);
    let doc = make_sheet("T", "", "d", &md, &style(None, None, None));
    assert_eq!(doc.class, DocumentClass::Article);
    assert!(doc.render().starts_with("\\documentclass{article}\n"));
}

#[test]
fn document_class_from_style() {
    let md = metadata(&[]);
    let doc = make_sheet("T", "", "d", &md, &style(Some("book"), None, None));
    assert_eq!(doc.class, DocumentClass::Book);
    assert!(doc.render().starts_with("\\documentclass{book}\n"));
    let doc = make_sheet("T", "", "d", &md, &style(Some("exam"), None, None));
    assert_eq!(doc.class, DocumentClass::Other("exam".to_string()));
    assert!(doc.render().starts_with("\\documentclass{exam}\n"));
}

#[test]
fn coursework_pairs_problems_with_marks_and_drops_the_rest() {
    let md = metadata(&[]);
    let doc = make_coursework_sheet(
        "CW",
        "",
        "d",
        &md,
        &strings(&["p1", "p2", "p3"]),
        &vec![5, 10],
        &SheetConfig::default(),
    );
    let envs = environments(&doc);
    assert_eq!(envs.len(), 1);
    assert_eq!(envs[0].0, "enumerate");
    assert_eq!(envs[0].1, strings(&["\\item\\input[5]{p1}", "\\item\\input[10]{p2}"]));
}

#[test]
fn coursework_with_more_marks_than_problems() {
    let md = metadata(&[]);
    let doc = make_coursework_sheet("CW", "", "d", &md, &strings(&["p1"]), &vec![7, 8, 4294967295], &SheetConfig::default());
    assert_eq!(environments(&doc)[0].1, strings(&["\\item\\input[7]{p1}"]));
}

#[test]
fn coursework_with_problems_but_no_marks_has_an_empty_list() {
    let md = metadata(&[]);
    let doc = make_coursework_sheet("CW", "", "d", &md, &strings(&["p1"]), &vec![], &SheetConfig::default());
    let envs = environments(&doc);
    assert_eq!(envs.len(), 1);
    assert!(envs[0].1.is_empty());
}

#[test]
fn no_problems_means_no_list() {
    let md = metadata(&[]);
    let doc = make_problem_sheet("T", "Intro", "d", &md, &vec![], &SheetConfig::default());
    assert!(environments(&doc).is_empty());
    assert!(!doc.render().contains("enumerate"));
    let doc = make_coursework_sheet("T", "", "d", &md, &vec![], &vec![1, 2], &SheetConfig::default());
    assert!(environments(&doc).is_empty());
}

#[test]
fn problem_macro_and_preamble_from_style() {
    let md = metadata(&[("course", "MA101")]);
    let sc = style(None, Some("\\question\\input"), Some("\\usepackage{amsmath}"));
    let doc = make_problem_sheet("T", "", "d", &md, &strings(&["a", "b"]), &sc);
    assert_eq!(preamble_lines(&doc), strings(&["\\date{d}", "\\course{MA101}", "\\usepackage{amsmath}"]));
    assert_eq!(environments(&doc)[0].1, strings(&["\\question\\input{a}", "\\question\\input{b}"]));
}

#[test]
fn intro_is_a_paragraph_after_the_title_only_when_not_empty() {
    let md = metadata(&[]);
    let doc = make_sheet("T", "Read this.", "d", &md, &SheetConfig::default());
    assert_eq!(doc.elements.len(), 2);
    assert_eq!(doc.elements[0], Element::UserDefined("\\maketitle".to_string()));
    match &doc.elements[1] {
        Element::Para(p) => assert_eq!(p.elements, vec![ParagraphElement::Plain("Read this.".to_string())]),
        other => panic!("expected a paragraph, got {:?}", other),
    }
    let doc = make_sheet("T", "", "d", &md, &SheetConfig::default());
    assert_eq!(doc.elements.len(), 1);
}

#[test]
fn rendered_problem_sheet() {
    let md = metadata(&[("course", "MA101")]);
    let doc = make_problem_sheet("Sheet 1", "Attempt all.", "2023-24", &md, &strings(&["p1", "p2"]), &SheetConfig::default());
    let expected = "\\documentclass{article}\n\\date{2023-24}\n\\course{MA101}\n\n\\title{Sheet 1}\n\\author{A. Teacher}\n\\begin{document}\n\\maketitle\nAttempt all.\n\\begin{enumerate}\n\\item\\input{p1}\n\\item\\input{p2}\n\\end{enumerate}\n\\end{document}\n";
    assert_eq!(doc.render(), expected);
}
