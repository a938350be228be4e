use teach::config::AppConfig;
use teach::course::{Course, CourseFile};
use teach::course_items::{Component, Config, CourseItem, CourseworkInfo, Metadata, SheetConfig, SheetInfo, Sources};
use teach::text::{decimal_string, signed_decimal_string};

fn strings(items: &[&str]) -> Vec<String> {
    items.iter().map(|s| s.to_string()).collect()
}

fn sample_course() -> Course {
    let sheet = CourseItem::Sheet(SheetInfo {
        title: "Sheet 1".to_string(),
        topic: "Algebra".to_string(),
        intro: None,
        problems: strings(&["p1", "p2"]),
    });
    let cw = CourseItem::Coursework(CourseworkInfo {
        title: "Coursework".to_string(),
        topic: "Algebra".to_string(),
        intro: Some("Hand in by Friday.".to_string()),
        problems: strings(&["p3"]),
        marks: vec![20],
    });
    let component = Component { items: vec![("alg1".to_string(), sheet), ("cw1".to_string(), cw)] };
    let empty = Component { items: vec![] };
    Course {
        year: "2023-24".to_string(),
        path: "/courses/ma101".to_string(),
        course_file: CourseFile {
            metadata: Metadata { author: "A. Teacher".to_string(), other: vec![] },
            config: Config {
                sources: Sources { problems: "problems".to_string(), other: vec![] },
                sheet_config: SheetConfig::default(),
                solution_config: SheetConfig::default(),
                coursework_config: SheetConfig {
                    document_class: Some("report".to_string()),
                    problem_macro: None,
                    include_preamble: None,
                },
            },
            items: vec![("algebra".to_string(), component), ("geometry".to_string(), empty)],
        },
    }
}

#[test]
fn course_build_lists_every_file() {
    let course = sample_course();
    let files = course.build(&AppConfig::get(None));
    let paths: Vec<&str> = files.iter().map(|f| f.path.as_str()).collect();
    assert_eq!(
        paths,
        vec![
            "2023-24/algebra/alg1/alg1-problems.tex",
            "2023-24/algebra/alg1/alg1-solutions.tex",
            "2023-24/algebra/alg1/alg1.mk",
            "2023-24/algebra/cw1/cw1-problems.tex",
            "2023-24/algebra/cw1/cw1-solutions.tex",
            "2023-24/algebra/cw1/cw1.mk",
            "2023-24/algebra/Makefile",
            "2023-24/geometry/Makefile",
            "2023-24/Makefile",
        ]
    );
}

#[test]
fn course_build_contents() {
    let course = sample_course();
    let files = course.build(&AppConfig::get(None));
    assert!(files[1].contents.contains("\\title{Sheet 1 -- Solutions}"));
    assert!(files[0].contents.contains("\\date{2023-24}"));
    assert!(files[3].contents.starts_with("\\documentclass{report}\n"));
    assert!(files[3].contents.contains("\\item\\input[20]{p3}"));
    assert!(files[3].contents.contains("\nHand in by Friday.\n"));
    assert!(files[4].contents.starts_with("\\documentclass{article}\n"));
    assert!(files[4].contents.contains("\\item\\input{p3}"));
    assert!(files[2].contents.starts_with("PROBS = $(addprefix $(PROBDIR)/, p1 p2)\n"));
    assert!(files[6].contents.contains("PROBDIR=../../../problems\n"));
    assert!(files[6].contents.contains("export TEXINPUTS=../../../problems:../../include:\n"));
    assert!(files[8].contents.contains(".PHONY: all algebra geometry\n"));
    assert!(files[8].contents.contains("all: algebra geometry\n"));
}

#[test]
fn course_build_is_reproducible() {
    let course = sample_course();
    let config = AppConfig::get(None);
    let first = course.build(&config);
    let second = course.build(&config);
    assert_eq!(first.len(), second.len());
    for (a, b) in first.iter().zip(second.iter()) {
        assert_eq!(a.path, b.path);
        assert_eq!(a.contents.as_bytes(), b.contents.as_bytes());
    }
}

#[test]
fn item_build_names_files_after_the_item() {
    let course = sample_course();
    let item = &course.course_file.items[0].1.items[0].1;
    let files = item.build("alg1", "root", &course);
    assert_eq!(files.len(), 3);
    assert_eq!(files[0].path, "root/alg1-problems.tex");
    assert_eq!(files[2].path, "root/alg1.mk");
}

#[test]
fn academic_year_from_august() {
    assert_eq!(Course::academic_year_of(2023, 8), "2023-24");
    assert_eq!(Course::academic_year_of(2023, 12), "2023-24");
    assert_eq!(Course::academic_year_of(2099, 9), "2099-0");
}

#[test]
fn academic_year_before_august() {
    assert_eq!(Course::academic_year_of(2024, 7), "2023-24");
    assert_eq!(Course::academic_year_of(2024, 1), "2023-24");
    assert_eq!(Course::academic_year_of(2000, 3), "1999-0");
    assert_eq!(Course::academic_year_of(2005, 3), "2004-5");
}

#[test]
fn current_academic_year_has_a_dash() {
    let y = Course::get_current_academic_year();
    assert!(y.contains('-'));
}

#[test]
fn decimal_numerals() {
    assert_eq!(decimal_string(0), "0");
    assert_eq!(decimal_string(10), "10");
    assert_eq!(decimal_string(18446744073709551615), "18446744073709551615");
    assert_eq!(signed_decimal_string(-42), "-42");
}

#[test]
fn app_config_falls_back_to_defaults() {
    let c = AppConfig::get(None);
    assert_eq!(c.editor, "vim");
    assert_eq!(c.pdf_viewer, "evince");
    assert_eq!(c.tex_engine, "pdflatex");
    assert_eq!(c.tex_flags, "-interaction=nonstopmode");
    let mine = AppConfig {
        editor: "ed".to_string(),
        pdf_viewer: "zathura".to_string(),
        tex_engine: "lualatex".to_string(),
        tex_flags: "".to_string(),
    };
    let c = AppConfig::get(Some(mine));
    assert_eq!(c.editor, "ed");
    assert_eq!(c.tex_engine, "lualatex");
}

#[test]
fn sample_course_is_well_formed() {
    assert!(sample_course().course_file.is_wf());
}

#[test]
fn repeated_item_name_is_not_well_formed() {
    let mut course = sample_course();
    let extra = CourseItem::Sheet(SheetInfo {
        title: "Again".to_string(),
        topic: "".to_string(),
        intro: None,
        problems: vec![],
    });
    course.course_file.items[0].1.items.push(("cw1".to_string(), extra));
    assert!(!course.course_file.items[0].1.is_wf());
    assert!(!course.course_file.is_wf());
}

#[test]
fn components_out_of_order_are_not_well_formed() {
    let mut course = sample_course();
    course.course_file.items.swap(0, 1);
    assert!(!course.course_file.is_wf());
}

#[test]
fn repeated_metadata_name_is_not_well_formed() {
    let mut course = sample_course();
    course.course_file.metadata.other =
        vec![("k".to_string(), "1".to_string()), ("k".to_string(), "2".to_string())];
    assert!(!course.course_file.metadata.is_wf());
    assert!(!course.course_file.is_wf());
}

#[test]
fn names_compare_as_str_does() {
    for (a, b) in [("a", "b"), ("a", "ab"), ("", "a"), ("B", "a"), ("ab", "ab"), ("b", "a"), ("z", "é")] {
        assert_eq!(teach::text::str_less(a, b), a < b, "{} < {}", a, b);
    }
}
