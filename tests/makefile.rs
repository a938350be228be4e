use teach::config::AppConfig;
use teach::makefile::{component_makefile, sheet_makefile, toplevel_makefile, MakeTarget, Makefile};

fn strings(items: &[&str]) -> Vec<String> {
    items.iter().map(|s| s.to_string()).collect()
}

#[test]
fn test_display_make_rule() {
    let mr = MakeTarget {
        targets: strings(&["target"]),
        prereqs: strings(&["prereq"]),
        recipe: strings(&["@echo test"]),
    };

    let expected = "target: prereq\n\t@echo test\n";

    assert_eq!(mr.to_string(), expected);
}

#[test]
fn rule_with_several_targets_and_no_prerequisites() {
    let mr = MakeTarget::new(strings(&["a", "b"]), vec![], strings(&["x", "y"]));
    assert_eq!(mr.to_string(), "a b:\n\tx\n\ty\n");
}

#[test]
fn makefile_puts_variables_before_rules() {
    let rule = MakeTarget::new(strings(&["t"]), strings(&["p"]), strings(&["r"]));
    let mf = Makefile::new(strings(&["A = 1", "B = 2"]), vec![rule]);
    assert_eq!(mf.to_string(), "A = 1\nB = 2\n\nt: p\n\tr\n\n");
}

#[test]
fn sheet_fragment_for_two_problems() {
    let mf = sheet_makefile("alg1", &strings(&["p1", "p2"]));
    assert_eq!(mf.rules.len(), 2);
    let rule = &mf.rules[0];
    assert_eq!(rule.targets, strings(&["alg1-problems.pdf"]));
    assert!(rule.prereqs.contains(&"alg1-problems.tex".to_string()));
    assert!(rule.prereqs.contains(&"$(PROBLEMS)".to_string()));
    assert_eq!(mf.vars[0], "PROBS = $(addprefix $(PROBDIR)/, p1 p2)");
    assert_eq!(mf.vars[1], "PROBLEMS = $(addsuffix /problem.tex, $(PROBS))");
    let engine_runs: Vec<usize> = rule
        .recipe
        .iter()
        .enumerate()
        .filter(|(_, l)| l.contains("$(TEX)"))
        .map(|(i, _)| i)
        .collect();
    assert_eq!(engine_runs.len(), 2);
    assert_eq!(rule.recipe.len(), engine_runs[1] + 2);
    assert_eq!(rule.recipe[engine_runs[1] + 1], "@ $(RM) *.log *.aux");
    assert_eq!(mf.rules[1].targets, strings(&["alg1-solutions.pdf"]));
    assert_eq!(mf.rules[1].prereqs, strings(&["alg1-solutions.tex", "$(SOLUTIONS)"]));
}

#[test]
fn sheet_fragment_text() {
    let text = sheet_makefile("alg1", &strings(&["p1", "p2"])).to_string();
    let recipe = "\t@echo $<\n\t@ $(TEX) $(TEXFLAGS) $< | checktex\n\t@ $(TEX) $(TEXFLAGS) $< | checktex\n\t@ $(RM) *.log *.aux\n";
    let expected = format!(
        "PROBS = $(addprefix $(PROBDIR)/, p1 p2)\nPROBLEMS = $(addsuffix /problem.tex, $(PROBS))\nSOLUTIONS = $(addsuffix /solution.tex, $(PROBS))\n\nalg1-problems.pdf: alg1-problems.tex $(PROBLEMS)\n{}\nalg1-solutions.pdf: alg1-solutions.tex $(SOLUTIONS)\n{}\n",
        recipe, recipe
    );
    assert_eq!(text, expected);
}

#[test]
fn sheet_fragment_without_problems() {
    let mf = sheet_makefile("empty", &vec![]);
    assert_eq!(mf.vars[0], "PROBS = $(addprefix $(PROBDIR)/,)");
}

#[test]
fn component_fragment_text() {
    let config = AppConfig::get(None);
    let text = component_makefile(&config, "../../problems", &strings(&["../../include"]));
    let expected = "TEX = pdflatex\nTEXFLAGS = -interaction=nonstopmode\nDIRS = $(wildcard */.)\nPDF_FILES = $(notdir $(patsubst %.tex, %.pdf, $(wildcard */*.tex)))\nPROBDIR=../../../problems\nvpath %.tex $(DIRS)\nexport TEXINPUTS=../../../problems:../../include:\n\n.PHONY: all\n\t\n\nall: $(PDF_FILES)\n\t\n\n\n\ninclude */*.mk";
    assert_eq!(text, expected);
}

#[test]
fn component_search_path_chains_every_include_dir() {
    let config = AppConfig::get(None);
    let text = component_makefile(&config, "probs", &strings(&["inc1", "inc2"]));
    assert!(text.contains("\nexport TEXINPUTS=../probs:inc1:inc2:\n"));
    assert!(text.ends_with("include */*.mk"));
}

#[test]
fn toplevel_fragment_text() {
    let text = toplevel_makefile(&strings(&["a", "b"])).to_string();
    let expected = "\n\n.PHONY: all a b\n\t\n\nall: a b\n\t\n\na: \n\t$(MAKE) -C $@ $(MAKEFLAGS) $(MAKECMDTARGETS)\n\nb: \n\t$(MAKE) -C $@ $(MAKEFLAGS) $(MAKECMDTARGETS)\n\n";
    assert_eq!(text, expected);
}

#[test]
fn toplevel_fragment_without_components() {
    let mf = toplevel_makefile(&vec![]);
    assert_eq!(mf.rules.len(), 2);
    assert_eq!(mf.to_string(), "\n\n.PHONY: all\n\t\n\nall:\n\t\n\n");
}
