//! Build fragments for `make`: rules, whole files, and the three levels of
//! fragment that a course is built from (sheet, component, top level).
use vstd::prelude::*;

use crate::config::AppConfig;
use crate::text::{frame_each, join, join_strings, push_framed, views};

verus! {

/// One rule: its targets, its prerequisites and its recipe lines.
pub struct MakeTarget {
    pub targets: Vec<String>,
    pub prereqs: Vec<String>,
    pub recipe: Vec<String>,
}

/// The model of a rule.
pub struct RuleModel {
    pub targets: Seq<Seq<char>>,
    pub prereqs: Seq<Seq<char>>,
    pub recipe: Seq<Seq<char>>,
}

impl View for MakeTarget {
    type V = RuleModel;

    open spec fn view(&self) -> RuleModel {
        RuleModel {
            targets: views(self.targets@),
            prereqs: views(self.prereqs@),
            recipe: views(self.recipe@),
        }
    }
}

/// The text of a rule: targets separated by single spaces, a colon, each
/// prerequisite after a space, a newline, then each recipe line after a tab
/// and ended by a newline.
pub open spec fn rule_text(r: RuleModel) -> Seq<char> {
    join(r.targets, " "@) + ":"@ + frame_each(r.prereqs, " "@, ""@) + "\n"@ + frame_each(
        r.recipe,
        "\t"@,
        "\n"@,
    )
}

impl MakeTarget {
    pub fn new(targets: Vec<String>, prereqs: Vec<String>, recipe: Vec<String>) -> (r: MakeTarget)
        ensures
            r.targets == targets,
            r.prereqs == prereqs,
            r.recipe == recipe,
    {
        MakeTarget { targets, prereqs, recipe }
    }

    /// The rule as `make` reads it.
    pub fn to_string(&self) -> (r: String)
        ensures
            r@ == rule_text(self@),
    {
        let mut out = join_strings(&self.targets, " ");
        out.append(":");
        push_framed(&mut out, &self.prereqs, " ", "");
        out.append("\n");
        push_framed(&mut out, &self.recipe, "\t", "\n");
        out
    }
}

/// A whole build fragment: variable lines, then rules.
pub struct Makefile {
    pub vars: Vec<String>,
    pub rules: Vec<MakeTarget>,
}

/// The model of a build fragment.
pub struct MakefileModel {
    pub vars: Seq<Seq<char>>,
    pub rules: Seq<RuleModel>,
}

impl View for Makefile {
    type V = MakefileModel;

    open spec fn view(&self) -> MakefileModel {
        MakefileModel {
            vars: views(self.vars@),
            rules: self.rules@.map_values(|t: MakeTarget| t@),
        }
    }
}

/// The texts of the rules, in order.
pub open spec fn rule_texts(rules: Seq<RuleModel>) -> Seq<Seq<char>> {
    rules.map_values(|r: RuleModel| rule_text(r))
}

/// The text of a build fragment: each variable line with its newline, one
/// blank separator line, then each rule followed by a blank line.
pub open spec fn makefile_text(m: MakefileModel) -> Seq<char> {
    frame_each(m.vars, ""@, "\n"@) + "\n"@ + frame_each(rule_texts(m.rules), ""@, "\n"@)
}

impl Makefile {
    pub fn new(vars: Vec<String>, rules: Vec<MakeTarget>) -> (r: Makefile)
        ensures
            r.vars == vars,
            r.rules == rules,
    {
        Makefile { vars, rules }
    }

    /// The fragment as `make` reads it.
    pub fn to_string(&self) -> (r: String)
        ensures
            r@ == makefile_text(self@),
    {
        let mut out = String::new();
        push_framed(&mut out, &self.vars, "", "\n");
        out.append("\n");
        let ghost start = out@;
        let ghost texts = rule_texts(self@.rules);
        let mut i: usize = 0;
        while i < self.rules.len()
            invariant
                i <= self.rules.len(),
                texts == rule_texts(self@.rules),
                texts.len() == self.rules@.len(),
                out@ == start + frame_each(texts.take(i as int), ""@, "\n"@),
            decreases self.rules.len() - i,
        {
            proof {
                reveal_strlit("");
                assert(texts.take(i + 1).drop_last() =~= texts.take(i as int));
                assert(texts[i as int] == rule_text(self.rules@[i as int]@));
            }
            let rule = self.rules[i].to_string();
            out.append(rule.as_str());
            out.append("\n");
            i = i + 1;
        }
        proof {
            assert(texts.take(i as int) =~= texts);
        }
        out
    }
}

/// The recipe of a sheet rule: announce, typeset twice, then remove the
/// log and auxiliary files.
pub open spec fn engine_recipe() -> Seq<Seq<char>> {
    seq![
        "@echo $<"@,
        "@ $(TEX) $(TEXFLAGS) $< | checktex"@,
        "@ $(TEX) $(TEXFLAGS) $< | checktex"@,
        "@ $(RM) *.log *.aux"@,
    ]
}

/// The rule that typesets `<name><side>.tex` into `<name><side>.pdf`, also
/// depending on the problem sources that `sources` expands to.
pub open spec fn sheet_rule(name: Seq<char>, side: Seq<char>, sources: Seq<char>) -> RuleModel {
    RuleModel {
        targets: seq![name + side + ".pdf"@],
        prereqs: seq![name + side + ".tex"@, sources],
        recipe: engine_recipe(),
    }
}

/// The fragment of one sheet: the list of its problems under `$(PROBDIR)`,
/// their statement and solution sources, and the two rules that build the
/// problems and the solutions documents.
pub open spec fn sheet_makefile_model(name: Seq<char>, problems: Seq<Seq<char>>) -> MakefileModel {
    MakefileModel {
        vars: seq![
            "PROBS = $(addprefix $(PROBDIR)/,"@ + frame_each(problems, " "@, ""@) + ")"@,
            "PROBLEMS = $(addsuffix /problem.tex, $(PROBS))"@,
            "SOLUTIONS = $(addsuffix /solution.tex, $(PROBS))"@,
        ],
        rules: seq![
            sheet_rule(name, "-problems"@, "$(PROBLEMS)"@),
            sheet_rule(name, "-solutions"@, "$(SOLUTIONS)"@),
        ],
    }
}

/// The variable line that lets the engine find sources: `../<problems>`,
/// then every include directory, each ended by `:`, so that the engine's own
/// search path still follows.
pub open spec fn texinputs_line(problems_dir: Seq<char>, include_dirs: Seq<Seq<char>>) -> Seq<char> {
    "export TEXINPUTS=../"@ + problems_dir + frame_each(include_dirs, ":"@, ""@) + ":"@
}

/// The fragment of one component: engine settings, the documents that the
/// sheets one level down produce, where the problems are, and a phony `all`.
pub open spec fn component_makefile_model(
    tex_engine: Seq<char>,
    tex_flags: Seq<char>,
    problems_dir: Seq<char>,
    include_dirs: Seq<Seq<char>>,
) -> MakefileModel {
    MakefileModel {
        vars: seq![
            "TEX = "@ + tex_engine,
            "TEXFLAGS = "@ + tex_flags,
            "DIRS = $(wildcard */.)"@,
            "PDF_FILES = $(notdir $(patsubst %.tex, %.pdf, $(wildcard */*.tex)))"@,
            "PROBDIR=../"@ + problems_dir,
            "vpath %.tex $(DIRS)"@,
            texinputs_line(problems_dir, include_dirs),
        ],
        rules: seq![
            RuleModel { targets: seq![".PHONY"@], prereqs: seq!["all"@], recipe: seq![""@] },
            RuleModel { targets: seq!["all"@], prereqs: seq!["$(PDF_FILES)"@], recipe: seq![""@] },
        ],
    }
}

/// The text of a component fragment: the fragment, then the directive that
/// includes every sheet fragment one directory down.
pub open spec fn component_makefile_text(
    tex_engine: Seq<char>,
    tex_flags: Seq<char>,
    problems_dir: Seq<char>,
    include_dirs: Seq<Seq<char>>,
) -> Seq<char> {
    makefile_text(component_makefile_model(tex_engine, tex_flags, problems_dir, include_dirs))
        + "\n\ninclude */*.mk"@
}

/// The rule that builds one component by running `make` in its directory.
pub open spec fn delegate_rule(component: Seq<char>) -> RuleModel {
    RuleModel {
        targets: seq![component],
        prereqs: seq![""@],
        recipe: seq!["$(MAKE) -C $@ $(MAKEFLAGS) $(MAKECMDTARGETS)"@],
    }
}

/// The top-level fragment: `all` and every component are phony, `all`
/// depends on every component, and each component delegates to its own
/// directory.
pub open spec fn toplevel_makefile_model(components: Seq<Seq<char>>) -> MakefileModel {
    MakefileModel {
        vars: seq![""@],
        rules: seq![
            RuleModel { targets: seq![".PHONY"@], prereqs: seq!["all"@] + components, recipe: seq![""@] },
            RuleModel { targets: seq!["all"@], prereqs: components, recipe: seq![""@] },
        ] + components.map_values(|c: Seq<char>| delegate_rule(c)),
    }
}

fn single(s: String) -> (r: Vec<String>)
    ensures
        views(r@) == seq![s@],
{
    let mut r = Vec::new();
    r.push(s);
    proof {
        assert(views(r@) =~= seq![s@]);
    }
    r
}

fn pair(a: String, b: String) -> (r: Vec<String>)
    ensures
        views(r@) == seq![a@, b@],
{
    let mut r = Vec::new();
    r.push(a);
    r.push(b);
    proof {
        assert(views(r@) =~= seq![a@, b@]);
    }
    r
}

fn joined(a: &str, b: &str) -> (r: String)
    ensures
        r@ == a@ + b@,
{
    String::from_str(a).concat(b)
}

fn engine_recipe_lines() -> (r: Vec<String>)
    ensures
        views(r@) == engine_recipe(),
{
    let mut r = Vec::new();
    r.push(String::from_str("@echo $<"));
    r.push(String::from_str("@ $(TEX) $(TEXFLAGS) $< | checktex"));
    r.push(String::from_str("@ $(TEX) $(TEXFLAGS) $< | checktex"));
    r.push(String::from_str("@ $(RM) *.log *.aux"));
    proof {
        assert(views(r@) =~= engine_recipe());
    }
    r
}

fn sheet_target(name: &str, side: &str, sources: &str) -> (r: MakeTarget)
    ensures
        r@ == sheet_rule(name@, side@, sources@),
{
    let mut pdf = joined(name, side);
    pdf.append(".pdf");
    let mut tex = joined(name, side);
    tex.append(".tex");
    let r = MakeTarget::new(single(pdf), pair(tex, String::from_str(sources)), engine_recipe_lines());
    proof {
        assert(r@.targets =~= sheet_rule(name@, side@, sources@).targets);
        assert(r@.prereqs =~= sheet_rule(name@, side@, sources@).prereqs);
    }
    r
}

/// The build fragment of one sheet (written as `<name>.mk` in its
/// directory).
pub fn sheet_makefile(name: &str, problems: &Vec<String>) -> (r: Makefile)
    ensures
        r@ == sheet_makefile_model(name@, views(problems@)),
{
    let mut probs = String::from_str("PROBS = $(addprefix $(PROBDIR)/,");
    push_framed(&mut probs, problems, " ", "");
    probs.append(")");
    let mut vars = Vec::new();
    vars.push(probs);
    vars.push(String::from_str("PROBLEMS = $(addsuffix /problem.tex, $(PROBS))"));
    vars.push(String::from_str("SOLUTIONS = $(addsuffix /solution.tex, $(PROBS))"));
    let mut rules = Vec::new();
    rules.push(sheet_target(name, "-problems", "$(PROBLEMS)"));
    rules.push(sheet_target(name, "-solutions", "$(SOLUTIONS)"));
    let r = Makefile::new(vars, rules);
    proof {
        let m = sheet_makefile_model(name@, views(problems@));
        assert(r@.vars =~= m.vars);
        assert(r@.rules =~= m.rules);
    }
    r
}

fn plain_rule(target: &str, prereq: &str) -> (r: MakeTarget)
    ensures
        r@ == (RuleModel { targets: seq![target@], prereqs: seq![prereq@], recipe: seq![""@] }),
{
    let r = MakeTarget::new(
        single(String::from_str(target)),
        single(String::from_str(prereq)),
        single(String::from_str("")),
    );
    r
}

/// The text of the build fragment of one component (written as its
/// `Makefile`), for problems in `problems_dir` and sources searched in
/// `include_dirs`, both relative to the component's parent.
pub fn component_makefile(config: &AppConfig, problems_dir: &str, include_dirs: &Vec<String>) -> (r:
    String)
    ensures
        r@ == component_makefile_text(
            config.tex_engine@,
            config.tex_flags@,
            problems_dir@,
            views(include_dirs@),
        ),
{
    let mut texinputs = joined("export TEXINPUTS=../", problems_dir);
    push_framed(&mut texinputs, include_dirs, ":", "");
    texinputs.append(":");
    let mut vars = Vec::new();
    vars.push(joined("TEX = ", config.tex_engine.as_str()));
    vars.push(joined("TEXFLAGS = ", config.tex_flags.as_str()));
    vars.push(String::from_str("DIRS = $(wildcard */.)"));
    vars.push(String::from_str("PDF_FILES = $(notdir $(patsubst %.tex, %.pdf, $(wildcard */*.tex)))"));
    vars.push(joined("PROBDIR=../", problems_dir));
    vars.push(String::from_str("vpath %.tex $(DIRS)"));
    vars.push(texinputs);
    let mut rules = Vec::new();
    rules.push(plain_rule(".PHONY", "all"));
    rules.push(plain_rule("all", "$(PDF_FILES)"));
    let mf = Makefile::new(vars, rules);
    proof {
        let m = component_makefile_model(
            config.tex_engine@,
            config.tex_flags@,
            problems_dir@,
            views(include_dirs@),
        );
        assert(mf@.vars =~= m.vars);
        assert(mf@.rules =~= m.rules);
    }
    let mut out = mf.to_string();
    out.append("\n\ninclude */*.mk");
    out
}

/// The top-level build fragment of a course (written as the `Makefile` of
/// the year's directory).
pub fn toplevel_makefile(components: &Vec<String>) -> (r: Makefile)
    ensures
        r@ == toplevel_makefile_model(views(components@)),
{
    let ghost comps = views(components@);
    let mut phony_prereqs = single(String::from_str("all"));
    let mut all_prereqs = Vec::new();
    let mut delegates = Vec::new();
    let mut i: usize = 0;
    while i < components.len()
        invariant
            i <= components.len(),
            comps == views(components@),
            views(phony_prereqs@) == seq!["all"@] + comps.take(i as int),
            views(all_prereqs@) == comps.take(i as int),
            delegates@.map_values(|t: MakeTarget| t@) == comps.take(i as int).map_values(
                |c: Seq<char>| delegate_rule(c),
            ),
        decreases components.len() - i,
    {
        let name = components[i].clone();
        let ghost old_phony = phony_prereqs@;
        let ghost old_all = all_prereqs@;
        let ghost old_delegates = delegates@;
        phony_prereqs.push(name.clone());
        all_prereqs.push(name.clone());
        let d = MakeTarget::new(
            single(name),
            single(String::from_str("")),
            single(String::from_str("$(MAKE) -C $@ $(MAKEFLAGS) $(MAKECMDTARGETS)")),
        );
        delegates.push(d);
        proof {
            let c = comps[i as int];
            assert(comps.take(i + 1) =~= comps.take(i as int).push(c));
            assert(views(phony_prereqs@) =~= views(old_phony).push(c));
            assert(views(all_prereqs@) =~= views(old_all).push(c));
            assert(d@.targets =~= delegate_rule(c).targets);
            assert(d@ == delegate_rule(c));
            assert(delegates@.map_values(|t: MakeTarget| t@) =~= old_delegates.map_values(
                |t: MakeTarget| t@,
            ).push(d@));
            assert(comps.take(i + 1).map_values(|c: Seq<char>| delegate_rule(c)) =~= comps.take(
                i as int,
            ).map_values(|c: Seq<char>| delegate_rule(c)).push(delegate_rule(c)));
        }
        i = i + 1;
    }
    proof {
        assert(comps.take(i as int) =~= comps);
    }
    let mut rules = Vec::new();
    rules.push(MakeTarget::new(single(String::from_str(".PHONY")), phony_prereqs, single(String::from_str(""))));
    rules.push(MakeTarget::new(single(String::from_str("all")), all_prereqs, single(String::from_str(""))));
    let ghost head = rules@;
    rules.append(&mut delegates);
    let r = Makefile::new(single(String::from_str("")), rules);
    proof {
        let m = toplevel_makefile_model(comps);
        assert(r@.rules =~= m.rules);
    }
    r
}

} // verus!
