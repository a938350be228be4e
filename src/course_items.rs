//! The parts of a course definition: sources, style settings, metadata,
//! sheets and coursework items, and components grouping them.
use vstd::prelude::*;

use crate::config::AppConfig;
use crate::course::{file_views, Course, FileView, GeneratedFile};
use crate::latexdoc::{
    PreambleModel, coursework_sheet_model, extra_commands, lemma_command_stands_once, raw_lines,
    preamble_lines, latex_source, make_coursework_sheet, make_problem_sheet,
    problem_sheet_model, DocumentModel,
};
use crate::makefile::{component_makefile, component_makefile_text, makefile_text, sheet_makefile, sheet_makefile_model};
use crate::text::{has_ascending_keys, has_distinct_keys, keys_ascending, keys_distinct, views};

verus! {

/// Where the sources of a course live. `problems` names the directory of
/// problem sources, relative to the course root.
#[derive(Debug)]
pub struct Sources {
    pub problems: String,
    pub other: Vec<(String, String)>,
}

/// Settings read from the course definition: sources, and the style of
/// problem sheets, of solution sheets and of coursework.
#[derive(Debug)]
pub struct Config {
    pub sources: Sources,
    pub sheet_config: SheetConfig,
    pub solution_config: SheetConfig,
    pub coursework_config: SheetConfig,
}

/// The style of one kind of document. Every field may be absent, which
/// selects its default.
#[derive(Debug)]
pub struct SheetConfig {
    pub document_class: Option<String>,
    pub problem_macro: Option<String>,
    pub include_preamble: Option<String>,
}

impl Default for SheetConfig {
    fn default() -> (r: SheetConfig)
        ensures
            r.document_class is None,
            r.problem_macro is None,
            r.include_preamble is None,
    {
        SheetConfig { document_class: None, problem_macro: None, include_preamble: None }
    }
}

/// The author of a course, and further preamble commands: each pair
/// `(name, value)` becomes `\name{value}`, in this order.
#[derive(Debug)]
pub struct Metadata {
    pub author: String,
    pub other: Vec<(String, String)>,
}

/// A problem sheet: its problems in the order in which they are set.
#[derive(Debug)]
pub struct SheetInfo {
    pub title: String,
    pub topic: String,
    pub intro: Option<String>,
    pub problems: Vec<String>,
}

/// A coursework item: its problems, and the marks of the problems in the
/// same order.
#[derive(Debug)]
pub struct CourseworkInfo {
    pub title: String,
    pub topic: String,
    pub intro: Option<String>,
    pub problems: Vec<String>,
    pub marks: Vec<u32>,
}

/// One item of a component.
#[derive(Debug)]
pub enum CourseItem {
    Coursework(CourseworkInfo),
    Sheet(SheetInfo),
}

/// A group of items that share one build fragment, by name, in the order in
/// which they are built.
#[derive(Debug)]
pub struct Component {
    pub items: Vec<(String, CourseItem)>,
}

impl Sources {
    /// No two further sources share a name.
    pub open spec fn wf(&self) -> bool {
        keys_distinct(self.other@)
    }

    pub fn is_wf(&self) -> (r: bool)
        ensures
            r == self.wf(),
    {
        has_distinct_keys(&self.other)
    }
}

impl Metadata {
    /// No two further metadata pairs share a name.
    pub open spec fn wf(&self) -> bool {
        keys_distinct(self.other@)
    }

    pub fn is_wf(&self) -> (r: bool)
        ensures
            r == self.wf(),
    {
        has_distinct_keys(&self.other)
    }
}

impl Component {
    /// The item names are unique and ascend in the order of `str`, so that
    /// the items are built in one fixed order.
    pub open spec fn wf(&self) -> bool {
        keys_distinct(self.items@) && keys_ascending(self.items@)
    }

    pub fn is_wf(&self) -> (r: bool)
        ensures
            r == self.wf(),
    {
        has_distinct_keys(&self.items) && has_ascending_keys(&self.items)
    }
}

/// An optional introduction as text: absent is empty.
pub open spec fn intro_text(intro: Option<String>) -> Seq<char> {
    match intro {
        Some(t) => t@,
        None => Seq::empty(),
    }
}

/// The problems of an item, in order.
pub open spec fn item_problems(item: CourseItem) -> Seq<Seq<char>> {
    match item {
        CourseItem::Sheet(info) => views(info.problems@),
        CourseItem::Coursework(info) => views(info.problems@),
    }
}

/// The problems document of an item: a problem sheet in the sheet style, or
/// a coursework sheet with its marks in the coursework style.
pub open spec fn problems_document(item: CourseItem, course: Course) -> DocumentModel {
    let cf = course.course_file;
    match item {
        CourseItem::Sheet(info) => problem_sheet_model(
            info.title@,
            intro_text(info.intro),
            course.year@,
            cf.metadata,
            views(info.problems@),
            cf.config.sheet_config,
        ),
        CourseItem::Coursework(info) => coursework_sheet_model(
            info.title@,
            intro_text(info.intro),
            course.year@,
            cf.metadata,
            views(info.problems@),
            info.marks@,
            cf.config.coursework_config,
        ),
    }
}

/// The solutions document of an item: a problem sheet titled
/// `<title> -- Solutions` in the solution style.
pub open spec fn solutions_document(item: CourseItem, course: Course) -> DocumentModel {
    let cf = course.course_file;
    match item {
        CourseItem::Sheet(info) => problem_sheet_model(
            info.title@ + " -- Solutions"@,
            intro_text(info.intro),
            course.year@,
            cf.metadata,
            views(info.problems@),
            cf.config.solution_config,
        ),
        CourseItem::Coursework(info) => problem_sheet_model(
            info.title@ + " -- Solutions"@,
            intro_text(info.intro),
            course.year@,
            cf.metadata,
            views(info.problems@),
            cf.config.solution_config,
        ),
    }
}

/// The files of one item named `name` in directory `root`: its problems and
/// solutions sources and its build fragment.
pub open spec fn item_files(item: CourseItem, name: Seq<char>, root: Seq<char>, course: Course) -> Seq<
    FileView,
> {
    seq![
        (root + "/"@ + name + "-problems.tex"@, latex_source(problems_document(item, course))),
        (root + "/"@ + name + "-solutions.tex"@, latex_source(solutions_document(item, course))),
        (root + "/"@ + name + ".mk"@, makefile_text(sheet_makefile_model(name, item_problems(item)))),
    ]
}

/// The files of the items of a component in directory `root`, item by item,
/// each in the subdirectory named after it.
pub open spec fn items_files(items: Seq<(String, CourseItem)>, root: Seq<char>, course: Course) -> Seq<
    FileView,
>
    decreases items.len(),
{
    if items.len() == 0 {
        Seq::empty()
    } else {
        let (name, item) = items.last();
        items_files(items.drop_last(), root, course) + item_files(item, name@, root + "/"@ + name@, course)
    }
}

/// The problems directory as seen from an item's directory, two levels
/// below the course's year.
pub open spec fn component_problems_dir(course: Course) -> Seq<char> {
    "../../"@ + course.course_file.config.sources.problems@
}

/// The files of a component in directory `root`: those of its items, then
/// its own build fragment.
pub open spec fn component_files(c: Component, root: Seq<char>, course: Course, app: AppConfig) -> Seq<
    FileView,
> {
    items_files(c.items@, root, course).push(
        (
            root + "/Makefile"@,
            component_makefile_text(
                app.tex_engine@,
                app.tex_flags@,
                component_problems_dir(course),
                seq!["../../include"@],
            ),
        ),
    )
}

fn path_in(root: &str, name: &str, file: &str) -> (r: String)
    ensures
        r@ == root@ + "/"@ + name@ + file@,
{
    let mut s = String::from_str(root);
    s.append("/");
    s.append(name);
    s.append(file);
    s
}

impl CourseItem {
    /// The files of this item, named `name`, in directory `root`: the
    /// problems document `<name>-problems.tex`, the solutions document
    /// `<name>-solutions.tex` and the build fragment `<name>.mk`.
    pub fn build(&self, name: &str, root: &str, course: &Course) -> (r: Vec<GeneratedFile>)
        ensures
            file_views(r@) == item_files(*self, name@, root@, *course),
    {
        let cf = &course.course_file;
        let (problems_doc, solutions_doc, problems) = match self {
            CourseItem::Sheet(info) => {
                let intro: &str = match &info.intro {
                    Some(t) => t.as_str(),
                    None => "",
                };
                let p = make_problem_sheet(
                    info.title.as_str(),
                    intro,
                    course.year.as_str(),
                    &cf.metadata,
                    &info.problems,
                    &cf.config.sheet_config,
                );
                let mut title = String::from_str(info.title.as_str());
                title.append(" -- Solutions");
                let s = make_problem_sheet(
                    title.as_str(),
                    intro,
                    course.year.as_str(),
                    &cf.metadata,
                    &info.problems,
                    &cf.config.solution_config,
                );
                (p, s, &info.problems)
            },
            CourseItem::Coursework(info) => {
                let intro: &str = match &info.intro {
                    Some(t) => t.as_str(),
                    None => "",
                };
                let p = make_coursework_sheet(
                    info.title.as_str(),
                    intro,
                    course.year.as_str(),
                    &cf.metadata,
                    &info.problems,
                    &info.marks,
                    &cf.config.coursework_config,
                );
                let mut title = String::from_str(info.title.as_str());
                title.append(" -- Solutions");
                let s = make_problem_sheet(
                    title.as_str(),
                    intro,
                    course.year.as_str(),
                    &cf.metadata,
                    &info.problems,
                    &cf.config.solution_config,
                );
                (p, s, &info.problems)
            },
        };
        proof {
            reveal_strlit("");
            assert(problems_doc@ == problems_document(*self, *course));
            assert(solutions_doc@ == solutions_document(*self, *course));
            assert(views(problems@) == item_problems(*self));
        }
        let mut files = Vec::new();
        files.push(
            GeneratedFile { path: path_in(root, name, "-problems.tex"), contents: problems_doc.render() },
        );
        files.push(
            GeneratedFile {
                path: path_in(root, name, "-solutions.tex"),
                contents: solutions_doc.render(),
            },
        );
        files.push(
            GeneratedFile {
                path: path_in(root, name, ".mk"),
                contents: sheet_makefile(name, problems).to_string(),
            },
        );
        proof {
            assert(file_views(files@) =~= item_files(*self, name@, root@, *course));
        }
        files
    }
}

impl Component {
    /// The files of this component in directory `root`: those of each item
    /// in the subdirectory named after it, in order, then the component's
    /// build fragment `Makefile`.
    pub fn build(&self, root: &str, course: &Course, app: &AppConfig) -> (r: Vec<GeneratedFile>)
        requires
            self.wf(),
        ensures
            file_views(r@) == component_files(*self, root@, *course, *app),
    {
        let mut files: Vec<GeneratedFile> = Vec::new();
        let mut i: usize = 0;
        while i < self.items.len()
            invariant
                i <= self.items.len(),
                file_views(files@) == items_files(self.items@.take(i as int), root@, *course),
            decreases self.items.len() - i,
        {
            let entry = &self.items[i];
            let dir = path_in(root, entry.0.as_str(), "");
            proof {
                reveal_strlit("");
                assert(dir@ =~= root@ + "/"@ + entry.0@);
            }
            let mut more = entry.1.build(entry.0.as_str(), dir.as_str(), course);
            let ghost before = files@;
            let ghost added = more@;
            files.append(&mut more);
            proof {
                assert(self.items@.take(i + 1).drop_last() =~= self.items@.take(i as int));
                assert(file_views(files@) =~= file_views(before) + file_views(added));
            }
            i = i + 1;
        }
        proof {
            assert(self.items@.take(i as int) =~= self.items@);
        }
        let mut probs = String::from_str("../../");
        probs.append(course.course_file.config.sources.problems.as_str());
        let mut include_dirs: Vec<String> = Vec::new();
        include_dirs.push(String::from_str("../../include"));
        proof {
            assert(views(include_dirs@) =~= seq!["../../include"@]);
        }
        let mf = component_makefile(app, probs.as_str(), &include_dirs);
        let mut path = String::from_str(root);
        path.append("/Makefile");
        let ghost before = files@;
        files.push(GeneratedFile { path, contents: mf });
        proof {
            assert(file_views(files@) =~= file_views(before).push((root@ + "/Makefile"@, mf@)));
        }
        files
    }
}

/// No two metadata commands of a course are the same text, and none is the
/// same text as the date line or as the preamble text of a style.
pub open spec fn commands_stand_apart(course: Course) -> bool {
    let cmds = extra_commands(course.course_file.metadata.other@);
    let config = course.course_file.config;
    &&& cmds.no_duplicates()
    &&& !cmds.contains("\\date{"@ + course.year@ + "}"@)
    &&& config.sheet_config.include_preamble matches Some(p) ==> !cmds.contains(p@)
    &&& config.solution_config.include_preamble matches Some(p) ==> !cmds.contains(p@)
    &&& config.coursework_config.include_preamble matches Some(p) ==> !cmds.contains(p@)
}

/// In both documents of any item, the `i`-th further metadata pair `(k, v)`
/// of the course becomes the preamble line `\k{v}`, right after the date
/// line, so the pairs come in their order; and that line stands exactly
/// once in the preamble.
pub proof fn lemma_metadata_commands(item: CourseItem, course: Course, i: int)
    requires
        0 <= i < course.course_file.metadata.other@.len(),
        commands_stand_apart(course),
    ensures
        ({
            let (k, v) = course.course_file.metadata.other@[i];
            let line = PreambleModel::Raw("\\"@ + k@ + "{"@ + v@ + "}"@);
            let p = problems_document(item, course).preamble;
            let s = solutions_document(item, course).preamble;
            &&& p.len() > i + 1 && p[i + 1] == line
            &&& forall|j: int| 0 <= j < p.len() && #[trigger] p[j] == line ==> j == i + 1
            &&& s.len() > i + 1 && s[i + 1] == line
            &&& forall|j: int| 0 <= j < s.len() && #[trigger] s[j] == line ==> j == i + 1
        }),
{
    let cf = course.course_file;
    let cmds = extra_commands(cf.metadata.other@);
    let date = course.year@;
    let problems_style = match item {
        CourseItem::Sheet(_) => cf.config.sheet_config,
        CourseItem::Coursework(_) => cf.config.coursework_config,
    };
    lemma_command_stands_once(date, cmds, problems_style, i);
    lemma_command_stands_once(date, cmds, cf.config.solution_config, i);
    assert(problems_document(item, course).preamble == raw_lines(
        preamble_lines(date, cmds, problems_style),
    ));
    assert(solutions_document(item, course).preamble == raw_lines(
        preamble_lines(date, cmds, cf.config.solution_config),
    ));
}

} // verus!
