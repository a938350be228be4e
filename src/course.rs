//! A course: its definition, the academic year it is built for, and the
//! files that building it writes.
use vstd::prelude::*;

use chrono::Datelike;

use crate::config::AppConfig;
use crate::course_items::{component_files, Component, Config, Metadata};
use crate::makefile::{makefile_text, toplevel_makefile, toplevel_makefile_model};
use crate::text::{
    has_ascending_keys, has_distinct_keys, keys_ascending, keys_distinct, signed_decimal,
    signed_decimal_string, views,
};

verus! {

/// A file to write: its path relative to the course root, and its text.
#[derive(Debug)]
pub struct GeneratedFile {
    pub path: String,
    pub contents: String,
}

/// A file as a path and a text.
pub type FileView = (Seq<char>, Seq<char>);

impl View for GeneratedFile {
    type V = FileView;

    open spec fn view(&self) -> FileView {
        (self.path@, self.contents@)
    }
}

pub open spec fn file_views(files: Seq<GeneratedFile>) -> Seq<FileView> {
    files.map_values(|f: GeneratedFile| f@)
}

/// What a course definition holds: metadata, settings, and the components
/// by name, in the order in which they are built.
#[derive(Debug)]
pub struct CourseFile {
    pub metadata: Metadata,
    pub config: Config,
    pub items: Vec<(String, Component)>,
}

impl CourseFile {
    /// Component names are unique and ascend in the order of `str`, every
    /// component is well formed, and no two metadata pairs or further
    /// sources share a name.
    pub open spec fn wf(&self) -> bool {
        &&& keys_distinct(self.items@)
        &&& keys_ascending(self.items@)
        &&& forall|i: int| 0 <= i < self.items@.len() ==> (#[trigger] self.items@[i]).1.wf()
        &&& self.metadata.wf()
        &&& self.config.sources.wf()
    }

    pub fn is_wf(&self) -> (r: bool)
        ensures
            r == self.wf(),
    {
        if !(has_distinct_keys(&self.items) && has_ascending_keys(&self.items)
            && self.metadata.is_wf() && self.config.sources.is_wf()) {
            return false;
        }
        let mut i: usize = 0;
        while i < self.items.len()
            invariant
                i <= self.items@.len(),
                forall|k: int| 0 <= k < i ==> (#[trigger] self.items@[k]).1.wf(),
            decreases self.items.len() - i,
        {
            if !self.items[i].1.is_wf() {
                return false;
            }
            i = i + 1;
        }
        true
    }
}

/// A course found on disk: the academic year it is built for (`2023-24`),
/// its root directory, and its definition.
#[derive(Debug)]
pub struct Course {
    pub year: String,
    pub path: String,
    pub course_file: CourseFile,
}

/// The files of the components, each in the directory `<root>/<name>`, in
/// order.
pub open spec fn components_files(
    comps: Seq<(String, Component)>,
    root: Seq<char>,
    course: Course,
    app: AppConfig,
) -> Seq<FileView>
    decreases comps.len(),
{
    if comps.len() == 0 {
        Seq::empty()
    } else {
        let (name, c) = comps.last();
        components_files(comps.drop_last(), root, course, app) + component_files(
            c,
            root + "/"@ + name@,
            course,
            app,
        )
    }
}

pub open spec fn component_names(comps: Seq<(String, Component)>) -> Seq<Seq<char>> {
    comps.map_values(|p: (String, Component)| p.0@)
}

/// Everything that building a course writes, under the directory named
/// after its year: each component's files, then the top-level fragment.
pub open spec fn course_files(course: Course, app: AppConfig) -> Seq<FileView> {
    let comps = course.course_file.items@;
    components_files(comps, course.year@, course, app).push(
        (
            course.year@ + "/Makefile"@,
            makefile_text(toplevel_makefile_model(component_names(comps))),
        ),
    )
}

/// What `i % 100` gives in Rust: the remainder takes the sign of `i`.
pub open spec fn rem_100(i: int) -> int {
    if i >= 0 {
        i % 100
    } else {
        -((-i) % 100)
    }
}

/// The academic year that a date falls in, written `<first>-<last two
/// digits of the second>`: from August on it starts in the date's year,
/// before August in the year before.
pub open spec fn academic_year(year: int, month: int) -> Seq<char> {
    if month > 7 {
        signed_decimal(year) + "-"@ + signed_decimal(rem_100(year + 1))
    } else {
        signed_decimal(year - 1) + "-"@ + signed_decimal(rem_100(year))
    }
}

fn rem_100_exec(i: i64) -> (r: i64)
    requires
        i > i64::MIN,
    ensures
        r == rem_100(i as int),
        -100 < r < 100,
{
    if i >= 0 {
        ((i as u64) % 100) as i64
    } else {
        -((((-i) as u64) % 100) as i64)
    }
}

/// Relies on chrono's `Local::now` and `Datelike`: the year of today's local
/// date, and its month, numbered from 1 to 12.
#[verifier::external_body]
fn local_year_month() -> (r: (i32, u32))
    ensures
        1 <= r.1 <= 12,
{
    let today = chrono::Local::now();
    (today.year(), today.month())
}

impl Course {
    /// The academic year of a date given by its year and month.
    pub fn academic_year_of(year: i32, month: u32) -> (r: String)
        ensures
            r@ == academic_year(year as int, month as int),
    {
        let y = year as i64;
        let (first, second) = if month > 7 {
            (y, rem_100_exec(y + 1))
        } else {
            (y - 1, rem_100_exec(y))
        };
        let mut s = signed_decimal_string(first);
        s.append("-");
        let tail = signed_decimal_string(second);
        s.append(tail.as_str());
        s
    }

    /// The academic year that today falls in.
    pub fn get_current_academic_year() -> (r: String)
        ensures
            exists|y: i32, m: u32| 1 <= m <= 12 && r@ == academic_year(y as int, m as int),
    {
        let (y, m) = local_year_month();
        Course::academic_year_of(y, m)
    }

    /// Every file that building this course writes, with paths relative to
    /// the course root: for each component, in the ascending order of their
    /// names, the files of its items and its fragment, all under
    /// `<year>/<component>`, then the top-level fragment `<year>/Makefile`,
    /// which lists the components in that order.
    pub fn build(&self, app: &AppConfig) -> (r: Vec<GeneratedFile>)
        requires
            self.course_file.wf(),
        ensures
            file_views(r@) == course_files(*self, *app),
    {
        let comps = &self.course_file.items;
        let mut files: Vec<GeneratedFile> = Vec::new();
        let mut names: Vec<String> = Vec::new();
        let mut i: usize = 0;
        while i < comps.len()
            invariant
                i <= comps.len(),
                comps == &self.course_file.items,
                self.course_file.wf(),
                file_views(files@) == components_files(comps@.take(i as int), self.year@, *self, *app),
                views(names@) == component_names(comps@.take(i as int)),
            decreases comps.len() - i,
        {
            let entry = &comps[i];
            let mut dir = String::from_str(self.year.as_str());
            dir.append("/");
            dir.append(entry.0.as_str());
            let mut more = entry.1.build(dir.as_str(), self, app);
            let ghost before = files@;
            let ghost added = more@;
            let ghost before_names = names@;
            files.append(&mut more);
            names.push(entry.0.clone());
            proof {
                assert(comps@.take(i + 1).drop_last() =~= comps@.take(i as int));
                assert(file_views(files@) =~= file_views(before) + file_views(added));
                assert(views(names@) =~= views(before_names).push(entry.0@));
                assert(component_names(comps@.take(i + 1)) =~= component_names(
                    comps@.take(i as int),
                ).push(entry.0@));
            }
            i = i + 1;
        }
        proof {
            assert(comps@.take(i as int) =~= comps@);
        }
        let top = toplevel_makefile(&names).to_string();
        let mut path = String::from_str(self.year.as_str());
        path.append("/Makefile");
        let ghost before = files@;
        files.push(GeneratedFile { path, contents: top });
        proof {
            assert(file_views(files@) =~= file_views(before).push((self.year@ + "/Makefile"@, top@)));
        }
        files
    }
}

/// Emitting the files of an unchanged course twice gives the same paths
/// and the same bytes: what `Course::build` returns depends on the course
/// and the settings alone.
pub proof fn lemma_emission_reproducible(
    course: Course,
    app: AppConfig,
    first: Seq<GeneratedFile>,
    second: Seq<GeneratedFile>,
)
    requires
        file_views(first) == course_files(course, app),
        file_views(second) == course_files(course, app),
    ensures
        first.len() == second.len(),
        forall|i: int| 0 <= i < first.len() ==> #[trigger] first[i]@ == second[i]@,
{
    assert(file_views(first).len() == first.len());
    assert(file_views(second).len() == second.len());
    assert forall|i: int| 0 <= i < first.len() implies #[trigger] first[i]@ == second[i]@ by {
        assert(file_views(first)[i] == first[i]@);
        assert(file_views(second)[i] == second[i]@);
    }
}

} // verus!
