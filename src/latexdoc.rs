//! The documents of a course: problem sheets, solution sheets, coursework
//! and single-problem previews, built from the `latex` crate's elements and
//! printed by it.
use vstd::prelude::*;

use crate::course_items::{Metadata, SheetConfig};
use crate::text::{decimal, decimal_string, frame_each, views};

verus! {

#[verifier::external_type_specification]
pub struct ExDocumentClass(latex::DocumentClass);

#[verifier::external_type_specification]
pub struct ExPreambleElement(latex::PreambleElement);

#[verifier::external_type_specification]
pub struct ExParagraph(latex::Paragraph);

#[verifier::external_type_specification]
pub struct ExParagraphElement(latex::ParagraphElement);

#[verifier::external_type_specification]
#[verifier::external_body]
pub struct ExSection(latex::Section);

#[verifier::external_type_specification]
#[verifier::external_body]
pub struct ExAlign(latex::Align);

#[verifier::external_type_specification]
#[verifier::external_body]
pub struct ExList(latex::List);

#[verifier::external_type_specification]
pub struct ExElement(latex::Element);

/// A document as the printer takes it: class, author and title, the
/// further preamble entries, and the body elements in order.
#[derive(Debug)]
pub struct Document {
    pub class: latex::DocumentClass,
    pub author: String,
    pub title: String,
    pub preamble: Vec<latex::PreambleElement>,
    pub elements: Vec<latex::Element>,
}

/// The model of a document class.
pub enum ClassModel {
    Article,
    Book,
    Report,
    Part,
    Other(Seq<char>),
}

/// The model of a preamble entry.
pub enum PreambleModel {
    Raw(Seq<char>),
    Package(Seq<char>, Option<Seq<char>>),
}

/// The model of a body element. The builders here make only raw lines,
/// plain paragraphs and environments; every other element is `Unsupported`.
pub enum ElementModel {
    Raw(Seq<char>),
    Paragraph(Seq<char>),
    Environment(Seq<char>, Seq<Seq<char>>),
    Unsupported,
}

/// The model of a document.
pub struct DocumentModel {
    pub class: ClassModel,
    pub author: Seq<char>,
    pub title: Seq<char>,
    pub preamble: Seq<PreambleModel>,
    pub elements: Seq<ElementModel>,
}

impl DocumentModel {
    /// Every element has a model.
    pub open spec fn printable(self) -> bool {
        forall|i: int| 0 <= i < self.elements.len() ==> !(#[trigger] self.elements[i] is Unsupported)
    }
}

pub open spec fn class_model(c: latex::DocumentClass) -> ClassModel {
    match c {
        latex::DocumentClass::Article => ClassModel::Article,
        latex::DocumentClass::Book => ClassModel::Book,
        latex::DocumentClass::Report => ClassModel::Report,
        latex::DocumentClass::Part => ClassModel::Part,
        latex::DocumentClass::Other(s) => ClassModel::Other(s@),
    }
}

pub open spec fn preamble_model(e: latex::PreambleElement) -> PreambleModel {
    match e {
        latex::PreambleElement::UserDefined(s) => PreambleModel::Raw(s@),
        latex::PreambleElement::UsePackage { package, argument } => PreambleModel::Package(
            package@,
            match argument {
                Some(a) => Some(a@),
                None => None,
            },
        ),
    }
}

pub open spec fn element_model(e: latex::Element) -> ElementModel {
    match e {
        latex::Element::UserDefined(s) => ElementModel::Raw(s@),
        latex::Element::Environment(name, lines) => ElementModel::Environment(name@, views(lines@)),
        latex::Element::Para(p) => {
            if p.elements@.len() == 1 {
                match p.elements@[0] {
                    latex::ParagraphElement::Plain(s) => ElementModel::Paragraph(s@),
                    _ => ElementModel::Unsupported,
                }
            } else {
                ElementModel::Unsupported
            }
        },
        _ => ElementModel::Unsupported,
    }
}

impl View for Document {
    type V = DocumentModel;

    open spec fn view(&self) -> DocumentModel {
        DocumentModel {
            class: class_model(self.class),
            author: self.author@,
            title: self.title@,
            preamble: self.preamble@.map_values(|e: latex::PreambleElement| preamble_model(e)),
            elements: self.elements@.map_values(|e: latex::Element| element_model(e)),
        }
    }
}

/// The line that the printer writes for a preamble entry.
pub open spec fn preamble_entry_text(e: PreambleModel) -> Seq<char> {
    match e {
        PreambleModel::Raw(s) => s + "\n"@,
        PreambleModel::Package(p, None) => "\\usepackage{"@ + p + "}\n"@,
        PreambleModel::Package(p, Some(a)) => "\\usepackage["@ + a + "]{"@ + p + "}\n"@,
    }
}

/// The text that the printer writes for a body element: a raw line or a
/// plain paragraph on its own line, an environment between its `\begin` and
/// `\end` lines with one line per entry.
pub open spec fn element_text(e: ElementModel) -> Seq<char> {
    match e {
        ElementModel::Raw(s) => s + "\n"@,
        ElementModel::Paragraph(s) => s + "\n"@,
        ElementModel::Environment(n, lines) => "\\begin{"@ + n + "}\n"@ + frame_each(lines, ""@, "\n"@)
            + "\\end{"@ + n + "}\n"@,
        ElementModel::Unsupported => Seq::empty(),
    }
}

/// The source text that `latex::print` writes for a document with a title
/// and an author: the class line, the preamble entries, a blank line when
/// there are any, the title and author lines, then the body between
/// `\begin{document}` and `\end{document}`. A partial document is its body
/// alone.
pub open spec fn latex_source(doc: DocumentModel) -> Seq<char> {
    let body = frame_each(doc.elements.map_values(|e: ElementModel| element_text(e)), ""@, ""@);
    if doc.class is Part {
        body
    } else {
        "\\documentclass{"@ + class_token(doc.class) + "}\n"@ + frame_each(
            doc.preamble.map_values(|e: PreambleModel| preamble_entry_text(e)),
            ""@,
            ""@,
        ) + (if doc.preamble.len() > 0 {
            "\n"@
        } else {
            ""@
        }) + "\\title{"@ + doc.title + "}\n"@ + "\\author{"@ + doc.author + "}\n"@
            + "\\begin{document}\n"@ + body + "\\end{document}\n"@
    }
}

/// Relies on `latex::print` (visitor/printer.rs), after `Document::new`,
/// `Preamble::author`, `Preamble::title` and the two `Extend` impls have
/// carried the fields over unchanged: `Printer::visit_document`,
/// `visit_preamble` and `visit_element` write the text that `latex_source`
/// states. The printer writes into a `Vec<u8>`, which never fails, and reads
/// it back as UTF-8 made of whole strings; it panics only on the hidden
/// `_Other` element, which a printable document does not hold.
#[verifier::external_body]
fn print_latex(doc: &Document) -> (r: Option<String>)
    requires
        doc@.printable(),
    ensures
        r is Some,
        r->0@ == latex_source(doc@),
{
    let mut d = latex::Document::new(doc.class.clone());
    d.preamble.author(&doc.author).title(&doc.title);
    d.preamble.extend(doc.preamble.iter().cloned());
    d.extend(doc.elements.iter().cloned());
    latex::print(&d).ok()
}

impl Document {
    /// The document's source text, as the `latex` crate prints it.
    pub fn render(&self) -> (r: String)
        requires
            self@.printable(),
        ensures
            r@ == latex_source(self@),
    {
        match print_latex(self) {
            Some(s) => s,
            None => String::new(),
        }
    }
}

/// The class that a class name selects: the standard classes by their
/// names, any other name as given.
pub open spec fn class_of(name: Seq<char>) -> ClassModel {
    if name == "article"@ {
        ClassModel::Article
    } else if name == "report"@ {
        ClassModel::Report
    } else if name == "book"@ {
        ClassModel::Book
    } else {
        ClassModel::Other(name)
    }
}

/// The name with which the printer writes a class.
pub open spec fn class_token(c: ClassModel) -> Seq<char> {
    match c {
        ClassModel::Article => "article"@,
        ClassModel::Book => "book"@,
        ClassModel::Report => "report"@,
        ClassModel::Part => ""@,
        ClassModel::Other(s) => s,
    }
}

/// The class name a style asks for: its own, or `article`.
pub open spec fn style_class(sc: SheetConfig) -> Seq<char> {
    match sc.document_class {
        Some(c) => c@,
        None => "article"@,
    }
}

/// The command that includes a problem: the style's own, or `\item\input`.
pub open spec fn style_macro(sc: SheetConfig) -> Seq<char> {
    match sc.problem_macro {
        Some(m) => m@,
        None => "\\item\\input"@,
    }
}

/// `\name{value}` for each further metadata pair, in order.
pub open spec fn extra_commands(other: Seq<(String, String)>) -> Seq<Seq<char>> {
    other.map_values(|p: (String, String)| "\\"@ + p.0@ + "{"@ + p.1@ + "}"@)
}

/// The preamble lines of a sheet: the date, the further metadata commands,
/// then the style's own preamble text, if any.
pub open spec fn preamble_lines(date: Seq<char>, extras: Seq<Seq<char>>, sc: SheetConfig) -> Seq<
    Seq<char>,
> {
    seq!["\\date{"@ + date + "}"@] + extras + match sc.include_preamble {
        Some(p) => seq![p@],
        None => Seq::empty(),
    }
}

pub open spec fn raw_lines(lines: Seq<Seq<char>>) -> Seq<PreambleModel> {
    lines.map_values(|l: Seq<char>| PreambleModel::Raw(l))
}

/// The document that `make_basic_doc` builds: class, author, title and the
/// date and metadata commands, with an empty body.
pub open spec fn basic_model(
    class_name: Seq<char>,
    title: Seq<char>,
    date: Seq<char>,
    author: Seq<char>,
    extras: Seq<Seq<char>>,
) -> DocumentModel {
    DocumentModel {
        class: class_of(class_name),
        author,
        title,
        preamble: raw_lines(seq!["\\date{"@ + date + "}"@] + extras),
        elements: Seq::empty(),
    }
}

/// A sheet without problems: the basic document in the style's class, the
/// style's preamble text, the title, and the introduction when it is not
/// empty.
pub open spec fn sheet_model(
    title: Seq<char>,
    intro: Seq<char>,
    date: Seq<char>,
    author: Seq<char>,
    extras: Seq<Seq<char>>,
    sc: SheetConfig,
) -> DocumentModel {
    DocumentModel {
        class: class_of(style_class(sc)),
        author,
        title,
        preamble: raw_lines(preamble_lines(date, extras, sc)),
        elements: seq![ElementModel::Raw("\\maketitle"@)] + if intro.len() == 0 {
            Seq::<ElementModel>::empty()
        } else {
            seq![ElementModel::Paragraph(intro)]
        },
    }
}

/// The document with an `enumerate` environment of `entries` at the end
/// when `any` holds, else unchanged.
pub open spec fn with_list(d: DocumentModel, entries: Seq<Seq<char>>, any: bool) -> DocumentModel {
    if any {
        DocumentModel {
            elements: d.elements.push(ElementModel::Environment("enumerate"@, entries)),
            ..d
        }
    } else {
        d
    }
}

/// `<macro>{<problem>}` for each problem.
pub open spec fn problem_entries(mac: Seq<char>, problems: Seq<Seq<char>>) -> Seq<Seq<char>> {
    problems.map_values(|p: Seq<char>| mac + "{"@ + p + "}"@)
}

/// `<macro>[<mark>]{<problem>}` for problems and marks paired by position,
/// as many as the shorter of the two lists has.
pub open spec fn coursework_entries(mac: Seq<char>, problems: Seq<Seq<char>>, marks: Seq<u32>) -> Seq<
    Seq<char>,
> {
    Seq::new(
        if problems.len() <= marks.len() {
            problems.len()
        } else {
            marks.len()
        },
        |i: int| mac + "["@ + decimal(marks[i] as nat) + "]{"@ + problems[i] + "}"@,
    )
}

pub open spec fn problem_sheet_model(
    title: Seq<char>,
    intro: Seq<char>,
    date: Seq<char>,
    metadata: Metadata,
    problems: Seq<Seq<char>>,
    sc: SheetConfig,
) -> DocumentModel {
    with_list(
        sheet_model(title, intro, date, metadata.author@, extra_commands(metadata.other@), sc),
        problem_entries(style_macro(sc), problems),
        problems.len() > 0,
    )
}

pub open spec fn coursework_sheet_model(
    title: Seq<char>,
    intro: Seq<char>,
    date: Seq<char>,
    metadata: Metadata,
    problems: Seq<Seq<char>>,
    marks: Seq<u32>,
    sc: SheetConfig,
) -> DocumentModel {
    with_list(
        sheet_model(title, intro, date, metadata.author@, extra_commands(metadata.other@), sc),
        coursework_entries(style_macro(sc), problems, marks),
        problems.len() > 0,
    )
}

/// The single entry of a preview: the problem, a rule, a bold "Solution"
/// label, then the solution.
pub open spec fn preview_entry(problem: Seq<char>) -> Seq<char> {
    "\\item\\input{"@ + problem + "/problem.tex}\n\\vspace*{2em}\\hrule\n\n\\textbf{Solution}\\par\n\\input{"@
        + problem + "/solution.tex}"@
}

/// A preview: author `preview`, an empty date, no further metadata, the
/// title `<problem> Preview`, no introduction, and the one preview entry.
pub open spec fn preview_model(problem: Seq<char>, sc: SheetConfig) -> DocumentModel {
    with_list(
        sheet_model(problem + " Preview"@, Seq::empty(), Seq::empty(), "preview"@, Seq::empty(), sc),
        seq![preview_entry(problem)],
        true,
    )
}

fn class_for(name: &str) -> (r: latex::DocumentClass)
    ensures
        class_model(r) == class_of(name@),
{
    let n = String::from_str(name);
    if n == String::from_str("article") {
        latex::DocumentClass::Article
    } else if n == String::from_str("report") {
        latex::DocumentClass::Report
    } else if n == String::from_str("book") {
        latex::DocumentClass::Book
    } else {
        latex::DocumentClass::Other(n)
    }
}

fn command(pre: &str, arg: &str, post: &str) -> (r: String)
    ensures
        r@ == pre@ + arg@ + post@,
{
    let mut s = String::from_str(pre);
    s.append(arg);
    s.append(post);
    s
}

fn push_raw(preamble: &mut Vec<latex::PreambleElement>, line: String)
    ensures
        final(preamble)@ == old(preamble)@.push(latex::PreambleElement::UserDefined(line)),
{
    preamble.push(latex::PreambleElement::UserDefined(line));
}

/// A document of class `doc_class` with the metadata's author, the title,
/// and the preamble lines `\date{<date>}` and `\k{v}` for each further
/// metadata pair, in order; its body is empty.
pub fn make_basic_doc(doc_class: &str, title: &str, date: &str, metadata: &Metadata) -> (r: Document)
    ensures
        r@ == basic_model(
            doc_class@,
            title@,
            date@,
            metadata.author@,
            extra_commands(metadata.other@),
        ),
{
    let mut preamble: Vec<latex::PreambleElement> = Vec::new();
    push_raw(&mut preamble, command("\\date{", date, "}"));
    let ghost lines = seq!["\\date{"@ + date@ + "}"@] + extra_commands(metadata.other@);
    let mut i: usize = 0;
    while i < metadata.other.len()
        invariant
            i <= metadata.other.len(),
            lines == seq!["\\date{"@ + date@ + "}"@] + extra_commands(metadata.other@),
            preamble@.map_values(|e: latex::PreambleElement| preamble_model(e)) == raw_lines(
                lines.take(i + 1),
            ),
        decreases metadata.other.len() - i,
    {
        let pair = &metadata.other[i];
        let mut line = command("\\", pair.0.as_str(), "{");
        line.append(pair.1.as_str());
        line.append("}");
        let ghost before = preamble@;
        push_raw(&mut preamble, line);
        proof {
            assert(lines[i + 1] == line@);
            assert(lines.take(i + 2) =~= lines.take(i + 1).push(line@));
            assert(raw_lines(lines.take(i + 2)) =~= raw_lines(lines.take(i + 1)).push(
                PreambleModel::Raw(line@),
            ));
            assert(preamble@.map_values(|e: latex::PreambleElement| preamble_model(e))
                =~= before.map_values(|e: latex::PreambleElement| preamble_model(e)).push(
                PreambleModel::Raw(line@),
            ));
            assert(preamble@.map_values(|e: latex::PreambleElement| preamble_model(e))
                =~= raw_lines(lines.take(i + 2)));
        }
        i = i + 1;
    }
    proof {
        assert(lines.take(i + 1) =~= lines);
    }
    let r = Document {
        class: class_for(doc_class),
        author: String::from_str(&metadata.author),
        title: String::from_str(title),
        preamble,
        elements: Vec::new(),
    };
    proof {
        let m = basic_model(doc_class@, title@, date@, metadata.author@, extra_commands(metadata.other@));
        assert(r@.elements =~= m.elements);
    }
    r
}

fn plain_paragraph(text: &str) -> (r: latex::Element)
    ensures
        element_model(r) == ElementModel::Paragraph(text@),
{
    let mut parts = Vec::new();
    parts.push(latex::ParagraphElement::Plain(String::from_str(text)));
    latex::Element::Para(latex::Paragraph { elements: parts })
}

fn push_element(elements: &mut Vec<latex::Element>, e: latex::Element)
    ensures
        final(elements)@ == old(elements)@.push(e),
        final(elements)@.map_values(|x: latex::Element| element_model(x)) == old(
            elements,
        )@.map_values(|x: latex::Element| element_model(x)).push(element_model(e)),
{
    let ghost before = elements@;
    elements.push(e);
    proof {
        assert(elements@.map_values(|x: latex::Element| element_model(x)) =~= before.map_values(
            |x: latex::Element| element_model(x),
        ).push(element_model(e)));
    }
}

/// A sheet without problems: the basic document in the style's class (or
/// `article`), then the style's preamble text, the title, and the
/// introduction when it is not empty.
pub fn make_sheet(
    title: &str,
    intro: &str,
    date: &str,
    metadata: &Metadata,
    sheet_config: &SheetConfig,
) -> (r: Document)
    ensures
        r@ == sheet_model(
            title@,
            intro@,
            date@,
            metadata.author@,
            extra_commands(metadata.other@),
            *sheet_config,
        ),
        r@.printable(),
{
    let doc_class: &str = match &sheet_config.document_class {
        Some(c) => c.as_str(),
        None => "article",
    };
    let mut doc = make_basic_doc(doc_class, title, date, metadata);
    let ghost lines = seq!["\\date{"@ + date@ + "}"@] + extra_commands(metadata.other@);
    let ghost before = doc.preamble@;
    match &sheet_config.include_preamble {
        Some(p) => {
            push_raw(&mut doc.preamble, p.clone());
            proof {
                assert(doc.preamble@.map_values(|e: latex::PreambleElement| preamble_model(e))
                    =~= before.map_values(|e: latex::PreambleElement| preamble_model(e)).push(
                    PreambleModel::Raw(p@),
                ));
                assert(preamble_lines(date@, extra_commands(metadata.other@), *sheet_config)
                    =~= lines.push(p@));
                assert(raw_lines(lines.push(p@)) =~= raw_lines(lines).push(PreambleModel::Raw(p@)));
            }
        },
        None => {
            proof {
                assert(preamble_lines(date@, extra_commands(metadata.other@), *sheet_config)
                    =~= lines);
            }
        },
    }
    push_element(&mut doc.elements, latex::Element::UserDefined(String::from_str("\\maketitle")));
    if !intro.is_empty() {
        push_element(&mut doc.elements, plain_paragraph(intro));
    }
    proof {
        let m = sheet_model(
            title@,
            intro@,
            date@,
            metadata.author@,
            extra_commands(metadata.other@),
            *sheet_config,
        );
        assert(doc@.elements =~= m.elements);
        assert(doc@.preamble =~= m.preamble);
    }
    doc
}

fn problem_macro(sheet_config: &SheetConfig) -> (r: &str)
    ensures
        r@ == style_macro(*sheet_config),
{
    match &sheet_config.problem_macro {
        Some(m) => m.as_str(),
        None => "\\item\\input",
    }
}

fn push_list(doc: &mut Document, entries: Vec<String>)
    requires
        old(doc)@.printable(),
    ensures
        final(doc)@ == with_list(old(doc)@, views(entries@), true),
        final(doc)@.printable(),
{
    push_element(&mut doc.elements, latex::Element::Environment(String::from_str("enumerate"), entries));
    proof {
        let m = with_list(old(doc)@, views(entries@), true);
        assert(doc@.elements =~= m.elements);
    }
}

/// A problem sheet: the sheet, then, when there are problems, one
/// `enumerate` environment with `<macro>{<problem>}` for each problem in
/// order; `<macro>` is the style's, or `\item\input`.
pub fn make_problem_sheet(
    title: &str,
    intro: &str,
    date: &str,
    metadata: &Metadata,
    problems: &Vec<String>,
    sheet_config: &SheetConfig,
) -> (r: Document)
    ensures
        r@ == problem_sheet_model(title@, intro@, date@, *metadata, views(problems@), *sheet_config),
        r@.printable(),
{
    let mut doc = make_sheet(title, intro, date, metadata, sheet_config);
    let mac = problem_macro(sheet_config);
    if problems.len() > 0 {
        let ghost all = problem_entries(mac@, views(problems@));
        let mut entries: Vec<String> = Vec::new();
        let mut i: usize = 0;
        while i < problems.len()
            invariant
                i <= problems.len(),
                all == problem_entries(mac@, views(problems@)),
                views(entries@) == all.take(i as int),
            decreases problems.len() - i,
        {
            let mut line = command(mac, "{", problems[i].as_str());
            line.append("}");
            let ghost before = entries@;
            entries.push(line);
            proof {
                assert(views(problems@)[i as int] == problems@[i as int]@);
                assert(line@ =~= all[i as int]);
                assert(views(entries@) =~= views(before).push(line@));
                assert(all.take(i + 1) =~= all.take(i as int).push(all[i as int]));
            }
            i = i + 1;
        }
        proof {
            assert(all.take(i as int) =~= all);
        }
        push_list(&mut doc, entries);
    }
    doc
}

/// A coursework sheet: as a problem sheet, with each entry
/// `<macro>[<mark>]{<problem>}`, problems and marks paired by position. When
/// one list is longer than the other, its extra entries are left out.
pub fn make_coursework_sheet(
    title: &str,
    intro: &str,
    date: &str,
    metadata: &Metadata,
    problems: &Vec<String>,
    marks: &Vec<u32>,
    sheet_config: &SheetConfig,
) -> (r: Document)
    ensures
        r@ == coursework_sheet_model(
            title@,
            intro@,
            date@,
            *metadata,
            views(problems@),
            marks@,
            *sheet_config,
        ),
        r@.printable(),
{
    let mut doc = make_sheet(title, intro, date, metadata, sheet_config);
    let mac = problem_macro(sheet_config);
    if problems.len() > 0 {
        let ghost all = coursework_entries(mac@, views(problems@), marks@);
        let n = if problems.len() <= marks.len() {
            problems.len()
        } else {
            marks.len()
        };
        let mut entries: Vec<String> = Vec::new();
        let mut i: usize = 0;
        while i < n
            invariant
                i <= n,
                n == all.len(),
                n <= problems.len(),
                n <= marks.len(),
                all == coursework_entries(mac@, views(problems@), marks@),
                views(entries@) == all.take(i as int),
            decreases n - i,
        {
            let mark = decimal_string(marks[i] as u64);
            let mut line = command(mac, "[", mark.as_str());
            line.append("]{");
            line.append(problems[i].as_str());
            line.append("}");
            let ghost before = entries@;
            entries.push(line);
            proof {
                assert(views(problems@)[i as int] == problems@[i as int]@);
                assert(mark@ == decimal(marks@[i as int] as nat));
                assert(line@ =~= all[i as int]);
                assert(views(entries@) =~= views(before).push(line@));
                assert(all.take(i + 1) =~= all.take(i as int).push(all[i as int]));
            }
            i = i + 1;
        }
        proof {
            assert(all.take(i as int) =~= all);
        }
        push_list(&mut doc, entries);
    }
    doc
}

/// A throwaway document that shows one problem and its solution: author
/// `preview`, an empty date, title `<problem> Preview`, and a single entry
/// that inputs `<problem>/problem.tex`, draws a rule, labels the solution and
/// inputs `<problem>/solution.tex`.
pub fn make_preview_sheet(problem: &str, sheet_config: &SheetConfig) -> (r: Document)
    ensures
        r@ == preview_model(problem@, *sheet_config),
        r@.printable(),
{
    let md = Metadata { author: String::from_str("preview"), other: Vec::new() };
    let title = command("", problem, " Preview");
    proof {
        reveal_strlit("");
        assert(title@ =~= problem@ + " Preview"@);
        assert(extra_commands(md.other@) =~= Seq::<Seq<char>>::empty());
    }
    let mut doc = make_sheet(title.as_str(), "", "", &md, sheet_config);
    let mut entry = command("\\item\\input{", problem, "/problem.tex}\n\\vspace*{2em}\\hrule\n\n\\textbf{Solution}\\par\n\\input{");
    entry.append(problem);
    entry.append("/solution.tex}");
    let mut entries: Vec<String> = Vec::new();
    entries.push(entry);
    proof {
        assert(views(entries@) =~= seq![preview_entry(problem@)]);
    }
    push_list(&mut doc, entries);
    doc
}

/// A style without a class gives the class written `article`; a style
/// with a class name gives the class written with that name.
pub proof fn lemma_document_class(sc: SheetConfig)
    ensures
        class_token(class_of(style_class(sc))) == match sc.document_class {
            Some(c) => c@,
            None => "article"@,
        },
{
}

/// A problem sheet or coursework sheet without problems holds no
/// environment at all, not even an empty one.
pub proof fn lemma_no_list_without_problems(
    title: Seq<char>,
    intro: Seq<char>,
    date: Seq<char>,
    metadata: Metadata,
    marks: Seq<u32>,
    sc: SheetConfig,
)
    ensures
        forall|i: int|
            0 <= i < problem_sheet_model(title, intro, date, metadata, Seq::empty(), sc).elements.len()
                ==> !(#[trigger] problem_sheet_model(
                title,
                intro,
                date,
                metadata,
                Seq::empty(),
                sc,
            ).elements[i] is Environment),
        forall|i: int|
            0 <= i < coursework_sheet_model(
                title,
                intro,
                date,
                metadata,
                Seq::empty(),
                marks,
                sc,
            ).elements.len() ==> !(#[trigger] coursework_sheet_model(
                title,
                intro,
                date,
                metadata,
                Seq::empty(),
                marks,
                sc,
            ).elements[i] is Environment),
{
}

/// In a sheet's preamble, the command made from the `i`-th metadata pair
/// stands right after the date line and on no other line, when no other
/// line of the preamble has the same text.
pub proof fn lemma_command_stands_once(date: Seq<char>, extras: Seq<Seq<char>>, sc: SheetConfig, i: int)
    requires
        0 <= i < extras.len(),
        extras.no_duplicates(),
        !extras.contains("\\date{"@ + date + "}"@),
        sc.include_preamble matches Some(p) ==> !extras.contains(p@),
    ensures
        raw_lines(preamble_lines(date, extras, sc)).len() > i + 1,
        raw_lines(preamble_lines(date, extras, sc))[i + 1] == PreambleModel::Raw(extras[i]),
        forall|j: int|
            0 <= j < raw_lines(preamble_lines(date, extras, sc)).len() && #[trigger] raw_lines(
                preamble_lines(date, extras, sc),
            )[j] == PreambleModel::Raw(extras[i]) ==> j == i + 1,
{
    let lines = preamble_lines(date, extras, sc);
    assert(lines[i + 1] == extras[i]);
    assert forall|j: int|
        0 <= j < raw_lines(lines).len() && #[trigger] raw_lines(lines)[j] == PreambleModel::Raw(
            extras[i],
        ) implies j == i + 1 by {
        assert(lines[j] == extras[i]);
        if j == 0 {
            assert(extras[i] == "\\date{"@ + date + "}"@);
            assert(extras.contains("\\date{"@ + date + "}"@));
        } else if j <= extras.len() {
            assert(lines[j] == extras[j - 1]);
        } else {
            let p = sc.include_preamble->0;
            assert(lines[j] == p@);
            assert(extras.contains(p@));
        }
    }
}

} // verus!
