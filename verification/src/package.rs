//! Packaging a conversion result: which sections go into the archive, under
//! which names and in which order, and what is logged for the ones left out.

use vstd::prelude::*;
use vstd::string::StringExecFns;

use vstd::utf8::{encode_utf8, is_ascii_chars, is_ascii_chars_encode_utf8};

use crate::archive::{
    container_bytes, entry_views, name_fits, stored_entries, content_fits, texts_fit,
    write_archive, ArchiveEntry, ArchiveEntryView,
};
use crate::error::PipelineError;
use crate::text::{trimmed, trimmed_is};

verus! {

/// A section of the archive.
#[derive(Debug, Clone, Copy, PartialEq, Eq, Structural)]
pub enum Section {
    History,
    Categories,
    Favourites,
    Bookmarks,
    /// The generated metadata entry.
    Index,
}

/// The name of the archive entry of `section`.
pub open spec fn section_name(section: Section) -> Seq<char> {
    match section {
        Section::History => "history"@,
        Section::Categories => "categories"@,
        Section::Favourites => "favourites"@,
        Section::Bookmarks => "bookmarks"@,
        Section::Index => "index"@,
    }
}

impl Section {
    /// The name of the archive entry of this section.
    pub fn name(&self) -> (name: &'static str)
        ensures
            name@ == section_name(*self),
    {
        match self {
            Section::History => "history",
            Section::Categories => "categories",
            Section::Favourites => "favourites",
            Section::Bookmarks => "bookmarks",
            Section::Index => "index",
        }
    }
}

/// What serialising one section gave.
#[derive(Debug, Clone, PartialEq, Eq)]
pub enum SectionText {
    /// The section as text.
    Text(String),
    /// The section could not be serialised; the cause, in words.
    Failed(String),
}

/// The four collections of a conversion, each as serialising it left it.
#[derive(Debug, Clone, PartialEq, Eq)]
pub struct ConversionResult {
    pub history: SectionText,
    pub categories: SectionText,
    pub favourites: SectionText,
    pub bookmarks: SectionText,
}

/// What becomes of a section.
#[derive(Debug, Clone, Copy, PartialEq, Eq, Structural)]
pub enum Disposition {
    /// It is written under its name.
    Written,
    /// It holds nothing and is left out.
    Empty,
    /// It could not be serialised and is left out.
    Unreadable,
}

/// A text that stands for an empty collection: `[]`, with blanks around it at most.
pub open spec fn is_empty_collection(text: Seq<char>) -> bool {
    trimmed(text) == "[]"@
}

/// What becomes of a section with this text.
pub open spec fn disposition_of(text: SectionText) -> Disposition {
    match text {
        SectionText::Text(t) => if is_empty_collection(t@) {
            Disposition::Empty
        } else {
            Disposition::Written
        },
        SectionText::Failed(_) => Disposition::Unreadable,
    }
}

/// The line logged for a section that is left out because it is empty.
pub open spec fn empty_notice(section: Section) -> Seq<char> {
    section_name(section) + " is empty, ommitted from converted backup"@
}

/// The line logged for a section that is left out because serialising it failed.
pub open spec fn failure_warning(section: Section, cause: Seq<char>) -> Seq<char> {
    "[WARNING] Error occurred processing "@ + section_name(section)
        + ", ommitted from converted backup, original error: "@ + cause
}

/// The entries that one section contributes: itself, or nothing.
pub open spec fn section_entries(section: Section, text: SectionText) -> Seq<ArchiveEntryView> {
    match text {
        SectionText::Text(t) => if is_empty_collection(t@) {
            seq![]
        } else {
            seq![ArchiveEntryView { name: section_name(section), text: t@ }]
        },
        SectionText::Failed(_) => seq![],
    }
}

/// The lines that one section contributes to the log: one if it is left out.
pub open spec fn section_log(section: Section, text: SectionText) -> Seq<Seq<char>> {
    match text {
        SectionText::Text(t) => if is_empty_collection(t@) {
            seq![empty_notice(section)]
        } else {
            seq![]
        },
        SectionText::Failed(cause) => seq![failure_warning(section, cause@)],
    }
}

/// The texts of a list of lines.
pub open spec fn line_views(lines: Seq<String>) -> Seq<Seq<char>> {
    lines.map_values(|l: String| l@)
}

/// The text of `section`: one of the four collections, or the generated index.
pub open spec fn text_of(result: ConversionResult, index: SectionText, section: Section) -> SectionText {
    match section {
        Section::History => result.history,
        Section::Categories => result.categories,
        Section::Favourites => result.favourites,
        Section::Bookmarks => result.bookmarks,
        Section::Index => index,
    }
}

/// The entries of the archive: of each section in order, what it contributes.
pub open spec fn planned_entries(result: ConversionResult, index: SectionText) -> Seq<
    ArchiveEntryView,
> {
    section_entries(Section::History, result.history) + section_entries(
        Section::Categories,
        result.categories,
    ) + section_entries(Section::Favourites, result.favourites) + section_entries(
        Section::Bookmarks,
        result.bookmarks,
    ) + section_entries(Section::Index, index)
}

/// The lines logged while packaging: of each section in order, what it contributes.
pub open spec fn planned_log(result: ConversionResult, index: SectionText) -> Seq<Seq<char>> {
    section_log(Section::History, result.history) + section_log(
        Section::Categories,
        result.categories,
    ) + section_log(Section::Favourites, result.favourites) + section_log(
        Section::Bookmarks,
        result.bookmarks,
    ) + section_log(Section::Index, index)
}

/// What packaging will write and what it will log.
#[derive(Debug, Clone, PartialEq, Eq)]
pub struct PackagePlan {
    pub entries: Vec<ArchiveEntry>,
    pub log: Vec<String>,
}

/// What packaging gave: the lines to log, and the archive or the reason there is none.
#[derive(Debug, PartialEq, Eq)]
pub struct Packaged {
    pub log: Vec<String>,
    pub archive: Result<Vec<u8>, PipelineError>,
}

/// Says what becomes of a section with this text.
pub fn classify(text: &SectionText) -> (d: Disposition)
    ensures
        d == disposition_of(*text),
{
    match text {
        SectionText::Text(t) => {
            if trimmed_is(t.as_str(), "[]") {
                Disposition::Empty
            } else {
                Disposition::Written
            }
        },
        SectionText::Failed(_) => Disposition::Unreadable,
    }
}

/// Adds to `entries` and `log` what `section` contributes.
fn plan_section(
    section: Section,
    text: &SectionText,
    entries: &mut Vec<ArchiveEntry>,
    log: &mut Vec<String>,
)
    ensures
        entry_views(final(entries)@) == entry_views(old(entries)@) + section_entries(section, *text),
        line_views(final(log)@) == line_views(old(log)@) + section_log(section, *text),
{
    let ghost entries_before = entries@;
    let ghost log_before = log@;
    match text {
        SectionText::Text(t) => {
            if trimmed_is(t.as_str(), "[]") {
                let line = String::from_str(section.name()).concat(
                    " is empty, ommitted from converted backup",
                );
                log.push(line);
                assert(line_views(log@) =~= line_views(log_before) + seq![empty_notice(section)]);
                assert(entry_views(entries@) =~= entry_views(entries_before) + seq![]);
            } else {
                let entry = ArchiveEntry { name: section.name().to_string(), text: t.clone() };
                entries.push(entry);
                assert(entry_views(entries@) =~= entry_views(entries_before) + seq![
                    ArchiveEntryView { name: section_name(section), text: t@ },
                ]);
                assert(line_views(log@) =~= line_views(log_before) + seq![]);
            }
        },
        SectionText::Failed(cause) => {
            let line = String::from_str("[WARNING] Error occurred processing ").concat(
                section.name(),
            ).concat(", ommitted from converted backup, original error: ").concat(cause.as_str());
            log.push(line);
            assert(line_views(log@) =~= line_views(log_before) + seq![
                failure_warning(section, cause@),
            ]);
            assert(entry_views(entries@) =~= entry_views(entries_before) + seq![]);
        },
    }
}

/// Decides, for the four collections and the index, what is written and what
/// is logged: a section whose text is an empty collection is left out with a
/// notice, one that could not be serialised is left out with a warning, and
/// every other one is written under its name, in the fixed order.
pub fn plan(result: &ConversionResult, index: &SectionText) -> (p: PackagePlan)
    ensures
        entry_views(p.entries@) == planned_entries(*result, *index),
        line_views(p.log@) == planned_log(*result, *index),
{
    let mut entries: Vec<ArchiveEntry> = Vec::new();
    let mut log: Vec<String> = Vec::new();
    assert(entry_views(entries@) =~= seq![]);
    assert(line_views(log@) =~= seq![]);
    plan_section(Section::History, &result.history, &mut entries, &mut log);
    plan_section(Section::Categories, &result.categories, &mut entries, &mut log);
    plan_section(Section::Favourites, &result.favourites, &mut entries, &mut log);
    plan_section(Section::Bookmarks, &result.bookmarks, &mut entries, &mut log);
    plan_section(Section::Index, index, &mut entries, &mut log);
    assert(entry_views(entries@) =~= planned_entries(*result, *index));
    assert(line_views(log@) =~= planned_log(*result, *index));
    PackagePlan { entries, log }
}

/// Packages a conversion result: plans the sections, then writes the planned
/// entries into an archive.
///
/// The log is always the planned one. There is an archive exactly where no
/// planned entry has a text longer than an entry takes, and it is then the
/// container of exactly the planned entries. A section that is empty or could
/// not be serialised is not among them, so it never makes packaging fail.
pub fn package(result: &ConversionResult, index: &SectionText) -> (out: Packaged)
    ensures
        line_views(out.log@) == planned_log(*result, *index),
        out.archive is Ok <==> texts_fit(planned_entries(*result, *index)),
        match out.archive {
            Ok(bytes) => bytes@ == container_bytes(
                stored_entries(planned_entries(*result, *index)),
            ),
            Err(e) => e is ArchiveWriteError,
        },
{
    let p = plan(result, index);
    proof {
        lemma_plan_can_be_written(*result, *index);
    }
    let archive = write_archive(&p.entries);
    Packaged { log: p.log, archive }
}

/// Two sections never share the name of their entry.
pub proof fn lemma_section_names_distinct(a: Section, b: Section)
    requires
        a != b,
    ensures
        section_name(a) != section_name(b),
{
    reveal_strlit("history");
    reveal_strlit("categories");
    reveal_strlit("favourites");
    reveal_strlit("bookmarks");
    reveal_strlit("index");
    assert("history"@.len() == 7);
    assert("categories"@.len() == 10);
    assert("favourites"@.len() == 10);
    assert("bookmarks"@.len() == 9);
    assert("index"@.len() == 5);
    assert("categories"@[0] == 'c');
    assert("favourites"@[0] == 'f');
}

/// The name of every section fits into the header of an archive entry.
pub proof fn lemma_section_names_fit(section: Section)
    ensures
        name_fits(section_name(section)),
{
    reveal_strlit("history");
    reveal_strlit("categories");
    reveal_strlit("favourites");
    reveal_strlit("bookmarks");
    reveal_strlit("index");
    let name = section_name(section);
    assert(name.len() <= 10);
    assert(is_ascii_chars(name));
    is_ascii_chars_encode_utf8(name);
}

/// No name of a plan is in the way of writing it: every name fits into the
/// header of an entry, and no name comes twice.
pub proof fn lemma_plan_can_be_written(result: ConversionResult, index: SectionText)
    ensures
        forall|i: int|
            0 <= i < planned_entries(result, index).len() ==> name_fits(
                (#[trigger] planned_entries(result, index)[i]).name,
            ),
        forall|i: int, j: int|
            0 <= i < j < planned_entries(result, index).len() ==> (#[trigger] planned_entries(
                result,
                index,
            )[i]).name != (#[trigger] planned_entries(result, index)[j]).name,
{
    lemma_section_names_fit(Section::History);
    lemma_section_names_fit(Section::Categories);
    lemma_section_names_fit(Section::Favourites);
    lemma_section_names_fit(Section::Bookmarks);
    lemma_section_names_fit(Section::Index);
    lemma_section_names_distinct(Section::History, Section::Categories);
    lemma_section_names_distinct(Section::History, Section::Favourites);
    lemma_section_names_distinct(Section::History, Section::Bookmarks);
    lemma_section_names_distinct(Section::History, Section::Index);
    lemma_section_names_distinct(Section::Categories, Section::Favourites);
    lemma_section_names_distinct(Section::Categories, Section::Bookmarks);
    lemma_section_names_distinct(Section::Categories, Section::Index);
    lemma_section_names_distinct(Section::Favourites, Section::Bookmarks);
    lemma_section_names_distinct(Section::Favourites, Section::Index);
    lemma_section_names_distinct(Section::Bookmarks, Section::Index);
}

/// Whether the text of `section` is no longer than an entry takes, should the
/// section be written.
pub open spec fn section_fits(result: ConversionResult, index: SectionText, section: Section) -> bool {
    disposition_of(text_of(result, index, section)) == Disposition::Written ==> content_fits(
        encode_utf8(text_of(result, index, section)->Text_0@),
    )
}

/// Only the sections that are written decide whether there is an archive: a
/// section that is empty or could not be serialised never stands in the way.
pub proof fn lemma_only_written_sections_decide(result: ConversionResult, index: SectionText)
    ensures
        texts_fit(planned_entries(result, index)) <==> forall|section: Section| #[trigger]
            section_fits(result, index, section),
{
    let entries = planned_entries(result, index);
    let h = section_entries(Section::History, result.history);
    let c = section_entries(Section::Categories, result.categories);
    let f = section_entries(Section::Favourites, result.favourites);
    let b = section_entries(Section::Bookmarks, result.bookmarks);
    let x = section_entries(Section::Index, index);
    assert(entries == h + c + f + b + x);
    if texts_fit(entries) {
        assert forall|section: Section| #[trigger] section_fits(result, index, section) by {
            if disposition_of(text_of(result, index, section)) == Disposition::Written {
                let e = entry_of(result, index, section);
                let at: int = match section {
                    Section::History => 0,
                    Section::Categories => h.len() as int,
                    Section::Favourites => (h.len() + c.len()) as int,
                    Section::Bookmarks => (h.len() + c.len() + f.len()) as int,
                    Section::Index => (h.len() + c.len() + f.len() + b.len()) as int,
                };
                assert(entries[at] == e);
            }
        }
    }
    if forall|section: Section| #[trigger] section_fits(result, index, section) {
        assert(section_fits(result, index, Section::History));
        assert(section_fits(result, index, Section::Categories));
        assert(section_fits(result, index, Section::Favourites));
        assert(section_fits(result, index, Section::Bookmarks));
        assert(section_fits(result, index, Section::Index));
        assert forall|i: int| 0 <= i < entries.len() implies content_fits(
            encode_utf8((#[trigger] entries[i]).text),
        ) by {
            let hc = h.len() + c.len();
            let hcf = hc + f.len();
            let hcfb = hcf + b.len();
            if i < h.len() {
                assert(entries[i] == h[i]);
            } else if i < hc {
                assert(entries[i] == c[i - h.len()]);
            } else if i < hcf {
                assert(entries[i] == f[i - hc]);
            } else if i < hcfb {
                assert(entries[i] == b[i - hcf]);
            } else {
                assert(entries[i] == x[i - hcfb]);
            }
        }
    }
}

/// A conversion whose four collections are all empty is packaged as what the
/// index contributes and nothing else: with an index that is written, the
/// archive holds the one entry `index`, and there is an archive exactly where
/// the text of the index is no longer than an entry takes.
pub proof fn lemma_empty_result_packs_index_only(result: ConversionResult, index: SectionText)
    requires
        disposition_of(result.history) == Disposition::Empty,
        disposition_of(result.categories) == Disposition::Empty,
        disposition_of(result.favourites) == Disposition::Empty,
        disposition_of(result.bookmarks) == Disposition::Empty,
    ensures
        planned_entries(result, index) == section_entries(Section::Index, index),
        disposition_of(index) == Disposition::Written ==> planned_entries(result, index) == seq![
            ArchiveEntryView { name: "index"@, text: index->Text_0@ },
        ],
        texts_fit(planned_entries(result, index)) <==> section_fits(
            result,
            index,
            Section::Index,
        ),
{
    assert(planned_entries(result, index) =~= section_entries(Section::Index, index));
    lemma_only_written_sections_decide(result, index);
    assert(section_fits(result, index, Section::History));
    assert(section_fits(result, index, Section::Categories));
    assert(section_fits(result, index, Section::Favourites));
    assert(section_fits(result, index, Section::Bookmarks));
    if section_fits(result, index, Section::Index) {
        assert forall|section: Section| #[trigger] section_fits(result, index, section) by {
            match section {
                Section::History => {},
                Section::Categories => {},
                Section::Favourites => {},
                Section::Bookmarks => {},
                Section::Index => {},
            }
        }
    }
}

/// The entry that a written section becomes.
pub open spec fn entry_of(result: ConversionResult, index: SectionText, section: Section) -> ArchiveEntryView {
    ArchiveEntryView {
        name: section_name(section),
        text: text_of(result, index, section)->Text_0@,
    }
}

/// Where serialising exactly one of the four collections failed and every other
/// section is written, the archive holds the other three collections and the
/// index, and no entry under the name of the one that failed; and there is an
/// archive exactly where none of those four texts is longer than an entry takes.
pub proof fn lemma_one_failure_keeps_the_rest(
    result: ConversionResult,
    index: SectionText,
    failed: Section,
)
    requires
        failed != Section::Index,
        disposition_of(text_of(result, index, failed)) == Disposition::Unreadable,
        forall|s: Section|
            s != failed ==> disposition_of(#[trigger] text_of(result, index, s))
                == Disposition::Written,
    ensures
        planned_entries(result, index).len() == 4,
        forall|s: Section|
            s != failed ==> planned_entries(result, index).contains(
                #[trigger] entry_of(result, index, s),
            ),
        forall|i: int|
            0 <= i < 4 ==> (#[trigger] planned_entries(result, index)[i]).name != section_name(
                failed,
            ),
        texts_fit(planned_entries(result, index)) <==> forall|s: Section|
            s != failed ==> content_fits(
                encode_utf8((#[trigger] text_of(result, index, s))->Text_0@),
            ),
{
    lemma_only_written_sections_decide(result, index);
    assert(section_fits(result, index, failed));
    if forall|s: Section|
        s != failed ==> content_fits(encode_utf8((#[trigger] text_of(result, index, s))->Text_0@)) {
        assert forall|section: Section| #[trigger] section_fits(result, index, section) by {
            if section != failed {
                assert(content_fits(encode_utf8(text_of(result, index, section)->Text_0@)));
            }
        }
    }
    if forall|section: Section| #[trigger] section_fits(result, index, section) {
        assert forall|s: Section| s != failed implies content_fits(
            encode_utf8((#[trigger] text_of(result, index, s))->Text_0@),
        ) by {
            assert(section_fits(result, index, s));
        }
    }
    let entries = planned_entries(result, index);
    let h = text_of(result, index, Section::History);
    let c = text_of(result, index, Section::Categories);
    let f = text_of(result, index, Section::Favourites);
    let b = text_of(result, index, Section::Bookmarks);
    let x = text_of(result, index, Section::Index);
    lemma_section_names_distinct(failed, Section::Index);
    if failed != Section::History {
        lemma_section_names_distinct(failed, Section::History);
    }
    if failed != Section::Categories {
        lemma_section_names_distinct(failed, Section::Categories);
    }
    if failed != Section::Favourites {
        lemma_section_names_distinct(failed, Section::Favourites);
    }
    if failed != Section::Bookmarks {
        lemma_section_names_distinct(failed, Section::Bookmarks);
    }
    assert(entries.len() == 4);
    assert forall|s: Section| s != failed implies entries.contains(
        #[trigger] entry_of(result, index, s),
    ) by {
        let e = entry_of(result, index, s);
        assert(disposition_of(text_of(result, index, s)) == Disposition::Written);
        assert(exists|i: int| 0 <= i < 4 && entries[i] == e) by {
            assert(entries[0] == e || entries[1] == e || entries[2] == e || entries[3] == e);
        }
    }
}

} // verus!
