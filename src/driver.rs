//! The choice between the two outputs, and what each run produces.
use vstd::prelude::*;
use crate::anchor::anchor_of;
use crate::console_sink::{before_first_comma, console_lines, console_lines_of, without_commas};
use crate::csv_sink::{
    csv_contents, csv_document_of, csv_record, csv_records_of, get_out_file, out_file_of,
};
use crate::error::{ReadError, RunError};
use crate::model::{ItemView, Rss};

verus! {

/// Where the listing goes.
#[derive(Debug, Clone, Copy, PartialEq, Eq)]
pub enum OutFormat {
    /// A CSV file of anchors next to the input file.
    Csv,
    /// Lines on standard output.
    Stdout,
}

/// What a run hands to its caller to write out.
#[derive(Debug, Clone, PartialEq, Eq)]
pub enum Output {
    /// Create (or truncate) the file at `path` and write `contents` to it.
    CsvFile { path: String, contents: Vec<u8> },
    /// Print each line, in order, on standard output.
    Console { lines: Vec<String> },
}

/// `out` is what a run on the document `items`, read from `input`, produces
/// in the format `format`.
pub open spec fn is_output_of(
    input: Seq<char>,
    items: Seq<ItemView>,
    format: OutFormat,
    out: Output,
) -> bool {
    match format {
        OutFormat::Csv => out matches Output::CsvFile { path, contents } && path@ == out_file_of(
            input,
        ) && contents@ == csv_document_of(items),
        OutFormat::Stdout => out matches Output::Console { lines } && lines@.map_values(
            |l: String| l@,
        ) == console_lines_of(items),
    }
}

/// Decides what a run on the input at `input_file` produces, given the
/// outcome of reading it: a read failure is handed on with no output; else
/// the CSV file or the console lines of the document, as `out_format` says.
pub fn process_file(input_file: &str, read: Result<Rss, ReadError>, out_format: OutFormat) -> (r:
    Result<Output, RunError>)
    ensures
        read matches Err(e) ==> r == Err::<Output, RunError>(RunError::Read(e)),
        read is Ok ==> r is Ok,
        read matches Ok(rss) ==> (r matches Ok(out) && is_output_of(
            input_file@,
            rss@,
            out_format,
            out,
        )),
{
    let rss = match read {
        Ok(rss) => rss,
        Err(e) => return Err(RunError::Read(e)),
    };
    match out_format {
        OutFormat::Csv => {
            let path = get_out_file(input_file);
            match csv_contents(&rss) {
                Ok(contents) => Ok(Output::CsvFile { path, contents }),
                Err(e) => Err(RunError::Write(e)),
            }
        },
        OutFormat::Stdout => Ok(Output::Console { lines: console_lines(&rss) }),
    }
}

/// The CSV output of a document holds one record per item, in document
/// order, each the CSV encoding of that item's anchor, and nothing else.
pub proof fn lemma_csv_rows(items: Seq<ItemView>)
    ensures
        csv_records_of(items).len() == items.len(),
        forall|i: int|
            0 <= i < items.len() ==> #[trigger] csv_records_of(items)[i] == csv_record(
                anchor_of(items[i].title, items[i].link),
            ),
        csv_document_of(items) == csv_records_of(items).flatten(),
{
}

/// The console listing of a document holds exactly one line per item, in
/// document order: the title with every comma taken out, `", "`, and the link
/// cut before its first comma.
pub proof fn lemma_console_rows(items: Seq<ItemView>)
    ensures
        console_lines_of(items).len() == items.len(),
        forall|i: int|
            0 <= i < items.len() ==> {
                let line = #[trigger] console_lines_of(items)[i];
                let title = without_commas(items[i].title);
                let link = before_first_comma(items[i].link);
                &&& line == title + ", "@ + link
                &&& !title.contains(',')
                &&& link.is_prefix_of(items[i].link)
                &&& !link.contains(',')
                &&& link.len() == items[i].link.len() || items[i].link[link.len() as int] == ','
            },
{
    assert forall|i: int| 0 <= i < items.len() implies {
        let line = #[trigger] console_lines_of(items)[i];
        let title = without_commas(items[i].title);
        let link = before_first_comma(items[i].link);
        &&& line == title + ", "@ + link
        &&& !title.contains(',')
        &&& link.is_prefix_of(items[i].link)
        &&& !link.contains(',')
        &&& link.len() == items[i].link.len() || items[i].link[link.len() as int] == ','
    } by {
        lemma_comma_free_title(items[i].title);
        lemma_link_prefix(items[i].link);
    }
}

/// No comma is left once commas are taken out.
proof fn lemma_comma_free_title(s: Seq<char>)
    ensures
        !without_commas(s).contains(','),
{
    assert(!without_commas(s).contains(',')) by {
        if without_commas(s).contains(',') {
            s.lemma_filter_contains_rev(|c: char| c != ',', ',');
        }
    }
}

/// What comes before the first comma is a prefix without commas, ending at
/// the end of the text or at a comma.
proof fn lemma_link_prefix(s: Seq<char>)
    ensures
        before_first_comma(s).is_prefix_of(s),
        !before_first_comma(s).contains(','),
        before_first_comma(s).len() == s.len() || s[before_first_comma(s).len() as int] == ',',
    decreases s.len(),
{
    if s.len() > 0 && s[0] != ',' {
        let rest = s.drop_first();
        lemma_link_prefix(rest);
        let p = before_first_comma(s);
        assert(p == seq![s[0]] + before_first_comma(rest));
        assert forall|j: int| 0 <= j < p.len() implies p[j] == s[j] && p[j] != ',' by {
            if j > 0 {
                assert(p[j] == before_first_comma(rest)[j - 1]);
                assert(!before_first_comma(rest).contains(','));
                if p[j] == ',' {
                    assert(before_first_comma(rest).contains(before_first_comma(rest)[j - 1]));
                }
            }
        }
    }
}

/// Two CSV runs on the same input file and the same document write the same
/// file: the same path, byte for byte the same contents.
pub proof fn lemma_csv_output_repeatable(
    input: Seq<char>,
    items: Seq<ItemView>,
    first: Output,
    second: Output,
)
    requires
        is_output_of(input, items, OutFormat::Csv, first),
        is_output_of(input, items, OutFormat::Csv, second),
    ensures
        first matches Output::CsvFile { path: p1, contents: c1 } && second matches Output::CsvFile {
            path: p2,
            contents: c2,
        } && p1@ == p2@ && c1@ == c2@,
{
}

} // verus!
