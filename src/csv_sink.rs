//! The CSV output: one record per item, whose single field is the item's
//! anchor, written next to the input file.
use vstd::prelude::*;
use vstd::utf8::encode_utf8;
use crate::anchor::{anchor_of, make_anchor};
use crate::error::WriteError;
use crate::model::{ItemView, Rss};

verus! {

broadcast use vstd::seq_lib::group_seq_properties;

#[verifier::external_type_specification]
#[verifier::external_body]
pub struct ExCsvError(csv::Error);

/// A field that the csv writer puts in quotes: one holding the delimiter, the
/// quote character or a line break.
pub open spec fn needs_quotes(field: Seq<char>) -> bool {
    field.contains(',') || field.contains('"') || field.contains('\r') || field.contains('\n')
}

/// `field` with every quote character written twice.
pub open spec fn double_quotes(field: Seq<char>) -> Seq<char> {
    field.map_values(|c: char| if c == '"' { seq!['"', '"'] } else { seq![c] }).flatten()
}

/// How the csv writer writes `field` as the only field of a record: an empty
/// field as `""`, a field that needs quotes between quotes with its own quotes
/// doubled, any other field as it is.
pub open spec fn csv_field_text(field: Seq<char>) -> Seq<char> {
    if field.len() == 0 {
        seq!['"', '"']
    } else if needs_quotes(field) {
        seq!['"'] + double_quotes(field) + seq!['"']
    } else {
        field
    }
}

/// The bytes of a record whose one field is `field`: the field as the csv
/// writer writes it, then the record terminator `\n`, in UTF-8.
pub open spec fn csv_record(field: Seq<char>) -> Seq<u8> {
    encode_utf8(csv_field_text(field).push('\n'))
}

/// What `std::path::Path::with_extension` makes of `path` and `ext`.
pub uninterp spec fn path_with_extension(path: Seq<char>, ext: Seq<char>) -> Seq<char>;

/// Relies on csv's `WriterBuilder::has_headers(false)`, `Writer::serialize`
/// and `Writer::into_inner` over an in-memory buffer, with the default
/// settings (delimiter `,`, quote `"` doubled inside quoted fields, quoting
/// only where needed, terminator `\n`, no comment character). A fresh writer
/// that takes one record into a `Vec` meets no I/O error and no field-count
/// mismatch, so it succeeds, and the buffer holds that one record.
#[verifier::external_body]
fn encode_record(field: &str) -> (r: Result<Vec<u8>, csv::Error>)
    ensures
        r is Ok,
        r matches Ok(bytes) ==> bytes@ == csv_record(field@),
{
    let mut wtr = csv::WriterBuilder::new().has_headers(false).from_writer(Vec::new());
    wtr.serialize(field)?;
    wtr.into_inner().map_err(|e| csv::Error::from(e.into_error()))
}

/// Relies on `std::path::Path::with_extension`: the path with the extension
/// of its last component replaced by `ext` (or `ext` added where it has
/// none), as text. It panics on an extension that holds a path separator,
/// which `requires` leaves out.
#[verifier::external_body]
fn with_extension(path: &str, ext: &str) -> (r: String)
    requires
        forall|i: int| 0 <= i < ext@.len() ==> ext@[i] != '/' && ext@[i] != '\\',
    ensures
        r@ == path_with_extension(path@, ext@),
{
    std::path::Path::new(path).with_extension(ext).to_string_lossy().into_owned()
}

/// The output path for the input at `path`: same directory and base name,
/// with the extension `out.csv`.
pub open spec fn out_file_of(path: Seq<char>) -> Seq<char> {
    path_with_extension(path, "out.csv"@)
}

/// The CSV records of a document, one per item, in order.
pub open spec fn csv_records_of(items: Seq<ItemView>) -> Seq<Seq<u8>> {
    items.map_values(|i: ItemView| csv_record(anchor_of(i.title, i.link)))
}

/// The whole CSV file of a document: its records, one after the other, with
/// no header.
pub open spec fn csv_document_of(items: Seq<ItemView>) -> Seq<u8> {
    csv_records_of(items).flatten()
}

/// The path that the CSV output of the input at `path` is written to.
pub fn get_out_file(path: &str) -> (r: String)
    ensures
        r@ == out_file_of(path@),
{
    proof {
        reveal_strlit("out.csv");
    }
    with_extension(path, "out.csv")
}

/// The records laid end to end.
pub fn join_records(records: &Vec<Vec<u8>>) -> (r: Vec<u8>)
    ensures
        r@ == records@.map_values(|b: Vec<u8>| b@).flatten(),
{
    let ghost views = records@.map_values(|b: Vec<u8>| b@);
    let mut r: Vec<u8> = Vec::new();
    let mut i: usize = 0;
    while i < records.len()
        invariant
            i <= records@.len(),
            views == records@.map_values(|b: Vec<u8>| b@),
            r@ == views.take(i as int).flatten(),
        decreases records@.len() - i,
    {
        let rec = &records[i];
        let ghost before = r@;
        let mut j: usize = 0;
        while j < rec.len()
            invariant
                j <= rec@.len(),
                r@ == before + rec@.take(j as int),
            decreases rec@.len() - j,
        {
            r.push(rec[j]);
            j = j + 1;
            assert(r@ =~= before + rec@.take(j as int));
        }
        proof {
            assert(rec@.take(j as int) =~= rec@);
            assert(views.take(i + 1) =~= views.take(i as int).push(views[i as int]));
            views.take(i as int).lemma_flatten_push(views[i as int]);
        }
        i = i + 1;
    }
    assert(views.take(i as int) =~= views);
    r
}

/// The bytes of the CSV file for `rss`: for each item, in order, one record
/// whose single field is the item's anchor. Encoding into memory does not
/// fail.
pub fn csv_contents(rss: &Rss) -> (r: Result<Vec<u8>, WriteError>)
    ensures
        r is Ok,
        r matches Ok(bytes) ==> bytes@ == csv_document_of(rss@),
{
    let items = &rss.channel.items;
    let mut records: Vec<Vec<u8>> = Vec::new();
    let mut i: usize = 0;
    while i < items.len()
        invariant
            i <= items@.len(),
            records@.len() == i,
            forall|j: int|
                0 <= j < i ==> #[trigger] records@[j]@ == csv_record(
                    anchor_of(items@[j].title@, items@[j].link@),
                ),
        decreases items@.len() - i,
    {
        let item = &items[i];
        let anchor = make_anchor(item.title.as_str(), item.link.as_str());
        match encode_record(anchor.as_str()) {
            Ok(bytes) => records.push(bytes),
            Err(_) => return Err(WriteError::SerializationFailure),
        }
        i = i + 1;
    }
    let r = join_records(&records);
    assert(records@.map_values(|b: Vec<u8>| b@) =~= csv_records_of(rss@));
    Ok(r)
}

} // verus!
