//! The ways a run can fail.
use vstd::prelude::*;

verus! {

/// Why the input document could not be had.
#[derive(Debug, Clone, PartialEq, Eq)]
pub enum ReadError {
    /// The file at this path could not be opened.
    CannotOpen(String),
    /// The file was read but is not the expected document; the parser's
    /// diagnostic, as it gave it.
    ParseFailure(String),
}

/// Why the CSV output could not be written.
#[derive(Debug, Clone, PartialEq, Eq)]
pub enum WriteError {
    /// The output file at this path could not be created.
    CannotCreate(String),
    /// Encoding or writing the records failed.
    SerializationFailure,
}

/// Any failure of a run.
#[derive(Debug, Clone, PartialEq, Eq)]
pub enum RunError {
    Read(ReadError),
    Write(WriteError),
}

/// The one-line message of a failure to read or create the file at `path`.
pub open spec fn path_message(verb: Seq<char>, path: Seq<char>) -> Seq<char> {
    "Cannot "@ + verb + " file in path '"@ + path + "'"@
}

fn path_message_text(verb: &str, path: &str) -> (r: String)
    ensures
        r@ == path_message(verb@, path@),
{
    let mut r = String::from_str("Cannot ");
    r.append(verb);
    r.append(" file in path '");
    r.append(path);
    r.append("'");
    r
}

impl RunError {
    /// The human-readable one-line message of this failure.
    pub open spec fn message_of(self) -> Seq<char> {
        match self {
            RunError::Read(ReadError::CannotOpen(p)) => path_message("read"@, p@),
            RunError::Read(ReadError::ParseFailure(d)) => d@,
            RunError::Write(WriteError::CannotCreate(p)) => path_message("write"@, p@),
            RunError::Write(WriteError::SerializationFailure) => "Cannot serialize the CSV records"@,
        }
    }

    pub fn message(&self) -> (r: String)
        ensures
            r@ == self.message_of(),
    {
        match self {
            RunError::Read(ReadError::CannotOpen(p)) => path_message_text("read", p.as_str()),
            RunError::Read(ReadError::ParseFailure(d)) => d.clone(),
            RunError::Write(WriteError::CannotCreate(p)) => path_message_text("write", p.as_str()),
            RunError::Write(WriteError::SerializationFailure) => String::from_str(
                "Cannot serialize the CSV records",
            ),
        }
    }
}

} // verus!
