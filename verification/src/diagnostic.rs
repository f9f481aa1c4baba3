//! What a session has to report: each chunk that arrived, as text where it is
//! text, and each failure of the transport.

use vstd::prelude::*;
use vstd::utf8::{decode_utf8, valid_utf8};

verus! {

/// One report of a session, for whoever keeps its log.
#[derive(Debug, PartialEq, Eq)]
pub enum Diagnostic {
    /// A chunk arrived, and its bytes are this text.
    Text(String),
    /// A chunk of this many bytes arrived, and its bytes are no text.
    Opaque(usize),
    /// A read failed.
    ReadFailed,
    /// A write failed.
    WriteFailed,
}

/// A report as a mathematical value.
pub enum DiagnosticView {
    Text(Seq<char>),
    Opaque(nat),
    ReadFailed,
    WriteFailed,
}

impl View for Diagnostic {
    type V = DiagnosticView;

    open spec fn view(&self) -> DiagnosticView {
        match self {
            Diagnostic::Text(s) => DiagnosticView::Text(s@),
            Diagnostic::Opaque(n) => DiagnosticView::Opaque(*n as nat),
            Diagnostic::ReadFailed => DiagnosticView::ReadFailed,
            Diagnostic::WriteFailed => DiagnosticView::WriteFailed,
        }
    }
}

impl DiagnosticView {
    /// Whether the report tells of a failure.
    pub open spec fn is_failure(self) -> bool {
        self is ReadFailed || self is WriteFailed
    }
}

/// The report on a chunk that arrived: its text where the bytes are UTF-8,
/// else a placeholder that keeps only their number.
pub open spec fn describe(chunk: Seq<u8>) -> DiagnosticView {
    if valid_utf8(chunk) {
        DiagnosticView::Text(decode_utf8(chunk))
    } else {
        DiagnosticView::Opaque(chunk.len())
    }
}

/// Calls `std::str::from_utf8` and copies the text it finds. The contract is
/// the one of that function: it succeeds on exactly the byte strings that are
/// UTF-8, and the text it gives is made of the characters that those bytes
/// encode.
#[verifier::external_body]
fn decode_text(bytes: &[u8]) -> (text: Option<String>)
    ensures
        text is Some <==> valid_utf8(bytes@),
        text matches Some(s) ==> s@ == decode_utf8(bytes@),
{
    match std::str::from_utf8(bytes) {
        Ok(s) => Some(s.to_owned()),
        Err(_) => None,
    }
}

/// Reports on a chunk that arrived. Bytes that are no text never fail the
/// caller: they are reported by their number.
pub fn describe_chunk(chunk: &[u8]) -> (d: Diagnostic)
    ensures
        d@ == describe(chunk@),
{
    match decode_text(chunk) {
        Some(text) => Diagnostic::Text(text),
        None => Diagnostic::Opaque(chunk.len()),
    }
}

} // verus!
