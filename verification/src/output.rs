//! The output formatter: a command's result is a single text body plus
//! zero or one labeled sections, each spanning the whole body.

use vstd::prelude::*;
use vstd::string::*;
use vstd::utf8::encode_utf8;

verus! {

/// A labeled byte range of an output document's body.
#[derive(Debug)]
pub struct OutputSection {
    pub start: usize,
    pub end: usize,
    pub label: String,
}

/// The result of one command: a text body and zero or one sections.
#[derive(Debug)]
pub struct OutputDocument {
    pub text: String,
    pub sections: Vec<OutputSection>,
}

/// Number of bytes in the UTF-8 encoding of a text.
pub open spec fn byte_len(s: Seq<char>) -> nat {
    encode_utf8(s).len()
}

/// The document holds `body` and a single section labeled `label` that
/// spans the whole body.
pub open spec fn is_labeled_document(
    doc: OutputDocument,
    body: Seq<char>,
    label: Seq<char>,
) -> bool {
    &&& doc.text@ == body
    &&& doc.sections@.len() == 1
    &&& doc.sections@[0].start == 0
    &&& doc.sections@[0].end == byte_len(body) as usize
    &&& doc.sections@[0].label@ == label
}

/// The document holds `body` and no sections.
pub open spec fn is_plain_document(doc: OutputDocument, body: Seq<char>) -> bool {
    &&& doc.text@ == body
    &&& doc.sections@.len() == 0
}

/// Every document the pipeline produces has at most one section, and a
/// section always starts at 0 and spans the whole body.
pub open spec fn document_wf(doc: OutputDocument) -> bool {
    &&& doc.sections@.len() <= 1
    &&& forall|j: int|
        0 <= j < doc.sections@.len() ==> (#[trigger] doc.sections@[j]).start == 0
            && doc.sections@[j].end == byte_len(doc.text@) as usize
}

/// A document with one full-body section is well-formed: its section
/// starts at 0 and never exceeds the body.
pub proof fn lemma_labeled_document_wf(doc: OutputDocument, body: Seq<char>, label: Seq<char>)
    requires
        is_labeled_document(doc, body, label),
    ensures
        document_wf(doc),
{
}

/// A document without sections is well-formed.
pub proof fn lemma_plain_document_wf(doc: OutputDocument, body: Seq<char>)
    requires
        is_plain_document(doc, body),
    ensures
        document_wf(doc),
{
}

/// Wraps `text` with a single section labeled `label` spanning all of it.
pub fn labeled_document(text: String, label: String) -> (doc: OutputDocument)
    ensures
        is_labeled_document(doc, text@, label@),
        document_wf(doc),
{
    let end = text.as_str().len();
    let sec = OutputSection { start: 0, end, label };
    let mut sections: Vec<OutputSection> = Vec::new();
    sections.push(sec);
    OutputDocument { text, sections }
}

/// Wraps `text` with no sections.
pub fn plain_document(text: String) -> (doc: OutputDocument)
    ensures
        is_plain_document(doc, text@),
        document_wf(doc),
{
    OutputDocument { text, sections: Vec::new() }
}

} // verus!
