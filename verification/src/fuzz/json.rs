//! Checks of what the formatters wrote.
//!
//! The JSON formatter writes one object on one line. The EMF formatter writes one object on each
//! line, and at least one.
use vstd::prelude::*;
use vstd::slice::slice_subrange;

verus! {

/// The line terminator.
pub const NEWLINE: u8 = 10;

/// What a JSON document is at its top level.
#[derive(Debug, Clone, Copy, PartialEq, Eq, Structural)]
pub enum JsonKind {
    /// `null`.
    Null,
    /// `true` or `false`.
    Bool,
    /// A number.
    Number,
    /// A string.
    Str,
    /// An array.
    Array,
    /// An object.
    Object,
}

/// The parser's error, which Verus sees as opaque.
#[verifier::external_type_specification]
#[verifier::external_body]
pub struct ExJsonError(serde_json::Error);

/// What `serde_json` parses `bytes` as, if it accepts them as one JSON document.
pub uninterp spec fn json_kind(bytes: Seq<u8>) -> Option<JsonKind>;

/// Calls [`serde_json::from_slice`] for a [`serde_json::Value`], and keeps of the value which
/// variant it is. Claimed: acceptance and variant depend on the bytes alone.
#[verifier::external_body]
fn parse_json(bytes: &[u8]) -> (r: Result<JsonKind, serde_json::Error>)
    ensures
        match r {
            Ok(kind) => json_kind(bytes@) == Some(kind),
            Err(_) => json_kind(bytes@) is None,
        },
{
    match serde_json::from_slice::<serde_json::Value>(bytes) {
        Ok(serde_json::Value::Null) => Ok(JsonKind::Null),
        Ok(serde_json::Value::Bool(_)) => Ok(JsonKind::Bool),
        Ok(serde_json::Value::Number(_)) => Ok(JsonKind::Number),
        Ok(serde_json::Value::String(_)) => Ok(JsonKind::Str),
        Ok(serde_json::Value::Array(_)) => Ok(JsonKind::Array),
        Ok(serde_json::Value::Object(_)) => Ok(JsonKind::Object),
        Err(e) => Err(e),
    }
}

/// What is wrong with a document.
#[derive(Debug, Clone, Copy, PartialEq, Eq, Structural)]
pub enum JsonFault {
    /// It is not JSON.
    InvalidJson,
    /// It is JSON, but no object.
    NotAnObject,
}

/// What is wrong with the output of the JSON formatter.
#[derive(Debug, Clone, Copy, PartialEq, Eq, Structural)]
pub enum JsonLineError {
    /// It does not end with a newline.
    MissingNewline,
    /// It holds another newline.
    EmbeddedNewline,
    /// The line is not a JSON object.
    Line(JsonFault),
}

/// What is wrong with the output of the EMF formatter.
#[derive(Debug, Clone, Copy, PartialEq, Eq, Structural)]
pub enum JsonLinesError {
    /// It holds no document.
    NoDocuments,
    /// The document at this position, counted without empty lines, is no JSON object.
    Document(usize, JsonFault),
}

/// The fault of a document that parses as `kind`.
pub open spec fn fault_of(kind: Option<JsonKind>) -> Option<JsonFault> {
    match kind {
        None => Some(JsonFault::InvalidJson),
        Some(kind) => if kind == JsonKind::Object {
            None
        } else {
            Some(JsonFault::NotAnObject)
        },
    }
}

/// The fault of a document that parses as `kind`, if it has one.
pub fn judge_document(kind: Option<JsonKind>) -> (r: Option<JsonFault>)
    ensures
        r == fault_of(kind),
{
    match kind {
        None => Some(JsonFault::InvalidJson),
        Some(JsonKind::Object) => None,
        Some(_) => Some(JsonFault::NotAnObject),
    }
}

/// Whether `bytes` hold a newline.
pub open spec fn has_newline(bytes: Seq<u8>) -> bool {
    exists|i: int| 0 <= i < bytes.len() && bytes[i] == NEWLINE
}

/// The line without its newline, where `output` is exactly one line.
pub fn single_line(output: &[u8]) -> (r: Result<&[u8], JsonLineError>)
    ensures
        match r {
            Ok(line) => output@ == line@.push(NEWLINE) && !has_newline(line@),
            Err(JsonLineError::MissingNewline) => output@.len() == 0 || output@.last() != NEWLINE,
            Err(JsonLineError::EmbeddedNewline) => output@.len() > 0 && output@.last() == NEWLINE
                && has_newline(output@.drop_last()),
            Err(JsonLineError::Line(_)) => false,
        },
{
    let len = output.len();
    if len == 0 || output[len - 1] != NEWLINE {
        return Err(JsonLineError::MissingNewline);
    }
    let mut i: usize = 0;
    while i < len - 1
        invariant
            0 <= i < len,
            len == output@.len(),
            output@.last() == NEWLINE,
            forall|j: int| 0 <= j < i ==> output@[j] != NEWLINE,
        decreases len - i,
    {
        if output[i] == NEWLINE {
            proof {
                assert(output@.drop_last()[i as int] == NEWLINE);
            }
            return Err(JsonLineError::EmbeddedNewline);
        }
        i += 1;
    }
    let line = slice_subrange(output, 0, len - 1);
    proof {
        assert(output@ =~= line@.push(NEWLINE));
        assert(forall|j: int| 0 <= j < line@.len() ==> line@[j] == output@[j]);
    }
    Ok(line)
}

/// The verdict on the output of the JSON formatter, where the part before the last byte parses as
/// `kind`.
pub open spec fn line_verdict(output: Seq<u8>, kind: Option<JsonKind>) -> Result<
    (),
    JsonLineError,
> {
    if output.len() == 0 || output.last() != NEWLINE {
        Err(JsonLineError::MissingNewline)
    } else if has_newline(output.drop_last()) {
        Err(JsonLineError::EmbeddedNewline)
    } else {
        match fault_of(kind) {
            Some(fault) => Err(JsonLineError::Line(fault)),
            None => Ok(()),
        }
    }
}

/// Checks that `output` is exactly one JSON object, terminated by a newline.
pub fn assert_valid_json_line(output: &[u8]) -> (r: Result<(), JsonLineError>)
    ensures
        r == line_verdict(output@, json_kind(output@.drop_last())),
{
    let line = match single_line(output) {
        Ok(line) => line,
        Err(e) => return Err(e),
    };
    proof {
        assert(output@.drop_last() =~= line@);
    }
    let kind = match parse_json(line) {
        Ok(kind) => Some(kind),
        Err(_) => None,
    };
    match judge_document(kind) {
        Some(fault) => Err(JsonLineError::Line(fault)),
        None => Ok(()),
    }
}

/// The documents that `bytes` hold: the non-empty stretches between newlines. `open` is what was
/// read of a stretch that `bytes` go on with.
pub open spec fn documents_from(open: Seq<u8>, bytes: Seq<u8>) -> Seq<Seq<u8>>
    decreases bytes.len(),
{
    if bytes.len() == 0 {
        if open.len() == 0 {
            seq![]
        } else {
            seq![open]
        }
    } else if bytes[0] != NEWLINE {
        documents_from(open.push(bytes[0]), bytes.drop_first())
    } else if open.len() == 0 {
        documents_from(open, bytes.drop_first())
    } else {
        seq![open] + documents_from(Seq::empty(), bytes.drop_first())
    }
}

/// The documents of an output: its non-empty lines.
pub open spec fn documents(output: Seq<u8>) -> Seq<Seq<u8>> {
    documents_from(Seq::empty(), output)
}

/// The contents of a list of byte vectors.
pub open spec fn contents(list: Seq<Vec<u8>>) -> Seq<Seq<u8>> {
    list.map_values(|v: Vec<u8>| v@)
}

/// The non-empty lines of `output`.
pub fn split_documents(output: &[u8]) -> (r: Vec<Vec<u8>>)
    ensures
        contents(r@) == documents(output@),
{
    let mut done: Vec<Vec<u8>> = Vec::new();
    let mut open: Vec<u8> = Vec::new();
    let mut i: usize = 0;
    proof {
        assert(contents(done@) =~= Seq::<Seq<u8>>::empty());
        assert(output@.skip(0) =~= output@);
        assert(documents(output@) =~= contents(done@) + documents_from(open@, output@.skip(0)));
    }
    while i < output.len()
        invariant
            i <= output@.len(),
            documents(output@) == contents(done@) + documents_from(open@, output@.skip(i as int)),
        decreases output@.len() - i,
    {
        let byte = output[i];
        let ghost rest = output@.skip(i as int);
        proof {
            assert(rest[0] == byte);
            assert(rest.drop_first() =~= output@.skip(i + 1));
        }
        if byte != NEWLINE {
            open.push(byte);
        } else if open.len() > 0 {
            let ghost before = done@;
            let ghost closed = open@;
            let mut next: Vec<u8> = Vec::new();
            std::mem::swap(&mut open, &mut next);
            done.push(next);
            proof {
                let later = documents_from(Seq::empty(), rest.drop_first());
                assert(open@ =~= Seq::<u8>::empty());
                assert(contents(done@) =~= contents(before).push(closed));
                assert(contents(before) + (seq![closed] + later) =~= contents(done@) + later);
            }
        }
        i += 1;
    }
    proof {
        assert(output@.skip(i as int).len() == 0);
    }
    if open.len() > 0 {
        let ghost before = done@;
        let ghost closed = open@;
        done.push(open);
        proof {
            assert(contents(done@) =~= contents(before) + seq![closed]);
        }
    } else {
        proof {
            assert(contents(done@) + seq![] =~= contents(done@));
        }
    }
    done
}

/// The first fault among documents that parse as `kinds`, the first of which has position `at`.
pub open spec fn first_fault(kinds: Seq<Option<JsonKind>>, at: nat) -> Option<(nat, JsonFault)>
    decreases kinds.len(),
{
    if kinds.len() == 0 {
        None
    } else {
        match fault_of(kinds[0]) {
            Some(fault) => Some((at, fault)),
            None => first_fault(kinds.drop_first(), at + 1),
        }
    }
}

/// The verdict on documents that parse as `kinds`.
pub open spec fn lines_verdict(kinds: Seq<Option<JsonKind>>) -> Result<(), JsonLinesError> {
    if kinds.len() == 0 {
        Err(JsonLinesError::NoDocuments)
    } else {
        match first_fault(kinds, 0) {
            Some((at, fault)) => Err(JsonLinesError::Document(at as usize, fault)),
            None => Ok(()),
        }
    }
}

/// The verdict on documents that parse as `kinds`: there is one, and each is an object. The first
/// that is none is reported.
pub fn judge_documents(kinds: &Vec<Option<JsonKind>>) -> (r: Result<(), JsonLinesError>)
    ensures
        r == lines_verdict(kinds@),
{
    if kinds.len() == 0 {
        return Err(JsonLinesError::NoDocuments);
    }
    let mut i: usize = 0;
    proof {
        assert(kinds@.skip(0) =~= kinds@);
    }
    while i < kinds.len()
        invariant
            i <= kinds@.len(),
            kinds@.len() > 0,
            first_fault(kinds@, 0) == first_fault(kinds@.skip(i as int), i as nat),
        decreases kinds@.len() - i,
    {
        proof {
            assert(kinds@.skip(i as int)[0] == kinds@[i as int]);
            assert(kinds@.skip(i as int).drop_first() =~= kinds@.skip(i + 1));
        }
        if let Some(fault) = judge_document(kinds[i]) {
            return Err(JsonLinesError::Document(i, fault));
        }
        i += 1;
    }
    Ok(())
}

/// What each of a list of documents parses as.
pub open spec fn kinds_of(documents: Seq<Seq<u8>>) -> Seq<Option<JsonKind>> {
    documents.map_values(|d: Seq<u8>| json_kind(d))
}

/// Checks that `output` holds at least one document, and that each is a JSON object.
pub fn assert_valid_json_lines(output: &[u8]) -> (r: Result<(), JsonLinesError>)
    ensures
        r == lines_verdict(kinds_of(documents(output@))),
{
    let lines = split_documents(output);
    let ghost all = kinds_of(documents(output@));
    let mut kinds: Vec<Option<JsonKind>> = Vec::new();
    let mut i: usize = 0;
    while i < lines.len()
        invariant
            i <= lines@.len(),
            all == kinds_of(contents(lines@)),
            kinds@ == all.take(i as int),
        decreases lines@.len() - i,
    {
        let kind = match parse_json(lines[i].as_slice()) {
            Ok(kind) => Some(kind),
            Err(_) => None,
        };
        kinds.push(kind);
        proof {
            assert(contents(lines@)[i as int] == lines@[i as int]@);
            assert(all.take(i + 1) =~= all.take(i as int).push(all[i as int]));
        }
        i += 1;
    }
    proof {
        assert(all.take(i as int) =~= all);
    }
    judge_documents(&kinds)
}

/// Whether `document` is a non-empty stretch without a newline.
pub open spec fn is_line(document: Seq<u8>) -> bool {
    document.len() > 0 && !has_newline(document)
}

/// Documents are lines, as long as what was read of the first is free of newlines.
proof fn documents_from_are_lines(open: Seq<u8>, bytes: Seq<u8>)
    requires
        !has_newline(open),
    ensures
        forall|i: int|
            0 <= i < documents_from(open, bytes).len() ==> is_line(
                #[trigger] documents_from(open, bytes)[i],
            ),
    decreases bytes.len(),
{
    let all = documents_from(open, bytes);
    if bytes.len() == 0 {
        assert(forall|i: int| 0 <= i < all.len() ==> is_line(#[trigger] all[i]));
    } else if bytes[0] != NEWLINE {
        let longer = open.push(bytes[0]);
        assert(!has_newline(longer)) by {
            if has_newline(longer) {
                let j = choose|j: int| 0 <= j < longer.len() && longer[j] == NEWLINE;
                assert(open[j] == NEWLINE);
            }
        }
        documents_from_are_lines(longer, bytes.drop_first());
        assert(all == documents_from(longer, bytes.drop_first()));
        assert(forall|i: int| 0 <= i < all.len() ==> is_line(#[trigger] all[i]));
    } else if open.len() == 0 {
        documents_from_are_lines(open, bytes.drop_first());
        assert(all == documents_from(open, bytes.drop_first()));
        assert(forall|i: int| 0 <= i < all.len() ==> is_line(#[trigger] all[i]));
    } else {
        let later = documents_from(Seq::empty(), bytes.drop_first());
        assert(!has_newline(Seq::<u8>::empty()));
        documents_from_are_lines(Seq::empty(), bytes.drop_first());
        assert(all == seq![open] + later);
        assert forall|i: int| 0 <= i < all.len() implies is_line(#[trigger] all[i]) by {
            if i > 0 {
                assert(all[i] == later[i - 1]);
            }
        }
    }
}

/// No document of an output is empty, and none holds a newline.
pub proof fn documents_are_lines(output: Seq<u8>)
    ensures
        forall|i: int|
            0 <= i < documents(output).len() ==> is_line(#[trigger] documents(output)[i]),
{
    documents_from_are_lines(Seq::empty(), output);
}

/// Documents have no fault if and only if each of them is an object.
proof fn no_fault(kinds: Seq<Option<JsonKind>>, at: nat)
    ensures
        first_fault(kinds, at) is None <==> (forall|i: int|
            0 <= i < kinds.len() ==> #[trigger] kinds[i] == Some(JsonKind::Object)),
    decreases kinds.len(),
{
    if kinds.len() > 0 {
        no_fault(kinds.drop_first(), at + 1);
        let rest = kinds.drop_first();
        assert(forall|i: int| 0 <= i < rest.len() ==> rest[i] == kinds[i + 1]);
        if fault_of(kinds[0]) is None {
            if forall|i: int| 0 <= i < rest.len() ==> #[trigger] rest[i] == Some(JsonKind::Object) {
                assert forall|i: int| 0 <= i < kinds.len() implies #[trigger] kinds[i] == Some(
                    JsonKind::Object,
                ) by {
                    if i > 0 {
                        assert(rest[i - 1] == kinds[i]);
                    }
                }
            }
        }
    }
}

/// Output passes as EMF if and only if it holds a document and each of its documents is a JSON
/// object.
pub proof fn valid_lines_are_objects(output: Seq<u8>)
    ensures
        lines_verdict(kinds_of(documents(output))) is Ok <==> documents(output).len() > 0 && forall|
            i: int,
        |
            0 <= i < documents(output).len() ==> json_kind(#[trigger] documents(output)[i]) == Some(
                JsonKind::Object,
            ),
{
    let docs = documents(output);
    let kinds = kinds_of(docs);
    no_fault(kinds, 0);
    assert(forall|i: int| 0 <= i < docs.len() ==> kinds[i] == json_kind(#[trigger] docs[i]));
    if forall|i: int|
        0 <= i < docs.len() ==> json_kind(#[trigger] docs[i]) == Some(JsonKind::Object) {
        assert forall|i: int| 0 <= i < kinds.len() implies #[trigger] kinds[i] == Some(
            JsonKind::Object,
        ) by {
            assert(kinds[i] == json_kind(docs[i]));
        }
    }
}

/// What passes as output of the JSON formatter passes as output of the EMF formatter too: it is
/// a single document.
pub proof fn valid_line_is_valid_lines(output: Seq<u8>)
    requires
        line_verdict(output, json_kind(output.drop_last())) is Ok,
        output.len() > 1,
    ensures
        documents(output) == seq![output.drop_last()],
        lines_verdict(kinds_of(documents(output))) is Ok,
{
    let line = output.drop_last();
    single_line_documents(Seq::empty(), output);
    assert(Seq::<u8>::empty() + line =~= line);
    assert(documents(output) =~= seq![line]);
    valid_lines_are_objects(output);
}

/// A line and its newline are one document.
proof fn single_line_documents(open: Seq<u8>, bytes: Seq<u8>)
    requires
        bytes.len() > 0,
        bytes.last() == NEWLINE,
        !has_newline(bytes.drop_last()),
        open.len() + bytes.len() > 1,
    ensures
        documents_from(open, bytes) == seq![open + bytes.drop_last()],
    decreases bytes.len(),
{
    if bytes.len() == 1 {
        assert(bytes.drop_first().len() == 0);
        assert(open + bytes.drop_last() =~= open);
        assert(documents_from(Seq::empty(), bytes.drop_first()) =~= seq![]);
        assert(documents_from(open, bytes) =~= seq![open]);
    } else {
        assert(bytes.drop_last()[0] == bytes[0]);
        let rest = bytes.drop_first();
        assert(rest.drop_last() =~= bytes.drop_last().drop_first());
        assert(!has_newline(rest.drop_last())) by {
            if has_newline(rest.drop_last()) {
                let j = choose|j: int|
                    0 <= j < rest.drop_last().len() && rest.drop_last()[j] == NEWLINE;
                assert(bytes.drop_last()[j + 1] == NEWLINE);
            }
        }
        single_line_documents(open.push(bytes[0]), rest);
        assert(open.push(bytes[0]) + rest.drop_last() =~= open + bytes.drop_last());
    }
}

} // verus!
