//! How the output of formatters is judged.
use crate::fuzz::json::{
    self, assert_valid_json_line, assert_valid_json_lines, judge_document, judge_documents,
    single_line, split_documents, JsonFault, JsonKind, JsonLineError, JsonLinesError,
};
use vstd::prelude::*;

verus! {

/// Whether some bytes hold a line feed.
pub open spec fn holds_line_feed(bytes: Seq<u8>) -> bool {
    exists|i: int| 0 <= i < bytes.len() && #[trigger] bytes[i] == 10
}

/// A document has no fault if and only if it is a JSON object. It is faulted as invalid if and only
/// if it is not JSON at all.
pub proof fn objects_alone_have_no_fault(kind: Option<JsonKind>, r: Option<JsonFault>)
    requires
        call_ensures(judge_document, (kind,), r),
    ensures
        r is None <==> kind == Some(JsonKind::Object),
        r == Some(JsonFault::InvalidJson) <==> kind is None,
        r == Some(JsonFault::NotAnObject) <==> kind is Some && kind != Some(JsonKind::Object),
{
}

/// The output of the JSON formatter is accepted if and only if it is a JSON object, a line feed
/// behind it and none in it. The first of these that does not hold is the error.
pub proof fn a_json_line_is_one_object(output: &[u8], r: Result<(), JsonLineError>)
    requires
        call_ensures(assert_valid_json_line, (output,), r),
    ensures
        ({
            let ended = output@.len() > 0 && output@.last() == 10;
            let body = output@.drop_last();
            &&& r is Ok <==> ended && !holds_line_feed(body) && json::json_kind(body) == Some(
                JsonKind::Object,
            )
            &&& r == Err::<(), _>(JsonLineError::MissingNewline) <==> !ended
            &&& r == Err::<(), _>(JsonLineError::EmbeddedNewline) <==> ended && holds_line_feed(body)
            &&& r == Err::<(), _>(JsonLineError::Line(JsonFault::InvalidJson)) <==> ended
                && !holds_line_feed(body) && json::json_kind(body) is None
            &&& r == Err::<(), _>(JsonLineError::Line(JsonFault::NotAnObject)) <==> ended
                && !holds_line_feed(body) && json::json_kind(body) is Some && json::json_kind(body)
                != Some(JsonKind::Object)
        }),
{
    newlines_are_line_feeds(output@.drop_last());
}

/// A newline is a line feed.
proof fn newlines_are_line_feeds(bytes: Seq<u8>)
    ensures
        json::has_newline(bytes) <==> holds_line_feed(bytes),
{
    if json::has_newline(bytes) {
        let i = choose|i: int| 0 <= i < bytes.len() && bytes[i] == json::NEWLINE;
        assert(bytes[i] == 10);
    }
    if holds_line_feed(bytes) {
        let i = choose|i: int| 0 <= i < bytes.len() && #[trigger] bytes[i] == 10;
        assert(bytes[i] == json::NEWLINE);
    }
}

/// A single line is taken as it is, without the line feed behind it.
pub proof fn a_single_line_is_taken_as_it_is(output: &[u8], r: Result<&[u8], JsonLineError>)
    requires
        call_ensures(single_line, (output,), r),
    ensures
        r is Ok <==> output@.len() > 0 && output@.last() == 10 && !holds_line_feed(
            output@.drop_last(),
        ),
        r matches Ok(line) ==> line@ == output@.drop_last(),
{
    newlines_are_line_feeds(output@.drop_last());
    if let Ok(line) = r {
        assert(line@ =~= output@.drop_last());
    }
}

/// Output without a line feed is one document, or none if it is empty.
pub proof fn a_line_is_one_document(line: Seq<u8>)
    requires
        !holds_line_feed(line),
    ensures
        line.len() == 0 ==> json::documents(line).len() == 0,
        line.len() > 0 ==> json::documents(line) =~= seq![line],
{
    line_from(Seq::empty(), line);
    assert(Seq::<u8>::empty() + line =~= line);
}

/// What goes on without a line feed is part of the same document.
proof fn line_from(open: Seq<u8>, line: Seq<u8>)
    requires
        !holds_line_feed(line),
    ensures
        open.len() + line.len() == 0 ==> json::documents_from(open, line).len() == 0,
        open.len() + line.len() > 0 ==> json::documents_from(open, line) == seq![open + line],
    decreases line.len(),
{
    if line.len() == 0 {
        assert(open + line =~= open);
    } else {
        assert(line[0] != 10);
        let rest = line.drop_first();
        assert(!holds_line_feed(rest)) by {
            if holds_line_feed(rest) {
                let i = choose|i: int| 0 <= i < rest.len() && #[trigger] rest[i] == 10;
                assert(line[i + 1] == 10);
            }
        }
        line_from(open.push(line[0]), rest);
        assert(open.push(line[0]) + rest =~= open + line);
    }
}

/// A line feed separates documents: those of output before and behind it are found one after the
/// other. Together with [`a_line_is_one_document`] this says which documents any output holds.
pub proof fn line_feeds_separate_documents(before: Seq<u8>, behind: Seq<u8>)
    ensures
        json::documents(before.push(10) + behind) == json::documents(before) + json::documents(
            behind,
        ),
{
    separated_from(Seq::empty(), before, behind);
}

/// [`line_feeds_separate_documents`], of output that goes on with a document.
proof fn separated_from(open: Seq<u8>, before: Seq<u8>, behind: Seq<u8>)
    ensures
        json::documents_from(open, before.push(10) + behind) == json::documents_from(open, before)
            + json::documents(behind),
    decreases before.len(),
{
    let all = before.push(10) + behind;
    if before.len() == 0 {
        assert(all[0] == 10);
        assert(all.drop_first() =~= behind);
        if open.len() == 0 {
            assert(json::documents_from(open, before) =~= Seq::empty());
            assert(open =~= Seq::empty());
            assert(Seq::<Seq<u8>>::empty() + json::documents(behind) =~= json::documents(behind));
        }
    } else {
        let rest = before.drop_first();
        assert(all[0] == before[0]);
        assert(all.drop_first() =~= rest.push(10) + behind);
        if before[0] != 10 {
            separated_from(open.push(before[0]), rest, behind);
        } else if open.len() == 0 {
            separated_from(open, rest, behind);
        } else {
            separated_from(Seq::empty(), rest, behind);
            assert(seq![open] + (json::documents_from(Seq::empty(), rest) + json::documents(behind))
                =~= (seq![open] + json::documents_from(Seq::empty(), rest)) + json::documents(
                behind,
            ));
        }
    }
}

/// Splitting output hands out its documents, in their order.
pub proof fn splitting_hands_out_the_documents(output: &[u8], r: Vec<Vec<u8>>, at: int)
    requires
        call_ensures(split_documents, (output,), r),
    ensures
        r@.len() == json::documents(output@).len(),
        0 <= at < r@.len() ==> r@[at]@ == json::documents(output@)[at],
{
    assert(json::contents(r@).len() == r@.len());
    if 0 <= at < r@.len() {
        assert(json::contents(r@)[at] == r@[at]@);
    }
}

/// The first fault is at the first document that is no object.
proof fn first_fault_is_the_first(kinds: Seq<Option<JsonKind>>, at: nat)
    ensures
        match json::first_fault(kinds, at) {
            None => forall|i: int|
                0 <= i < kinds.len() ==> #[trigger] kinds[i] == Some(JsonKind::Object),
            Some((k, fault)) => {
                &&& at <= k < at + kinds.len()
                &&& kinds[k - at] != Some(JsonKind::Object)
                &&& fault == JsonFault::InvalidJson <==> kinds[k - at] is None
                &&& forall|i: int|
                    0 <= i < k - at ==> #[trigger] kinds[i] == Some(JsonKind::Object)
            },
        },
    decreases kinds.len(),
{
    if kinds.len() > 0 {
        let rest = kinds.drop_first();
        first_fault_is_the_first(rest, at + 1);
        assert forall|i: int| 0 < i < kinds.len() implies #[trigger] kinds[i] == rest[i - 1] by {}
    }
}

/// Documents are accepted if and only if there are some and each is a JSON object. Otherwise the
/// first that is none is the error, or that there are none.
pub proof fn the_first_bad_document_is_the_error(
    kinds: Vec<Option<JsonKind>>,
    r: Result<(), JsonLinesError>,
)
    requires
        call_ensures(judge_documents, (&kinds,), r),
    ensures
        r is Ok <==> kinds@.len() > 0 && forall|i: int|
            0 <= i < kinds@.len() ==> #[trigger] kinds@[i] == Some(JsonKind::Object),
        r == Err::<(), _>(JsonLinesError::NoDocuments) <==> kinds@.len() == 0,
        r matches Err(JsonLinesError::Document(k, fault)) ==> {
            &&& k < kinds@.len()
            &&& kinds@[k as int] != Some(JsonKind::Object)
            &&& fault == JsonFault::InvalidJson <==> kinds@[k as int] is None
            &&& forall|i: int| 0 <= i < k ==> #[trigger] kinds@[i] == Some(JsonKind::Object)
        },
{
    vstd::std_specs::vec::axiom_spec_len(&kinds);
    first_fault_is_the_first(kinds@, 0);
}

/// There are no more documents than bytes.
proof fn few_documents(open: Seq<u8>, bytes: Seq<u8>)
    ensures
        json::documents_from(open, bytes).len() <= bytes.len() + open.len(),
    decreases bytes.len(),
{
    if bytes.len() > 0 {
        let rest = bytes.drop_first();
        few_documents(open.push(bytes[0]), rest);
        few_documents(open, rest);
        few_documents(Seq::empty(), rest);
    }
}

/// The output of the EMF formatter is accepted if and only if it holds a document and each of its
/// documents is a JSON object. Otherwise the first that is none is the error, or that there are
/// none.
pub proof fn json_lines_are_objects(output: &[u8], r: Result<(), JsonLinesError>)
    requires
        call_ensures(assert_valid_json_lines, (output,), r),
    ensures
        ({
            let documents = json::documents(output@);
            &&& r is Ok <==> documents.len() > 0 && forall|i: int|
                0 <= i < documents.len() ==> json::json_kind(#[trigger] documents[i]) == Some(
                    JsonKind::Object,
                )
            &&& r == Err::<(), _>(JsonLinesError::NoDocuments) <==> documents.len() == 0
            &&& r matches Err(JsonLinesError::Document(k, fault)) ==> {
                &&& k < documents.len()
                &&& json::json_kind(documents[k as int]) != Some(JsonKind::Object)
                &&& fault == JsonFault::InvalidJson <==> json::json_kind(documents[k as int]) is None
                &&& forall|i: int|
                    0 <= i < k ==> json::json_kind(#[trigger] documents[i]) == Some(
                        JsonKind::Object,
                    )
            }
        }),
{
    let documents = json::documents(output@);
    let kinds = json::kinds_of(documents);
    few_documents(Seq::empty(), output@);
    vstd::slice::axiom_spec_len(output);
    first_fault_is_the_first(kinds, 0);
    assert(kinds.len() == documents.len());
    assert forall|i: int| 0 <= i < documents.len() implies json::json_kind(#[trigger] documents[i])
        == kinds[i] by {}
    if forall|i: int|
        0 <= i < documents.len() ==> json::json_kind(#[trigger] documents[i]) == Some(
            JsonKind::Object,
        ) {
        assert forall|i: int| 0 <= i < kinds.len() implies #[trigger] kinds[i] == Some(
            JsonKind::Object,
        ) by {
            assert(json::json_kind(documents[i]) == kinds[i]);
        }
    }
}

} // verus!
