//! Binding an argument object to a schema document.
//!
//! Every field of the document is looked up by its name. A field that the
//! caller left out takes its default, or fails the call where it has none; a
//! field that is there must have the field's type and, where the field is
//! enumerated, one of its tags. Keys that the document does not name are
//! never looked at.

use crate::blob::{blob_entries, blob_get, ParamBlob, ParamValue, ParamValueView};
use crate::failure::{invalid_parameters_message, Failure, FailureKind, FailureView};
use crate::schema::{
    texts_of, type_label, FieldSchema, FieldSchemaView, FieldType, SchemaDoc, TypedValue,
    TypedValueView,
};
use vstd::prelude::*;

verus! {

/// Why an argument object does not fit a schema document.
#[derive(Debug)]
pub enum DecodeError {
    /// A field without a default is not there.
    Missing { field: String },
    /// A field is there, but its value is not of the field's type.
    WrongType { field: String, expected: FieldType },
    /// An enumerated field holds a tag outside its set.
    NotAllowed { field: String, value: String },
}

/// The mathematical value of a [`DecodeError`].
pub enum DecodeErrorView {
    Missing { field: Seq<char> },
    WrongType { field: Seq<char>, expected: FieldType },
    NotAllowed { field: Seq<char>, value: Seq<char> },
}

impl View for DecodeError {
    type V = DecodeErrorView;

    open spec fn view(&self) -> DecodeErrorView {
        match self {
            DecodeError::Missing { field } => DecodeErrorView::Missing { field: field@ },
            DecodeError::WrongType { field, expected } => DecodeErrorView::WrongType {
                field: field@,
                expected: *expected,
            },
            DecodeError::NotAllowed { field, value } => DecodeErrorView::NotAllowed {
                field: field@,
                value: value@,
            },
        }
    }
}

/// What a decoding error says in a failure message. Each form names the
/// field that it is about.
pub open spec fn decode_error_detail(e: DecodeErrorView) -> Seq<char> {
    match e {
        DecodeErrorView::Missing { field } => "missing field `"@ + field + "`"@,
        DecodeErrorView::WrongType { field, expected } => "invalid type for field `"@ + field
            + "`, expected "@ + type_label(expected),
        DecodeErrorView::NotAllowed { field, value } => "unknown variant `"@ + value
            + "` for field `"@ + field + "`"@,
    }
}

/// The failure that a decoding error becomes at the dispatcher's boundary.
pub open spec fn decode_failure(e: DecodeErrorView) -> FailureView {
    FailureView {
        kind: FailureKind::InvalidParameters,
        message: invalid_parameters_message(decode_error_detail(e)),
    }
}

impl DecodeError {
    /// What this error says in a failure message.
    pub fn detail(&self) -> (r: String)
        ensures
            r@ == decode_error_detail(self@),
    {
        match self {
            DecodeError::Missing { field } => {
                let mut out = String::from_str("missing field `");
                out.append(field.as_str());
                out.append("`");
                out
            },
            DecodeError::WrongType { field, expected } => {
                let mut out = String::from_str("invalid type for field `");
                out.append(field.as_str());
                out.append("`, expected ");
                out.append(expected.label());
                out
            },
            DecodeError::NotAllowed { field, value } => {
                let mut out = String::from_str("unknown variant `");
                out.append(value.as_str());
                out.append("` for field `");
                out.append(field.as_str());
                out.append("`");
                out
            },
        }
    }

    /// This error as an invalid-parameters failure.
    pub fn into_failure(self) -> (r: Failure)
        ensures
            r@ == decode_failure(self@),
    {
        let detail = self.detail();
        Failure::invalid_parameters(detail.as_str())
    }
}

/// What a value that is present decodes to under a field.
pub open spec fn decode_present(f: FieldSchemaView, v: ParamValueView) -> Result<
    TypedValueView,
    DecodeErrorView,
> {
    match (f.ty, v) {
        (FieldType::Text, ParamValueView::Text(t)) => match f.allowed {
            Some(tags) => if tags.contains(t) {
                Ok(TypedValueView::Text(t))
            } else {
                Err(DecodeErrorView::NotAllowed { field: f.name, value: t })
            },
            None => Ok(TypedValueView::Text(t)),
        },
        (FieldType::Integer, ParamValueView::Number(Some(n))) => Ok(TypedValueView::Integer(n)),
        (FieldType::Boolean, ParamValueView::Bool(b)) => Ok(TypedValueView::Boolean(b)),
        _ => Err(DecodeErrorView::WrongType { field: f.name, expected: f.ty }),
    }
}

/// What one field decodes to against the entries of an argument object.
pub open spec fn decode_field(f: FieldSchemaView, entries: Map<Seq<char>, ParamValueView>) -> Result<
    TypedValueView,
    DecodeErrorView,
> {
    if entries.contains_key(f.name) {
        decode_present(f, entries[f.name])
    } else {
        match f.default {
            Some(d) => Ok(d),
            None => Err(DecodeErrorView::Missing { field: f.name }),
        }
    }
}

/// Whether `values` are the decoded fields of `fields`, one for one.
pub open spec fn decodes_to(
    fields: Seq<FieldSchemaView>,
    entries: Map<Seq<char>, ParamValueView>,
    values: Seq<TypedValueView>,
) -> bool {
    &&& values.len() == fields.len()
    &&& forall|i: int|
        0 <= i < fields.len() ==> decode_field(#[trigger] fields[i], entries) == Ok::<
            TypedValueView,
            DecodeErrorView,
        >(values[i])
}

/// Whether field `i` is the first that fails to decode, and fails with `e`.
pub open spec fn fails_first_at(
    fields: Seq<FieldSchemaView>,
    entries: Map<Seq<char>, ParamValueView>,
    i: int,
    e: DecodeErrorView,
) -> bool {
    &&& 0 <= i < fields.len()
    &&& decode_field(fields[i], entries) == Err::<TypedValueView, DecodeErrorView>(e)
    &&& forall|j: int| 0 <= j < i ==> decode_field(#[trigger] fields[j], entries) is Ok
}

/// Whether some field fails to decode.
pub open spec fn some_field_fails(
    fields: Seq<FieldSchemaView>,
    entries: Map<Seq<char>, ParamValueView>,
) -> bool {
    exists|i: int| 0 <= i < fields.len() && decode_field(#[trigger] fields[i], entries) is Err
}

/// What an argument object decodes to against a document: the error of the
/// first field that fails, or, where none does, the decoded value of every
/// field in the document's order.
pub open spec fn decode_all(
    fields: Seq<FieldSchemaView>,
    entries: Map<Seq<char>, ParamValueView>,
) -> Result<Seq<TypedValueView>, DecodeErrorView> {
    if some_field_fails(fields, entries) {
        let first = choose|i: int|
            0 <= i < fields.len() && decode_field(#[trigger] fields[i], entries) is Err && forall|
                j: int,
            |
                0 <= j < i ==> decode_field(#[trigger] fields[j], entries) is Ok;
        Err(decode_field(fields[first], entries)->Err_0)
    } else {
        Ok(Seq::new(fields.len(), |i: int| decode_field(fields[i], entries)->Ok_0))
    }
}

/// Where field `i` is the first to fail, and fails with `e`, the whole
/// decoding fails with `e`.
pub proof fn lemma_first_failure_decides(
    fields: Seq<FieldSchemaView>,
    entries: Map<Seq<char>, ParamValueView>,
    i: int,
    e: DecodeErrorView,
)
    requires
        fails_first_at(fields, entries, i, e),
    ensures
        decode_all(fields, entries) == Err::<Seq<TypedValueView>, DecodeErrorView>(e),
{
    assert(decode_field(fields[i], entries) is Err);
    let first = choose|k: int|
        0 <= k < fields.len() && decode_field(#[trigger] fields[k], entries) is Err && forall|
            j: int,
        |
            0 <= j < k ==> decode_field(#[trigger] fields[j], entries) is Ok;
    if first < i {
        assert(decode_field(fields[first], entries) is Ok);
    }
    if i < first {
        assert(decode_field(fields[i], entries) is Ok);
    }
}

/// Where every field decodes, the whole decoding gives their values.
pub proof fn lemma_all_fields_decide(
    fields: Seq<FieldSchemaView>,
    entries: Map<Seq<char>, ParamValueView>,
    values: Seq<TypedValueView>,
)
    requires
        decodes_to(fields, entries, values),
    ensures
        decode_all(fields, entries) == Ok::<Seq<TypedValueView>, DecodeErrorView>(values),
{
    assert forall|i: int| 0 <= i < fields.len() implies !(decode_field(
        #[trigger] fields[i],
        entries,
    ) is Err) by {}
    assert(Seq::new(fields.len(), |i: int| decode_field(fields[i], entries)->Ok_0) =~= values);
}

/// The values of a list, as mathematical values.
pub open spec fn values_view(values: Seq<TypedValue>) -> Seq<TypedValueView> {
    Seq::new(values.len(), |i: int| values[i]@)
}

fn text_is_listed(tags: &Vec<String>, t: &String) -> (r: bool)
    ensures
        r == texts_of(tags@).contains(t@),
{
    let mut i: usize = 0;
    while i < tags.len()
        invariant
            i <= tags.len(),
            forall|j: int| 0 <= j < i ==> texts_of(tags@)[j] != t@,
        decreases tags.len() - i,
    {
        if tags[i] == *t {
            assert(texts_of(tags@)[i as int] == t@);
            return true;
        }
        i = i + 1;
    }
    false
}

/// Decode a value that the caller supplied for a field.
pub fn decode_value(f: &FieldSchema, v: ParamValue) -> (r: Result<TypedValue, DecodeError>)
    ensures
        match r {
            Ok(value) => decode_present(f@, v@) == Ok::<TypedValueView, DecodeErrorView>(value@),
            Err(e) => decode_present(f@, v@) == Err::<TypedValueView, DecodeErrorView>(e@),
        },
{
    match (f.ty, v) {
        (FieldType::Text, ParamValue::Text(t)) => match &f.allowed {
            Some(tags) => {
                if text_is_listed(tags, &t) {
                    Ok(TypedValue::Text(t))
                } else {
                    Err(DecodeError::NotAllowed { field: f.name.clone(), value: t })
                }
            },
            None => Ok(TypedValue::Text(t)),
        },
        (FieldType::Integer, ParamValue::Number(Some(n))) => Ok(TypedValue::Integer(n)),
        (FieldType::Boolean, ParamValue::Bool(b)) => Ok(TypedValue::Boolean(b)),
        _ => Err(DecodeError::WrongType { field: f.name.clone(), expected: f.ty }),
    }
}

/// Decode one field of a document against an argument object.
pub fn decode_one(f: &FieldSchema, blob: &ParamBlob) -> (r: Result<TypedValue, DecodeError>)
    ensures
        match r {
            Ok(value) => decode_field(f@, blob_entries(*blob)) == Ok::<
                TypedValueView,
                DecodeErrorView,
            >(value@),
            Err(e) => decode_field(f@, blob_entries(*blob)) == Err::<
                TypedValueView,
                DecodeErrorView,
            >(e@),
        },
{
    match blob_get(blob, f.name.as_str()) {
        Some(v) => decode_value(f, v),
        None => match &f.default {
            Some(d) => Ok(d.duplicate()),
            None => Err(DecodeError::Missing { field: f.name.clone() }),
        },
    }
}

/// Decode an argument object against a schema document. The result holds one
/// value for each field of the document, in the document's order; the error
/// is that of the first field that does not decode.
pub fn decode(doc: &SchemaDoc, blob: &ParamBlob) -> (r: Result<Vec<TypedValue>, DecodeError>)
    ensures
        match r {
            Ok(values) => decode_all(doc@, blob_entries(*blob)) == Ok::<
                Seq<TypedValueView>,
                DecodeErrorView,
            >(values_view(values@)),
            Err(e) => decode_all(doc@, blob_entries(*blob)) == Err::<
                Seq<TypedValueView>,
                DecodeErrorView,
            >(e@),
        },
{
    let mut values: Vec<TypedValue> = Vec::new();
    let mut i: usize = 0;
    while i < doc.fields.len()
        invariant
            i <= doc.fields.len(),
            doc@.len() == doc.fields@.len(),
            values@.len() == i,
            forall|j: int|
                0 <= j < i ==> decode_field(#[trigger] doc@[j], blob_entries(*blob)) == Ok::<
                    TypedValueView,
                    DecodeErrorView,
                >(values@[j]@),
        decreases doc.fields.len() - i,
    {
        match decode_one(&doc.fields[i], blob) {
            Ok(v) => {
                values.push(v);
            },
            Err(e) => {
                proof {
                    lemma_first_failure_decides(doc@, blob_entries(*blob), i as int, e@);
                }
                return Err(e);
            },
        }
        i = i + 1;
    }
    proof {
        lemma_all_fields_decide(doc@, blob_entries(*blob), values_view(values@));
    }
    Ok(values)
}

/// A field without a default that the caller left out fails the decoding.
/// Where no earlier field fails, the error is that the field is missing, and
/// the failure's message names it.
pub proof fn lemma_missing_required_field(
    fields: Seq<FieldSchemaView>,
    entries: Map<Seq<char>, ParamValueView>,
    i: int,
)
    requires
        0 <= i < fields.len(),
        fields[i].default is None,
        !entries.contains_key(fields[i].name),
    ensures
        decode_all(fields, entries) is Err,
        (forall|j: int| 0 <= j < i ==> decode_field(#[trigger] fields[j], entries) is Ok)
            ==> decode_all(fields, entries) == Err::<Seq<TypedValueView>, DecodeErrorView>(
            DecodeErrorView::Missing { field: fields[i].name },
        ),
        decode_failure(DecodeErrorView::Missing { field: fields[i].name }).kind
            == FailureKind::InvalidParameters,
        decode_failure(DecodeErrorView::Missing { field: fields[i].name }).message
            == "Invalid parameters: "@ + ("missing field `"@ + fields[i].name + "`"@),
{
    let e = DecodeErrorView::Missing { field: fields[i].name };
    assert(decode_field(fields[i], entries) == Err::<TypedValueView, DecodeErrorView>(e));
    assert(some_field_fails(fields, entries));
    if forall|j: int| 0 <= j < i ==> decode_field(#[trigger] fields[j], entries) is Ok {
        lemma_first_failure_decides(fields, entries, i, e);
    }
}

/// Where every field that the caller supplied decodes and every field left
/// out has a default, the decoding succeeds, with the supplied value for a
/// field that is there and the declared default for one that is not.
pub proof fn lemma_omitted_fields_take_defaults(
    fields: Seq<FieldSchemaView>,
    entries: Map<Seq<char>, ParamValueView>,
)
    requires
        forall|i: int|
            0 <= i < fields.len() ==> if entries.contains_key((#[trigger] fields[i]).name) {
                decode_present(fields[i], entries[fields[i].name]) is Ok
            } else {
                fields[i].default is Some
            },
    ensures
        decode_all(fields, entries) is Ok,
        decode_all(fields, entries)->Ok_0.len() == fields.len(),
        forall|i: int|
            0 <= i < fields.len() && !entries.contains_key((#[trigger] fields[i]).name)
                ==> decode_all(fields, entries)->Ok_0[i] == fields[i].default->Some_0,
        forall|i: int|
            0 <= i < fields.len() && entries.contains_key((#[trigger] fields[i]).name)
                ==> decode_present(fields[i], entries[fields[i].name]) == Ok::<
                TypedValueView,
                DecodeErrorView,
            >(decode_all(fields, entries)->Ok_0[i]),
{
    let values = Seq::new(fields.len(), |i: int| decode_field(fields[i], entries)->Ok_0);
    assert(decodes_to(fields, entries, values));
    lemma_all_fields_decide(fields, entries, values);
}

/// Keys that the document does not name are not looked at: adding one to an
/// argument object changes nothing of what it decodes to.
pub proof fn lemma_unknown_key_is_ignored(
    fields: Seq<FieldSchemaView>,
    entries: Map<Seq<char>, ParamValueView>,
    key: Seq<char>,
    value: ParamValueView,
)
    requires
        forall|i: int| 0 <= i < fields.len() ==> (#[trigger] fields[i]).name != key,
    ensures
        decode_all(fields, entries.insert(key, value)) == decode_all(fields, entries),
{
    let wider = entries.insert(key, value);
    assert forall|i: int| 0 <= i < fields.len() implies decode_field(
        #[trigger] fields[i],
        wider,
    ) == decode_field(fields[i], entries) by {
        assert(fields[i].name != key);
    }
    if some_field_fails(fields, entries) {
        let first = choose|i: int|
            0 <= i < fields.len() && decode_field(#[trigger] fields[i], entries) is Err && forall|
                j: int,
            |
                0 <= j < i ==> decode_field(#[trigger] fields[j], entries) is Ok;
        let e = decode_field(fields[first], entries)->Err_0;
        lemma_least_failure(fields, entries);
        assert(fails_first_at(fields, entries, first, e));
        assert(fails_first_at(fields, wider, first, e));
        lemma_first_failure_decides(fields, entries, first, e);
        lemma_first_failure_decides(fields, wider, first, e);
    } else {
        let values = Seq::new(fields.len(), |i: int| decode_field(fields[i], entries)->Ok_0);
        assert(decodes_to(fields, entries, values));
        assert(decodes_to(fields, wider, values));
        lemma_all_fields_decide(fields, entries, values);
        lemma_all_fields_decide(fields, wider, values);
    }
}

/// Where some field fails, there is a first one that does.
pub proof fn lemma_least_failure(
    fields: Seq<FieldSchemaView>,
    entries: Map<Seq<char>, ParamValueView>,
)
    requires
        some_field_fails(fields, entries),
    ensures
        exists|i: int|
            0 <= i < fields.len() && decode_field(#[trigger] fields[i], entries) is Err && forall|
                j: int,
            |
                0 <= j < i ==> decode_field(#[trigger] fields[j], entries) is Ok,
{
    let k = choose|k: int| 0 <= k < fields.len() && decode_field(#[trigger] fields[k], entries) is Err;
    lemma_least_failure_up_to(fields, entries, k);
}

proof fn lemma_least_failure_up_to(
    fields: Seq<FieldSchemaView>,
    entries: Map<Seq<char>, ParamValueView>,
    k: int,
)
    requires
        0 <= k < fields.len(),
        decode_field(fields[k], entries) is Err,
    ensures
        exists|i: int|
            0 <= i <= k && i < fields.len() && decode_field(#[trigger] fields[i], entries) is Err
                && forall|j: int| 0 <= j < i ==> decode_field(#[trigger] fields[j], entries) is Ok,
    decreases k,
{
    if exists|m: int| 0 <= m < k && decode_field(#[trigger] fields[m], entries) is Err {
        let m = choose|m: int| 0 <= m < k && decode_field(#[trigger] fields[m], entries) is Err;
        lemma_least_failure_up_to(fields, entries, m);
    } else {
        assert(forall|j: int| 0 <= j < k ==> decode_field(#[trigger] fields[j], entries) is Ok);
    }
}

} // verus!
