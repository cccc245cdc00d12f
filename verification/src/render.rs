//! The JSON text of a schema document.
//!
//! The text is a function of the document alone: fields stand in the
//! document's order and nothing else enters, so the same document always
//! gives the same characters.

use crate::json::{decimal, push_decimal, push_quoted, push_truth, quoted, truth};
use crate::schema::{
    schema_of, texts_of, type_label, FieldSchema, FieldSchemaView, FieldSpecView, SchemaDoc,
    TypedValue, TypedValueView,
};
use vstd::prelude::*;

verus! {

/// The parts of a list, with a comma between neighbours.
pub open spec fn joined(parts: Seq<Seq<char>>) -> Seq<char>
    decreases parts.len(),
{
    if parts.len() == 0 {
        Seq::empty()
    } else if parts.len() == 1 {
        parts[0]
    } else {
        joined(parts.drop_last()) + seq![','] + parts.last()
    }
}

/// A list of texts as the inside of a JSON array of strings.
pub open spec fn quoted_list(items: Seq<Seq<char>>) -> Seq<char> {
    joined(Seq::new(items.len(), |i: int| quoted(items[i])))
}

/// A value as JSON text.
pub open spec fn value_json(v: TypedValueView) -> Seq<char> {
    match v {
        TypedValueView::Text(s) => quoted(s),
        TypedValueView::Integer(n) => decimal(n as int),
        TypedValueView::Boolean(b) => truth(b),
    }
}

/// The `enum` member of a property, where the field is enumerated.
pub open spec fn allowed_json(allowed: Option<Seq<Seq<char>>>) -> Seq<char> {
    match allowed {
        Some(tags) => ",\"enum\":["@ + quoted_list(tags) + "]"@,
        None => Seq::empty(),
    }
}

/// The `default` member of a property, where the field has a default.
pub open spec fn default_json(default: Option<TypedValueView>) -> Seq<char> {
    match default {
        Some(v) => ",\"default\":"@ + value_json(v),
        None => Seq::empty(),
    }
}

/// One property: the field's name, then an object with its type, its
/// description, its tags if it is enumerated and its default if it has one.
pub open spec fn field_json(f: FieldSchemaView) -> Seq<char> {
    quoted(f.name) + ":{\"type\":"@ + quoted(type_label(f.ty)) + ",\"description\":"@ + quoted(
        f.description,
    ) + allowed_json(f.allowed) + default_json(f.default) + "}"@
}

/// The properties of a document, in its order.
pub open spec fn properties_json(fields: Seq<FieldSchemaView>) -> Seq<char> {
    joined(Seq::new(fields.len(), |i: int| field_json(fields[i])))
}

/// The names of the fields that a caller must supply, in the document's
/// order.
pub open spec fn required_names(fields: Seq<FieldSchemaView>) -> Seq<Seq<char>>
    decreases fields.len(),
{
    if fields.len() == 0 {
        Seq::empty()
    } else if fields.last().required {
        required_names(fields.drop_last()).push(fields.last().name)
    } else {
        required_names(fields.drop_last())
    }
}

/// The JSON text of a schema document.
pub open spec fn schema_json(fields: Seq<FieldSchemaView>) -> Seq<char> {
    "{\"type\":\"object\",\"properties\":{"@ + properties_json(fields) + "},\"required\":["@
        + quoted_list(required_names(fields)) + "]}"@
}

/// Adding one part to a list adds a comma, unless the list was empty, and
/// then the part.
pub proof fn lemma_joined_push(parts: Seq<Seq<char>>, part: Seq<char>)
    ensures
        joined(parts.push(part)) == if parts.len() == 0 {
            part
        } else {
            joined(parts) + seq![','] + part
        },
{
    assert(parts.push(part).drop_last() =~= parts);
}

fn push_value(out: &mut String, v: &TypedValue)
    ensures
        final(out)@ == old(out)@ + value_json(v@),
{
    match v {
        TypedValue::Text(s) => push_quoted(out, s.as_str()),
        TypedValue::Integer(n) => push_decimal(out, *n),
        TypedValue::Boolean(b) => push_truth(out, *b),
    }
}

fn push_quoted_list(out: &mut String, items: &Vec<String>)
    ensures
        final(out)@ == old(out)@ + quoted_list(texts_of(items@)),
{
    let ghost start = out@;
    let ghost all = Seq::new(items@.len(), |i: int| quoted(texts_of(items@)[i]));
    let mut i: usize = 0;
    while i < items.len()
        invariant
            i <= items.len(),
            all == Seq::new(items@.len(), |i: int| quoted(texts_of(items@)[i])),
            out@ == start + joined(all.take(i as int)),
        decreases items.len() - i,
    {
        if i > 0 {
            out.push(',');
        }
        push_quoted(out, items[i].as_str());
        proof {
            lemma_joined_push(all.take(i as int), all[i as int]);
            assert(all.take(i as int).push(all[i as int]) =~= all.take(i + 1));
            assert(out@ =~= start + joined(all.take(i + 1)));
        }
        i = i + 1;
    }
    assert(all.take(items@.len() as int) =~= all);
}

fn push_field(out: &mut String, f: &FieldSchema)
    ensures
        final(out)@ == old(out)@ + field_json(f@),
{
    push_quoted(out, f.name.as_str());
    out.append(":{\"type\":");
    push_quoted(out, f.ty.label());
    out.append(",\"description\":");
    push_quoted(out, f.description.as_str());
    match &f.allowed {
        Some(tags) => {
            out.append(",\"enum\":[");
            push_quoted_list(out, tags);
            out.append("]");
        },
        None => {},
    }
    match &f.default {
        Some(v) => {
            out.append(",\"default\":");
            push_value(out, v);
        },
        None => {},
    }
    out.append("}");
    assert(out@ =~= old(out)@ + field_json(f@));
}

fn push_properties(out: &mut String, doc: &SchemaDoc)
    ensures
        final(out)@ == old(out)@ + properties_json(doc@),
{
    let ghost start = out@;
    let ghost all = Seq::new(doc@.len(), |i: int| field_json(doc@[i]));
    let mut i: usize = 0;
    while i < doc.fields.len()
        invariant
            i <= doc.fields.len(),
            doc@.len() == doc.fields@.len(),
            all == Seq::new(doc@.len(), |i: int| field_json(doc@[i])),
            out@ == start + joined(all.take(i as int)),
        decreases doc.fields.len() - i,
    {
        if i > 0 {
            out.push(',');
        }
        push_field(out, &doc.fields[i]);
        proof {
            lemma_joined_push(all.take(i as int), all[i as int]);
            assert(all.take(i as int).push(all[i as int]) =~= all.take(i + 1));
            assert(out@ =~= start + joined(all.take(i + 1)));
        }
        i = i + 1;
    }
    assert(all.take(doc@.len() as int) =~= all);
}

fn push_required(out: &mut String, doc: &SchemaDoc)
    ensures
        final(out)@ == old(out)@ + quoted_list(required_names(doc@)),
{
    let ghost start = out@;
    let ghost mut names: Seq<Seq<char>> = Seq::empty();
    let mut any: bool = false;
    let mut i: usize = 0;
    assert(doc@.take(0) =~= Seq::empty());
    while i < doc.fields.len()
        invariant
            i <= doc.fields.len(),
            doc@.len() == doc.fields@.len(),
            names == required_names(doc@.take(i as int)),
            any == (names.len() > 0),
            out@ == start + quoted_list(names),
        decreases doc.fields.len() - i,
    {
        proof {
            assert(doc@.take(i + 1).drop_last() =~= doc@.take(i as int));
            assert(doc@.take(i + 1).last() == doc@[i as int]);
        }
        if doc.fields[i].required {
            if any {
                out.push(',');
            }
            push_quoted(out, doc.fields[i].name.as_str());
            proof {
                let name = doc@[i as int].name;
                let before = Seq::new(names.len(), |k: int| quoted(names[k]));
                let after = Seq::new(names.push(name).len(), |k: int| quoted(names.push(name)[k]));
                assert(after =~= before.push(quoted(name)));
                lemma_joined_push(before, quoted(name));
                names = names.push(name);
                assert(out@ =~= start + quoted_list(names));
            }
            any = true;
        }
        i = i + 1;
    }
    assert(doc@.take(doc@.len() as int) =~= doc@);
}

impl SchemaDoc {
    /// The JSON text of this document.
    pub fn to_json(&self) -> (r: String)
        ensures
            r@ == schema_json(self@),
    {
        let mut out = String::from_str("{\"type\":\"object\",\"properties\":{");
        push_properties(&mut out, self);
        out.append("},\"required\":[");
        push_required(&mut out, self);
        out.append("]}");
        assert(out@ =~= schema_json(self@));
        out
    }
}

/// The text of a schema document is never empty: it is always an object.
pub proof fn lemma_schema_json_nonempty(fields: Seq<FieldSchemaView>)
    ensures
        schema_json(fields).len() > 0,
        schema_json(fields)[0] == '{',
{
    reveal_strlit("{\"type\":\"object\",\"properties\":{");
}

/// The text of a generated schema is a function of the shape alone: two
/// shapes with the same fields in the same order give the same text,
/// character for character, whenever and wherever they are generated.
pub proof fn lemma_schema_text_is_a_function_of_the_shape(
    a: Seq<FieldSpecView>,
    b: Seq<FieldSpecView>,
)
    requires
        a == b,
    ensures
        schema_of(a) == schema_of(b),
        schema_json(schema_of(a)) == schema_json(schema_of(b)),
{
}

} // verus!
