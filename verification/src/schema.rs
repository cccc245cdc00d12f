//! Parameter shapes and the schema documents generated from them.
//!
//! A shape is a declarative list of fields. The generator turns it into a
//! [`SchemaDoc`], which says of every field whether a caller must supply it,
//! and which is what arguments are decoded against.

use vstd::prelude::*;

verus! {

/// The primitive type of a field.
#[derive(Clone, Copy, Debug, PartialEq, Eq, Structural)]
pub enum FieldType {
    Text,
    Integer,
    Boolean,
}

/// The name of a primitive type in a schema.
pub open spec fn type_label(ty: FieldType) -> Seq<char> {
    match ty {
        FieldType::Text => "string"@,
        FieldType::Integer => "integer"@,
        FieldType::Boolean => "boolean"@,
    }
}

impl FieldType {
    /// The name of this type in a schema.
    pub fn label(self) -> (r: &'static str)
        ensures
            r@ == type_label(self),
    {
        match self {
            FieldType::Text => "string",
            FieldType::Integer => "integer",
            FieldType::Boolean => "boolean",
        }
    }
}

/// A value of one of the primitive types.
#[derive(Debug)]
pub enum TypedValue {
    Text(String),
    Integer(i64),
    Boolean(bool),
}

/// The mathematical value of a [`TypedValue`].
pub enum TypedValueView {
    Text(Seq<char>),
    Integer(i64),
    Boolean(bool),
}

impl View for TypedValue {
    type V = TypedValueView;

    open spec fn view(&self) -> TypedValueView {
        match self {
            TypedValue::Text(s) => TypedValueView::Text(s@),
            TypedValue::Integer(n) => TypedValueView::Integer(*n),
            TypedValue::Boolean(b) => TypedValueView::Boolean(*b),
        }
    }
}

/// The type that a value belongs to.
pub open spec fn type_of(v: TypedValueView) -> FieldType {
    match v {
        TypedValueView::Text(_) => FieldType::Text,
        TypedValueView::Integer(_) => FieldType::Integer,
        TypedValueView::Boolean(_) => FieldType::Boolean,
    }
}

/// The texts that a sequence of strings holds.
pub open spec fn texts_of(v: Seq<String>) -> Seq<Seq<char>> {
    Seq::new(v.len(), |i: int| v[i]@)
}

/// The optional list of tags, as texts.
pub open spec fn allowed_view(a: Option<Vec<String>>) -> Option<Seq<Seq<char>>> {
    match a {
        Some(v) => Some(texts_of(v@)),
        None => None,
    }
}

/// The optional default, as a mathematical value.
pub open spec fn default_view(d: Option<TypedValue>) -> Option<TypedValueView> {
    match d {
        Some(v) => Some(v@),
        None => None,
    }
}

/// One field of a parameter shape, as its author declares it.
#[derive(Debug)]
pub struct FieldSpec {
    pub name: String,
    pub ty: FieldType,
    pub description: String,
    /// The value taken when a caller leaves the field out. A field without
    /// one must be supplied.
    pub default: Option<TypedValue>,
    /// For an enumerated field, the closed set of tags it may hold. Only a
    /// text field is held to it.
    pub allowed: Option<Vec<String>>,
}

/// The mathematical value of a [`FieldSpec`].
pub struct FieldSpecView {
    pub name: Seq<char>,
    pub ty: FieldType,
    pub description: Seq<char>,
    pub default: Option<TypedValueView>,
    pub allowed: Option<Seq<Seq<char>>>,
}

impl View for FieldSpec {
    type V = FieldSpecView;

    open spec fn view(&self) -> FieldSpecView {
        FieldSpecView {
            name: self.name@,
            ty: self.ty,
            description: self.description@,
            default: default_view(self.default),
            allowed: allowed_view(self.allowed),
        }
    }
}

/// One field of a schema document.
#[derive(Debug)]
pub struct FieldSchema {
    pub name: String,
    pub ty: FieldType,
    pub description: String,
    /// Whether a caller must supply the field.
    pub required: bool,
    pub default: Option<TypedValue>,
    pub allowed: Option<Vec<String>>,
}

/// The mathematical value of a [`FieldSchema`].
pub struct FieldSchemaView {
    pub name: Seq<char>,
    pub ty: FieldType,
    pub description: Seq<char>,
    pub required: bool,
    pub default: Option<TypedValueView>,
    pub allowed: Option<Seq<Seq<char>>>,
}

impl View for FieldSchema {
    type V = FieldSchemaView;

    open spec fn view(&self) -> FieldSchemaView {
        FieldSchemaView {
            name: self.name@,
            ty: self.ty,
            description: self.description@,
            required: self.required,
            default: default_view(self.default),
            allowed: allowed_view(self.allowed),
        }
    }
}

/// A schema document: the fields of a parameter shape, in the order in which
/// the shape declares them.
#[derive(Debug)]
pub struct SchemaDoc {
    pub fields: Vec<FieldSchema>,
}

impl View for SchemaDoc {
    type V = Seq<FieldSchemaView>;

    open spec fn view(&self) -> Seq<FieldSchemaView> {
        Seq::new(self.fields@.len(), |i: int| self.fields@[i]@)
    }
}

/// The fields of a shape, as mathematical values.
pub open spec fn shape_view(shape: Seq<FieldSpec>) -> Seq<FieldSpecView> {
    Seq::new(shape.len(), |i: int| shape[i]@)
}

/// The schema of one declared field: everything the declaration says, and
/// `required` exactly where it supplies no default.
pub open spec fn field_schema_of(f: FieldSpecView) -> FieldSchemaView {
    FieldSchemaView {
        name: f.name,
        ty: f.ty,
        description: f.description,
        required: f.default is None,
        default: f.default,
        allowed: f.allowed,
    }
}

/// The schema document of a shape: the schema of each field, in order.
pub open spec fn schema_of(shape: Seq<FieldSpecView>) -> Seq<FieldSchemaView> {
    Seq::new(shape.len(), |i: int| field_schema_of(shape[i]))
}

impl TypedValue {
    /// A copy of this value.
    pub fn duplicate(&self) -> (r: TypedValue)
        ensures
            r@ == self@,
    {
        match self {
            TypedValue::Text(s) => TypedValue::Text(s.clone()),
            TypedValue::Integer(n) => TypedValue::Integer(*n),
            TypedValue::Boolean(b) => TypedValue::Boolean(*b),
        }
    }
}

/// A copy of a list of texts.
pub fn copy_texts(v: &Vec<String>) -> (r: Vec<String>)
    ensures
        texts_of(r@) == texts_of(v@),
{
    let mut out: Vec<String> = Vec::new();
    let mut i: usize = 0;
    while i < v.len()
        invariant
            i <= v.len(),
            out@.len() == i,
            forall|j: int| 0 <= j < i ==> out@[j]@ == v@[j]@,
        decreases v.len() - i,
    {
        out.push(v[i].clone());
        i = i + 1;
    }
    assert(texts_of(out@) =~= texts_of(v@));
    out
}

fn copy_default(d: &Option<TypedValue>) -> (r: Option<TypedValue>)
    ensures
        default_view(r) == default_view(*d),
{
    match d {
        Some(v) => Some(v.duplicate()),
        None => None,
    }
}

fn copy_allowed(a: &Option<Vec<String>>) -> (r: Option<Vec<String>>)
    ensures
        allowed_view(r) == allowed_view(*a),
{
    match a {
        Some(v) => Some(copy_texts(v)),
        None => None,
    }
}

impl FieldSpec {
    /// The schema of this field.
    pub fn schema(&self) -> (r: FieldSchema)
        ensures
            r@ == field_schema_of(self@),
    {
        FieldSchema {
            name: self.name.clone(),
            ty: self.ty,
            description: self.description.clone(),
            required: self.default.is_none(),
            default: copy_default(&self.default),
            allowed: copy_allowed(&self.allowed),
        }
    }
}

impl FieldSchema {
    /// A copy of this field.
    pub fn duplicate(&self) -> (r: FieldSchema)
        ensures
            r@ == self@,
    {
        FieldSchema {
            name: self.name.clone(),
            ty: self.ty,
            description: self.description.clone(),
            required: self.required,
            default: copy_default(&self.default),
            allowed: copy_allowed(&self.allowed),
        }
    }
}

/// Generate the schema document of a parameter shape. The document lists the
/// shape's fields in their declared order, so equal shapes give equal
/// documents.
pub fn generate(shape: &Vec<FieldSpec>) -> (doc: SchemaDoc)
    ensures
        doc@ == schema_of(shape_view(shape@)),
{
    let mut fields: Vec<FieldSchema> = Vec::new();
    let mut i: usize = 0;
    while i < shape.len()
        invariant
            i <= shape.len(),
            fields@.len() == i,
            forall|j: int| 0 <= j < i ==> fields@[j]@ == field_schema_of(shape@[j]@),
        decreases shape.len() - i,
    {
        fields.push(shape[i].schema());
        i = i + 1;
    }
    let doc = SchemaDoc { fields };
    assert(doc@ =~= schema_of(shape_view(shape@)));
    doc
}

impl SchemaDoc {
    /// A copy of this document.
    pub fn duplicate(&self) -> (r: SchemaDoc)
        ensures
            r@ == self@,
    {
        let mut fields: Vec<FieldSchema> = Vec::new();
        let mut i: usize = 0;
        while i < self.fields.len()
            invariant
                i <= self.fields.len(),
                fields@.len() == i,
                forall|j: int| 0 <= j < i ==> fields@[j]@ == self.fields@[j]@,
            decreases self.fields.len() - i,
        {
            fields.push(self.fields[i].duplicate());
            i = i + 1;
        }
        let doc = SchemaDoc { fields };
        assert(doc@ =~= self@);
        doc
    }
}

/// In a generated document a field is required exactly where its declaration
/// supplies no default, and it keeps the declared name, type, description,
/// default and tags.
pub proof fn lemma_generated_fields(shape: Seq<FieldSpecView>, i: int)
    requires
        0 <= i < shape.len(),
    ensures
        schema_of(shape).len() == shape.len(),
        schema_of(shape)[i].required == (shape[i].default is None),
        schema_of(shape)[i].name == shape[i].name,
        schema_of(shape)[i].ty == shape[i].ty,
        schema_of(shape)[i].description == shape[i].description,
        schema_of(shape)[i].default == shape[i].default,
        schema_of(shape)[i].allowed == shape[i].allowed,
{
}

} // verus!
