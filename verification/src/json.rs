//! A bounded model of the JSON documents this library reads.
//!
//! Every document this library consumes — a token header, a token payload,
//! a JWKS document — is a JSON object read to a fixed depth: scalar fields,
//! and one array of flat objects (the JWKS `keys` array).  The model mirrors
//! exactly that much structure; anything deeper, and any number outside the
//! `i64` range, is summarized as [`JsonPrim::Opaque`], which the extraction
//! logic treats as an unusable value.

use vstd::prelude::*;

verus! {

/// serde_json's JSON value type, declared so the parsing wrapper can
/// mention it; the library never looks inside a value of it.
#[verifier::external_type_specification]
#[verifier::external_body]
pub struct ExJsonValue(serde_json::Value);

/// A scalar JSON value, with composites-below-the-model and non-`i64`
/// numbers collapsed to `Opaque`.
#[derive(Debug, Clone)]
pub enum JsonPrim {
    Null,
    Bool(bool),
    Int(i64),
    Text(String),
    Opaque,
}

/// The mathematical image of a [`JsonPrim`].
pub enum JsonPrimM {
    Null,
    Bool(bool),
    Int(int),
    Text(Seq<char>),
    Opaque,
}

impl View for JsonPrim {
    type V = JsonPrimM;

    open spec fn view(&self) -> JsonPrimM {
        match self {
            JsonPrim::Null => JsonPrimM::Null,
            JsonPrim::Bool(b) => JsonPrimM::Bool(*b),
            JsonPrim::Int(i) => JsonPrimM::Int(*i as int),
            JsonPrim::Text(s) => JsonPrimM::Text(s@),
            JsonPrim::Opaque => JsonPrimM::Opaque,
        }
    }
}

/// One field of an object inside the JWKS `keys` array.
#[derive(Debug, Clone)]
pub struct JsonField {
    pub name: String,
    pub value: JsonPrim,
}

/// The mathematical image of a [`JsonField`].
pub struct JsonFieldM {
    pub name: Seq<char>,
    pub value: JsonPrimM,
}

impl View for JsonField {
    type V = JsonFieldM;

    open spec fn view(&self) -> JsonFieldM {
        JsonFieldM { name: self.name@, value: self.value@ }
    }
}

/// One element of a top-level array: a scalar, or a flat object.
#[derive(Debug, Clone)]
pub enum JsonElem {
    Prim(JsonPrim),
    Entry(Vec<JsonField>),
}

/// The mathematical image of a [`JsonElem`].
pub enum JsonElemM {
    Prim(JsonPrimM),
    Entry(Seq<JsonFieldM>),
}

/// The fieldwise image of an object's fields.
pub open spec fn fields_view(fields: Seq<JsonField>) -> Seq<JsonFieldM> {
    Seq::new(fields.len(), |i: int| fields[i]@)
}

impl View for JsonElem {
    type V = JsonElemM;

    open spec fn view(&self) -> JsonElemM {
        match self {
            JsonElem::Prim(p) => JsonElemM::Prim(p@),
            JsonElem::Entry(fields) => JsonElemM::Entry(fields_view(fields@)),
        }
    }
}

/// The value of a top-level field: a scalar, or an array of elements.
#[derive(Debug, Clone)]
pub enum JsonTopVal {
    Prim(JsonPrim),
    Arr(Vec<JsonElem>),
}

/// The mathematical image of a [`JsonTopVal`].
pub enum JsonTopValM {
    Prim(JsonPrimM),
    Arr(Seq<JsonElemM>),
}

impl View for JsonTopVal {
    type V = JsonTopValM;

    open spec fn view(&self) -> JsonTopValM {
        match self {
            JsonTopVal::Prim(p) => JsonTopValM::Prim(p@),
            JsonTopVal::Arr(elems) => JsonTopValM::Arr(Seq::new(elems@.len(), |i: int| elems@[i]@)),
        }
    }
}

/// One field of the top-level object.
#[derive(Debug, Clone)]
pub struct JsonTopField {
    pub name: String,
    pub value: JsonTopVal,
}

/// The mathematical image of a [`JsonTopField`].
pub struct JsonTopFieldM {
    pub name: Seq<char>,
    pub value: JsonTopValM,
}

impl View for JsonTopField {
    type V = JsonTopFieldM;

    open spec fn view(&self) -> JsonTopFieldM {
        JsonTopFieldM { name: self.name@, value: self.value@ }
    }
}

/// A parsed top-level JSON object.
#[derive(Debug, Clone)]
pub struct JsonDoc {
    pub fields: Vec<JsonTopField>,
}

/// The mathematical image of a [`JsonDoc`].
pub struct JsonDocM {
    pub fields: Seq<JsonTopFieldM>,
}

impl View for JsonDoc {
    type V = JsonDocM;

    open spec fn view(&self) -> JsonDocM {
        JsonDocM { fields: Seq::new(self.fields@.len(), |i: int| self.fields@[i]@) }
    }
}

/// What parsing yields on given bytes: the modelled top-level object, or
/// `None` when the bytes are not a JSON object.  Parsing is a function of
/// the bytes alone, so the result carries a name rather than a definition.
pub uninterp spec fn json_doc_of(bytes: Seq<u8>) -> Option<JsonDocM>;

/// Relies on `serde_json::from_slice`: parses the bytes as JSON, keyed maps
/// iterated in their deterministic (sorted) order; returns `None` exactly
/// when the bytes are not a JSON document whose top level is an object.
/// The result depends on the bytes alone.
#[verifier::external_body]
pub fn parse_json_doc(bytes: &[u8]) -> (r: Option<JsonDoc>)
    ensures
        match r {
            Some(d) => json_doc_of(bytes@) == Some(d@),
            None => json_doc_of(bytes@) is None,
        },
{
    let v: serde_json::Value = serde_json::from_slice(bytes).ok()?;
    let obj = v.as_object()?;
    Some(JsonDoc {
        fields: obj
            .iter()
            .map(|(k, val)| JsonTopField { name: k.clone(), value: conv_top(val) })
            .collect(),
    })
}

/// Conversion layer of [`parse_json_doc`]: one scalar of serde_json's tree,
/// moved into the model unchanged; carries no contract of its own.
#[verifier::external_body]
fn conv_prim(v: &serde_json::Value) -> JsonPrim {
    match v {
        serde_json::Value::Null => JsonPrim::Null,
        serde_json::Value::Bool(b) => JsonPrim::Bool(*b),
        serde_json::Value::Number(n) => match n.as_i64() {
            Some(i) => JsonPrim::Int(i),
            None => JsonPrim::Opaque,
        },
        serde_json::Value::String(s) => JsonPrim::Text(s.clone()),
        _ => JsonPrim::Opaque,
    }
}

/// Conversion layer of [`parse_json_doc`]: one array element, flat objects
/// kept field by field; carries no contract of its own.
#[verifier::external_body]
fn conv_elem(v: &serde_json::Value) -> JsonElem {
    match v {
        serde_json::Value::Object(m) => JsonElem::Entry(
            m.iter().map(|(k, x)| JsonField { name: k.clone(), value: conv_prim(x) }).collect(),
        ),
        _ => JsonElem::Prim(conv_prim(v)),
    }
}

/// Conversion layer of [`parse_json_doc`]: one top-level field value;
/// carries no contract of its own.
#[verifier::external_body]
fn conv_top(v: &serde_json::Value) -> JsonTopVal {
    match v {
        serde_json::Value::Array(a) => JsonTopVal::Arr(a.iter().map(conv_elem).collect()),
        _ => JsonTopVal::Prim(conv_prim(v)),
    }
}

/// The first top-level field of the given name, if any.
pub open spec fn doc_lookup(fields: Seq<JsonTopFieldM>, name: Seq<char>) -> Option<JsonTopValM>
    decreases fields.len(),
{
    if fields.len() == 0 {
        None
    } else if fields[0].name == name {
        Some(fields[0].value)
    } else {
        doc_lookup(fields.skip(1), name)
    }
}

/// The first field of the given name in a flat object, if any.
pub open spec fn entry_lookup(fields: Seq<JsonFieldM>, name: Seq<char>) -> Option<JsonPrimM>
    decreases fields.len(),
{
    if fields.len() == 0 {
        None
    } else if fields[0].name == name {
        Some(fields[0].value)
    } else {
        entry_lookup(fields.skip(1), name)
    }
}

/// Equality of a `String` and a `&str` by their character sequences.
pub fn string_eq_str(a: &String, b: &str) -> (r: bool)
    ensures
        r == (a@ == b@),
{
    let bs: String = b.to_owned();
    *a == bs
}

/// Finds the first top-level field of the given name.
pub fn doc_field<'a>(d: &'a JsonDoc, name: &str) -> (r: Option<&'a JsonTopVal>)
    ensures
        match r {
            Some(v) => doc_lookup(d@.fields, name@) == Some(v@),
            None => doc_lookup(d@.fields, name@) is None,
        },
{
    let n = d.fields.len();
    let mut i: usize = 0;
    proof {
        assert(d@.fields.skip(0) =~= d@.fields);
    }
    while i < n
        invariant
            n == d.fields@.len(),
            i <= n,
            doc_lookup(d@.fields, name@) == doc_lookup(d@.fields.skip(i as int), name@),
        decreases n - i,
    {
        proof {
            assert(d@.fields.skip(i as int)[0] == d@.fields[i as int]);
        }
        if string_eq_str(&d.fields[i].name, name) {
            return Some(&d.fields[i].value);
        }
        proof {
            assert(d@.fields.skip(i as int).skip(1) =~= d@.fields.skip(i + 1));
        }
        i = i + 1;
    }
    proof {
        assert(d@.fields.skip(i as int).len() == 0);
    }
    None
}

/// Finds the first field of the given name in a flat object.
pub fn entry_field<'a>(fields: &'a Vec<JsonField>, name: &str) -> (r: Option<&'a JsonPrim>)
    ensures
        match r {
            Some(v) => entry_lookup(fields_view(fields@), name@) == Some(v@),
            None => entry_lookup(fields_view(fields@), name@) is None,
        },
{
    let n = fields.len();
    let mut i: usize = 0;
    proof {
        assert(fields_view(fields@).skip(0) =~= fields_view(fields@));
    }
    while i < n
        invariant
            n == fields@.len(),
            i <= n,
            entry_lookup(fields_view(fields@), name@) == entry_lookup(
                fields_view(fields@).skip(i as int),
                name@,
            ),
        decreases n - i,
    {
        proof {
            assert(fields_view(fields@).skip(i as int)[0] == fields_view(fields@)[i as int]);
        }
        if string_eq_str(&fields[i].name, name) {
            return Some(&fields[i].value);
        }
        proof {
            assert(fields_view(fields@).skip(i as int).skip(1) =~= fields_view(fields@).skip(
                i + 1,
            ));
        }
        i = i + 1;
    }
    proof {
        assert(fields_view(fields@).skip(i as int).len() == 0);
    }
    None
}

} // verus!
