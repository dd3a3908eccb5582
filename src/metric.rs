//! The in-memory form of one time-series point.
use vstd::prelude::*;
use crate::text::{i64_text, u64_text, int_text};

verus! {

/// A field value of a point.
///
/// A floating-point value is held as the decimal text that Rust's `Display`
/// writes for it (`21.3`, `125`): that text is all the mapping to store
/// records reads of it.
#[derive(Debug, Clone, PartialEq)]
pub enum FieldValue {
    Boolean(bool),
    I64(i64),
    U64(u64),
    F64(String),
    String(String),
}

/// The mathematical form of a [`FieldValue`].
pub enum FieldData {
    Boolean(bool),
    I64(i64),
    U64(u64),
    F64(Seq<char>),
    Text(Seq<char>),
}

impl View for FieldValue {
    type V = FieldData;

    open spec fn view(&self) -> FieldData {
        match self {
            FieldValue::Boolean(b) => FieldData::Boolean(*b),
            FieldValue::I64(v) => FieldData::I64(*v),
            FieldValue::U64(v) => FieldData::U64(*v),
            FieldValue::F64(t) => FieldData::F64(t@),
            FieldValue::String(s) => FieldData::Text(s@),
        }
    }
}

/// The canonical text of a field value: `true`/`false`, decimal integers,
/// the float's text, or the string itself.
pub open spec fn field_text(v: FieldData) -> Seq<char> {
    match v {
        FieldData::Boolean(b) => if b {
            "true"@
        } else {
            "false"@
        },
        FieldData::I64(n) => int_text(n as int),
        FieldData::U64(n) => int_text(n as int),
        FieldData::F64(t) => t,
        FieldData::Text(s) => s,
    }
}

impl FieldValue {
    /// The canonical text of this value, as written into a store record.
    pub fn to_text(&self) -> (r: String)
        ensures
            r@ == field_text(self@),
    {
        match self {
            FieldValue::Boolean(b) => if *b {
                "true".to_owned()
            } else {
                "false".to_owned()
            },
            FieldValue::I64(n) => i64_text(*n),
            FieldValue::U64(n) => u64_text(*n),
            FieldValue::F64(t) => t.clone(),
            FieldValue::String(s) => s.clone(),
        }
    }
}

/// The view of a sequence of string pairs (a tag set).
pub open spec fn pairs_view(v: Seq<(String, String)>) -> Seq<(Seq<char>, Seq<char>)> {
    v.map_values(|p: (String, String)| (p.0@, p.1@))
}

/// The view of an optional tag set.
pub open spec fn tags_view(t: Option<Vec<(String, String)>>) -> Option<Seq<(Seq<char>, Seq<char>)>> {
    match t {
        Some(v) => Some(pairs_view(v@)),
        None => None,
    }
}

/// The view of a field set.
pub open spec fn fields_view(v: Seq<(String, FieldValue)>) -> Seq<(Seq<char>, FieldData)> {
    v.map_values(|p: (String, FieldValue)| (p.0@, p.1@))
}

/// One time-series point: a measurement name, its tags in the order written
/// (duplicates kept), its fields in order, and an integer timestamp whose unit
/// is chosen by the caller.
#[derive(Debug, Clone, PartialEq)]
pub struct Metric {
    name: String,
    tags: Option<Vec<(String, String)>>,
    fields: Vec<(String, FieldValue)>,
    timestamp: i64,
}

/// The mathematical form of a [`Metric`].
pub struct MetricData {
    pub name: Seq<char>,
    pub tags: Option<Seq<(Seq<char>, Seq<char>)>>,
    pub fields: Seq<(Seq<char>, FieldData)>,
    pub timestamp: i64,
}

impl View for Metric {
    type V = MetricData;

    closed spec fn view(&self) -> MetricData {
        MetricData {
            name: self.name@,
            tags: tags_view(self.tags),
            fields: fields_view(self.fields@),
            timestamp: self.timestamp,
        }
    }
}

impl Metric {
    pub fn new(
        name: String,
        tags: Option<Vec<(String, String)>>,
        fields: Vec<(String, FieldValue)>,
        timestamp: i64,
    ) -> (r: Self)
        ensures
            r@ == (MetricData {
                name: name@,
                tags: tags_view(tags),
                fields: fields_view(fields@),
                timestamp,
            }),
    {
        Metric { name, tags, fields, timestamp }
    }

    pub fn name(&self) -> (r: &str)
        ensures
            r@ == self@.name,
    {
        self.name.as_str()
    }

    pub fn tags(&self) -> (r: &Option<Vec<(String, String)>>)
        ensures
            tags_view(*r) == self@.tags,
    {
        &self.tags
    }

    pub fn fields(&self) -> (r: &Vec<(String, FieldValue)>)
        ensures
            fields_view(r@) == self@.fields,
    {
        &self.fields
    }

    pub fn timestamp(&self) -> (r: i64)
        ensures
            r == self@.timestamp,
    {
        self.timestamp
    }
}

} // verus!
