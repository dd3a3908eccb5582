//! What the library reads of an incoming request: the timestamp precision
//! and the line-protocol body.
use vstd::prelude::*;
use crate::config::{same_text, EnvVar, Environment};
use crate::error::ConnectorError;
use crate::line_protocol_parser::{fault_of, metrics_view, parse_line_protocol, parse_spec};
use crate::records_builder::{
    build_records, get_builder, multi_measure_outcome, outcome_matches, Record, SchemaType, TimeUnit,
};

verus! {

/// A JSON value, as far as a request event needs one. Numbers are kept as
/// their text; an object keeps its entries in order.
#[derive(Debug)]
pub enum JsonValue {
    Null,
    Bool(bool),
    Number(String),
    Str(String),
    Array(Vec<JsonValue>),
    Object(Vec<(String, JsonValue)>),
}

/// The value under `key` among an object's entries: the first entry with
/// that key.
pub open spec fn lookup(entries: Seq<(String, JsonValue)>, key: Seq<char>) -> Option<JsonValue>
    decreases entries.len(),
{
    if entries.len() == 0 {
        None
    } else if entries[0].0@ == key {
        Some(entries[0].1)
    } else {
        lookup(entries.drop_first(), key)
    }
}

/// The member `key` of an object; nothing for any other value.
pub open spec fn member(v: JsonValue, key: Seq<char>) -> Option<JsonValue> {
    match v {
        JsonValue::Object(entries) => lookup(entries@, key),
        _ => None,
    }
}

/// The precision text of an event: the `precision` member of its
/// `queryStringParameters` object, or where that member is absent, of its
/// `queryParameters` object; a string, or the first element of an array
/// where that element is a string.
pub open spec fn precision_of(event: JsonValue) -> Option<Seq<char>> {
    let params = match member(event, "queryStringParameters"@) {
        Some(p) => Some(p),
        None => member(event, "queryParameters"@),
    };
    match params {
        Some(p) => match member(p, "precision"@) {
            Some(JsonValue::Str(s)) => Some(s@),
            Some(JsonValue::Array(a)) => if a@.len() > 0 && a@[0] is Str {
                Some(a@[0]->Str_0@)
            } else {
                None
            },
            _ => None,
        },
        None => None,
    }
}

/// The member `key` of `v`, where `v` is an object that has one.
fn get_member<'a>(v: &'a JsonValue, key: &str) -> (r: Option<&'a JsonValue>)
    ensures
        match r {
            Some(x) => member(*v, key@) == Some(*x),
            None => member(*v, key@) is None,
        },
{
    match v {
        JsonValue::Object(entries) => {
            let mut i: usize = 0;
            assert(entries@.subrange(0, entries@.len() as int) =~= entries@);
            while i < entries.len()
                invariant
                    i <= entries@.len(),
                    member(*v, key@) == lookup(entries@, key@),
                    lookup(entries@, key@) == lookup(entries@.subrange(i as int, entries@.len() as int), key@),
                decreases entries@.len() - i,
            {
                let ghost rest = entries@.subrange(i as int, entries@.len() as int);
                assert(rest[0] == entries@[i as int]);
                assert(rest.drop_first() =~= entries@.subrange(i + 1, entries@.len() as int));
                let found = same_text(&entries[i].0, key);
                if found {
                    assert(lookup(rest, key@) == Some(entries@[i as int].1));
                    return Some(&entries[i].1);
                }
                i = i + 1;
            }
            assert(entries@.subrange(i as int, entries@.len() as int).len() == 0);
            None
        },
        _ => None,
    }
}

/// Reads the optional timestamp precision of a request event; see
/// [`precision_of`].
pub fn get_precision(event: &JsonValue) -> (r: Option<String>)
    ensures
        match r {
            Some(s) => precision_of(*event) == Some(s@),
            None => precision_of(*event) is None,
        },
{
    let params = match get_member(event, "queryStringParameters") {
        Some(p) => Some(p),
        None => get_member(event, "queryParameters"),
    };
    match params {
        Some(p) => match get_member(p, "precision") {
            Some(JsonValue::Str(s)) => Some(s.clone()),
            Some(JsonValue::Array(a)) => if a.len() > 0 {
                match &a[0] {
                    JsonValue::Str(s) => Some(s.clone()),
                    _ => None,
                }
            } else {
                None
            },
            _ => None,
        },
        None => None,
    }
}

/// The time unit a precision text selects: `ms`, `us` and `s`; anything
/// else, or none, selects nanoseconds.
pub open spec fn time_unit_of(precision: Option<Seq<char>>) -> TimeUnit {
    match precision {
        Some(p) => if p == "ms"@ {
            TimeUnit::Milliseconds
        } else if p == "us"@ {
            TimeUnit::Microseconds
        } else if p == "s"@ {
            TimeUnit::Seconds
        } else {
            TimeUnit::Nanoseconds
        },
        None => TimeUnit::Nanoseconds,
    }
}

/// The time unit of a request's precision; see [`time_unit_of`].
pub fn precision_time_unit(precision: &Option<String>) -> (r: TimeUnit)
    ensures
        r == time_unit_of(crate::config::opt_view(*precision)),
{
    match precision {
        Some(p) => if same_text(p, "ms") {
            TimeUnit::Milliseconds
        } else if same_text(p, "us") {
            TimeUnit::Microseconds
        } else if same_text(p, "s") {
            TimeUnit::Seconds
        } else {
            TimeUnit::Nanoseconds
        },
        None => TimeUnit::Nanoseconds,
    }
}

/// The records of a request body under the multi-table, multi-measure
/// schema: the body is parsed first, and a malformed body fails before the
/// configuration is looked at; then the measure name must be configured.
pub fn records_for_body(body: &str, env: &Environment, precision: &TimeUnit) -> (r: Result<
    Vec<(String, Vec<Record>)>,
    ConnectorError,
>)
    ensures
        match parse_spec(body@) {
            Err(f) => r is Err && fault_of(r->Err_0) == Some(f),
            Ok(ms) => match env.value(EnvVar::MeasureNameForMultiMeasureRecords) {
                None => r == Err::<Vec<(String, Vec<Record>)>, ConnectorError>(
                    ConnectorError::MissingVariable(EnvVar::MeasureNameForMultiMeasureRecords),
                ),
                Some(n) => outcome_matches(r, multi_measure_outcome(*env, ms, n, *precision)),
            },
        },
{
    let metric_data = parse_line_protocol(body)?;
    let measure_name = match env.get(EnvVar::MeasureNameForMultiMeasureRecords) {
        Some(n) => n,
        None => return Err(ConnectorError::MissingVariable(EnvVar::MeasureNameForMultiMeasureRecords)),
    };
    let builder = get_builder(SchemaType::MultiTableMultiMeasure(measure_name));
    build_records(&builder, env, metric_data.as_slice(), precision)
}

} // verus!
