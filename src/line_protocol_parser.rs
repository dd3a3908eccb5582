//! Line-protocol text to [`Metric`]s.
//!
//! The grammar itself (escapes, quoting, comments, numeric suffixes) is the
//! `influxdb_line_protocol` parser's; this module turns what it yields into
//! metrics and decides the outcome of a whole input.
use vstd::prelude::*;
use influxdb_line_protocol::parse_lines;
use influxdb_line_protocol::FieldValue::{Boolean, String as Text, F64, I64, U64};
use crate::error::ConnectorError;
use crate::metric::{
    fields_view, pairs_view, tags_view, FieldData, FieldValue, Metric, MetricData,
};

verus! {

/// One line as the line-protocol parser reads it, before it becomes a
/// [`Metric`]: its tag set may be absent and its timestamp optional.
#[derive(Debug, Clone, PartialEq)]
pub struct ParsedPoint {
    pub measurement: String,
    pub tags: Option<Vec<(String, String)>>,
    pub fields: Vec<(String, FieldValue)>,
    pub timestamp: Option<i64>,
}

/// The mathematical form of a [`ParsedPoint`].
pub struct PointData {
    pub measurement: Seq<char>,
    pub tags: Option<Seq<(Seq<char>, Seq<char>)>>,
    pub fields: Seq<(Seq<char>, FieldData)>,
    pub timestamp: Option<i64>,
}

impl View for ParsedPoint {
    type V = PointData;

    open spec fn view(&self) -> PointData {
        PointData {
            measurement: self.measurement@,
            tags: tags_view(self.tags),
            fields: fields_view(self.fields@),
            timestamp: self.timestamp,
        }
    }
}

/// A parsed line as plain values: measurement, tag set, field set, timestamp.
pub type RawPoint = (String, Option<Vec<(String, String)>>, Vec<(String, FieldValue)>, Option<i64>);

/// The [`ParsedPoint`] that a raw line holds.
pub open spec fn point_of_raw(p: RawPoint) -> ParsedPoint {
    ParsedPoint { measurement: p.0, tags: p.1, fields: p.2, timestamp: p.3 }
}

/// The view of the parser's per-line outcomes.
pub open spec fn lines_view(s: Seq<Result<RawPoint, String>>) -> Seq<Result<PointData, Seq<char>>> {
    s.map_values(
        |r: Result<RawPoint, String>|
            match r {
                Ok(p) => Ok(point_of_raw(p)@),
                Err(e) => Err(e@),
            },
    )
}

/// What the line-protocol parser yields for a text: one outcome per line
/// that is neither blank nor a comment, in order.
pub uninterp spec fn parsed_lines_of(text: Seq<char>) -> Seq<Result<PointData, Seq<char>>>;

/// Relies on `influxdb_line_protocol::parse_lines`: it splits the text into
/// lines, skips blank and comment lines, and parses each of the others; an
/// empty text yields nothing. Each outcome is moved into plain values.
#[verifier::external_body]
fn lex_lines(text: &str) -> (r: Vec<Result<RawPoint, String>>)
    ensures
        lines_view(r@) == parsed_lines_of(text@),
        text@.len() == 0 ==> r@.len() == 0,
{
    parse_lines(text).map(|res| res.map(|l| (
        l.series.measurement.to_string(),
        l.series.tag_set.map(|s| s.into_iter().map(|(k, v)| (k.to_string(), v.to_string())).collect()),
        l.field_set.into_iter().map(|(k, v)| (k.to_string(), match v {
            I64(x) => FieldValue::I64(x),
            U64(x) => FieldValue::U64(x),
            F64(x) => FieldValue::F64(x.to_string()),
            Text(x) => FieldValue::String(x.to_string()),
            Boolean(x) => FieldValue::Boolean(x)
        })).collect(),
        l.timestamp
    )).map_err(|e| e.to_string())).collect()
}

/// Why a text is not accepted.
pub enum ParseFault {
    /// The parser rejected a line, with its message.
    Syntax(Seq<char>),
    /// A line has no timestamp.
    NoTimestamp,
}

/// The metric that a parsed line becomes: an absent tag set becomes an
/// empty one; a line without a timestamp becomes none.
pub open spec fn metric_of_point(p: PointData) -> Option<MetricData> {
    match p.timestamp {
        Some(t) => Some(
            MetricData {
                name: p.measurement,
                tags: Some(
                    match p.tags {
                        Some(ts) => ts,
                        None => Seq::empty(),
                    },
                ),
                fields: p.fields,
                timestamp: t,
            },
        ),
        None => None,
    }
}

/// The outcome of one line.
pub open spec fn line_outcome(l: Result<PointData, Seq<char>>) -> Result<MetricData, ParseFault> {
    match l {
        Ok(p) => match metric_of_point(p) {
            Some(m) => Ok(m),
            None => Err(ParseFault::NoTimestamp),
        },
        Err(msg) => Err(ParseFault::Syntax(msg)),
    }
}

/// The outcome of a sequence of lines: all their metrics in order, or the
/// fault of the first line that fails.
pub open spec fn lines_outcome(lines: Seq<Result<PointData, Seq<char>>>) -> Result<Seq<MetricData>, ParseFault>
    decreases lines.len(),
{
    if lines.len() == 0 {
        Ok(Seq::empty())
    } else {
        match lines_outcome(lines.drop_last()) {
            Ok(ms) => match line_outcome(lines.last()) {
                Ok(m) => Ok(ms.push(m)),
                Err(f) => Err(f),
            },
            Err(f) => Err(f),
        }
    }
}

/// The outcome of parsing a whole text.
pub open spec fn parse_spec(text: Seq<char>) -> Result<Seq<MetricData>, ParseFault> {
    lines_outcome(parsed_lines_of(text))
}

/// The parse fault that an error reports, if it is one.
pub open spec fn fault_of(e: ConnectorError) -> Option<ParseFault> {
    match e {
        ConnectorError::Parse(m) => Some(ParseFault::Syntax(m@)),
        ConnectorError::MissingTimestamp => Some(ParseFault::NoTimestamp),
        _ => None,
    }
}

/// The view of a sequence of metrics.
pub open spec fn metrics_view(v: Seq<Metric>) -> Seq<MetricData> {
    v.map_values(|m: Metric| m@)
}

/// Whether `r` reports the outcome of parsing `text`: its metrics, or an
/// error that names its fault.
pub open spec fn is_parse_of(text: Seq<char>, r: Result<Vec<Metric>, ConnectorError>) -> bool {
    match r {
        Ok(ms) => parse_spec(text) == Ok::<Seq<MetricData>, ParseFault>(metrics_view(ms@)),
        Err(e) => parse_spec(text) is Err && fault_of(e) == Some(parse_spec(text)->Err_0),
    }
}

/// Parsing depends on the text alone: two parses of equal texts both
/// succeed with the same metrics in the same order, or both fail with the
/// same fault.
pub proof fn lemma_parse_deterministic(
    a: Seq<char>,
    b: Seq<char>,
    ra: Result<Vec<Metric>, ConnectorError>,
    rb: Result<Vec<Metric>, ConnectorError>,
)
    requires
        a == b,
        is_parse_of(a, ra),
        is_parse_of(b, rb),
    ensures
        ra is Ok <==> rb is Ok,
        ra is Ok ==> metrics_view(ra->Ok_0@) == metrics_view(rb->Ok_0@),
        ra is Err ==> fault_of(ra->Err_0) == fault_of(rb->Err_0),
{
}

/// Once a prefix of the lines fails, every longer prefix fails the same way.
proof fn lemma_fault_persists(lines: Seq<Result<PointData, Seq<char>>>, i: int, j: int)
    requires
        0 <= i <= j <= lines.len(),
        lines_outcome(lines.take(i)) is Err,
    ensures
        lines_outcome(lines.take(j)) == lines_outcome(lines.take(i)),
    decreases j - i,
{
    if j > i {
        lemma_fault_persists(lines, i, j - 1);
        assert(lines.take(j).drop_last() =~= lines.take(j - 1));
    }
}

/// Converts one parsed line into a metric.
pub fn parsed_line_to_metric(parsed_line: ParsedPoint) -> (r: Result<Metric, ConnectorError>)
    ensures
        match metric_of_point(parsed_line@) {
            Some(m) => r is Ok && r->Ok_0@ == m,
            None => r == Err::<Metric, ConnectorError>(ConnectorError::MissingTimestamp),
        },
{
    let ParsedPoint { measurement, tags, fields, timestamp } = parsed_line;
    let new_tags: Vec<(String, String)> = match tags {
        Some(t) => t,
        None => Vec::new(),
    };
    proof {
        assert(pairs_view(Seq::<(String, String)>::empty()) =~= Seq::empty());
    }
    match timestamp {
        Some(t) => Ok(Metric::new(measurement, Some(new_tags), fields, t)),
        None => Err(ConnectorError::MissingTimestamp),
    }
}

/// The same elements in the opposite order.
fn reversed<T>(v: Vec<T>) -> (r: Vec<T>)
    ensures
        r@.len() == v@.len(),
        forall|k: int| 0 <= k < v@.len() ==> #[trigger] r@[k] == v@[v@.len() - 1 - k],
{
    let mut v = v;
    let ghost orig = v@;
    let mut r: Vec<T> = Vec::new();
    while v.len() > 0
        invariant
            v@ == orig.take(v@.len() as int),
            r@.len() + v@.len() == orig.len(),
            forall|k: int| 0 <= k < r@.len() ==> #[trigger] r@[k] == orig[orig.len() - 1 - k],
        decreases v@.len(),
    {
        let x = v.pop().unwrap();
        r.push(x);
        assert(v@ =~= orig.take(v@.len() as int));
    }
    r
}

/// Parses line-protocol text into metrics, one per line that is neither
/// blank nor a comment, in input order. The first line that fails decides
/// the error and no metric is returned.
pub fn parse_line_protocol(line_protocol: &str) -> (r: Result<Vec<Metric>, ConnectorError>)
    ensures
        is_parse_of(line_protocol@, r),
        line_protocol@.len() == 0 ==> (r is Ok && r->Ok_0@.len() == 0),
{
    let parsed_lines = lex_lines(line_protocol);
    let ghost lines = lines_view(parsed_lines@);
    let n = parsed_lines.len();
    let mut pending = reversed(parsed_lines);
    let mut output_metrics: Vec<Metric> = Vec::new();
    let mut i: usize = 0;
    assert(lines.take(0) =~= Seq::<Result<PointData, Seq<char>>>::empty());
    assert(metrics_view(output_metrics@) =~= Seq::<MetricData>::empty());
    while i < n
        invariant
            n == lines.len(),
            line_protocol@.len() == 0 ==> n == 0,
            i <= n,
            pending@.len() == n - i,
            forall|k: int| 0 <= k < n - i ==> lines[n - 1 - k] == (match #[trigger] pending@[k] {
                Ok(p) => Ok(point_of_raw(p)@),
                Err(e) => Err::<PointData, Seq<char>>(e@),
            }),
            lines == parsed_lines_of(line_protocol@),
            lines_outcome(lines.take(i as int)) == Ok::<Seq<MetricData>, ParseFault>(metrics_view(output_metrics@)),
        decreases n - i,
    {
        let ghost before = pending@;
        let line_result = pending.pop().unwrap();
        assert(line_result == before[n - 1 - i]);
        assert(lines.take(i + 1).drop_last() =~= lines.take(i as int));
        assert(lines.take(i + 1).last() == lines[i as int]);
        assert(forall|k: int| 0 <= k < n - i - 1 ==> pending@[k] == before[k]);
        match line_result {
            Ok(raw) => {
                let (measurement, tags, fields, timestamp) = raw;
                let line = ParsedPoint { measurement, tags, fields, timestamp };
                assert(lines[i as int] == Ok::<PointData, Seq<char>>(line@));
                let new_metric = parsed_line_to_metric(line);
                match new_metric {
                    Ok(m) => {
                        assert(line_outcome(lines[i as int]) == Ok::<MetricData, ParseFault>(m@));
                        let ghost old_out = output_metrics@;
                        output_metrics.push(m);
                        assert(metrics_view(output_metrics@) =~= metrics_view(old_out).push(m@));
                        assert(lines_outcome(lines.take(i + 1)) == Ok::<Seq<MetricData>, ParseFault>(metrics_view(old_out).push(m@)));
                    },
                    Err(e) => {
                        proof {
                            lemma_fault_persists(lines, i + 1, n as int);
                            assert(lines.take(n as int) =~= lines);
                        }
                        return Err(e);
                    },
                }
            },
            Err(msg) => {
                proof {
                    lemma_fault_persists(lines, i + 1, n as int);
                    assert(lines.take(n as int) =~= lines);
                }
                return Err(ConnectorError::Parse(msg));
            },
        }
        i = i + 1;
    }
    assert(lines.take(n as int) =~= lines);
    assert(output_metrics@.len() == metrics_view(output_metrics@).len());
    Ok(output_metrics)
}

} // verus!
