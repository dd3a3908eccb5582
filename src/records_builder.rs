//! Metrics to store records, grouped by destination table.
use vstd::prelude::*;
use crate::config::{
    unset, validate_env_variables, validate_multi_measure_env_variables, validation_error, EnvVar,
    Environment,
};
use crate::error::ConnectorError;
use crate::metric::{field_text, FieldData, FieldValue, Metric, MetricData};
use crate::text::{i64_text, int_text};

verus! {

/// The unit of a record's timestamp.
#[derive(Debug, Clone, Copy, PartialEq, Eq)]
pub enum TimeUnit {
    Milliseconds,
    Seconds,
    Microseconds,
    Nanoseconds,
}

/// The store's type of a measure value.
#[derive(Debug, Clone, Copy, PartialEq, Eq)]
pub enum MeasureValueType {
    Double,
    Bigint,
    Varchar,
    Boolean,
    Multi,
}

/// A dimension of a record: a tag of its metric.
#[derive(Debug, Clone, PartialEq)]
pub struct Dimension {
    pub name: String,
    pub value: String,
}

/// One named measure of a multi-measure record.
#[derive(Debug, Clone, PartialEq)]
pub struct MeasureValue {
    pub name: String,
    pub value: String,
    pub value_type: MeasureValueType,
}

/// A store record: the measures of one metric under one timestamp.
#[derive(Debug, Clone, PartialEq)]
pub struct Record {
    pub measure_name: String,
    pub measure_values: Vec<MeasureValue>,
    pub measure_value_type: MeasureValueType,
    pub time: String,
    pub time_unit: TimeUnit,
    pub dimensions: Vec<Dimension>,
}

/// The mathematical form of a [`Record`]; a measure value is
/// `(name, text, type)` and a dimension `(name, value)`.
pub struct RecordData {
    pub measure_name: Seq<char>,
    pub measure_values: Seq<(Seq<char>, Seq<char>, MeasureValueType)>,
    pub measure_value_type: MeasureValueType,
    pub time: Seq<char>,
    pub time_unit: TimeUnit,
    pub dimensions: Seq<(Seq<char>, Seq<char>)>,
}

/// The view of a record's measure values.
pub open spec fn measure_values_view(v: Seq<MeasureValue>) -> Seq<(Seq<char>, Seq<char>, MeasureValueType)> {
    v.map_values(|m: MeasureValue| (m.name@, m.value@, m.value_type))
}

/// The view of a record's dimensions.
pub open spec fn dimensions_view(v: Seq<Dimension>) -> Seq<(Seq<char>, Seq<char>)> {
    v.map_values(|d: Dimension| (d.name@, d.value@))
}

impl View for Record {
    type V = RecordData;

    open spec fn view(&self) -> RecordData {
        RecordData {
            measure_name: self.measure_name@,
            measure_values: measure_values_view(self.measure_values@),
            measure_value_type: self.measure_value_type,
            time: self.time@,
            time_unit: self.time_unit,
            dimensions: dimensions_view(self.dimensions@),
        }
    }
}

/// The view of a sequence of records.
pub open spec fn records_view(v: Seq<Record>) -> Seq<RecordData> {
    v.map_values(|r: Record| r@)
}

/// The store type of a field value.
pub open spec fn measure_type_of(v: FieldData) -> MeasureValueType {
    match v {
        FieldData::Boolean(_) => MeasureValueType::Boolean,
        FieldData::I64(_) => MeasureValueType::Bigint,
        FieldData::U64(_) => MeasureValueType::Bigint,
        FieldData::F64(_) => MeasureValueType::Double,
        FieldData::Text(_) => MeasureValueType::Varchar,
    }
}

/// The measure value of one field.
pub open spec fn measure_of_field(f: (Seq<char>, FieldData)) -> (Seq<char>, Seq<char>, MeasureValueType) {
    (f.0, field_text(f.1), measure_type_of(f.1))
}

/// The record of one metric: the configured measure name, one measure per
/// field in order, one dimension per tag in order, the timestamp's decimal
/// text and the caller's time unit.
pub open spec fn record_of(measure_name: Seq<char>, m: MetricData, unit: TimeUnit) -> RecordData {
    RecordData {
        measure_name,
        measure_values: m.fields.map_values(|f: (Seq<char>, FieldData)| measure_of_field(f)),
        measure_value_type: MeasureValueType::Multi,
        time: int_text(m.timestamp as int),
        time_unit: unit,
        dimensions: match m.tags {
            Some(t) => t,
            None => Seq::empty(),
        },
    }
}

/// The store type of a field value.
pub fn get_timestream_measure_type(field_value: &FieldValue) -> (r: Result<MeasureValueType, ConnectorError>)
    ensures
        r == Ok::<MeasureValueType, ConnectorError>(measure_type_of(field_value@)),
{
    match field_value {
        FieldValue::Boolean(_) => Ok(MeasureValueType::Boolean),
        FieldValue::I64(_) => Ok(MeasureValueType::Bigint),
        FieldValue::U64(_) => Ok(MeasureValueType::Bigint),
        FieldValue::F64(_) => Ok(MeasureValueType::Double),
        FieldValue::String(_) => Ok(MeasureValueType::Varchar),
    }
}

/// Converts a metric into a multi-measure record.
pub fn metric_to_timestream_record(
    measure_name: &str,
    metric: &Metric,
    precision: &TimeUnit,
) -> (r: Result<Record, ConnectorError>)
    ensures
        r is Ok,
        r->Ok_0@ == record_of(measure_name@, metric@, *precision),
{
    let mut dimensions: Vec<Dimension> = Vec::new();
    let tags = metric.tags();
    let ghost want_dims = match metric@.tags {
        Some(t) => t,
        None => Seq::<(Seq<char>, Seq<char>)>::empty(),
    };
    match tags {
        Some(tag_list) => {
            let mut i: usize = 0;
            while i < tag_list.len()
                invariant
                    i <= tag_list@.len(),
                    want_dims == crate::metric::pairs_view(tag_list@),
                    dimensions_view(dimensions@) =~= want_dims.take(i as int),
                decreases tag_list@.len() - i,
            {
                let tag = &tag_list[i];
                assert(want_dims[i as int] == (tag.0@, tag.1@));
                let ghost old_dims = dimensions@;
                dimensions.push(Dimension { name: tag.0.clone(), value: tag.1.clone() });
                assert(dimensions_view(dimensions@) =~= dimensions_view(old_dims).push((tag.0@, tag.1@)));
                assert(dimensions_view(dimensions@) =~= want_dims.take(i + 1));
                i = i + 1;
            }
        },
        None => {},
    }
    let fields = metric.fields();
    let ghost want_measures = metric@.fields.map_values(|f: (Seq<char>, FieldData)| measure_of_field(f));
    let mut measure_values: Vec<MeasureValue> = Vec::new();
    let mut j: usize = 0;
    while j < fields.len()
        invariant
            j <= fields@.len(),
            crate::metric::fields_view(fields@) == metric@.fields,
            want_measures == metric@.fields.map_values(|f: (Seq<char>, FieldData)| measure_of_field(f)),
            measure_values_view(measure_values@) =~= want_measures.take(j as int),
        decreases fields@.len() - j,
    {
        let field = &fields[j];
        let measure_type = get_timestream_measure_type(&field.1);
        let value_type = match measure_type {
            Ok(t) => t,
            Err(e) => return Err(e),
        };
        assert(metric@.fields[j as int] == (field.0@, field.1@));
        assert(want_measures[j as int] == measure_of_field((field.0@, field.1@)));
        let ghost old_measures = measure_values@;
        let value = field.1.to_text();
        measure_values.push(MeasureValue { name: field.0.clone(), value, value_type });
        assert(measure_values_view(measure_values@) =~= measure_values_view(old_measures).push(
            (field.0@, value@, value_type),
        ));
        assert(measure_values_view(measure_values@) =~= want_measures.take(j + 1));
        j = j + 1;
    }
    let new_record = Record {
        measure_name: measure_name.to_owned(),
        measure_values,
        measure_value_type: MeasureValueType::Multi,
        time: i64_text(metric.timestamp()),
        time_unit: *precision,
        dimensions,
    };
    assert(measure_values_view(new_record.measure_values@) =~= want_measures);
    assert(dimensions_view(new_record.dimensions@) =~= want_dims);
    Ok(new_record)
}

/// Records grouped by table: `(table name, records in input order)`.
pub type Batches = Seq<(Seq<char>, Seq<RecordData>)>;

/// Whether `g` holds a group for `key`.
pub open spec fn has_group(g: Batches, key: Seq<char>) -> bool {
    exists|i: int| 0 <= i < g.len() && #[trigger] g[i].0 == key
}

/// The position of a group for `key`, where `g` holds one.
pub open spec fn group_index(g: Batches, key: Seq<char>) -> int {
    choose|i: int| 0 <= i < g.len() && #[trigger] g[i].0 == key
}

/// `g` with `rec` appended to the group of `key`; a first record of a key
/// opens a new group at the end.
pub open spec fn add_record(g: Batches, key: Seq<char>, rec: RecordData) -> Batches {
    if has_group(g, key) {
        let i = group_index(g, key);
        g.update(i, (key, g[i].1.push(rec)))
    } else {
        g.push((key, seq![rec]))
    }
}

/// The records of `ms`, grouped by metric name in order of first occurrence.
pub open spec fn grouped(ms: Seq<MetricData>, measure_name: Seq<char>, unit: TimeUnit) -> Batches
    decreases ms.len(),
{
    if ms.len() == 0 {
        Seq::empty()
    } else {
        add_record(
            grouped(ms.drop_last(), measure_name, unit),
            ms.last().name,
            record_of(measure_name, ms.last(), unit),
        )
    }
}

/// No two groups share a table name.
pub open spec fn keys_unique(g: Batches) -> bool {
    forall|i: int, j: int| 0 <= i < g.len() && 0 <= j < g.len() && i != j ==> #[trigger] g[i].0 != #[trigger] g[j].0
}

/// The view of a batch map.
pub open spec fn batches_view(b: Seq<(String, Vec<Record>)>) -> Batches {
    b.map_values(|p: (String, Vec<Record>)| (p.0@, records_view(p.1@)))
}

/// Adding a record keeps table names unique.
pub proof fn lemma_add_record_unique(g: Batches, key: Seq<char>, rec: RecordData)
    requires
        keys_unique(g),
    ensures
        keys_unique(add_record(g, key, rec)),
{
}

/// Grouping yields unique table names.
pub proof fn lemma_grouped_unique(ms: Seq<MetricData>, measure_name: Seq<char>, unit: TimeUnit)
    ensures
        keys_unique(grouped(ms, measure_name, unit)),
    decreases ms.len(),
{
    if ms.len() > 0 {
        lemma_grouped_unique(ms.drop_last(), measure_name, unit);
        lemma_add_record_unique(grouped(ms.drop_last(), measure_name, unit), ms.last().name,
            record_of(measure_name, ms.last(), unit));
    }
}

/// The view of a sequence of metrics.
pub open spec fn metric_seq_view(v: Seq<Metric>) -> Seq<MetricData> {
    v.map_values(|m: Metric| m@)
}

/// Builds one record per metric and groups them by the metric's name: the
/// first metric of a name opens its table's list, later ones are appended.
pub fn build_multi_measure_records(
    metrics: &[Metric],
    measure_name: &str,
    precision: &TimeUnit,
) -> (r: Result<Vec<(String, Vec<Record>)>, ConnectorError>)
    ensures
        r is Ok,
        batches_view(r->Ok_0@) == grouped(metric_seq_view(metrics@), measure_name@, *precision),
{
    let ghost ms = metric_seq_view(metrics@);
    let mut multi_table_batch: Vec<(String, Vec<Record>)> = Vec::new();
    let mut i: usize = 0;
    assert(ms.take(0) =~= Seq::<MetricData>::empty());
    assert(batches_view(multi_table_batch@) =~= Seq::empty());
    while i < metrics.len()
        invariant
            i <= metrics@.len(),
            ms == metric_seq_view(metrics@),
            batches_view(multi_table_batch@) == grouped(ms.take(i as int), measure_name@, *precision),
        decreases metrics@.len() - i,
    {
        let metric = &metrics[i];
        let new_record = match metric_to_timestream_record(measure_name, metric, precision) {
            Ok(rec) => rec,
            Err(e) => return Err(e),
        };
        let table_name = metric.name().to_owned();
        let ghost g = batches_view(multi_table_batch@);
        let ghost key = table_name@;
        let ghost rec = new_record@;
        assert(ms.take(i + 1).drop_last() =~= ms.take(i as int));
        assert(ms.take(i + 1).last() == metric@);
        proof {
            lemma_grouped_unique(ms.take(i as int), measure_name@, *precision);
        }
        let mut found: usize = multi_table_batch.len();
        let mut j: usize = 0;
        while j < multi_table_batch.len()
            invariant
                j <= multi_table_batch@.len(),
                g == batches_view(multi_table_batch@),
                key == table_name@,
                found == multi_table_batch@.len() ==> forall|k: int| 0 <= k < j ==> #[trigger] g[k].0 != key,
                found != multi_table_batch@.len() ==> found < multi_table_batch@.len() && g[found as int].0 == key,
            decreases multi_table_batch@.len() - j,
        {
            assert(g[j as int].0 == multi_table_batch@[j as int].0@);
            let same = multi_table_batch[j].0.eq(&table_name);
            assert(same == (g[j as int].0 == key));
            if found == multi_table_batch.len() && same {
                found = j;
            }
            j = j + 1;
        }
        if found < multi_table_batch.len() {
            assert(has_group(g, key));
            assert(group_index(g, key) == found);
            let mut entry: (String, Vec<Record>) = (String::new(), Vec::new());
            multi_table_batch.set_and_swap(found, &mut entry);
            let ghost old_list = entry.1@;
            entry.1.push(new_record);
            assert(records_view(entry.1@) =~= records_view(old_list).push(rec));
            multi_table_batch.set_and_swap(found, &mut entry);
            assert(batches_view(multi_table_batch@) =~= add_record(g, key, rec));
        } else {
            assert(!has_group(g, key));
            let mut list: Vec<Record> = Vec::new();
            list.push(new_record);
            assert(records_view(list@) =~= seq![rec]);
            multi_table_batch.push((table_name, list));
            assert(batches_view(multi_table_batch@) =~= add_record(g, key, rec));
        }
        i = i + 1;
    }
    assert(ms.take(metrics@.len() as int) =~= ms);
    Ok(multi_table_batch)
}

/// The number of records over all groups.
pub open spec fn total_records(g: Batches) -> nat
    decreases g.len(),
{
    if g.len() == 0 {
        0
    } else {
        total_records(g.drop_last()) + g.last().1.len()
    }
}

/// The table names of the groups, in order.
pub open spec fn table_names(g: Batches) -> Seq<Seq<char>> {
    g.map_values(|p: (Seq<char>, Seq<RecordData>)| p.0)
}

/// The set of metric names.
pub open spec fn metric_names(ms: Seq<MetricData>) -> Set<Seq<char>> {
    ms.map_values(|m: MetricData| m.name).to_set()
}

proof fn lemma_total_update(g: Batches, i: int, entry: (Seq<char>, Seq<RecordData>))
    requires
        0 <= i < g.len(),
    ensures
        total_records(g.update(i, entry)) + g[i].1.len() == total_records(g) + entry.1.len(),
    decreases g.len(),
{
    let u = g.update(i, entry);
    if i < g.len() - 1 {
        lemma_total_update(g.drop_last(), i, entry);
        assert(u.drop_last() =~= g.drop_last().update(i, entry));
    } else {
        assert(u.drop_last() =~= g.drop_last());
    }
}

proof fn lemma_add_record_counts(g: Batches, key: Seq<char>, rec: RecordData)
    ensures
        total_records(add_record(g, key, rec)) == total_records(g) + 1,
        table_names(add_record(g, key, rec)).to_set() == table_names(g).to_set().insert(key),
{
    let a = add_record(g, key, rec);
    if has_group(g, key) {
        let i = group_index(g, key);
        lemma_total_update(g, i, (key, g[i].1.push(rec)));
        assert(a == g.update(i, (key, g[i].1.push(rec))));
        assert(table_names(a) =~= table_names(g));
        assert(table_names(g)[i] == key);
        assert(table_names(g).to_set().contains(key));
        assert(table_names(g).to_set().insert(key) =~= table_names(g).to_set());
    } else {
        assert(a.drop_last() =~= g);
        assert(a.last().1.len() == 1);
        assert(total_records(a) == total_records(g) + 1);
        assert(table_names(a) =~= table_names(g).push(key));
        assert(table_names(a).to_set() =~= table_names(g).to_set().insert(key)) by {
            assert forall|x: Seq<char>| table_names(a).to_set().contains(x) <==> table_names(g).to_set().insert(key).contains(x) by {
                if table_names(a).to_set().contains(x) {
                    let j = choose|j: int| 0 <= j < table_names(a).len() && table_names(a)[j] == x;
                    if j < g.len() {
                        assert(table_names(g)[j] == x);
                    }
                }
                if table_names(g).to_set().contains(x) {
                    let j = choose|j: int| 0 <= j < table_names(g).len() && table_names(g)[j] == x;
                    assert(table_names(a)[j] == x);
                }
                if x == key {
                    assert(table_names(a)[g.len() as int] == key);
                }
            }
        }
    }
}

/// Grouping `N` metrics whose names take `K` distinct values yields exactly
/// `K` tables, and the tables' record lists hold `N` records together.
pub proof fn lemma_grouping_counts(ms: Seq<MetricData>, measure_name: Seq<char>, unit: TimeUnit)
    ensures
        grouped(ms, measure_name, unit).len() == metric_names(ms).len(),
        total_records(grouped(ms, measure_name, unit)) == ms.len(),
        table_names(grouped(ms, measure_name, unit)).to_set() == metric_names(ms),
    decreases ms.len(),
{
    let g = grouped(ms, measure_name, unit);
    if ms.len() == 0 {
        assert(table_names(g) =~= Seq::<Seq<char>>::empty());
        assert(ms.map_values(|m: MetricData| m.name) =~= Seq::<Seq<char>>::empty());
        assert(metric_names(ms) =~= Set::<Seq<char>>::empty());
    } else {
        let prev = ms.drop_last();
        lemma_grouping_counts(prev, measure_name, unit);
        lemma_add_record_counts(grouped(prev, measure_name, unit), ms.last().name,
            record_of(measure_name, ms.last(), unit));
        let names = ms.map_values(|m: MetricData| m.name);
        assert(names =~= prev.map_values(|m: MetricData| m.name).push(ms.last().name));
        assert(metric_names(ms) =~= metric_names(prev).insert(ms.last().name)) by {
            assert forall|x: Seq<char>| metric_names(ms).contains(x) <==> metric_names(prev).insert(ms.last().name).contains(x) by {
                let pn = prev.map_values(|m: MetricData| m.name);
                if metric_names(ms).contains(x) {
                    let j = choose|j: int| 0 <= j < names.len() && names[j] == x;
                    if j < prev.len() {
                        assert(pn[j] == x);
                    }
                }
                if metric_names(prev).contains(x) {
                    let j = choose|j: int| 0 <= j < pn.len() && pn[j] == x;
                    assert(names[j] == x);
                }
                if x == ms.last().name {
                    assert(names[ms.len() - 1] == x);
                }
            }
        }
    }
    lemma_grouped_unique(ms, measure_name, unit);
    assert(table_names(g).no_duplicates());
    table_names(g).unique_seq_to_set();
}

/// The schema that records are written under.
#[derive(Debug, Clone, PartialEq)]
pub enum SchemaType {
    /// One table per measurement, one multi-measure record per point, under
    /// the given measure name.
    MultiTableMultiMeasure(String),
}

impl SchemaType {
    /// The schema's measure name as text.
    pub fn to_text(&self) -> (r: String)
        ensures
            match self {
                SchemaType::MultiTableMultiMeasure(n) => r@ == n@,
            },
    {
        match self {
            SchemaType::MultiTableMultiMeasure(v) => v.clone(),
        }
    }
}

/// Whether a built batch map is the outcome `o`.
pub open spec fn outcome_matches(
    r: Result<Vec<(String, Vec<Record>)>, ConnectorError>,
    o: Result<Batches, ConnectorError>,
) -> bool {
    match o {
        Ok(b) => r is Ok && batches_view(r->Ok_0@) == b,
        Err(e) => r == Err::<Vec<(String, Vec<Record>)>, ConnectorError>(e),
    }
}

/// A way of turning metrics into per-table record lists.
pub trait BuildRecords {
    /// The outcome of building from a configuration and metrics.
    spec fn outcome(&self, env: Environment, ms: Seq<MetricData>, unit: TimeUnit) -> Result<Batches, ConnectorError>;

    /// Builds the per-table record lists of `metrics`.
    fn build_records(&self, env: &Environment, metrics: &[Metric], precision: &TimeUnit) -> (r: Result<
        Vec<(String, Vec<Record>)>,
        ConnectorError,
    >)
        ensures
            outcome_matches(r, self.outcome(*env, metric_seq_view(metrics@), *precision)),
    ;
}

/// The outcome of the multi-table, multi-measure schema under
/// `measure_name`: the configuration must validate and name a measure; then
/// the records are grouped by metric name.
pub open spec fn multi_measure_outcome(
    env: Environment,
    ms: Seq<MetricData>,
    measure_name: Seq<char>,
    unit: TimeUnit,
) -> Result<Batches, ConnectorError> {
    match validation_error(env) {
        Some(e) => Err(e),
        None => if unset(env, EnvVar::MeasureNameForMultiMeasureRecords) {
            Err(ConnectorError::MissingVariable(EnvVar::MeasureNameForMultiMeasureRecords))
        } else {
            Ok(grouped(ms, measure_name, unit))
        },
    }
}

/// The multi-table, multi-measure schema: one table per measurement name,
/// every record under one configured measure name.
#[derive(Debug, Clone, PartialEq)]
pub struct MultiTableMultiMeasureBuilder {
    pub measure_name: String,
}

impl BuildRecords for MultiTableMultiMeasureBuilder {
    open spec fn outcome(&self, env: Environment, ms: Seq<MetricData>, unit: TimeUnit) -> Result<Batches, ConnectorError> {
        multi_measure_outcome(env, ms, self.measure_name@, unit)
    }

    fn build_records(&self, env: &Environment, metrics: &[Metric], precision: &TimeUnit) -> (r: Result<
        Vec<(String, Vec<Record>)>,
        ConnectorError,
    >) {
        validate_env_variables(env)?;
        validate_multi_measure_env_variables(env)?;
        build_multi_measure_records(metrics, self.measure_name.as_str(), precision)
    }
}

/// The builder of a schema.
pub fn get_builder(schema: SchemaType) -> (r: MultiTableMultiMeasureBuilder)
    ensures
        match schema {
            SchemaType::MultiTableMultiMeasure(n) => r.measure_name@ == n@,
        },
{
    MultiTableMultiMeasureBuilder { measure_name: schema.to_text() }
}

/// Builds the per-table record lists of `metrics` with `records_builder`.
pub fn build_records<B: BuildRecords>(
    records_builder: &B,
    env: &Environment,
    metrics: &[Metric],
    precision: &TimeUnit,
) -> (r: Result<Vec<(String, Vec<Record>)>, ConnectorError>)
    ensures
        outcome_matches(r, records_builder.outcome(*env, metric_seq_view(metrics@), *precision)),
{
    records_builder.build_records(env, metrics, precision)
}

} // verus!
