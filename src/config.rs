//! Configuration values and their validation.
//!
//! The process's variables are read once into an [`Environment`]; every
//! rule here is a function of that snapshot.
use vstd::prelude::*;
use crate::error::ConnectorError;

verus! {

/// The configuration variables that the connector reads.
#[derive(Debug, Clone, Copy, PartialEq, Eq)]
pub enum EnvVar {
    Region,
    DatabaseName,
    EnableDatabaseCreation,
    EnableTableCreation,
    EnableMagStoreWrites,
    MagStoreRetentionPeriod,
    MemStoreRetentionPeriod,
    CustomPartitionKeyType,
    CustomPartitionKeyDimension,
    EnforceCustomPartitionKey,
    MeasureNameForMultiMeasureRecords,
}

/// The name of a variable in the process environment.
pub open spec fn var_name(v: EnvVar) -> Seq<char> {
    match v {
        EnvVar::Region => "region"@,
        EnvVar::DatabaseName => "database_name"@,
        EnvVar::EnableDatabaseCreation => "enable_database_creation"@,
        EnvVar::EnableTableCreation => "enable_table_creation"@,
        EnvVar::EnableMagStoreWrites => "enable_mag_store_writes"@,
        EnvVar::MagStoreRetentionPeriod => "mag_store_retention_period"@,
        EnvVar::MemStoreRetentionPeriod => "mem_store_retention_period"@,
        EnvVar::CustomPartitionKeyType => "custom_partition_key_type"@,
        EnvVar::CustomPartitionKeyDimension => "custom_partition_key_dimension"@,
        EnvVar::EnforceCustomPartitionKey => "enforce_custom_partition_key"@,
        EnvVar::MeasureNameForMultiMeasureRecords => "measure_name_for_multi_measure_records"@,
    }
}

impl EnvVar {
    /// The variable's name in the process environment.
    pub fn name(&self) -> (r: &'static str)
        ensures
            r@ == var_name(*self),
    {
        match self {
            EnvVar::Region => "region",
            EnvVar::DatabaseName => "database_name",
            EnvVar::EnableDatabaseCreation => "enable_database_creation",
            EnvVar::EnableTableCreation => "enable_table_creation",
            EnvVar::EnableMagStoreWrites => "enable_mag_store_writes",
            EnvVar::MagStoreRetentionPeriod => "mag_store_retention_period",
            EnvVar::MemStoreRetentionPeriod => "mem_store_retention_period",
            EnvVar::CustomPartitionKeyType => "custom_partition_key_type",
            EnvVar::CustomPartitionKeyDimension => "custom_partition_key_dimension",
            EnvVar::EnforceCustomPartitionKey => "enforce_custom_partition_key",
            EnvVar::MeasureNameForMultiMeasureRecords => "measure_name_for_multi_measure_records",
        }
    }
}

/// A snapshot of the configuration variables: each is set to a text or not set.
#[derive(Debug, Clone)]
pub struct Environment {
    region: Option<String>,
    database_name: Option<String>,
    enable_database_creation: Option<String>,
    enable_table_creation: Option<String>,
    enable_mag_store_writes: Option<String>,
    mag_store_retention_period: Option<String>,
    mem_store_retention_period: Option<String>,
    custom_partition_key_type: Option<String>,
    custom_partition_key_dimension: Option<String>,
    enforce_custom_partition_key: Option<String>,
    measure_name_for_multi_measure_records: Option<String>,
}

/// The view of an optional text.
pub open spec fn opt_view(o: Option<String>) -> Option<Seq<char>> {
    match o {
        Some(s) => Some(s@),
        None => None,
    }
}

impl Environment {
    /// The value of `v` in this snapshot.
    pub closed spec fn value(&self, v: EnvVar) -> Option<Seq<char>> {
        opt_view(
            match v {
                EnvVar::Region => self.region,
                EnvVar::DatabaseName => self.database_name,
                EnvVar::EnableDatabaseCreation => self.enable_database_creation,
                EnvVar::EnableTableCreation => self.enable_table_creation,
                EnvVar::EnableMagStoreWrites => self.enable_mag_store_writes,
                EnvVar::MagStoreRetentionPeriod => self.mag_store_retention_period,
                EnvVar::MemStoreRetentionPeriod => self.mem_store_retention_period,
                EnvVar::CustomPartitionKeyType => self.custom_partition_key_type,
                EnvVar::CustomPartitionKeyDimension => self.custom_partition_key_dimension,
                EnvVar::EnforceCustomPartitionKey => self.enforce_custom_partition_key,
                EnvVar::MeasureNameForMultiMeasureRecords => self.measure_name_for_multi_measure_records,
            },
        )
    }

    /// A snapshot in which no variable is set.
    pub fn new() -> (r: Self)
        ensures
            forall|v: EnvVar| r.value(v) is None,
    {
        Environment {
            region: None,
            database_name: None,
            enable_database_creation: None,
            enable_table_creation: None,
            enable_mag_store_writes: None,
            mag_store_retention_period: None,
            mem_store_retention_period: None,
            custom_partition_key_type: None,
            custom_partition_key_dimension: None,
            enforce_custom_partition_key: None,
            measure_name_for_multi_measure_records: None,
        }
    }

    /// Sets `var` to `value`, leaving the other variables as they were.
    pub fn set(&mut self, var: EnvVar, value: String)
        ensures
            forall|v: EnvVar| #[trigger] final(self).value(v) == if v == var {
                Some(value@)
            } else {
                old(self).value(v)
            },
    {
        let value = Some(value);
        match var {
            EnvVar::Region => self.region = value,
            EnvVar::DatabaseName => self.database_name = value,
            EnvVar::EnableDatabaseCreation => self.enable_database_creation = value,
            EnvVar::EnableTableCreation => self.enable_table_creation = value,
            EnvVar::EnableMagStoreWrites => self.enable_mag_store_writes = value,
            EnvVar::MagStoreRetentionPeriod => self.mag_store_retention_period = value,
            EnvVar::MemStoreRetentionPeriod => self.mem_store_retention_period = value,
            EnvVar::CustomPartitionKeyType => self.custom_partition_key_type = value,
            EnvVar::CustomPartitionKeyDimension => self.custom_partition_key_dimension = value,
            EnvVar::EnforceCustomPartitionKey => self.enforce_custom_partition_key = value,
            EnvVar::MeasureNameForMultiMeasureRecords => self.measure_name_for_multi_measure_records = value,
        }
    }

    /// The value of `var`.
    pub fn get(&self, var: EnvVar) -> (r: Option<String>)
        ensures
            opt_view(r) == self.value(var),
    {
        let v = match var {
            EnvVar::Region => &self.region,
            EnvVar::DatabaseName => &self.database_name,
            EnvVar::EnableDatabaseCreation => &self.enable_database_creation,
            EnvVar::EnableTableCreation => &self.enable_table_creation,
            EnvVar::EnableMagStoreWrites => &self.enable_mag_store_writes,
            EnvVar::MagStoreRetentionPeriod => &self.mag_store_retention_period,
            EnvVar::MemStoreRetentionPeriod => &self.mem_store_retention_period,
            EnvVar::CustomPartitionKeyType => &self.custom_partition_key_type,
            EnvVar::CustomPartitionKeyDimension => &self.custom_partition_key_dimension,
            EnvVar::EnforceCustomPartitionKey => &self.enforce_custom_partition_key,
            EnvVar::MeasureNameForMultiMeasureRecords => &self.measure_name_for_multi_measure_records,
        };
        match v {
            Some(s) => Some(s.clone()),
            None => None,
        }
    }
}

/// Whether a text counts as true: `true`, `t` or `1`, exactly.
pub open spec fn is_true_text(s: Seq<char>) -> bool {
    s == "true"@ || s == "t"@ || s == "1"@
}

/// Whether a text counts as false: `false`, `f` or `0`, exactly.
pub open spec fn is_false_text(s: Seq<char>) -> bool {
    s == "false"@ || s == "f"@ || s == "0"@
}

/// Whether `a` and `b` hold the same characters.
pub(crate) fn same_text(a: &String, b: &str) -> (r: bool)
    ensures
        r == (a@ == b@),
{
    let owned = b.to_owned();
    a.eq(&owned)
}

/// Reads a configuration text as a boolean: `true`, `t` and `1` are true,
/// anything else is false.
pub fn env_var_to_bool(env_var: String) -> (r: bool)
    ensures
        r == is_true_text(env_var@),
{
    same_text(&env_var, "true") || same_text(&env_var, "t") || same_text(&env_var, "1")
}

/// Whether the snapshot has no value for `v`.
pub open spec fn unset(env: Environment, v: EnvVar) -> bool {
    env.value(v) is None
}

/// Whether table creation is switched on in the snapshot.
pub open spec fn table_creation_on(env: Environment) -> bool {
    env.value(EnvVar::EnableTableCreation) matches Some(t) && is_true_text(t)
}

/// The error of validating a snapshot, checked in this order: region,
/// database name and both creation switches must be set; with table
/// creation on, the magnetic-store switch and both retention periods too;
/// a custom partition key type must be `dimension` or `measure`, and
/// `dimension` needs a dimension name and an enforcement value.
pub open spec fn validation_error(env: Environment) -> Option<ConnectorError> {
    let key_type = env.value(EnvVar::CustomPartitionKeyType);
    if unset(env, EnvVar::Region) {
        Some(ConnectorError::MissingVariable(EnvVar::Region))
    } else if unset(env, EnvVar::DatabaseName) {
        Some(ConnectorError::MissingVariable(EnvVar::DatabaseName))
    } else if unset(env, EnvVar::EnableDatabaseCreation) {
        Some(ConnectorError::MissingVariable(EnvVar::EnableDatabaseCreation))
    } else if unset(env, EnvVar::EnableTableCreation) {
        Some(ConnectorError::MissingVariable(EnvVar::EnableTableCreation))
    } else if table_creation_on(env) && unset(env, EnvVar::EnableMagStoreWrites) {
        Some(ConnectorError::MissingVariable(EnvVar::EnableMagStoreWrites))
    } else if table_creation_on(env) && unset(env, EnvVar::MagStoreRetentionPeriod) {
        Some(ConnectorError::MissingVariable(EnvVar::MagStoreRetentionPeriod))
    } else if table_creation_on(env) && unset(env, EnvVar::MemStoreRetentionPeriod) {
        Some(ConnectorError::MissingVariable(EnvVar::MemStoreRetentionPeriod))
    } else if key_type matches Some(t) && t != "dimension"@ && t != "measure"@ {
        Some(ConnectorError::InvalidPartitionKeyType)
    } else if key_type == Some("dimension"@) && unset(env, EnvVar::CustomPartitionKeyDimension) {
        Some(ConnectorError::MissingVariable(EnvVar::CustomPartitionKeyDimension))
    } else if key_type == Some("dimension"@) && unset(env, EnvVar::EnforceCustomPartitionKey) {
        Some(ConnectorError::MissingVariable(EnvVar::EnforceCustomPartitionKey))
    } else {
        None
    }
}

/// The error for an unset variable, or the variable's value.
fn required(env: &Environment, var: EnvVar) -> (r: Result<String, ConnectorError>)
    ensures
        match env.value(var) {
            Some(t) => r is Ok && r->Ok_0@ == t,
            None => r == Err::<String, ConnectorError>(ConnectorError::MissingVariable(var)),
        },
{
    match env.get(var) {
        Some(s) => Ok(s),
        None => Err(ConnectorError::MissingVariable(var)),
    }
}

/// Checks that the snapshot holds what every schema needs; see
/// [`validation_error`] for the rules and their order.
pub fn validate_env_variables(env: &Environment) -> (r: Result<(), ConnectorError>)
    ensures
        match validation_error(*env) {
            Some(e) => r == Err::<(), ConnectorError>(e),
            None => r == Ok::<(), ConnectorError>(()),
        },
{
    required(env, EnvVar::Region)?;
    required(env, EnvVar::DatabaseName)?;
    required(env, EnvVar::EnableDatabaseCreation)?;
    let enable_table_creation = required(env, EnvVar::EnableTableCreation)?;
    if env_var_to_bool(enable_table_creation) {
        required(env, EnvVar::EnableMagStoreWrites)?;
        required(env, EnvVar::MagStoreRetentionPeriod)?;
        required(env, EnvVar::MemStoreRetentionPeriod)?;
    }
    if let Some(custom_partition_key_type) = env.get(EnvVar::CustomPartitionKeyType) {
        let is_dimension = same_text(&custom_partition_key_type, "dimension");
        if !is_dimension && !same_text(&custom_partition_key_type, "measure") {
            return Err(ConnectorError::InvalidPartitionKeyType);
        }
        if is_dimension {
            required(env, EnvVar::CustomPartitionKeyDimension)?;
            required(env, EnvVar::EnforceCustomPartitionKey)?;
        }
    }
    Ok(())
}

/// Checks that the measure name of multi-measure records is set.
pub fn validate_multi_measure_env_variables(env: &Environment) -> (r: Result<(), ConnectorError>)
    ensures
        unset(*env, EnvVar::MeasureNameForMultiMeasureRecords) ==> r
            == Err::<(), ConnectorError>(ConnectorError::MissingVariable(EnvVar::MeasureNameForMultiMeasureRecords)),
        !unset(*env, EnvVar::MeasureNameForMultiMeasureRecords) ==> r == Ok::<(), ConnectorError>(()),
{
    required(env, EnvVar::MeasureNameForMultiMeasureRecords)?;
    Ok(())
}

/// Whether table creation is switched on; an error where the switch is unset.
pub fn table_creation_enabled(env: &Environment) -> (r: Result<bool, ConnectorError>)
    ensures
        match env.value(EnvVar::EnableTableCreation) {
            Some(t) => r == Ok::<bool, ConnectorError>(is_true_text(t)),
            None => r == Err::<bool, ConnectorError>(ConnectorError::MissingVariable(EnvVar::EnableTableCreation)),
        },
{
    let enabled = required(env, EnvVar::EnableTableCreation)?;
    Ok(env_var_to_bool(enabled))
}

/// Whether database creation is switched on; an error where the switch is unset.
pub fn database_creation_enabled(env: &Environment) -> (r: Result<bool, ConnectorError>)
    ensures
        match env.value(EnvVar::EnableDatabaseCreation) {
            Some(t) => r == Ok::<bool, ConnectorError>(is_true_text(t)),
            None => r == Err::<bool, ConnectorError>(ConnectorError::MissingVariable(EnvVar::EnableDatabaseCreation)),
        },
{
    let enabled = required(env, EnvVar::EnableDatabaseCreation)?;
    Ok(env_var_to_bool(enabled))
}

/// The kind of a custom partition key.
#[derive(Debug, Clone, Copy, PartialEq, Eq)]
pub enum PartitionKeyType {
    Dimension,
    Measure,
}

/// Whether every record must carry the partition key's dimension.
#[derive(Debug, Clone, Copy, PartialEq, Eq)]
pub enum PartitionKeyEnforcementLevel {
    Required,
    Optional,
}

/// The properties of a table created on demand.
#[derive(Debug, Clone, PartialEq)]
pub struct TableConfig {
    pub mag_store_retention_period: i64,
    pub mem_store_retention_period: i64,
    pub enable_mag_store_writes: bool,
    pub enforce_custom_partition_key: Option<PartitionKeyEnforcementLevel>,
    pub custom_partition_key_type: Option<PartitionKeyType>,
    pub custom_partition_key_dimension: Option<String>,
}

/// What `str::to_lowercase` makes of a text.
pub uninterp spec fn lower_of(s: Seq<char>) -> Seq<char>;

/// Relies on `str::to_lowercase`: the lowercase form of each character, in
/// order; the result depends on the text alone.
#[verifier::external_body]
fn lowercase(s: &str) -> (r: String)
    ensures
        r@ == lower_of(s@),
{
    s.to_lowercase()
}

/// The value of an ASCII decimal digit.
pub open spec fn digit_of(c: char) -> Option<nat> {
    if c == '0' {
        Some(0)
    } else if c == '1' {
        Some(1)
    } else if c == '2' {
        Some(2)
    } else if c == '3' {
        Some(3)
    } else if c == '4' {
        Some(4)
    } else if c == '5' {
        Some(5)
    } else if c == '6' {
        Some(6)
    } else if c == '7' {
        Some(7)
    } else if c == '8' {
        Some(8)
    } else if c == '9' {
        Some(9)
    } else {
        None
    }
}

/// The value of a non-empty run of ASCII decimal digits.
pub open spec fn digits_value(s: Seq<char>) -> Option<nat>
    decreases s.len(),
{
    if s.len() == 0 {
        None
    } else if s.len() == 1 {
        digit_of(s[0])
    } else {
        match (digits_value(s.drop_last()), digit_of(s.last())) {
            (Some(a), Some(d)) => Some(a * 10 + d),
            _ => None,
        }
    }
}

/// The value of a decimal integer text: digits with an optional leading
/// `+` or `-`.
pub open spec fn integer_value(s: Seq<char>) -> Option<int> {
    if s.len() > 0 && s[0] == '-' {
        match digits_value(s.drop_first()) {
            Some(v) => Some(-v),
            None => None,
        }
    } else if s.len() > 0 && s[0] == '+' {
        match digits_value(s.drop_first()) {
            Some(v) => Some(v as int),
            None => None,
        }
    } else {
        match digits_value(s) {
            Some(v) => Some(v as int),
            None => None,
        }
    }
}

/// The `i64` that a text holds, where it holds one in range.
pub open spec fn i64_of(s: Seq<char>) -> Option<i64> {
    match integer_value(s) {
        Some(v) => if i64::MIN <= v <= i64::MAX {
            Some(v as i64)
        } else {
            None
        },
        None => None,
    }
}

/// Relies on `<i64 as FromStr>::from_str`: an optional `+` or `-` followed
/// by one or more ASCII digits, whose value fits; anything else fails.
#[verifier::external_body]
fn parse_i64(s: &str) -> (r: Option<i64>)
    ensures
        r == i64_of(s@),
{
    s.parse::<i64>().ok()
}

/// The partition key type that the snapshot configures: its value,
/// lowercased, names one of the two types.
pub open spec fn key_type_of(env: Environment) -> Option<PartitionKeyType> {
    match env.value(EnvVar::CustomPartitionKeyType) {
        Some(t) => if lower_of(t) == "dimension"@ {
            Some(PartitionKeyType::Dimension)
        } else if lower_of(t) == "measure"@ {
            Some(PartitionKeyType::Measure)
        } else {
            None
        },
        None => None,
    }
}

/// The error of building a table configuration, checked in this order:
/// for a dimension key, the enforcement value and the dimension name; then
/// both retention periods, set and integers, and the magnetic-store switch.
pub open spec fn table_config_error(env: Environment) -> Option<ConnectorError> {
    let dim = key_type_of(env) == Some(PartitionKeyType::Dimension);
    if dim && unset(env, EnvVar::EnforceCustomPartitionKey) {
        Some(ConnectorError::MissingVariable(EnvVar::EnforceCustomPartitionKey))
    } else if dim && unset(env, EnvVar::CustomPartitionKeyDimension) {
        Some(ConnectorError::MissingVariable(EnvVar::CustomPartitionKeyDimension))
    } else if unset(env, EnvVar::MagStoreRetentionPeriod) {
        Some(ConnectorError::MissingVariable(EnvVar::MagStoreRetentionPeriod))
    } else if i64_of(env.value(EnvVar::MagStoreRetentionPeriod)->Some_0) is None {
        Some(ConnectorError::InvalidNumber(EnvVar::MagStoreRetentionPeriod))
    } else if unset(env, EnvVar::MemStoreRetentionPeriod) {
        Some(ConnectorError::MissingVariable(EnvVar::MemStoreRetentionPeriod))
    } else if i64_of(env.value(EnvVar::MemStoreRetentionPeriod)->Some_0) is None {
        Some(ConnectorError::InvalidNumber(EnvVar::MemStoreRetentionPeriod))
    } else if unset(env, EnvVar::EnableMagStoreWrites) {
        Some(ConnectorError::MissingVariable(EnvVar::EnableMagStoreWrites))
    } else {
        None
    }
}

/// Whether `c` is the configuration that a valid snapshot describes: the
/// retention periods' integers, the lowercased magnetic-store switch read as
/// a boolean, and for a dimension key its name and the lowercased enforcement
/// value (`true`/`t`/`1` required, `false`/`f`/`0` optional, else none).
pub open spec fn describes(c: TableConfig, env: Environment) -> bool {
    let dim = key_type_of(env) == Some(PartitionKeyType::Dimension);
    &&& c.mag_store_retention_period == i64_of(env.value(EnvVar::MagStoreRetentionPeriod)->Some_0)->Some_0
    &&& c.mem_store_retention_period == i64_of(env.value(EnvVar::MemStoreRetentionPeriod)->Some_0)->Some_0
    &&& c.enable_mag_store_writes == is_true_text(lower_of(env.value(EnvVar::EnableMagStoreWrites)->Some_0))
    &&& c.custom_partition_key_type == key_type_of(env)
    &&& opt_view(c.custom_partition_key_dimension) == (if dim {
        env.value(EnvVar::CustomPartitionKeyDimension)
    } else {
        None
    })
    &&& c.enforce_custom_partition_key == (if dim {
        let e = lower_of(env.value(EnvVar::EnforceCustomPartitionKey)->Some_0);
        if is_true_text(e) {
            Some(PartitionKeyEnforcementLevel::Required)
        } else if is_false_text(e) {
            Some(PartitionKeyEnforcementLevel::Optional)
        } else {
            None
        }
    } else {
        None
    })
}

/// An integer variable, or the error for it being unset or not an integer.
fn required_i64(env: &Environment, var: EnvVar) -> (r: Result<i64, ConnectorError>)
    ensures
        match env.value(var) {
            Some(t) => match i64_of(t) {
                Some(v) => r == Ok::<i64, ConnectorError>(v),
                None => r == Err::<i64, ConnectorError>(ConnectorError::InvalidNumber(var)),
            },
            None => r == Err::<i64, ConnectorError>(ConnectorError::MissingVariable(var)),
        },
{
    let text = required(env, var)?;
    match parse_i64(text.as_str()) {
        Some(v) => Ok(v),
        None => Err(ConnectorError::InvalidNumber(var)),
    }
}

/// Builds the properties of tables created on demand from the snapshot;
/// see [`table_config_error`] and [`describes`].
pub fn get_table_config(env: &Environment) -> (r: Result<TableConfig, ConnectorError>)
    ensures
        match table_config_error(*env) {
            Some(e) => r == Err::<TableConfig, ConnectorError>(e),
            None => r is Ok && describes(r->Ok_0, *env),
        },
{
    let custom_partition_key_type = match env.get(EnvVar::CustomPartitionKeyType) {
        Some(value) => {
            let lowered = lowercase(value.as_str());
            if same_text(&lowered, "dimension") {
                Some(PartitionKeyType::Dimension)
            } else if same_text(&lowered, "measure") {
                Some(PartitionKeyType::Measure)
            } else {
                None
            }
        },
        None => None,
    };
    let is_dimension = match custom_partition_key_type {
        Some(PartitionKeyType::Dimension) => true,
        _ => false,
    };
    let enforce_custom_partition_key = if is_dimension {
        let enforce = lowercase(required(env, EnvVar::EnforceCustomPartitionKey)?.as_str());
        if same_text(&enforce, "true") || same_text(&enforce, "t") || same_text(&enforce, "1") {
            Some(PartitionKeyEnforcementLevel::Required)
        } else if same_text(&enforce, "false") || same_text(&enforce, "f") || same_text(&enforce, "0") {
            Some(PartitionKeyEnforcementLevel::Optional)
        } else {
            None
        }
    } else {
        None
    };
    let custom_partition_key_dimension = if is_dimension {
        Some(required(env, EnvVar::CustomPartitionKeyDimension)?)
    } else {
        None
    };
    let mag_store_retention_period = required_i64(env, EnvVar::MagStoreRetentionPeriod)?;
    let mem_store_retention_period = required_i64(env, EnvVar::MemStoreRetentionPeriod)?;
    let mag_writes = lowercase(required(env, EnvVar::EnableMagStoreWrites)?.as_str());
    let enable_mag_store_writes = same_text(&mag_writes, "true") || same_text(&mag_writes, "t")
        || same_text(&mag_writes, "1");
    Ok(TableConfig {
        mag_store_retention_period,
        mem_store_retention_period,
        enable_mag_store_writes,
        enforce_custom_partition_key,
        custom_partition_key_type,
        custom_partition_key_dimension,
    })
}

} // verus!
