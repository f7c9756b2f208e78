//! The validated run configuration: its record type, the parse of TOML text
//! into it, and the accessors that resolve the optional flags.

use vstd::prelude::*;

use crate::error::ConfigError;
use crate::toml_data::array_payload;
use crate::toml_data::boolean_payload;
use crate::toml_data::integer_payload;
use crate::toml_data::parse_error_message;
use crate::toml_data::parse_toml;
use crate::toml_data::table_entries;
use crate::toml_data::table_get;
use crate::toml_data::toml_table_of;
use crate::toml_data::value_as_array;
use crate::toml_data::value_as_bool;
use crate::toml_data::value_as_integer;

verus! {

/// The value a parsed table holds under a key, if the key is present.
pub open spec fn entry_of(t: toml::Table, key: Seq<char>) -> Option<toml::Value> {
    if table_entries(t).dom().contains(key) {
        Some(table_entries(t)[key])
    } else {
        None
    }
}

/// A required non-negative integer field: present, an integer, and in the
/// range of `usize`.
pub open spec fn usize_field(t: toml::Table, key: Seq<char>) -> Option<usize> {
    match entry_of(t, key) {
        Some(v) => match integer_payload(v) {
            Some(n) => if 0 <= n <= usize::MAX {
                Some(n as usize)
            } else {
                None
            },
            None => None,
        },
        None => None,
    }
}

/// Whether a TOML value is an integer in the range of `u32`.
pub open spec fn is_u32(v: toml::Value) -> bool {
    match integer_payload(v) {
        Some(n) => 0 <= n <= u32::MAX,
        None => false,
    }
}

/// The `u32` payload of a TOML value.
pub open spec fn u32_of(v: toml::Value) -> u32
    recommends
        is_u32(v),
{
    (match integer_payload(v) {
        Some(n) => n,
        None => 0,
    }) as u32
}

/// One row of test-case data: an array whose elements are all integers in
/// the range of `u32`.
pub open spec fn row_of(v: toml::Value) -> Option<Seq<u32>> {
    match array_payload(v) {
        Some(elems) => if forall|i: int| 0 <= i < elems.len() ==> is_u32(#[trigger] elems[i]) {
            Some(Seq::new(elems.len(), |i: int| u32_of(elems[i])))
        } else {
            None
        },
        None => None,
    }
}

/// A required matrix field: present, an array, and every element a row.
pub open spec fn matrix_field(t: toml::Table, key: Seq<char>) -> Option<Seq<Seq<u32>>> {
    match entry_of(t, key) {
        Some(v) => match array_payload(v) {
            Some(rows) => if forall|i: int|
                0 <= i < rows.len() ==> (#[trigger] row_of(rows[i])) is Some {
                Some(Seq::new(rows.len(), |i: int| row_of(rows[i]).unwrap()))
            } else {
                None
            },
            None => None,
        },
        None => None,
    }
}

/// An optional boolean field. `Some(None)` where the key is absent (the flag
/// was simply not set), `Some(Some(b))` where it is a boolean, and `None`
/// where it is present but not a boolean — a malformed file.
pub open spec fn flag_field(t: toml::Table, key: Seq<char>) -> Option<Option<bool>> {
    match entry_of(t, key) {
        None => Some(None),
        Some(v) => match boolean_payload(v) {
            Some(b) => Some(Some(b)),
            None => None,
        },
    }
}

/// One fully-resolved run configuration.
///
/// The two flag fields keep a faithful record of whether the flag was set
/// explicitly in the file; the effective boolean values come from
/// [`Configuration::is_legacy`] and [`Configuration::is_free_mut`].
#[derive(Debug)]
pub struct Configuration {
    pub mutations_per_generation: usize,
    pub initial_program_length: usize,
    pub max_runtime: usize,
    pub population_size: usize,
    pub targets: Vec<Vec<u32>>,
    pub inputs: Vec<Vec<u32>>,
    pub legacy: Option<bool>,
    pub free_mut: Option<bool>,
}

impl Configuration {
    /// The `legacy` flag as it was written in the file, if it was written.
    pub open spec fn legacy_setting(self) -> Option<bool> {
        self.legacy
    }

    /// The `free_mut` flag as it was written in the file, if it was written.
    pub open spec fn free_mut_setting(self) -> Option<bool> {
        self.free_mut
    }

    /// The effective value of an optional boolean flag: absent means `false`.
    pub open spec fn effective(setting: Option<bool>) -> bool {
        match setting {
            Some(b) => b,
            None => false,
        }
    }

    /// Whether the configuration asks for legacy mode; `false` by default.
    pub fn is_legacy(&self) -> (r: bool)
        ensures
            r == Self::effective(self.legacy_setting()),
    {
        if let Some(l) = self.legacy {
            l
        } else {
            false
        }
    }

    /// Whether the configuration asks for free_mut mode; `false` by default.
    pub fn is_free_mut(&self) -> (r: bool)
        ensures
            r == Self::effective(self.free_mut_setting()),
    {
        if let Some(l) = self.free_mut {
            l
        } else {
            false
        }
    }

    /// The length-parity invariant: every loaded configuration has as many
    /// inputs as targets.
    pub open spec fn wf(self) -> bool {
        self.inputs@.len() == self.targets@.len()
    }
}

/// Whether a configuration record carries exactly the values the parsed
/// table holds, field for field.
pub open spec fn matches_table(c: Configuration, t: toml::Table) -> bool {
    &&& usize_field(t, "mutations_per_generation"@) == Some(c.mutations_per_generation)
    &&& usize_field(t, "initial_program_length"@) == Some(c.initial_program_length)
    &&& usize_field(t, "max_runtime"@) == Some(c.max_runtime)
    &&& usize_field(t, "population_size"@) == Some(c.population_size)
    &&& matrix_field(t, "targets"@) == Some(c.targets.deep_view())
    &&& matrix_field(t, "inputs"@) == Some(c.inputs.deep_view())
    &&& flag_field(t, "legacy"@) == Some(c.legacy_setting())
    &&& flag_field(t, "free_mut"@) == Some(c.free_mut_setting())
}

/// Whether a parsed table has every field the configuration shape requires,
/// with the required type and range.
pub open spec fn well_typed(t: toml::Table) -> bool {
    &&& usize_field(t, "mutations_per_generation"@) is Some
    &&& usize_field(t, "initial_program_length"@) is Some
    &&& usize_field(t, "max_runtime"@) is Some
    &&& usize_field(t, "population_size"@) is Some
    &&& matrix_field(t, "targets"@) is Some
    &&& matrix_field(t, "inputs"@) is Some
    &&& flag_field(t, "legacy"@) is Some
    &&& flag_field(t, "free_mut"@) is Some
}

fn get_usize_field(t: &toml::Table, key: &str) -> (r: Option<usize>)
    ensures
        r == usize_field(*t, key@),
{
    match table_get(t, key) {
        None => None,
        Some(v) => match value_as_integer(v) {
            None => None,
            Some(n) => if n >= 0 && n as u64 <= usize::MAX as u64 {
                Some(n as usize)
            } else {
                None
            },
        },
    }
}

fn get_flag_field(t: &toml::Table, key: &str) -> (r: Option<Option<bool>>)
    ensures
        r == flag_field(*t, key@),
{
    match table_get(t, key) {
        None => Some(None),
        Some(v) => match value_as_bool(v) {
            Some(b) => Some(Some(b)),
            None => None,
        },
    }
}

fn get_row(v: &toml::Value) -> (r: Option<Vec<u32>>)
    ensures
        match r {
            Some(row) => row_of(*v) == Some(row@),
            None => row_of(*v) is None,
        },
{
    let elems = match value_as_array(v) {
        Some(a) => a,
        None => {
            return None;
        },
    };
    let mut out: Vec<u32> = Vec::new();
    let mut i: usize = 0;
    while i < elems.len()
        invariant
            array_payload(*v) == Some(elems@),
            i <= elems@.len(),
            forall|j: int| 0 <= j < i ==> is_u32(#[trigger] elems@[j]),
            out@ =~= Seq::new(i as nat, |j: int| u32_of(elems@[j])),
        decreases elems@.len() - i,
    {
        let n = match value_as_integer(&elems[i]) {
            Some(n) => n,
            None => {
                return None;
            },
        };
        if n < 0 || n > u32::MAX as i64 {
            return None;
        }
        out.push(n as u32);
        i += 1;
    }
    Some(out)
}

fn get_matrix_field(t: &toml::Table, key: &str) -> (r: Option<Vec<Vec<u32>>>)
    ensures
        match r {
            Some(m) => matrix_field(*t, key@) == Some(m.deep_view()),
            None => matrix_field(*t, key@) is None,
        },
{
    let entry = match table_get(t, key) {
        Some(v) => v,
        None => {
            return None;
        },
    };
    let rows = match value_as_array(entry) {
        Some(a) => a,
        None => {
            return None;
        },
    };
    let mut out: Vec<Vec<u32>> = Vec::new();
    let mut i: usize = 0;
    while i < rows.len()
        invariant
            entry_of(*t, key@) == Some(*entry),
            array_payload(*entry) == Some(rows@),
            i <= rows@.len(),
            out@.len() == i,
            forall|j: int|
                0 <= j < i ==> (#[trigger] row_of(rows@[j])) is Some && out@[j]@ == row_of(
                    rows@[j],
                ).unwrap(),
        decreases rows@.len() - i,
    {
        let row = match get_row(&rows[i]) {
            Some(row) => row,
            None => {
                return None;
            },
        };
        out.push(row);
        i += 1;
    }
    proof {
        assert forall|j: int| 0 <= j < rows@.len() implies #[trigger] out.deep_view()[j] == row_of(
            rows@[j],
        ).unwrap() by {
            assert(out@[j].deep_view() =~= out@[j]@);
        }
        assert(out.deep_view() =~= Seq::new(rows@.len(), |j: int| row_of(rows@[j]).unwrap()));
        assert(matrix_field(*t, key@) == Some(out.deep_view()));
    }
    Some(out)
}

/// Parses configuration text into a validated record.
///
/// Returns the record exactly as the text gives it when the text is
/// well-formed and the outer lengths of `inputs` and `targets` agree; a
/// parse error when the text is not well-formed TOML or a field is missing,
/// ill-typed or out of range; and a validation error carrying both observed
/// lengths when only the length parity fails.
pub fn parse_config(text: &str) -> (r: Result<Configuration, ConfigError>)
    ensures
        match r {
            Ok(c) => {
                &&& toml_table_of(text@) is Some
                &&& matches_table(c, toml_table_of(text@).unwrap())
                &&& c.wf()
            },
            Err(e) => match e {
                ConfigError::Parse(_) => toml_table_of(text@) is None || !well_typed(
                    toml_table_of(text@).unwrap(),
                ),
                ConfigError::Validation { n_inputs, n_targets } => {
                    &&& toml_table_of(text@) is Some
                    &&& well_typed(toml_table_of(text@).unwrap())
                    &&& matrix_field(toml_table_of(text@).unwrap(), "inputs"@).unwrap().len()
                        == n_inputs
                    &&& matrix_field(toml_table_of(text@).unwrap(), "targets"@).unwrap().len()
                        == n_targets
                    &&& n_inputs != n_targets
                },
                ConfigError::Io(_) => false,
            },
        },
{
    let table = match parse_toml(text) {
        Ok(t) => t,
        Err(e) => {
            return Err(ConfigError::Parse(parse_error_message(&e)));
        },
    };
    let mutations_per_generation = match get_usize_field(&table, "mutations_per_generation") {
        Some(n) => n,
        None => {
            return Err(ConfigError::Parse(missing_field_message("mutations_per_generation")));
        },
    };
    let initial_program_length = match get_usize_field(&table, "initial_program_length") {
        Some(n) => n,
        None => {
            return Err(ConfigError::Parse(missing_field_message("initial_program_length")));
        },
    };
    let max_runtime = match get_usize_field(&table, "max_runtime") {
        Some(n) => n,
        None => {
            return Err(ConfigError::Parse(missing_field_message("max_runtime")));
        },
    };
    let population_size = match get_usize_field(&table, "population_size") {
        Some(n) => n,
        None => {
            return Err(ConfigError::Parse(missing_field_message("population_size")));
        },
    };
    let targets = match get_matrix_field(&table, "targets") {
        Some(m) => m,
        None => {
            return Err(ConfigError::Parse(missing_field_message("targets")));
        },
    };
    let inputs = match get_matrix_field(&table, "inputs") {
        Some(m) => m,
        None => {
            return Err(ConfigError::Parse(missing_field_message("inputs")));
        },
    };
    let legacy = match get_flag_field(&table, "legacy") {
        Some(setting) => setting,
        None => {
            return Err(ConfigError::Parse(missing_field_message("legacy")));
        },
    };
    let free_mut = match get_flag_field(&table, "free_mut") {
        Some(setting) => setting,
        None => {
            return Err(ConfigError::Parse(missing_field_message("free_mut")));
        },
    };
    if inputs.len() != targets.len() {
        return Err(ConfigError::Validation { n_inputs: inputs.len(), n_targets: targets.len() });
    }
    Ok(
        Configuration {
            mutations_per_generation,
            initial_program_length,
            max_runtime,
            population_size,
            targets,
            inputs,
            legacy,
            free_mut,
        },
    )
}

/// A diagnostic for a required field that is absent, ill-typed or out of
/// range.
fn missing_field_message(key: &str) -> String {
    String::from_str("missing or ill-typed field: ").concat(key)
}

/// Default resolution of the optional flags: a configuration whose table has
/// no `legacy` (or `free_mut`) entry resolves that flag to `false`, and one
/// whose table sets it to a boolean resolves it to exactly that value.
pub proof fn lemma_flag_resolution(t: toml::Table, c: Configuration)
    requires
        matches_table(c, t),
    ensures
        !table_entries(t).dom().contains("legacy"@) ==> !Configuration::effective(
            c.legacy_setting(),
        ),
        !table_entries(t).dom().contains("free_mut"@) ==> !Configuration::effective(
            c.free_mut_setting(),
        ),
        entry_of(t, "legacy"@) matches Some(v) ==> boolean_payload(v) matches Some(b)
            ==> Configuration::effective(c.legacy_setting()) == b,
        entry_of(t, "free_mut"@) matches Some(v) ==> boolean_payload(v) matches Some(b)
            ==> Configuration::effective(c.free_mut_setting()) == b,
{
}

} // verus!
