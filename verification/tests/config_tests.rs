use gp_config::decimal::to_decimal;
use gp_config::parse_config;
use gp_config::ConfigError;
use gp_config::Configuration;

const BASE: &str = "mutations_per_generation = 5\n\
initial_program_length = 10\n\
max_runtime = 1000\n\
population_size = 50\n\
targets = [[1, 2]]\n\
inputs = [[3, 4]]\n";

#[test]
fn scenario_basic_load_with_defaults() {
    let c = parse_config(BASE).unwrap();
    assert_eq!(c.mutations_per_generation, 5);
    assert_eq!(c.initial_program_length, 10);
    assert_eq!(c.max_runtime, 1000);
    assert_eq!(c.population_size, 50);
    assert_eq!(c.targets, vec![vec![1, 2]]);
    assert_eq!(c.inputs, vec![vec![3, 4]]);
    assert!(!c.is_legacy());
    assert!(!c.is_free_mut());
}

#[test]
fn scenario_legacy_set_true() {
    let text = format!("{}legacy = true\n", BASE);
    let c = parse_config(&text).unwrap();
    assert!(c.is_legacy());
    assert!(!c.is_free_mut());
}

#[test]
fn flags_present_return_given_values() {
    let text = format!("{}legacy = false\nfree_mut = true\n", BASE);
    let c = parse_config(&text).unwrap();
    assert!(!c.is_legacy());
    assert!(c.is_free_mut());
    assert_eq!(c.legacy, Some(false));
    assert_eq!(c.free_mut, Some(true));
}

#[test]
fn flags_absent_are_recorded_as_unset() {
    let c = parse_config(BASE).unwrap();
    assert_eq!(c.legacy, None);
    assert_eq!(c.free_mut, None);
}

#[test]
fn scenario_length_mismatch_states_both_lengths() {
    let text = "mutations_per_generation = 5\n\
initial_program_length = 10\n\
max_runtime = 1000\n\
population_size = 50\n\
targets = [[1, 2], [3, 4]]\n\
inputs = [[3, 4]]\n";
    let e = parse_config(text).unwrap_err();
    assert!(matches!(e, ConfigError::Validation { n_inputs: 1, n_targets: 2 }));
    let m = e.message();
    assert!(m.contains("1"));
    assert!(m.contains("2"));
}

#[test]
fn validation_message_exact_text() {
    let e = ConfigError::Validation { n_inputs: 1, n_targets: 2 };
    assert_eq!(
        e.message(),
        "Invalid configuration; number of inputs and outputs should match, \
but there are 1 inputs and 2 outputs."
    );
}

#[test]
fn missing_required_field_is_a_parse_error() {
    let text = "mutations_per_generation = 5\n\
initial_program_length = 10\n\
max_runtime = 1000\n\
targets = [[1, 2]]\n\
inputs = [[3, 4]]\n";
    let e = parse_config(text).unwrap_err();
    assert!(matches!(e, ConfigError::Parse(_)));
    assert!(e.message().contains("population_size"));
}

#[test]
fn malformed_syntax_is_a_parse_error() {
    let e = parse_config("this is = = not toml").unwrap_err();
    assert!(matches!(e, ConfigError::Parse(_)));
}

#[test]
fn empty_text_is_a_parse_error() {
    let e = parse_config("").unwrap_err();
    assert!(matches!(e, ConfigError::Parse(_)));
}

#[test]
fn wrong_field_type_is_a_parse_error() {
    let text = BASE.replace("population_size = 50", "population_size = \"fifty\"");
    let e = parse_config(&text).unwrap_err();
    assert!(matches!(e, ConfigError::Parse(_)));
}

#[test]
fn non_boolean_flag_is_a_parse_error() {
    let text = format!("{}legacy = 5\n", BASE);
    let e = parse_config(&text).unwrap_err();
    assert!(matches!(e, ConfigError::Parse(_)));
}

#[test]
fn negative_parameter_is_a_parse_error() {
    let text = BASE.replace("max_runtime = 1000", "max_runtime = -1");
    let e = parse_config(&text).unwrap_err();
    assert!(matches!(e, ConfigError::Parse(_)));
}

#[test]
fn matrix_element_above_u32_is_a_parse_error() {
    let text = BASE.replace("targets = [[1, 2]]", "targets = [[4294967296]]");
    let e = parse_config(&text).unwrap_err();
    assert!(matches!(e, ConfigError::Parse(_)));
}

#[test]
fn matrix_element_at_u32_max_loads() {
    let text = BASE.replace("targets = [[1, 2]]", "targets = [[4294967295]]");
    let c = parse_config(&text).unwrap();
    assert_eq!(c.targets, vec![vec![u32::MAX]]);
}

#[test]
fn negative_matrix_element_is_a_parse_error() {
    let text = BASE.replace("inputs = [[3, 4]]", "inputs = [[-3]]");
    let e = parse_config(&text).unwrap_err();
    assert!(matches!(e, ConfigError::Parse(_)));
}

#[test]
fn non_array_row_is_a_parse_error() {
    let text = BASE.replace("inputs = [[3, 4]]", "inputs = [3, 4]");
    let e = parse_config(&text).unwrap_err();
    assert!(matches!(e, ConfigError::Parse(_)));
}

#[test]
fn empty_matrices_load() {
    let text = "mutations_per_generation = 0\n\
initial_program_length = 0\n\
max_runtime = 0\n\
population_size = 0\n\
targets = []\n\
inputs = []\n";
    let c = parse_config(text).unwrap();
    assert_eq!(c.targets.len(), 0);
    assert_eq!(c.inputs.len(), 0);
}

#[test]
fn unknown_extra_fields_are_ignored() {
    let text = format!("{}unrelated = \"extra\"\n", BASE);
    let c = parse_config(&text).unwrap();
    assert_eq!(c.population_size, 50);
}

#[test]
fn accessors_resolve_directly_built_records() {
    let c = Configuration {
        mutations_per_generation: 1,
        initial_program_length: 2,
        max_runtime: 3,
        population_size: 4,
        targets: vec![vec![1]],
        inputs: vec![vec![2]],
        legacy: None,
        free_mut: Some(true),
    };
    assert!(!c.is_legacy());
    assert!(c.is_free_mut());
}

#[test]
fn io_error_message_names_the_cause() {
    let e = ConfigError::Io("no/such/path.toml: not found".to_string());
    assert!(e.message().contains("no/such/path.toml"));
    assert!(e.message().starts_with("Failed to read configuration file"));
}

#[test]
fn parse_error_message_carries_the_diagnostic() {
    let e = parse_config("= broken").unwrap_err();
    let m = e.message();
    assert!(m.starts_with("Failed to parse configuration file"));
    assert!(m.len() > "Failed to parse configuration file: ".len());
}

#[test]
fn decimal_rendering_exact_values() {
    assert_eq!(to_decimal(0), "0");
    assert_eq!(to_decimal(7), "7");
    assert_eq!(to_decimal(10), "10");
    assert_eq!(to_decimal(120348), "120348");
    assert_eq!(to_decimal(usize::MAX), usize::MAX.to_string());
}
