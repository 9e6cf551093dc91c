use otel_opamp_rs::extras::config::{
    get_relative_file_name, is_yaml_extension, merge_rule, Kind, Merge,
};
use otel_opamp_rs::extras::launcher::{
    command_line, directive, exited_cleanly, Directive, Instruction, CONTROL_CAPACITY,
};

#[test]
fn command_line_starts_with_the_command() {
    let args = vec!["--config".to_string(), "a.yaml".to_string()];
    assert_eq!(
        command_line(&"otelcol".to_string(), &args),
        vec!["otelcol".to_string(), "--config".to_string(), "a.yaml".to_string()]
    );
    assert_eq!(command_line(&"run".to_string(), &vec![]), vec!["run".to_string()]);
}

#[test]
fn instructions_become_directives() {
    assert_eq!(
        directive(&Instruction::Input("hé\n".to_string())),
        Directive::Feed("hé\n".as_bytes().to_vec())
    );
    assert_eq!(directive(&Instruction::Input(String::new())), Directive::Feed(vec![]));
    assert_eq!(directive(&Instruction::Exit), Directive::Stop);
    assert_eq!(CONTROL_CAPACITY, 10);
}

#[test]
fn only_status_zero_is_clean() {
    assert!(exited_cleanly(0));
    assert!(!exited_cleanly(1));
    assert!(!exited_cleanly(u32::MAX));
}

#[test]
fn yaml_files_go_by_their_extension() {
    assert!(is_yaml_extension("yaml"));
    assert!(is_yaml_extension("yml"));
    assert!(!is_yaml_extension("YAML"));
    assert!(!is_yaml_extension("json"));
    assert!(!is_yaml_extension(""));
    assert!(!is_yaml_extension("yamls"));
}

#[test]
fn relative_names_use_forward_slashes() {
    assert_eq!(get_relative_file_name("a\\b\\c.yaml"), "a/b/c.yaml");
    assert_eq!(get_relative_file_name("a/b.yml"), "a/b.yml");
    assert_eq!(get_relative_file_name(""), "");
    assert_eq!(get_relative_file_name("\\"), "/");
}

#[test]
fn merging_goes_by_the_kinds_of_both_sides() {
    assert_eq!(merge_rule(Kind::Mapping, Kind::Mapping), Merge::ByKey);
    assert_eq!(merge_rule(Kind::Sequence, Kind::Sequence), Merge::Append);
    for (destination, source) in [
        (Kind::Mapping, Kind::Sequence),
        (Kind::Mapping, Kind::Other),
        (Kind::Sequence, Kind::Mapping),
        (Kind::Sequence, Kind::Other),
        (Kind::Other, Kind::Mapping),
        (Kind::Other, Kind::Sequence),
        (Kind::Other, Kind::Other),
    ] {
        assert_eq!(merge_rule(destination, source), Merge::Replace);
    }
}
