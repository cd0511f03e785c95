use desktop_bootstrap::env_lookup::env_var_or_empty;

#[test]
fn unset_variable_reads_as_empty_string() {
    assert_eq!(env_var_or_empty(None), String::new());
}

#[test]
fn set_variable_reads_as_its_value() {
    let found = Some(String::from("https://db.example.org"));
    assert_eq!(env_var_or_empty(found), "https://db.example.org");
}

#[test]
fn variable_set_to_empty_reads_as_empty_string() {
    assert_eq!(env_var_or_empty(Some(String::new())), "");
}

#[test]
fn value_is_handed_on_unchanged() {
    let value = String::from("  spaced = \"quoted\" \u{e9}\n");
    assert_eq!(env_var_or_empty(Some(value.clone())), value);
}
