use rolldown_plugin_dts::diagnostics::DiagnosticReporter;

#[test]
fn one_diagnostic_follows_the_line_break() {
    let failure = DiagnosticReporter::aggregate(&vec!["only".to_string()]);
    assert_eq!(failure.message, "\nonly");
}

#[test]
fn diagnostics_are_joined_with_an_empty_line() {
    let rendered = vec!["first".to_string(), "second\nline".to_string(), "third".to_string()];
    let failure = DiagnosticReporter::aggregate(&rendered);
    assert_eq!(failure.message, "\nfirst\n\nsecond\nline\n\nthird");
    for text in &rendered {
        assert!(failure.message.contains(text.as_str()));
    }
}

#[test]
fn aggregate_of_nothing_is_a_line_break() {
    assert_eq!(DiagnosticReporter::aggregate(&Vec::new()).message, "\n");
}
