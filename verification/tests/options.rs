use leo_passes::OutputOptions;

#[test]
fn output_options_are_off_by_default() {
    let options = OutputOptions::default();
    assert!(!options.spans_enabled);
    assert!(!options.ast_initial);
    assert!(!options.input_ast_initial);
    assert!(!options.flattened_ast);
    assert!(!options.ssa_ast);
    assert!(!options.dead_code_eliminated_ast);
}

#[test]
fn output_options_are_independent() {
    let options = OutputOptions { flattened_ast: true, ..OutputOptions::default() };
    assert!(options.flattened_ast);
    assert!(!options.ssa_ast);
    assert_eq!(options.clone(), options);
}
