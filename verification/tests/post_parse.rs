use tanuki_compiler::arguments::parse_arguments;
use tanuki_compiler::big_int::CtInt;
use tanuki_compiler::error::{Error, ErrorAt};
use tanuki_compiler::main_state::Main;
use tanuki_compiler::programming_languages::tanuki::compile_time_value::TanukiCompileTimeValue;
use tanuki_compiler::programming_languages::tanuki::expression::{TanukiExpression, TanukiExpressionVariant};
use tanuki_compiler::programming_languages::tanuki::parse::TanukiModule;
use tanuki_compiler::programming_languages::tanuki::tokenize::tokenize;
use tanuki_compiler::source_file_reader::SourceFileReader;
use tanuki_compiler::token_reader::TokenReader;

fn ct_to_i64(c: &CtInt) -> Option<i64> {
    let mut m: u128 = 0;
    for (i, limb) in c.magnitude.iter().enumerate() {
        if i >= 3 {
            if *limb != 0 {
                return None;
            }
        } else {
            m |= (*limb as u128) << (32 * i);
        }
    }
    let v: i128 = if c.negative { -(m as i128) } else { m as i128 };
    i64::try_from(v).ok()
}

fn chars(s: &str) -> Vec<char> {
    s.chars().collect()
}

fn text(v: &[char]) -> String {
    v.iter().collect()
}

fn no_float(_text: Vec<char>, _base: u32) -> Option<u64> {
    None
}

fn parsed(source: &str) -> TanukiModule {
    let mut reader = SourceFileReader::new(source.as_bytes().to_vec(), chars("main.tnk"));
    let tokens = tokenize(&mut reader, &no_float).unwrap();
    let mut a = parse_arguments(&Vec::new()).unwrap();
    let mut main = Main::new(&mut a, Some(chars("/work"))).unwrap();
    main.module_being_processed = chars("/work/src/main.tnk");
    let mut token_reader = TokenReader::new(&tokens);
    TanukiModule::parse(&mut main, &mut token_reader).unwrap()
}

fn post_parsed(source: &str) -> Result<TanukiModule, ErrorAt> {
    let mut module = parsed(source);
    module.post_parse()?;
    Ok(module)
}

fn int_constant(e: &TanukiExpression) -> i64 {
    match &e.variant {
        TanukiExpressionVariant::Constant(TanukiCompileTimeValue::CompileTimeInt(v)) => ct_to_i64(v).unwrap(),
        other => panic!("not an integer constant: {:?}", other),
    }
}

#[test]
fn assignment_becomes_global_constant() {
    let module = post_parsed("x = 5;").unwrap();
    assert!(module.parsed_expressions.is_empty());
    assert_eq!(module.global_constants.len(), 1);
    let constant = module.global_constants[0].as_ref().unwrap();
    assert_eq!(text(&constant.name), "x");
    assert_eq!(int_constant(&constant.value_expression), 5);
    assert!(constant.t_type.is_none());
    assert!(!constant.export);
    assert_eq!((constant.start_line, constant.start_column), (1, 1));
}

#[test]
fn assignments_keep_their_order() {
    let module = post_parsed("a = 1; b = 2;").unwrap();
    let names: Vec<String> = module.global_constants.iter().map(|c| text(&c.as_ref().unwrap().name)).collect();
    assert_eq!(names, vec!["a".to_string(), "b".to_string()]);
}

#[test]
fn exported_assignment_is_gathered_as_export() {
    let module = post_parsed("@export x = 5;").unwrap();
    assert_eq!(module.exports.len(), 1);
    assert_eq!(text(&module.exports[0].name), "x");
    assert_eq!(module.global_constants.len(), 1);
    assert_eq!(text(&module.global_constants[0].as_ref().unwrap().name), "x");
}

#[test]
fn entrypoint_is_recorded() {
    let module = post_parsed("@entrypoint main = 0;").unwrap();
    assert_eq!(module.entrypoint.as_ref().map(|e| text(e)), Some("main".to_string()));
}

#[test]
fn same_entrypoint_twice_is_accepted() {
    let module = post_parsed("@entrypoint main = 0; @entrypoint main;").unwrap();
    assert_eq!(module.entrypoint.as_ref().map(|e| text(e)), Some("main".to_string()));
}

#[test]
fn second_entrypoint_is_refused() {
    let error = post_parsed("@entrypoint a = 1; @entrypoint b = 2;").err().unwrap();
    assert!(matches!(error.error, Error::MultipleEntrypoints));
    assert_eq!((error.line, error.column), (Some(1), Some(20)));
}

#[test]
fn assignment_to_a_constant_is_refused() {
    let error = post_parsed("5 = 3;").err().unwrap();
    assert!(matches!(error.error, Error::ExpectedVariable));
    assert_eq!(error.line, Some(1));
}

#[test]
fn export_of_a_constant_is_refused() {
    let error = post_parsed("@export 5;").err().unwrap();
    assert!(matches!(error.error, Error::ExpectedVariable));
    assert_eq!((error.line, error.column), (Some(1), Some(1)));
}

#[test]
fn assigned_import_is_gathered_not_a_constant() {
    let module = post_parsed("m = @import(\"lib.tnk\");").unwrap();
    assert_eq!(module.global_constants.len(), 0);
    assert_eq!(module.imports.len(), 1);
    assert_eq!(text(&module.imports[0].name), "m");
    assert_eq!(text(&module.imports[0].module_file), "/work/src/lib.tnk");
}

#[test]
fn unassigned_import_is_refused() {
    let error = post_parsed("@import(\"lib.tnk\");").err().unwrap();
    match &error.error {
        Error::Unimplemented(message) => assert_eq!(text(message), "Import that is not assigned to a name"),
        other => panic!("unexpected {:?}", other),
    }
}

#[test]
fn other_expressions_gather_nothing() {
    let module = post_parsed("1 + 2;").unwrap();
    assert!(module.global_constants.is_empty());
    assert!(module.exports.is_empty());
    assert!(module.entrypoint.is_none());
    assert!(module.parsed_expressions.is_empty());
}
