use tanuki_compiler::arguments::parse_arguments;
use tanuki_compiler::error::Error;

fn chars(s: &str) -> Vec<char> {
    s.chars().collect()
}

fn text(v: &[char]) -> String {
    v.iter().collect()
}

fn args(list: &[&str]) -> Vec<Vec<char>> {
    list.iter().map(|s| chars(s)).collect()
}

#[test]
fn source_file_is_not_an_entrypoint_by_default() {
    let a = parse_arguments(&args(&["main.tnk"])).unwrap();
    assert_eq!(a.source_files.len(), 1);
    assert_eq!(text(&a.source_files[0].0), "main.tnk");
    assert!(!a.source_files[0].1);
    assert!(!a.print_help);
}

#[test]
fn entrypoint_flag_applies_to_the_next_file_only() {
    let a = parse_arguments(&args(&["--entrypoint-module", "main.tnk", "lib.tnk"])).unwrap();
    assert_eq!(a.source_files.len(), 2);
    assert!(a.source_files[0].1);
    assert!(!a.source_files[1].1);
}

#[test]
fn directories_and_flags() {
    let a = parse_arguments(&args(&["-h", "/home", "--source-dir", "s", "-O", "out", "-o", "prog", "--help", "--version", "--print-tokens"])).unwrap();
    assert_eq!(text(a.home_directory.as_ref().unwrap()), "/home");
    assert_eq!(text(a.source_directory.as_ref().unwrap()), "s");
    assert_eq!(text(a.output_directory.as_ref().unwrap()), "out");
    assert_eq!(text(a.output_file.as_ref().unwrap()), "prog");
    assert!(a.print_help && a.print_version && a.print_tokens);
    assert!(!a.print_ast && !a.execute_interpreted && !a.print_source);
    assert!(a.source_files.is_empty());
}

#[test]
fn repeated_flag_is_refused() {
    match parse_arguments(&args(&["--help", "--help"])) {
        Err(Error::RepeatedArgument(name)) => assert_eq!(text(&name), "-help"),
        other => panic!("unexpected {:?}", other),
    }
}

#[test]
fn unknown_flag_is_refused() {
    match parse_arguments(&args(&["-x"])) {
        Err(Error::InvalidCommandLineArgument(name)) => assert_eq!(text(&name), "x"),
        other => panic!("unexpected {:?}", other),
    }
}

#[test]
fn second_directory_is_refused() {
    assert!(matches!(parse_arguments(&args(&["-h", "a", "-h", "b"])), Err(Error::MultipleHomePaths)));
    assert!(matches!(parse_arguments(&args(&["-s", "a", "-s", "b"])), Err(Error::MultipleSourcePaths)));
    assert!(matches!(parse_arguments(&args(&["-O", "a", "-O", "b"])), Err(Error::MultipleOutputPaths)));
    assert!(matches!(parse_arguments(&args(&["-o", "a", "-o", "b"])), Err(Error::MultipleOutputFiles)));
}

#[test]
fn flag_value_is_taken_as_is() {
    let a = parse_arguments(&args(&["-h", "--help"])).unwrap();
    assert_eq!(text(a.home_directory.as_ref().unwrap()), "--help");
    assert!(!a.print_help);
}

#[test]
fn no_arguments() {
    let a = parse_arguments(&args(&[])).unwrap();
    assert!(a.source_files.is_empty());
    assert!(a.home_directory.is_none());
}
