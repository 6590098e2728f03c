use tanuki_compiler::arguments::parse_arguments;
use tanuki_compiler::error::Error;
use tanuki_compiler::main_state::Main;

fn chars(s: &str) -> Vec<char> {
    s.chars().collect()
}

fn text(v: &[char]) -> String {
    v.iter().collect()
}

fn args(list: &[&str]) -> Vec<Vec<char>> {
    list.iter().map(|s| chars(s)).collect()
}

#[test]
fn no_home_directory_is_an_error() {
    let mut a = parse_arguments(&args(&["m.tnk"])).unwrap();
    assert!(matches!(Main::new(&mut a, None), Err(Error::NoHomePath)));
}

#[test]
fn home_directory_from_arguments_wins() {
    let mut a = parse_arguments(&args(&["-h", "/project", "m.tnk"])).unwrap();
    let main = Main::new(&mut a, Some(chars("/elsewhere"))).unwrap();
    assert_eq!(text(&main.home_directory), "/project");
    assert!(a.home_directory.is_none());
    assert_eq!(main.modules_to_compile.len(), 1);
    assert!(main.modules_compiled.is_empty());
}

#[test]
fn current_directory_is_the_default_home() {
    let mut a = parse_arguments(&args(&[])).unwrap();
    let main = Main::new(&mut a, Some(chars("/work"))).unwrap();
    assert_eq!(text(&main.home_directory), "/work");
    assert!(main.modules_to_compile.is_empty());
}

#[test]
fn modules_are_added_once_and_taken_once() {
    let mut a = parse_arguments(&args(&[])).unwrap();
    let mut main = Main::new(&mut a, Some(chars("/work"))).unwrap();
    main.add_module_to_compile((chars("a.tnk"), true));
    main.add_module_to_compile((chars("a.tnk"), true));
    assert_eq!(main.modules_to_compile.len(), 1);
    let taken = main.take_module_to_compile().unwrap();
    assert_eq!(text(&taken.0), "a.tnk");
    assert!(taken.1);
    assert_eq!(main.modules_compiled.len(), 1);
    main.add_module_to_compile((chars("a.tnk"), false));
    assert!(main.modules_to_compile.is_empty());
    assert!(main.take_module_to_compile().is_none());
}

#[test]
fn duplicate_source_files_are_compiled_once() {
    let mut a = parse_arguments(&args(&["m.tnk", "m.tnk", "n.tnk"])).unwrap();
    let main = Main::new(&mut a, Some(chars("/work"))).unwrap();
    assert_eq!(main.modules_to_compile.len(), 2);
}
