use tanuki_compiler::programming_languages::branflakes::{
    Branflakes, BranflakesExecution, BranflakesModule, BranflakesStatementVariant, BranflakesStep, BranflakesTokenVariant,
    BranflakesVirtualMachine,
};
use tanuki_compiler::error::{Error, ErrorAt};
use tanuki_compiler::source_file_reader::SourceFileReader;
use tanuki_compiler::token_reader::TokenReader;

fn chars(s: &str) -> Vec<char> {
    s.chars().collect()
}

fn text(v: &[char]) -> String {
    v.iter().collect()
}

fn module_of(source: &str) -> Result<BranflakesModule, ErrorAt> {
    let mut reader = SourceFileReader::new(source.as_bytes().to_vec(), chars("test.bf"));
    let tokens = Branflakes::tokenize(&mut reader)?;
    let mut token_reader = TokenReader::new(&tokens);
    Branflakes::parse_tokens(&mut token_reader)
}

fn run(source: &str, input: &str) -> Result<Vec<u8>, ErrorAt> {
    let module = module_of(source)?;
    let mut vm = BranflakesVirtualMachine::new();
    let mut execution = BranflakesExecution::new();
    let mut output = Vec::new();
    for _ in 0..100000 {
        match execution.step(&module.statements, &mut vm)? {
            BranflakesStep::Continue => {},
            BranflakesStep::Print(b) => output.push(b),
            BranflakesStep::NeedInput => vm.set_input(&chars(input)),
            BranflakesStep::Finished => return Ok(output),
        }
    }
    panic!("program did not finish");
}

#[test]
fn tokenize_skips_other_chars() {
    let mut reader = SourceFileReader::new(b"+a-\n[.]".to_vec(), chars("t.bf"));
    let tokens = Branflakes::tokenize(&mut reader).unwrap();
    assert_eq!(tokens.len(), 5);
    assert!(matches!(tokens[0].variant, BranflakesTokenVariant::Increment));
    assert!(matches!(tokens[1].variant, BranflakesTokenVariant::Decrement));
    assert!(matches!(tokens[2].variant, BranflakesTokenVariant::LoopStart));
    assert_eq!((tokens[2].line, tokens[2].column), (2, 1));
}

#[test]
fn parse_nests_loops() {
    let module = module_of("+[-[>]]").unwrap();
    assert_eq!(module.statements.len(), 2);
    match &module.statements[1].variant {
        BranflakesStatementVariant::Loop(body) => {
            assert_eq!(body.len(), 2);
            assert!(matches!(body[1].variant, BranflakesStatementVariant::Loop(_)));
        },
        other => panic!("unexpected {:?}", other),
    }
}

#[test]
fn unbalanced_loops_are_errors() {
    match module_of("[+") {
        Err(e) => assert!(matches!(e.error, Error::MoreOpeningParenthesesThanClosingParentheses)),
        Ok(m) => panic!("unexpected {:?}", m),
    }
    match module_of("+]") {
        Err(e) => assert!(matches!(e.error, Error::MoreClosingParenthesesThanOpeningParentheses)),
        Ok(m) => panic!("unexpected {:?}", m),
    }
}

#[test]
fn run_prints_a() {
    assert_eq!(run("++++++++[>++++++++<-]>+.", "").unwrap(), vec![65]);
}

#[test]
fn run_echoes_input() {
    assert_eq!(run(",.", "h").unwrap(), vec![b'h']);
    assert_eq!(run(",>,<.>.", "hi").unwrap(), vec![b'h', b'i']);
}

#[test]
fn end_of_input_reads_as_255_which_cannot_be_printed() {
    match run(",.,.", "h") {
        Err(e) => {
            assert!(matches!(e.error, Error::InvalidAsciiValue));
            assert_eq!((e.line, e.column), (Some(1), Some(4)));
        },
        Ok(out) => panic!("unexpected {:?}", out),
    }
}

#[test]
fn cells_wrap_around() {
    match run("-.", "") {
        Err(e) => assert!(matches!(e.error, Error::InvalidAsciiValue)),
        Ok(out) => panic!("unexpected {:?}", out),
    }
    assert_eq!(run("-+.", "").unwrap(), vec![0]);
}

#[test]
fn moving_left_of_the_start_is_an_error() {
    match run("<", "") {
        Err(e) => assert!(matches!(e.error, Error::IntegerUnderflow)),
        Ok(out) => panic!("unexpected {:?}", out),
    }
}

#[test]
fn virtual_machine_reads_zero_where_nothing_was_written() {
    let mut vm = BranflakesVirtualMachine::new();
    assert_eq!(vm.read(), 0);
    vm.write(7);
    assert_eq!(vm.read(), 7);
    vm.data_pointer = 3;
    assert_eq!(vm.read(), 0);
    vm.write(9);
    assert_eq!(vm.memory, vec![7, 0, 0, 9]);
}

#[test]
fn c_module_only_for_entrypoints() {
    let module = module_of("+.").unwrap();
    assert!(matches!(module.to_c_module(false), Ok(None)));
}

#[test]
fn c_module_text_of_a_print() {
    let module = module_of(".").unwrap();
    let c_module = module.to_c_module(true).unwrap().unwrap();
    let mut out = Vec::new();
    c_module.write_to_file(&mut out, 0);
    let source = text(&out);
    let mut header = Vec::new();
    c_module.write_header_to_file(&mut header, 0);
    assert!(text(&header).contains("#include <stdio.h>"));
    assert!(source.contains("int main() {"));
    assert!(source.contains("\texpand_memory((&memory_buffer), (&memory_buffer_size), (1 + data_pointer));\n"));
    assert!(source.contains("\tputchar(memory_buffer[data_pointer]);\n"));
}

#[test]
fn reader_skip_takes_chars() {
    let mut reader = SourceFileReader::new("aé\nb".as_bytes().to_vec(), chars("t.bf"));
    assert!(reader.skip(3).is_ok());
    assert_eq!(reader.peek_char().unwrap(), Some('b'));
    assert!(reader.skip(10).is_ok());
    assert_eq!(reader.peek_char().unwrap(), None);
}

#[test]
fn reader_skip_stops_at_invalid_bytes() {
    let mut reader = SourceFileReader::new(vec![b'a', 0xFF, 0xFF, 0xFF, 0xFF], chars("t.bf"));
    assert!(reader.skip(3).is_err());
}

#[test]
fn statement_spans_reach_the_end_of_their_last_token() {
    let module = module_of("+[-]").unwrap();
    let lp = &module.statements[1];
    assert_eq!((lp.start_line, lp.start_column), (1, 2));
    assert_eq!((lp.end_line, lp.end_column), (1, 5));
}

#[test]
fn unclosed_loop_error_is_after_the_last_token() {
    match module_of("[+") {
        Err(e) => {
            assert!(matches!(e.error, Error::MoreOpeningParenthesesThanClosingParentheses));
            assert_eq!((e.line, e.column), (Some(1), Some(3)));
        },
        Ok(m) => panic!("unexpected {:?}", m),
    }
}

#[test]
fn c_module_loops_while_the_cell_is_not_zero() {
    let module = module_of("[-]").unwrap();
    let c_module = module.to_c_module(true).unwrap().unwrap();
    let mut out = Vec::new();
    c_module.write_to_file(&mut out, 0);
    let source = text(&out);
    assert!(source.contains("\twhile ((0 != memory_buffer[data_pointer])) {\n"), "{}", source);
    assert!(source.contains("\t\t(memory_buffer[data_pointer]--);\n"), "{}", source);
}
