//! Command line arguments of the compiler.
use vstd::prelude::*;

use crate::error::Error;
use crate::text::{chars_eq_str, clone_chars};

verus! {

/// The arguments the compiler was started with.
#[derive(Debug)]
pub struct Arguments {
    /// The filepaths for each module and if it is an entrypoint module.
    pub source_files: Vec<(Vec<char>, bool)>,
    pub home_directory: Option<Vec<char>>,
    pub source_directory: Option<Vec<char>>,
    pub output_directory: Option<Vec<char>>,
    pub output_file: Option<Vec<char>>,
    pub print_help: bool,
    pub print_version: bool,
    pub print_source: bool,
    pub print_tokens: bool,
    pub print_ast: bool,
    pub execute_interpreted: bool,
}

/// What the next argument is read as.
#[derive(Debug, Clone, Copy, PartialEq, Eq, Structural)]
pub enum ParseState {
    Normal,
    HomeDirectory,
    SourceDirectory,
    OutputDirectory,
    OutputFile,
}

/// The arguments read so far, with what the next one is read as.
pub struct ArgumentsModel {
    pub state: ParseState,
    pub source_files: Seq<(Seq<char>, bool)>,
    pub home_directory: Option<Seq<char>>,
    pub source_directory: Option<Seq<char>>,
    pub output_directory: Option<Seq<char>>,
    pub output_file: Option<Seq<char>>,
    pub print_help: bool,
    pub print_version: bool,
    pub print_source: bool,
    pub print_tokens: bool,
    pub print_ast: bool,
    pub execute_interpreted: bool,
    pub is_entrypoint_module: bool,
}

/// Why arguments are refused.
pub enum ArgumentError {
    RepeatedArgument(Seq<char>),
    InvalidCommandLineArgument(Seq<char>),
    MultipleHomePaths,
    MultipleSourcePaths,
    MultipleOutputPaths,
    MultipleOutputFiles,
}

/// Nothing read yet.
pub open spec fn initial_arguments() -> ArgumentsModel {
    ArgumentsModel {
        state: ParseState::Normal,
        source_files: Seq::empty(),
        home_directory: None,
        source_directory: None,
        output_directory: None,
        output_file: None,
        print_help: false,
        print_version: false,
        print_source: false,
        print_tokens: false,
        print_ast: false,
        execute_interpreted: false,
        is_entrypoint_module: false,
    }
}

/// Reads one argument. One starting with `-` is an option, the name after the dash deciding which;
/// the options that take a value make the next argument that value; a flag given twice is refused.
/// Any other argument is the path of a module, an entrypoint when `--entrypoint-module` came just
/// before it.
pub open spec fn argument_step(m: ArgumentsModel, arg: Seq<char>) -> Result<ArgumentsModel, ArgumentError> {
    match m.state {
        ParseState::Normal => if arg.len() > 0 && arg[0] == '-' {
            let name = arg.drop_first();
            if name == "h"@ || name == "-home-dir"@ {
                Ok(ArgumentsModel { state: ParseState::HomeDirectory, ..m })
            } else if name == "O"@ || name == "-output-dir"@ {
                Ok(ArgumentsModel { state: ParseState::OutputDirectory, ..m })
            } else if name == "o"@ || name == "-output-file"@ {
                Ok(ArgumentsModel { state: ParseState::OutputFile, ..m })
            } else if name == "s"@ || name == "-source-dir"@ {
                Ok(ArgumentsModel { state: ParseState::SourceDirectory, ..m })
            } else if name == "-help"@ {
                if m.print_help { Err(ArgumentError::RepeatedArgument(name)) } else { Ok(ArgumentsModel { print_help: true, ..m }) }
            } else if name == "-version"@ {
                if m.print_version { Err(ArgumentError::RepeatedArgument(name)) } else { Ok(ArgumentsModel { print_version: true, ..m }) }
            } else if name == "-print-source"@ {
                if m.print_source { Err(ArgumentError::RepeatedArgument(name)) } else { Ok(ArgumentsModel { print_source: true, ..m }) }
            } else if name == "-print-tokens"@ {
                if m.print_tokens { Err(ArgumentError::RepeatedArgument(name)) } else { Ok(ArgumentsModel { print_tokens: true, ..m }) }
            } else if name == "-print-ast"@ {
                if m.print_ast { Err(ArgumentError::RepeatedArgument(name)) } else { Ok(ArgumentsModel { print_ast: true, ..m }) }
            } else if name == "-execute-interpreted"@ {
                if m.execute_interpreted {
                    Err(ArgumentError::RepeatedArgument(name))
                } else {
                    Ok(ArgumentsModel { execute_interpreted: true, ..m })
                }
            } else if name == "-entrypoint-module"@ {
                if m.is_entrypoint_module {
                    Err(ArgumentError::RepeatedArgument(name))
                } else {
                    Ok(ArgumentsModel { is_entrypoint_module: true, ..m })
                }
            } else {
                Err(ArgumentError::InvalidCommandLineArgument(name))
            }
        } else {
            Ok(ArgumentsModel { source_files: m.source_files.push((arg, m.is_entrypoint_module)), is_entrypoint_module: false, ..m })
        },
        ParseState::HomeDirectory => if m.home_directory is Some {
            Err(ArgumentError::MultipleHomePaths)
        } else {
            Ok(ArgumentsModel { home_directory: Some(arg), state: ParseState::Normal, ..m })
        },
        ParseState::OutputDirectory => if m.output_directory is Some {
            Err(ArgumentError::MultipleOutputPaths)
        } else {
            Ok(ArgumentsModel { output_directory: Some(arg), state: ParseState::Normal, ..m })
        },
        ParseState::SourceDirectory => if m.source_directory is Some {
            Err(ArgumentError::MultipleSourcePaths)
        } else {
            Ok(ArgumentsModel { source_directory: Some(arg), state: ParseState::Normal, ..m })
        },
        ParseState::OutputFile => if m.output_file is Some {
            Err(ArgumentError::MultipleOutputFiles)
        } else {
            Ok(ArgumentsModel { output_file: Some(arg), state: ParseState::Normal, ..m })
        },
    }
}

/// Reads arguments one after the other, stopping at the first refused one.
pub open spec fn read_arguments(args: Seq<Seq<char>>) -> Result<ArgumentsModel, ArgumentError>
    decreases args.len(),
{
    if args.len() == 0 {
        Ok(initial_arguments())
    } else {
        match read_arguments(args.drop_last()) {
            Ok(m) => argument_step(m, args.last()),
            Err(e) => Err(e),
        }
    }
}

/// Whether an error of the compiler is the one an argument error stands for.
pub open spec fn is_argument_error(e: Error, a: ArgumentError) -> bool {
    match a {
        ArgumentError::RepeatedArgument(n) => e matches Error::RepeatedArgument(m) && m@ == n,
        ArgumentError::InvalidCommandLineArgument(n) => e matches Error::InvalidCommandLineArgument(m) && m@ == n,
        ArgumentError::MultipleHomePaths => e is MultipleHomePaths,
        ArgumentError::MultipleSourcePaths => e is MultipleSourcePaths,
        ArgumentError::MultipleOutputPaths => e is MultipleOutputPaths,
        ArgumentError::MultipleOutputFiles => e is MultipleOutputFiles,
    }
}

/// Once an argument is refused, reading more arguments gives the same error.
proof fn lemma_read_arguments_error_stays(args: Seq<Seq<char>>, k: int)
    requires
        0 <= k <= args.len(),
        read_arguments(args.take(k)) is Err,
    ensures
        read_arguments(args) == read_arguments(args.take(k)),
    decreases args.len() - k,
{
    if k < args.len() {
        assert(args.take(k + 1).drop_last() =~= args.take(k));
        lemma_read_arguments_error_stays(args, k + 1);
    } else {
        assert(args.take(k) =~= args);
    }
}

/// The model of optional text.
pub open spec fn optional_text(t: Option<Vec<char>>) -> Option<Seq<char>> {
    match t {
        Some(v) => Some(v@),
        None => None,
    }
}

/// The model of module paths with their entrypoint flags.
pub open spec fn source_files_model(files: Seq<(Vec<char>, bool)>) -> Seq<(Seq<char>, bool)> {
    Seq::new(files.len(), |i: int| (files[i].0@, files[i].1))
}

impl Arguments {
    /// Whether the arguments are those of a model.
    pub open spec fn is_model_of(&self, m: ArgumentsModel) -> bool {
        &&& source_files_model(self.source_files@) == m.source_files
        &&& optional_text(self.home_directory) == m.home_directory
        &&& optional_text(self.source_directory) == m.source_directory
        &&& optional_text(self.output_directory) == m.output_directory
        &&& optional_text(self.output_file) == m.output_file
        &&& self.print_help == m.print_help
        &&& self.print_version == m.print_version
        &&& self.print_source == m.print_source
        &&& self.print_tokens == m.print_tokens
        &&& self.print_ast == m.print_ast
        &&& self.execute_interpreted == m.execute_interpreted
    }
}

fn set_flag(flag: &mut bool, name: &Vec<char>) -> (r: Result<(), Error>)
    ensures
        *old(flag) ==> (r matches Err(Error::RepeatedArgument(m)) && m@ == name@ && *final(flag) == *old(flag)),
        !*old(flag) ==> (r is Ok && *final(flag)),
{
    if *flag {
        return Err(Error::RepeatedArgument(clone_chars(name)));
    }
    *flag = true;
    Ok(())
}

/// Reads an option: `name` is the argument after its leading dash.
#[verifier::spinoff_prover]
#[verifier::rlimit(40)]
fn read_option(
    out: &mut Arguments,
    state: &mut ParseState,
    is_entrypoint_module: &mut bool,
    name: Vec<char>,
    Ghost(m): Ghost<ArgumentsModel>,
    Ghost(arg): Ghost<Seq<char>>,
) -> (r: Result<(), Error>)
    requires
        old(out).is_model_of(m),
        m.state == ParseState::Normal,
        *old(state) == ParseState::Normal,
        m.is_entrypoint_module == *old(is_entrypoint_module),
        arg.len() > 0 && arg[0] == '-',
        name@ == arg.drop_first(),
    ensures
        match argument_step(m, arg) {
            Ok(m2) => r is Ok && final(out).is_model_of(m2) && m2.state == *final(state) && m2.is_entrypoint_module
                == *final(is_entrypoint_module),
            Err(e) => r matches Err(x) && is_argument_error(x, e),
        },
{
    let n = name.as_slice();
    if chars_eq_str(n, "h") || chars_eq_str(n, "-home-dir") {
        *state = ParseState::HomeDirectory;
    } else if chars_eq_str(n, "O") || chars_eq_str(n, "-output-dir") {
        *state = ParseState::OutputDirectory;
    } else if chars_eq_str(n, "o") || chars_eq_str(n, "-output-file") {
        *state = ParseState::OutputFile;
    } else if chars_eq_str(n, "s") || chars_eq_str(n, "-source-dir") {
        *state = ParseState::SourceDirectory;
    } else if chars_eq_str(n, "-help") {
        set_flag(&mut out.print_help, &name)?;
    } else if chars_eq_str(n, "-version") {
        set_flag(&mut out.print_version, &name)?;
    } else if chars_eq_str(n, "-print-source") {
        set_flag(&mut out.print_source, &name)?;
    } else if chars_eq_str(n, "-print-tokens") {
        set_flag(&mut out.print_tokens, &name)?;
    } else if chars_eq_str(n, "-print-ast") {
        set_flag(&mut out.print_ast, &name)?;
    } else if chars_eq_str(n, "-execute-interpreted") {
        set_flag(&mut out.execute_interpreted, &name)?;
    } else if chars_eq_str(n, "-entrypoint-module") {
        set_flag(is_entrypoint_module, &name)?;
    } else {
        return Err(Error::InvalidCommandLineArgument(name));
    }
    Ok(())
}

/// Reads one argument.
#[verifier::spinoff_prover]
fn read_argument(
    out: &mut Arguments,
    state: &mut ParseState,
    is_entrypoint_module: &mut bool,
    arg: &Vec<char>,
    Ghost(m): Ghost<ArgumentsModel>,
) -> (r: Result<(), Error>)
    requires
        old(out).is_model_of(m),
        m.state == *old(state),
        m.is_entrypoint_module == *old(is_entrypoint_module),
    ensures
        match argument_step(m, arg@) {
            Ok(m2) => r is Ok && final(out).is_model_of(m2) && m2.state == *final(state) && m2.is_entrypoint_module
                == *final(is_entrypoint_module),
            Err(e) => r matches Err(x) && is_argument_error(x, e),
        },
{
    match *state {
        ParseState::Normal => {
            if arg.len() > 0 && arg[0] == '-' {
                let mut name: Vec<char> = Vec::new();
                let mut k: usize = 1;
                while k < arg.len()
                    invariant
                        1 <= k <= arg@.len(),
                        name@ == arg@.subrange(1, k as int),
                    decreases arg@.len() - k,
                {
                    name.push(arg[k]);
                    k = k + 1;
                    proof {
                        assert(name@ =~= arg@.subrange(1, k as int));
                    }
                }
                proof {
                    assert(name@ =~= arg@.drop_first());
                }
                read_option(out, state, is_entrypoint_module, name, Ghost(m), Ghost(arg@))
            } else {
                let ghost before = out.source_files@;
                out.source_files.push((clone_chars(arg), *is_entrypoint_module));
                *is_entrypoint_module = false;
                proof {
                    assert(source_files_model(out.source_files@) =~= source_files_model(before).push((arg@, m.is_entrypoint_module)));
                }
                Ok(())
            }
        },
        ParseState::HomeDirectory => {
            if out.home_directory.is_some() {
                return Err(Error::MultipleHomePaths);
            }
            out.home_directory = Some(clone_chars(arg));
            *state = ParseState::Normal;
            Ok(())
        },
        ParseState::OutputDirectory => {
            if out.output_directory.is_some() {
                return Err(Error::MultipleOutputPaths);
            }
            out.output_directory = Some(clone_chars(arg));
            *state = ParseState::Normal;
            Ok(())
        },
        ParseState::SourceDirectory => {
            if out.source_directory.is_some() {
                return Err(Error::MultipleSourcePaths);
            }
            out.source_directory = Some(clone_chars(arg));
            *state = ParseState::Normal;
            Ok(())
        },
        ParseState::OutputFile => {
            if out.output_file.is_some() {
                return Err(Error::MultipleOutputFiles);
            }
            out.output_file = Some(clone_chars(arg));
            *state = ParseState::Normal;
            Ok(())
        },
    }
}

/// Reads the command line arguments (without the program's name).
pub fn parse_arguments(args: &Vec<Vec<char>>) -> (r: Result<Arguments, Error>)
    ensures
        match read_arguments(args@.map_values(|a: Vec<char>| a@)) {
            Ok(m) => r matches Ok(a) && a.is_model_of(m),
            Err(e) => r matches Err(x) && is_argument_error(x, e),
        },
{
    let ghost texts = args@.map_values(|a: Vec<char>| a@);
    let mut out = Arguments {
        source_files: Vec::new(),
        home_directory: None,
        source_directory: None,
        output_directory: None,
        output_file: None,
        print_help: false,
        print_version: false,
        print_source: false,
        print_tokens: false,
        print_ast: false,
        execute_interpreted: false,
    };
    let mut state = ParseState::Normal;
    let mut is_entrypoint_module = false;
    let mut i: usize = 0;
    proof {
        assert(texts.take(0) =~= Seq::<Seq<char>>::empty());
        assert(source_files_model(out.source_files@) =~= Seq::<(Seq<char>, bool)>::empty());
    }
    while i < args.len()
        invariant
            i <= args@.len(),
            texts == args@.map_values(|a: Vec<char>| a@),
            read_arguments(texts.take(i as int)) matches Ok(m) && out.is_model_of(m) && m.state == state
                && m.is_entrypoint_module == is_entrypoint_module,
        decreases args@.len() - i,
    {
        let ghost m = read_arguments(texts.take(i as int))->Ok_0;
        proof {
            assert(texts.take(i + 1).drop_last() =~= texts.take(i as int));
            assert(texts.take(i + 1).last() == args@[i as int]@);
            if argument_step(m, args@[i as int]@) is Err {
                lemma_read_arguments_error_stays(texts, i + 1);
            }
        }
        read_argument(&mut out, &mut state, &mut is_entrypoint_module, &args[i], Ghost(m))?;
        i = i + 1;
    }
    proof {
        assert(texts.take(args@.len() as int) =~= texts);
    }
    Ok(out)
}

} // verus!
