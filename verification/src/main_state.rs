//! The state of a run of the compiler: its directories and the modules to compile.
use vstd::prelude::*;

use crate::arguments::Arguments;
use crate::error::Error;
use crate::text::{chars_eq, clone_chars, str_to_chars};

verus! {

/// The operating system code is compiled for.
#[derive(Debug, Clone, Copy, PartialEq, Eq, Structural)]
pub enum Os {
    Unix,
    Windows,
}

/// The state of a run of the compiler.
#[derive(Debug)]
pub struct Main {
    /// Modules to compile, each with whether it is an entrypoint; none is there twice.
    pub modules_to_compile: Vec<(Vec<char>, bool)>,
    /// Modules that have been compiled or are being compiled right now; none is there twice.
    pub modules_compiled: Vec<Vec<char>>,
    pub print_source: bool,
    pub home_directory: Vec<char>,
    pub source_directory: Vec<char>,
    pub output_directory: Vec<char>,
    /// The path of the module being parsed; imports are found next to it.
    pub module_being_processed: Vec<char>,
    /// The directory of the Tanuki standard library.
    pub tnk_std_directory: Vec<char>,
    /// The operating system code is compiled for.
    pub os: Os,
}

/// A module path with its entrypoint flag, as plain values.
pub open spec fn module_model(m: (Vec<char>, bool)) -> (Seq<char>, bool) {
    (m.0@, m.1)
}

/// Whether a path is one plain component on every platform: not empty, not `.` or `..`, and
/// without a separator (`/` or a backslash) or a drive colon, so that it is neither absolute nor rooted nor
/// prefixed.
pub open spec fn plain_component(p: Seq<char>) -> bool {
    &&& p.len() > 0
    &&& p != seq!['.']
    &&& p != seq!['.', '.']
    &&& forall|i: int| 0 <= i < p.len() ==> #[trigger] p[i] != '/' && p[i] != '\\' && p[i] != ':'
}

/// Whether a text ends with another.
pub open spec fn ends_with(s: Seq<char>, suffix: Seq<char>) -> bool {
    s.len() >= suffix.len() && s.subrange(s.len() - suffix.len(), s.len() as int) == suffix
}

/// Joins a path to a directory, by `PathBuf::push`. Its documentation says that a relative path
/// is added after the directory (with a separator where one is needed), while an absolute, rooted
/// or prefixed path replaces it, and that under a verbatim prefix `.` and `..` are taken out. So
/// what is stated is only that the result ends with a path that is one plain component; where
/// the directory goes and which separator is used follow the platform and are left unsaid.
#[verifier::external_body]
pub(crate) fn join_path(directory: &Vec<char>, path: &Vec<char>) -> (r: Vec<char>)
    ensures
        plain_component(path@) ==> ends_with(r@, path@),
{
    let d: String = directory.iter().collect();
    let p: String = path.iter().collect();
    let mut buf = std::path::PathBuf::from(d);
    buf.push(p);
    buf.to_string_lossy().chars().collect()
}

/// The parent directory of a path, by `Path::parent`, which gives `None` for an empty path (and
/// for a root). What the parent is otherwise follows the platform's path rules, so only that is
/// stated.
#[verifier::external_body]
pub(crate) fn path_parent(path: &Vec<char>) -> (r: Option<Vec<char>>)
    ensures
        path@.len() == 0 ==> r is None,
{
    let p: String = path.iter().collect();
    std::path::Path::new(&p).parent().map(|parent| parent.to_string_lossy().chars().collect())
}

/// The components of a path, each as text, by `Path::components`, which follows the platform's
/// path rules; nothing is stated of them.
#[verifier::external_body]
pub(crate) fn path_components(path: &Vec<char>) -> (r: Vec<Vec<char>>) {
    let p: String = path.iter().collect();
    std::path::Path::new(&p).components().map(|c| c.as_os_str().to_string_lossy().chars().collect()).collect()
}

/// A path without its last component, by `PathBuf::pop`, which follows the platform's path rules;
/// a path without a parent (an empty one among them) is left as it is, and only that is stated.
#[verifier::external_body]
pub(crate) fn path_pop(path: &Vec<char>) -> (r: Vec<char>)
    ensures
        path@.len() == 0 ==> r@.len() == 0,
{
    let p: String = path.iter().collect();
    let mut buf = std::path::PathBuf::from(p);
    buf.pop();
    buf.to_string_lossy().chars().collect()
}

/// The directory chosen by an argument: the one given, else the default.
pub open spec fn chosen_directory(given: Option<Vec<char>>, default: Seq<char>) -> Seq<char> {
    match given {
        Some(d) => d@,
        None => default,
    }
}

/// Whether the source and output directories of a state are the ones the arguments choose
/// (default `src` and `bin`), each joined to the home directory: each ends with its chosen
/// directory where that is one plain component.
pub open spec fn directories_chosen(main: Main, arguments: Arguments) -> bool {
    &&& plain_component(chosen_directory(arguments.source_directory, "src"@)) ==> ends_with(
        main.source_directory@,
        chosen_directory(arguments.source_directory, "src"@),
    )
    &&& plain_component(chosen_directory(arguments.output_directory, "bin"@)) ==> ends_with(
        main.output_directory@,
        chosen_directory(arguments.output_directory, "bin"@),
    )
}

/// Sources are looked up in the source directory and output is written to the output directory:
/// a state set up from arguments has a source directory that ends with the source directory
/// argument and an output directory that ends with the output directory argument, where each is
/// one plain component. Without those arguments they end with `src` and `bin`, so the two differ.
pub proof fn law_directories_follow_the_arguments(main: Main, arguments: Arguments)
    requires
        directories_chosen(main, arguments),
    ensures
        forall|d: Vec<char>|
            arguments.source_directory == Some(d) && plain_component(d@) ==> ends_with(main.source_directory@, d@),
        forall|d: Vec<char>|
            arguments.output_directory == Some(d) && plain_component(d@) ==> ends_with(main.output_directory@, d@),
        arguments.source_directory is None ==> ends_with(main.source_directory@, "src"@),
        arguments.output_directory is None ==> ends_with(main.output_directory@, "bin"@),
        arguments.source_directory is None && arguments.output_directory is None ==> main.source_directory@
            != main.output_directory@,
{
    reveal_strlit("src");
    reveal_strlit("bin");
    assert(plain_component("src"@));
    assert(plain_component("bin"@));
    let s = main.source_directory@;
    let o = main.output_directory@;
    if arguments.source_directory is None && arguments.output_directory is None {
        assert(s[s.len() - 1] == s.subrange(s.len() - 3, s.len() as int)[2]);
        assert(o[o.len() - 1] == o.subrange(o.len() - 3, o.len() as int)[2]);
    }
}

impl Main {
    /// The modules still to compile.
    pub open spec fn to_compile(&self) -> Set<(Seq<char>, bool)> {
        self.modules_to_compile@.map_values(|m: (Vec<char>, bool)| module_model(m)).to_set()
    }

    /// The paths of the modules that have been or are being compiled.
    pub open spec fn compiled(&self) -> Set<Seq<char>> {
        self.modules_compiled@.map_values(|p: Vec<char>| p@).to_set()
    }

    /// No module is held twice.
    pub open spec fn wf(&self) -> bool {
        &&& forall|i: int, j: int|
            0 <= i < j < self.modules_to_compile@.len() ==> module_model(#[trigger] self.modules_to_compile@[i]) != module_model(
                #[trigger] self.modules_to_compile@[j],
            )
        &&& forall|i: int, j: int|
            0 <= i < j < self.modules_compiled@.len() ==> (#[trigger] self.modules_compiled@[i])@ != (#[trigger] self.modules_compiled@[j])@
    }

    /// The state for a run with arguments: the home directory is the one given, else the current
    /// directory (`NoHomePath` without one); the source and output directories are the ones given,
    /// else `src` and `bin`, each joined to the home directory. The module paths given are the
    /// modules to compile. The home directory is taken out of the arguments.
    pub fn new(arguments: &mut Arguments, current_directory: Option<Vec<char>>) -> (r: Result<Self, Error>)
        ensures
            old(arguments).home_directory is None && current_directory is None ==> (r matches Err(e) && e is NoHomePath
                && *final(arguments) == *old(arguments)),
            old(arguments).home_directory is Some || current_directory is Some ==> r is Ok,
            r is Ok ==> final(arguments).home_directory is None,
            r matches Ok(main) ==> {
                &&& main.wf()
                &&& main.home_directory@ == match old(arguments).home_directory {
                    Some(h) => h@,
                    None => current_directory.unwrap()@,
                }
                &&& main.print_source == old(arguments).print_source
                &&& directories_chosen(main, *old(arguments))
                &&& main.to_compile() == old(arguments).source_files@.map_values(|m: (Vec<char>, bool)| module_model(m)).to_set()
                &&& main.compiled() == Set::<Seq<char>>::empty()
            },
    {
        let home_directory = match arguments.home_directory.take() {
            Some(home_directory) => home_directory,
            None => match current_directory {
                Some(current_directory) => current_directory,
                None => return Err(Error::NoHomePath),
            },
        };
        let source = match &arguments.source_directory {
            Some(source_directory) => clone_chars(source_directory),
            None => str_to_chars("src"),
        };
        let output = match &arguments.output_directory {
            Some(output_directory) => clone_chars(output_directory),
            None => str_to_chars("bin"),
        };
        let source_directory = join_path(&home_directory, &source);
        let output_directory = join_path(&home_directory, &output);
        proof {
            assert(source@ == chosen_directory(arguments.source_directory, "src"@));
            assert(output@ == chosen_directory(arguments.output_directory, "bin"@));
        }
        let mut main = Main {
            modules_to_compile: Vec::new(),
            modules_compiled: Vec::new(),
            print_source: arguments.print_source,
            home_directory,
            source_directory,
            output_directory,
            module_being_processed: Vec::new(),
            tnk_std_directory: Vec::new(),
            os: Os::Unix,
        };
        proof {
            broadcast use vstd::seq_lib::group_seq_properties;

            assert(main.to_compile() =~= Set::<(Seq<char>, bool)>::empty());
            assert(main.compiled() =~= Set::<Seq<char>>::empty());
        }
        let mut i: usize = 0;
        while i < arguments.source_files.len()
            invariant
                i <= arguments.source_files@.len(),
                arguments.source_files@ == old(arguments).source_files@,
                main.home_directory@ == match old(arguments).home_directory {
                    Some(h) => h@,
                    None => current_directory.unwrap()@,
                },
                main.print_source == old(arguments).print_source,
                directories_chosen(main, *old(arguments)),
                main.wf(),
                main.compiled() == Set::<Seq<char>>::empty(),
                main.to_compile() == arguments.source_files@.take(i as int).map_values(|m: (Vec<char>, bool)| module_model(m)).to_set(),
            decreases arguments.source_files@.len() - i,
        {
            let path = clone_chars(&arguments.source_files[i].0);
            let is_entrypoint = arguments.source_files[i].1;
            main.add_module_to_compile((path, is_entrypoint));
            proof {
                broadcast use vstd::seq_lib::group_seq_properties;

                let s = arguments.source_files@;
                assert(s.take(i + 1).map_values(|m: (Vec<char>, bool)| module_model(m)) =~= s.take(i as int).map_values(
                    |m: (Vec<char>, bool)| module_model(m),
                ).push(module_model(s[i as int])));
                assert(s.take(i + 1).map_values(|m: (Vec<char>, bool)| module_model(m)).to_set() =~= s.take(i as int).map_values(
                    |m: (Vec<char>, bool)| module_model(m),
                ).to_set().insert(module_model(s[i as int])));
            }
            i = i + 1;
        }
        proof {
            broadcast use vstd::seq_lib::group_seq_properties;

            assert(arguments.source_files@.take(arguments.source_files@.len() as int) =~= arguments.source_files@);
        }
        Ok(main)
    }

    /// Whether a module's path is among those compiled.
    fn is_compiled(&self, path: &Vec<char>) -> (r: bool)
        ensures
            r == self.compiled().contains(path@),
    {
        let mut i: usize = 0;
        while i < self.modules_compiled.len()
            invariant
                i <= self.modules_compiled@.len(),
                forall|j: int| 0 <= j < i ==> (#[trigger] self.modules_compiled@[j])@ != path@,
            decreases self.modules_compiled@.len() - i,
        {
            if chars_eq(self.modules_compiled[i].as_slice(), path.as_slice()) {
                proof {
            broadcast use vstd::seq_lib::group_seq_properties;

                    assert(self.modules_compiled@.map_values(|p: Vec<char>| p@)[i as int] == path@);
                }
                return true;
            }
            i = i + 1;
        }
        proof {
            broadcast use vstd::seq_lib::group_seq_properties;

            if self.compiled().contains(path@) {
                let j = self.modules_compiled@.map_values(|p: Vec<char>| p@).index_of(path@);
                assert(self.modules_compiled@[j]@ == path@);
            }
        }
        false
    }

    /// Adds a module to be compiled if it has not already been added to the list or has been compiled.
    pub fn add_module_to_compile(&mut self, module_file_path: (Vec<char>, bool))
        requires
            old(self).wf(),
        ensures
            final(self).wf(),
            final(self).compiled() == old(self).compiled(),
            final(self).to_compile() == if old(self).compiled().contains(module_file_path.0@) {
                old(self).to_compile()
            } else {
                old(self).to_compile().insert(module_model(module_file_path))
            },
            final(self).print_source == old(self).print_source,
            final(self).home_directory == old(self).home_directory,
            final(self).source_directory == old(self).source_directory,
            final(self).output_directory == old(self).output_directory,
            final(self).module_being_processed == old(self).module_being_processed,
            final(self).tnk_std_directory == old(self).tnk_std_directory,
            final(self).os == old(self).os,
    {
        if self.is_compiled(&module_file_path.0) {
            return;
        }
        let mut i: usize = 0;
        while i < self.modules_to_compile.len()
            invariant
                i <= self.modules_to_compile@.len(),
                *self == *old(self),
                old(self).wf(),
                !old(self).compiled().contains(module_file_path.0@),
                forall|j: int| 0 <= j < i ==> module_model(#[trigger] self.modules_to_compile@[j]) != module_model(module_file_path),
            decreases self.modules_to_compile@.len() - i,
        {
            if self.modules_to_compile[i].1 == module_file_path.1 && chars_eq(
                self.modules_to_compile[i].0.as_slice(),
                module_file_path.0.as_slice(),
            ) {
                proof {
            broadcast use vstd::seq_lib::group_seq_properties;

                    assert(self.modules_to_compile@.map_values(|m: (Vec<char>, bool)| module_model(m))[i as int] == module_model(
                        module_file_path,
                    ));
                    assert(self.to_compile().insert(module_model(module_file_path)) =~= self.to_compile());
                }
                return;
            }
            i = i + 1;
        }
        let ghost before = self.modules_to_compile@;
        self.modules_to_compile.push(module_file_path);
        proof {
            broadcast use vstd::seq_lib::group_seq_properties;

            assert(self.modules_to_compile@.map_values(|m: (Vec<char>, bool)| module_model(m)) =~= before.map_values(
                |m: (Vec<char>, bool)| module_model(m),
            ).push(module_model(module_file_path)));
            assert(self.to_compile() =~= old(self).to_compile().insert(module_model(module_file_path)));
        }
    }

    /// Takes a module to compile, if any is left, and counts its path as compiled.
    pub fn take_module_to_compile(&mut self) -> (r: Option<(Vec<char>, bool)>)
        requires
            old(self).wf(),
        ensures
            final(self).wf(),
            match r {
                None => old(self).to_compile().is_empty() && *final(self) == *old(self),
                Some(m) => {
                    &&& old(self).to_compile().contains(module_model(m))
                    &&& final(self).to_compile() == old(self).to_compile().remove(module_model(m))
                    &&& final(self).compiled() == old(self).compiled().insert(m.0@)
                },
            },
            final(self).print_source == old(self).print_source,
            final(self).home_directory == old(self).home_directory,
            final(self).source_directory == old(self).source_directory,
            final(self).output_directory == old(self).output_directory,
    {
        if self.modules_to_compile.len() == 0 {
            proof {
                broadcast use vstd::seq_lib::group_seq_properties;

                assert(self.to_compile() =~= Set::<(Seq<char>, bool)>::empty());
            }
            return None;
        }
        let module = match self.modules_to_compile.pop() {
            Some(module) => module,
            None => return None,
        };
        proof {
            broadcast use vstd::seq_lib::group_seq_properties;

            let all = old(self).modules_to_compile@.map_values(|m: (Vec<char>, bool)| module_model(m));
            let rest = self.modules_to_compile@.map_values(|m: (Vec<char>, bool)| module_model(m));
            assert(all =~= rest.push(module_model(module)));
            assert(all[all.len() - 1] == module_model(module));
            assert(!rest.contains(module_model(module))) by {
                if rest.contains(module_model(module)) {
                    let j = rest.index_of(module_model(module));
                    assert(module_model(old(self).modules_to_compile@[j]) == module_model(old(self).modules_to_compile@[all.len() - 1]));
                }
            }
            assert(self.to_compile() =~= old(self).to_compile().remove(module_model(module)));
        }
        let is_compiled = self.is_compiled(&module.0);
        if !is_compiled {
            let ghost before = self.modules_compiled@;
            self.modules_compiled.push(clone_chars(&module.0));
            proof {
            broadcast use vstd::seq_lib::group_seq_properties;

                assert(self.modules_compiled@.map_values(|p: Vec<char>| p@) =~= before.map_values(|p: Vec<char>| p@).push(module.0@));
                assert(self.compiled() =~= old(self).compiled().insert(module.0@));
                assert forall|i: int, j: int| 0 <= i < j < self.modules_compiled@.len() implies (#[trigger] self.modules_compiled@[i])@
                    != (#[trigger] self.modules_compiled@[j])@ by {
                    if j == self.modules_compiled@.len() - 1 {
                        assert(before.map_values(|p: Vec<char>| p@)[i] == before[i]@);
                    }
                }
            }
        } else {
            proof {
            broadcast use vstd::seq_lib::group_seq_properties;

                assert(self.compiled() =~= old(self).compiled().insert(module.0@));
            }
        }
        Some(module)
    }
}

} // verus!
