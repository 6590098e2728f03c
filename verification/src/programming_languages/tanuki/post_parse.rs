//! The pass after parsing: the assignments at the top of a module become its global constants,
//! and its exports, imports, links and entrypoint are gathered.
use vstd::prelude::*;

use crate::error::{Error, ErrorAt};
use crate::programming_languages::tanuki::expression::{TanukiExpression, TanukiExpressionVariant};
use crate::programming_languages::tanuki::global_constant::TanukiGlobalConstant;
use crate::programming_languages::tanuki::import::TanukiImport;
use crate::programming_languages::tanuki::parse::TanukiModule;
use crate::text::{chars_eq, clone_chars, str_to_chars};

verus! {

/// A name a module exports, with where the export is written.
#[derive(Debug)]
pub struct TanukiExport {
    pub name: Vec<char>,
    pub start_line: usize,
    pub start_column: usize,
    pub end_line: usize,
    pub end_column: usize,
}

/// A function linked from a dynamic library: the name it is assigned to, the library's path, and
/// where the link is written.
#[derive(Debug)]
pub struct TanukiLink {
    pub name: Vec<char>,
    pub dynamic_library_path: Vec<char>,
    pub start_line: usize,
    pub start_column: usize,
    pub end_line: usize,
    pub end_column: usize,
}

/// A global constant, with its name as chars.
pub struct ConstantModel {
    pub name: Seq<char>,
    pub value: TanukiExpression,
    pub t_type: Option<TanukiExpression>,
    pub start_line: usize,
    pub start_column: usize,
    pub end_line: usize,
    pub end_column: usize,
    pub export: bool,
}

/// A name with a path (empty for an export) and the place it is written: start line, start
/// column, end line, end column.
pub struct NamedPlace {
    pub name: Seq<char>,
    pub path: Seq<char>,
    pub place: (usize, usize, usize, usize),
}

/// What the pass gathers of a module.
pub struct PostParseState {
    pub constants: Seq<Option<ConstantModel>>,
    pub exports: Seq<NamedPlace>,
    pub imports: Seq<NamedPlace>,
    pub links: Seq<NamedPlace>,
    pub entrypoint: Option<Seq<char>>,
}

/// Why the pass refuses an expression, with the line and column it reports.
pub enum PostParseError {
    ExpectedVariable(usize, usize),
    MultipleEntrypoints(usize, usize),
    UnassignedImport(usize, usize),
    UnassignedLink(usize, usize),
}

/// Whether an error is the one described.
pub open spec fn is_post_parse_error(e: ErrorAt, x: PostParseError) -> bool {
    match x {
        PostParseError::ExpectedVariable(l, c) => e.error is ExpectedVariable && e.line == Some(l) && e.column == Some(c),
        PostParseError::MultipleEntrypoints(l, c) => e.error is MultipleEntrypoints && e.line == Some(l) && e.column == Some(
            c,
        ),
        PostParseError::UnassignedImport(l, c) => e.error matches Error::Unimplemented(m) && m@
            == "Import that is not assigned to a name"@ && e.line == Some(l) && e.column == Some(c),
        PostParseError::UnassignedLink(l, c) => e.error matches Error::Unimplemented(m) && m@
            == "@link that is not assigned to a name"@ && e.line == Some(l) && e.column == Some(c),
    }
}

impl TanukiGlobalConstant {
    /// The constant, with its name as chars.
    pub open spec fn model(&self) -> ConstantModel {
        ConstantModel {
            name: self.name@,
            value: self.value_expression,
            t_type: self.t_type,
            start_line: self.start_line,
            start_column: self.start_column,
            end_line: self.end_line,
            end_column: self.end_column,
            export: self.export,
        }
    }
}

impl TanukiModule {
    /// What the pass has gathered of the module.
    pub open spec fn post_parse_state(&self) -> PostParseState {
        PostParseState {
            constants: Seq::new(
                self.global_constants@.len(),
                |i: int|
                    match self.global_constants@[i] {
                        Some(c) => Some(c.model()),
                        None => None,
                    },
            ),
            exports: Seq::new(
                self.exports@.len(),
                |i: int|
                    NamedPlace {
                        name: self.exports@[i].name@,
                        path: Seq::empty(),
                        place: (
                            self.exports@[i].start_line,
                            self.exports@[i].start_column,
                            self.exports@[i].end_line,
                            self.exports@[i].end_column,
                        ),
                    },
            ),
            imports: Seq::new(
                self.imports@.len(),
                |i: int|
                    NamedPlace {
                        name: self.imports@[i].name@,
                        path: self.imports@[i].module_file@,
                        place: (
                            self.imports@[i].start_line,
                            self.imports@[i].start_column,
                            self.imports@[i].end_line,
                            self.imports@[i].end_column,
                        ),
                    },
            ),
            links: Seq::new(
                self.links@.len(),
                |i: int|
                    NamedPlace {
                        name: self.links@[i].name@,
                        path: self.links@[i].dynamic_library_path@,
                        place: (
                            self.links@[i].start_line,
                            self.links@[i].start_column,
                            self.links@[i].end_line,
                            self.links@[i].end_column,
                        ),
                    },
            ),
            entrypoint: match self.entrypoint {
                Some(e) => Some(e@),
                None => None,
            },
        }
    }
}

/// The place an expression is written.
pub open spec fn place_of(e: TanukiExpression) -> (usize, usize, usize, usize) {
    (e.start_line, e.start_column, e.end_line, e.end_column)
}

/// The variable an assignment's left side names: its name, the type written before it, if any,
/// and the variable expression; or the error where it names none.
pub open spec fn assigned_variable(l: TanukiExpression) -> Result<
    (Seq<char>, Option<TanukiExpression>, TanukiExpression),
    PostParseError,
> {
    match l.variant {
        TanukiExpressionVariant::Variable(n) => Ok((n@, None, l)),
        TanukiExpressionVariant::TypeAndValue(t, v) => match v.variant {
            TanukiExpressionVariant::Variable(n) => Ok((n@, Some(*t), *v)),
            _ => Err(PostParseError::ExpectedVariable(v.start_line, v.end_column)),
        },
        _ => Err(PostParseError::ExpectedVariable(l.start_line, l.end_column)),
    }
}

/// The expression that an operand of `@export` or `@entrypoint` names, after the pass.
pub open spec fn variable_name(e: TanukiExpression) -> Option<Seq<char>> {
    match e.variant {
        TanukiExpressionVariant::Variable(n) => Some(n@),
        _ => None,
    }
}

/// The pass over an expression at the top of a module, or on the right of an assignment to
/// `assigned`: the expression it leaves, and what the module gathers, or why it is refused.
/// An assignment gathers a global constant (unless it assigns an import or a link) and leaves the
/// variable it assigns to; `@export` and `@entrypoint` gather the variable they name and leave
/// it; an import or a link assigned to a name is gathered under that name.
pub open spec fn post_parse_outcome(e: TanukiExpression, assigned: Option<Seq<char>>, s: PostParseState) -> (
    TanukiExpression,
    Result<PostParseState, PostParseError>,
)
    decreases e,
{
    match e.variant {
        TanukiExpressionVariant::Assignment(lhs, rhs) => {
            let (l, lr) = post_parse_outcome(*lhs, None, s);
            match lr {
                Err(x) => (e, Err(x)),
                Ok(s1) => match assigned_variable(l) {
                    Err(x) => (e, Err(x)),
                    Ok((name, t_type, variable)) => {
                        let (r, rr) = post_parse_outcome(*rhs, Some(name), s1);
                        match rr {
                            Err(x) => (e, Err(x)),
                            Ok(s2) => (
                                variable,
                                Ok(
                                    if r.variant is ImportConstant || r.variant is Link {
                                        s2
                                    } else {
                                        PostParseState {
                                            constants: s2.constants.push(
                                                Some(
                                                    ConstantModel {
                                                        name,
                                                        value: r,
                                                        t_type,
                                                        start_line: lhs.start_line,
                                                        start_column: lhs.start_column,
                                                        end_line: rhs.end_line,
                                                        end_column: rhs.end_column,
                                                        export: false,
                                                    },
                                                ),
                                            ),
                                            exports: s2.exports,
                                            imports: s2.imports,
                                            links: s2.links,
                                            entrypoint: s2.entrypoint,
                                        }
                                    },
                                ),
                            ),
                        }
                    },
                },
            }
        },
        TanukiExpressionVariant::Export(o) => {
            let (oe, or) = post_parse_outcome(*o, None, s);
            match or {
                Err(x) => (e, Err(x)),
                Ok(s1) => match variable_name(oe) {
                    Some(n) => (
                        oe,
                        Ok(
                            PostParseState {
                                constants: s1.constants,
                                exports: s1.exports.push(NamedPlace { name: n, path: Seq::empty(), place: place_of(e) }),
                                imports: s1.imports,
                                links: s1.links,
                                entrypoint: s1.entrypoint,
                            },
                        ),
                    ),
                    None => (e, Err(PostParseError::ExpectedVariable(e.start_line, e.start_column))),
                },
            }
        },
        TanukiExpressionVariant::Entrypoint(o) => {
            let (oe, or) = post_parse_outcome(*o, None, s);
            match or {
                Err(x) => (e, Err(x)),
                Ok(s1) => match variable_name(oe) {
                    Some(n) => if s1.entrypoint is Some && s1.entrypoint.unwrap() != n {
                        (e, Err(PostParseError::MultipleEntrypoints(e.start_line, e.start_column)))
                    } else {
                        (
                            oe,
                            Ok(
                                PostParseState {
                                    constants: s1.constants,
                                    exports: s1.exports,
                                    imports: s1.imports,
                                    links: s1.links,
                                    entrypoint: Some(n),
                                },
                            ),
                        )
                    },
                    None => (e, Err(PostParseError::ExpectedVariable(e.start_line, e.start_column))),
                },
            }
        },
        TanukiExpressionVariant::ImportConstant { module_file, .. } => match assigned {
            Some(a) => (
                e,
                Ok(
                    PostParseState {
                        constants: s.constants,
                        exports: s.exports,
                        imports: s.imports.push(NamedPlace { name: a, path: module_file@, place: place_of(e) }),
                        links: s.links,
                        entrypoint: s.entrypoint,
                    },
                ),
            ),
            None => (e, Err(PostParseError::UnassignedImport(e.start_line, e.start_column))),
        },
        TanukiExpressionVariant::Link { library_path, .. } => match assigned {
            Some(a) => (
                e,
                Ok(
                    PostParseState {
                        constants: s.constants,
                        exports: s.exports,
                        imports: s.imports,
                        links: s.links.push(NamedPlace { name: a, path: library_path@, place: place_of(e) }),
                        entrypoint: s.entrypoint,
                    },
                ),
            ),
            None => (e, Err(PostParseError::UnassignedLink(e.start_line, e.start_column))),
        },
        _ => (e, Ok(s)),
    }
}

/// The pass over the expressions of a module, one after the other.
pub open spec fn post_parse_all(es: Seq<TanukiExpression>, s: PostParseState) -> Result<PostParseState, PostParseError>
    decreases es.len(),
{
    if es.len() == 0 {
        Ok(s)
    } else {
        match post_parse_all(es.drop_last(), s) {
            Ok(s1) => post_parse_outcome(es.last(), None, s1).1,
            Err(x) => Err(x),
        }
    }
}

/// The chars of an optional name.
pub open spec fn name_view(name: Option<&Vec<char>>) -> Option<Seq<char>> {
    match name {
        Some(n) => Some(n@),
        None => None,
    }
}

/// The pass over an expression that is not an assignment, `@export` or `@entrypoint`: an import or
/// a link assigned to a name is gathered under it.
fn post_parse_leaf(e: &TanukiExpression, module: &mut TanukiModule, assigned: Option<&Vec<char>>) -> (r: Result<(), ErrorAt>)
    requires
        !(e.variant is Assignment || e.variant is Export || e.variant is Entrypoint),
    ensures
        ({
            let (_, res) = post_parse_outcome(*e, name_view(assigned), old(module).post_parse_state());
            &&& r is Ok <==> res is Ok
            &&& r is Ok ==> final(module).post_parse_state() == res->Ok_0
            &&& r matches Err(x) ==> is_post_parse_error(x, res->Err_0)
        }),
        final(module).parsed_expressions == old(module).parsed_expressions,
{
    let ghost s = module.post_parse_state();
    match &e.variant {
        TanukiExpressionVariant::ImportConstant { module_file, .. } => match assigned {
            Some(a) => {
                module.imports.push(
                    TanukiImport {
                        name: clone_chars(a),
                        module_file: clone_chars(module_file),
                        start_line: e.start_line,
                        start_column: e.start_column,
                        end_line: e.end_line,
                        end_column: e.end_column,
                    },
                );
                proof {
                    assert(module.post_parse_state().imports =~= s.imports.push(
                        NamedPlace { name: a@, path: module_file@, place: place_of(*e) },
                    ));
                    assert(module.post_parse_state().constants =~= s.constants);
                    assert(module.post_parse_state().exports =~= s.exports);
                    assert(module.post_parse_state().links =~= s.links);
                }
                Ok(())
            },
            None => Err(
                Error::Unimplemented(str_to_chars("Import that is not assigned to a name")).at(
                    Some(e.start_line),
                    Some(e.start_column),
                    None,
                ),
            ),
        },
        TanukiExpressionVariant::Link { library_path, .. } => match assigned {
            Some(a) => {
                module.links.push(
                    TanukiLink {
                        name: clone_chars(a),
                        dynamic_library_path: clone_chars(library_path),
                        start_line: e.start_line,
                        start_column: e.start_column,
                        end_line: e.end_line,
                        end_column: e.end_column,
                    },
                );
                proof {
                    assert(module.post_parse_state().links =~= s.links.push(
                        NamedPlace { name: a@, path: library_path@, place: place_of(*e) },
                    ));
                    assert(module.post_parse_state().constants =~= s.constants);
                    assert(module.post_parse_state().exports =~= s.exports);
                    assert(module.post_parse_state().imports =~= s.imports);
                }
                Ok(())
            },
            None => Err(
                Error::Unimplemented(str_to_chars("@link that is not assigned to a name")).at(
                    Some(e.start_line),
                    Some(e.start_column),
                    None,
                ),
            ),
        },
        _ => {
            proof {
                assert(module.post_parse_state() == s);
            }
            Ok(())
        },
    }
}

/// The pass over an expression that is taken: the expression it leaves, and whether it was
/// refused.
fn post_parse_owned(e: TanukiExpression, module: &mut TanukiModule, assigned: Option<&Vec<char>>) -> (r: (
    TanukiExpression,
    Result<(), ErrorAt>,
))
    ensures
        ({
            let (expected, res) = post_parse_outcome(e, name_view(assigned), old(module).post_parse_state());
            &&& r.1 is Ok <==> res is Ok
            &&& r.1 is Ok ==> r.0 == expected && final(module).post_parse_state() == res->Ok_0
            &&& r.1 matches Err(x) ==> is_post_parse_error(x, res->Err_0)
        }),
        final(module).parsed_expressions == old(module).parsed_expressions,
    decreases e, 1nat,
{
    let is_assignment = match &e.variant {
        TanukiExpressionVariant::Assignment(..) => true,
        _ => false,
    };
    if is_assignment {
        return post_parse_assignment(e, module);
    }
    let start_line = e.start_line;
    let start_column = e.start_column;
    let end_line = e.end_line;
    let end_column = e.end_column;
    match e.variant {
        TanukiExpressionVariant::Export(o) => {
            let (oe, or) = post_parse_owned(*o, module, None);
            match or {
                Err(x) => return (oe, Err(x)),
                Ok(()) => {},
            }
            let ghost s1 = module.post_parse_state();
            let name = match &oe.variant {
                TanukiExpressionVariant::Variable(n) => clone_chars(n),
                _ => return (oe, Err(Error::ExpectedVariable.at(Some(start_line), Some(start_column), None))),
            };
            module.exports.push(TanukiExport { name, start_line, start_column, end_line, end_column });
            proof {
                assert(module.post_parse_state().exports =~= s1.exports.push(
                    NamedPlace { name: name@, path: Seq::empty(), place: (start_line, start_column, end_line, end_column) },
                ));
                assert(module.post_parse_state().constants =~= s1.constants);
                assert(module.post_parse_state().imports =~= s1.imports);
                assert(module.post_parse_state().links =~= s1.links);
            }
            (oe, Ok(()))
        },
        TanukiExpressionVariant::Entrypoint(o) => {
            let (oe, or) = post_parse_owned(*o, module, None);
            match or {
                Err(x) => return (oe, Err(x)),
                Ok(()) => {},
            }
            let ghost s1 = module.post_parse_state();
            let name = match &oe.variant {
                TanukiExpressionVariant::Variable(n) => clone_chars(n),
                _ => return (oe, Err(Error::ExpectedVariable.at(Some(start_line), Some(start_column), None))),
            };
            let clashes = match &module.entrypoint {
                Some(current) => !chars_eq(current.as_slice(), name.as_slice()),
                None => false,
            };
            if clashes {
                return (oe, Err(Error::MultipleEntrypoints.at(Some(start_line), Some(start_column), None)));
            }
            module.entrypoint = Some(name);
            proof {
                assert(module.post_parse_state().constants =~= s1.constants);
                assert(module.post_parse_state().exports =~= s1.exports);
                assert(module.post_parse_state().imports =~= s1.imports);
                assert(module.post_parse_state().links =~= s1.links);
            }
            (oe, Ok(()))
        },
        other => {
            let e = TanukiExpression { variant: other, start_line, start_column, end_line, end_column };
            let r = post_parse_leaf(&e, module, assigned);
            (e, r)
        },
    }
}

/// The pass over an assignment: the left side must name a variable, which the right side is
/// assigned to; the assignment becomes a global constant, unless it assigns an import or a link.
fn post_parse_assignment(e: TanukiExpression, module: &mut TanukiModule) -> (r: (TanukiExpression, Result<(), ErrorAt>))
    requires
        e.variant is Assignment,
    ensures
        ({
            let (expected, res) = post_parse_outcome(e, None, old(module).post_parse_state());
            &&& r.1 is Ok <==> res is Ok
            &&& r.1 is Ok ==> r.0 == expected && final(module).post_parse_state() == res->Ok_0
            &&& r.1 matches Err(x) ==> is_post_parse_error(x, res->Err_0)
        }),
        final(module).parsed_expressions == old(module).parsed_expressions,
    decreases e, 0nat,
{
    let ghost whole = e;
    let (lhs, rhs) = match e.variant {
        TanukiExpressionVariant::Assignment(lhs, rhs) => (lhs, rhs),
        _ => return (TanukiExpression::default(), Ok(())),
    };
    let lhs_start_line = lhs.start_line;
    let lhs_start_column = lhs.start_column;
    let rhs_end_line = rhs.end_line;
    let rhs_end_column = rhs.end_column;
    proof {
        assert(decreases_to!(whole => whole.variant));
        assert(decreases_to!(whole.variant => *lhs));
        assert(decreases_to!(whole.variant => *rhs));
    }
    let (l, lr) = post_parse_owned(*lhs, module, None);
    match lr {
        Err(x) => return (l, Err(x)),
        Ok(()) => {},
    }
    let ghost l_whole = l;
    let l_start_line = l.start_line;
    let l_start_column = l.start_column;
    let l_end_line = l.end_line;
    let l_end_column = l.end_column;
    let named: Result<(Vec<char>, Option<TanukiExpression>, TanukiExpression), ErrorAt> = match l.variant {
        TanukiExpressionVariant::Variable(n) => {
            let name = clone_chars(&n);
            Ok(
                (
                    name,
                    None,
                    TanukiExpression {
                        variant: TanukiExpressionVariant::Variable(n),
                        start_line: l_start_line,
                        start_column: l_start_column,
                        end_line: l_end_line,
                        end_column: l_end_column,
                    },
                ),
            )
        },
        TanukiExpressionVariant::TypeAndValue(t, v) => {
            let name = match &v.variant {
                TanukiExpressionVariant::Variable(n) => Some(clone_chars(n)),
                _ => None,
            };
            match name {
                Some(name) => Ok((name, Some(*t), *v)),
                None => Err(Error::ExpectedVariable.at(Some(v.start_line), Some(v.end_column), None)),
            }
        },
        _ => Err(Error::ExpectedVariable.at(Some(l_start_line), Some(l_end_column), None)),
    };
    let (name, t_type, variable) = match named {
        Ok(named) => named,
        Err(x) => return (TanukiExpression::default(), Err(x)),
    };
    proof {
        assert(assigned_variable(l_whole) == Ok::<(Seq<char>, Option<TanukiExpression>, TanukiExpression), PostParseError>(
            (name@, t_type, variable),
        ));
    }
    let ghost rhs_whole = *rhs;
    let (r, rr) = post_parse_owned(*rhs, module, Some(&name));
    match rr {
        Err(x) => return (variable, Err(x)),
        Ok(()) => {},
    }
    let ghost s2 = module.post_parse_state();
    let gathered = match &r.variant {
        TanukiExpressionVariant::ImportConstant { .. } => true,
        TanukiExpressionVariant::Link { .. } => true,
        _ => false,
    };
    if !gathered {
        module.global_constants.push(
            Some(
                TanukiGlobalConstant {
                    value_expression: r,
                    name,
                    t_type,
                    start_line: lhs_start_line,
                    start_column: lhs_start_column,
                    end_line: rhs_end_line,
                    end_column: rhs_end_column,
                    export: false,
                },
            ),
        );
        proof {
            assert(module.post_parse_state().constants =~= s2.constants.push(
                Some(
                    ConstantModel {
                        name: name@,
                        value: r,
                        t_type,
                        start_line: lhs_start_line,
                        start_column: lhs_start_column,
                        end_line: rhs_end_line,
                        end_column: rhs_end_column,
                        export: false,
                    },
                ),
            ));
            assert(module.post_parse_state().exports =~= s2.exports);
            assert(module.post_parse_state().imports =~= s2.imports);
            assert(module.post_parse_state().links =~= s2.links);
        }
    }
    (variable, Ok(()))
}

impl TanukiExpression {
    /// The pass over an expression at the top of a module (`assigned_to_name` is `None`), or on
    /// the right of an assignment to `assigned_to_name`; what it gathers goes to `module`.
    pub fn post_parse(&mut self, module: &mut TanukiModule, assigned_to_name: Option<&Vec<char>>) -> (r: Result<(), ErrorAt>)
        ensures
            ({
                let (expected, res) = post_parse_outcome(*old(self), name_view(assigned_to_name), old(module).post_parse_state());
                &&& r is Ok <==> res is Ok
                &&& r is Ok ==> *final(self) == expected && final(module).post_parse_state() == res->Ok_0
                &&& r matches Err(x) ==> is_post_parse_error(x, res->Err_0)
            }),
            final(module).parsed_expressions == old(module).parsed_expressions,
    {
        let mut taken = TanukiExpression::default();
        std::mem::swap(self, &mut taken);
        let (left, r) = post_parse_owned(taken, module, assigned_to_name);
        *self = left;
        r
    }
}

impl TanukiModule {
    /// The pass over the module's expressions, one after the other: their assignments become
    /// global constants, and their exports, imports, links and entrypoint are gathered. The
    /// expressions are used up.
    pub fn post_parse(&mut self) -> (r: Result<(), ErrorAt>)
        ensures
            final(self).parsed_expressions@.len() == 0,
            r is Ok <==> post_parse_all(old(self).parsed_expressions@, old(self).post_parse_state()) is Ok,
            r is Ok ==> final(self).post_parse_state() == post_parse_all(
                old(self).parsed_expressions@,
                old(self).post_parse_state(),
            )->Ok_0,
            r matches Err(x) ==> is_post_parse_error(
                x,
                post_parse_all(old(self).parsed_expressions@, old(self).post_parse_state())->Err_0,
            ),
    {
        let mut expressions: Vec<TanukiExpression> = Vec::new();
        std::mem::swap(&mut self.parsed_expressions, &mut expressions);
        let ghost es = expressions@;
        let ghost s0 = old(self).post_parse_state();
        proof {
            assert(self.post_parse_state() == s0);
        }
        let mut i: usize = 0;
        while i < expressions.len()
            invariant
                i <= es.len(),
                es == old(self).parsed_expressions@,
                s0 == old(self).post_parse_state(),
                expressions@.len() == es.len(),
                forall|j: int| i <= j < es.len() ==> expressions@[j] == es[j],
                self.parsed_expressions@.len() == 0,
                post_parse_all(es.take(i as int), s0) == Ok::<PostParseState, PostParseError>(self.post_parse_state()),
            decreases es.len() - i,
        {
            let mut taken = TanukiExpression::default();
            std::mem::swap(&mut expressions[i], &mut taken);
            proof {
                assert(es.take(i + 1).drop_last() =~= es.take(i as int));
                assert(es.take(i + 1).last() == taken);
            }
            let (_, r) = post_parse_owned(taken, self, None);
            match r {
                Err(x) => {
                    proof {
                        lemma_post_parse_all_stops(es, i as int, s0);
                    }
                    return Err(x);
                },
                Ok(()) => {},
            }
            i = i + 1;
        }
        proof {
            assert(es.take(es.len() as int) =~= es);
        }
        Ok(())
    }
}

/// Once the pass refuses an expression, it refuses the module.
proof fn lemma_post_parse_all_stops(es: Seq<TanukiExpression>, i: int, s: PostParseState)
    requires
        0 <= i < es.len(),
        post_parse_all(es.take(i + 1), s) is Err,
    ensures
        post_parse_all(es, s) == post_parse_all(es.take(i + 1), s),
    decreases es.len() - i,
{
    if i + 1 < es.len() {
        assert(es.take(i + 2).drop_last() =~= es.take(i + 1));
        lemma_post_parse_all_stops(es, i + 1, s);
    } else {
        assert(es.take(i + 1) =~= es);
    }
}

/// Whether a state holds all that another holds, in the same order, and perhaps more after it.
pub open spec fn extends(later: PostParseState, earlier: PostParseState) -> bool {
    &&& earlier.constants.is_prefix_of(later.constants)
    &&& earlier.exports.is_prefix_of(later.exports)
    &&& earlier.imports.is_prefix_of(later.imports)
    &&& earlier.links.is_prefix_of(later.links)
    &&& earlier.entrypoint is Some ==> later.entrypoint == earlier.entrypoint
}

proof fn lemma_extends_transitive(a: PostParseState, b: PostParseState, c: PostParseState)
    requires
        extends(b, a),
        extends(c, b),
    ensures
        extends(c, a),
{
    assert(a.constants.is_prefix_of(c.constants)) by {
        assert forall|i: int| 0 <= i < a.constants.len() implies a.constants[i] == c.constants[i] by {
            assert(a.constants[i] == b.constants[i]);
        }
    }
    assert(a.exports.is_prefix_of(c.exports)) by {
        assert forall|i: int| 0 <= i < a.exports.len() implies a.exports[i] == c.exports[i] by {
            assert(a.exports[i] == b.exports[i]);
        }
    }
    assert(a.imports.is_prefix_of(c.imports)) by {
        assert forall|i: int| 0 <= i < a.imports.len() implies a.imports[i] == c.imports[i] by {
            assert(a.imports[i] == b.imports[i]);
        }
    }
    assert(a.links.is_prefix_of(c.links)) by {
        assert forall|i: int| 0 <= i < a.links.len() implies a.links[i] == c.links[i] by {
            assert(a.links[i] == b.links[i]);
        }
    }
}

proof fn lemma_outcome_extends(e: TanukiExpression, assigned: Option<Seq<char>>, s: PostParseState)
    ensures
        post_parse_outcome(e, assigned, s).1 matches Ok(s1) ==> extends(s1, s),
    decreases e,
{
    match e.variant {
        TanukiExpressionVariant::Assignment(lhs, rhs) => {
            lemma_outcome_extends(*lhs, None, s);
            let (l, lr) = post_parse_outcome(*lhs, None, s);
            if let Ok(s1) = lr {
                if let Ok((name, t_type, variable)) = assigned_variable(l) {
                    lemma_outcome_extends(*rhs, Some(name), s1);
                    if let Ok(s2) = post_parse_outcome(*rhs, Some(name), s1).1 {
                        lemma_extends_transitive(s, s1, s2);
                    }
                }
            }
        },
        TanukiExpressionVariant::Export(o) => {
            lemma_outcome_extends(*o, None, s);
        },
        TanukiExpressionVariant::Entrypoint(o) => {
            lemma_outcome_extends(*o, None, s);
        },
        _ => {},
    }
}

/// The pass over a module only adds to what the module has gathered: every global constant,
/// export, import and link it had stays, in its place, and an entrypoint it had stays.
pub proof fn law_post_parse_keeps_what_was_gathered(es: Seq<TanukiExpression>, s: PostParseState)
    ensures
        post_parse_all(es, s) matches Ok(s1) ==> extends(s1, s),
    decreases es.len(),
{
    if es.len() > 0 {
        law_post_parse_keeps_what_was_gathered(es.drop_last(), s);
        if let Ok(s1) = post_parse_all(es.drop_last(), s) {
            lemma_outcome_extends(es.last(), None, s1);
            if let Ok(s2) = post_parse_outcome(es.last(), None, s1).1 {
                lemma_extends_transitive(s, s1, s2);
            }
        }
    }
}

} // verus!
