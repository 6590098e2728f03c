use vstd::prelude::*;

use crate::programming_languages::c::statement::CCompoundStatement;
use crate::programming_languages::c::types::CType;
use crate::programming_languages::c::{concat, join, lemma_concat_take, lemma_join_take, push_text};
use crate::text::{push_chars, push_str};
use crate::traits::ast_node::{deeper, node_line, push_node_line};

verus! {

/// An element at the top level of a C module.
#[derive(Debug)]
pub enum CModuleElement {
    FunctionDefinition { return_type: CType, name: Vec<char>, parameters: Vec<CFunctionParameter>, body: Box<CCompoundStatement> },
    FunctionDeclaration { return_type: CType, name: Vec<char>, parameters: Vec<CFunctionParameter> },
    AngleIncludeInHeader(Vec<char>),
    DoubleQuotesIncludeInHeader(Vec<char>),
    AngleIncludeInMain(Vec<char>),
    DoubleQuotesIncludeInMain(Vec<char>),
}

/// A parameter of a C function: its type and name. An empty name declares the type alone.
#[derive(Debug)]
pub struct CFunctionParameter {
    param_type: CType,
    name: Vec<char>,
}

impl CFunctionParameter {
    pub closed spec fn spec_param_type(&self) -> CType {
        self.param_type
    }

    pub closed spec fn spec_name(&self) -> Seq<char> {
        self.name@
    }

    pub fn new(param_type: CType, name: Vec<char>) -> (r: Self)
        ensures
            r.spec_param_type() == param_type,
            r.spec_name() == name@,
    {
        CFunctionParameter { param_type, name }
    }

    /// The C text of the parameter.
    pub open spec fn render(&self, indent: nat) -> Seq<char> {
        if self.spec_name().len() == 0 {
            self.spec_param_type().render(indent)
        } else {
            self.spec_param_type().render_with_name(indent, self.spec_name())
        }
    }

    /// Appends the C text of the parameter.
    pub fn write_to_file(&self, out: &mut Vec<char>, indent: usize)
        requires
            indent < usize::MAX,
        ensures
            final(out)@ == old(out)@ + self.render(indent as nat),
    {
        if self.name.len() == 0 {
            self.param_type.write_to_file(out, indent);
        } else {
            self.param_type.write_to_file_with_name(out, indent, &self.name);
        }
    }
}

/// The C texts of a sequence of parameters.
pub open spec fn render_parameters(ps: Seq<CFunctionParameter>, indent: nat) -> Seq<Seq<char>> {
    Seq::new(ps.len(), |i: int| ps[i].render(indent))
}

/// The text of a function's head: return type, name and parameters.
pub open spec fn function_head(return_type: CType, name: Seq<char>, parameters: Seq<CFunctionParameter>, indent: nat) -> Seq<char> {
    return_type.render(indent) + " "@ + name + "("@ + join(render_parameters(parameters, indent), ", "@)
}

impl CModuleElement {
    /// How deeply blocks are nested in the element.
    pub open spec fn depth(&self) -> nat {
        match self {
            CModuleElement::FunctionDefinition { body, .. } => body.depth(),
            _ => 0,
        }
    }

    /// The C text of the element in the module's source file.
    pub open spec fn render(&self, indent: nat) -> Seq<char> {
        match self {
            CModuleElement::FunctionDefinition { return_type, name, parameters, body } => function_head(
                *return_type,
                name@,
                parameters@,
                indent,
            ) + ") "@ + body.render(indent),
            CModuleElement::AngleIncludeInMain(name) => "#include <"@ + name@ + ">"@,
            CModuleElement::DoubleQuotesIncludeInMain(name) => "#include \""@ + name@ + "\""@,
            _ => Seq::empty(),
        }
    }

    /// The C text of the element in the module's header file.
    pub open spec fn render_header(&self, indent: nat) -> Seq<char> {
        match self {
            CModuleElement::FunctionDefinition { return_type, name, parameters, .. } => function_head(
                *return_type,
                name@,
                parameters@,
                indent,
            ) + ");"@,
            CModuleElement::FunctionDeclaration { return_type, name, parameters } => function_head(
                *return_type,
                name@,
                parameters@,
                indent,
            ) + ");"@,
            CModuleElement::AngleIncludeInHeader(name) => "#include <"@ + name@ + ">"@,
            CModuleElement::DoubleQuotesIncludeInHeader(name) => "#include \""@ + name@ + "\""@,
            _ => Seq::empty(),
        }
    }

    /// Appends a function's head.
    fn write_head(return_type: &CType, name: &Vec<char>, parameters: &Vec<CFunctionParameter>, out: &mut Vec<char>, indent: usize)
        requires
            indent < usize::MAX,
        ensures
            final(out)@ == old(out)@ + function_head(*return_type, name@, parameters@, indent as nat),
    {
        return_type.write_to_file(out, indent);
        push_str(out, " ");
        push_text(out, name);
        push_str(out, "(");
        let ghost start = out@;
        let ghost parts = render_parameters(parameters@, indent as nat);
        let mut i: usize = 0;
        while i < parameters.len()
            invariant
                i <= parameters@.len(),
                indent < usize::MAX,
                parts == render_parameters(parameters@, indent as nat),
                out@ == start + join(parts.take(i as int), ", "@),
            decreases parameters@.len() - i,
        {
            if i > 0 {
                push_str(out, ", ");
            }
            parameters[i].write_to_file(out, indent);
            proof {
                lemma_join_take(parts, ", "@, i as int);
            }
            i = i + 1;
        }
        proof {
            assert(parts.take(parameters@.len() as int) =~= parts);
        }
    }

    /// Appends the C text of the element in the module's source file.
    pub fn write_to_file(&self, out: &mut Vec<char>, indent: usize)
        requires
            indent + self.depth() < usize::MAX,
        ensures
            final(out)@ == old(out)@ + self.render(indent as nat),
    {
        match self {
            CModuleElement::FunctionDefinition { return_type, name, parameters, body } => {
                CModuleElement::write_head(return_type, name, parameters, out, indent);
                push_str(out, ") ");
                body.write_to_file(out, indent);
            },
            CModuleElement::AngleIncludeInMain(name) => {
                push_str(out, "#include <");
                push_text(out, name);
                push_str(out, ">");
            },
            CModuleElement::DoubleQuotesIncludeInMain(name) => {
                push_str(out, "#include \"");
                push_text(out, name);
                push_str(out, "\"");
            },
            _ => {
                proof {
                    assert(out@ =~= old(out)@ + self.render(indent as nat));
                }
            },
        }
    }

    /// Appends the C text of the element in the module's header file.
    pub fn write_header_to_file(&self, out: &mut Vec<char>, indent: usize)
        requires
            indent < usize::MAX,
        ensures
            final(out)@ == old(out)@ + self.render_header(indent as nat),
    {
        match self {
            CModuleElement::FunctionDefinition { return_type, name, parameters, .. } => {
                CModuleElement::write_head(return_type, name, parameters, out, indent);
                push_str(out, ");");
            },
            CModuleElement::FunctionDeclaration { return_type, name, parameters } => {
                CModuleElement::write_head(return_type, name, parameters, out, indent);
                push_str(out, ");");
            },
            CModuleElement::AngleIncludeInHeader(name) => {
                push_str(out, "#include <");
                push_text(out, name);
                push_str(out, ">");
            },
            CModuleElement::DoubleQuotesIncludeInHeader(name) => {
                push_str(out, "#include \"");
                push_text(out, name);
                push_str(out, "\"");
            },
            _ => {
                proof {
                    assert(out@ =~= old(out)@ + self.render_header(indent as nat));
                }
            },
        }
    }
}

impl CFunctionParameter {
    /// The printed tree of the parameter: its name, then the tree of its type.
    pub open spec fn tree(&self, dashes: Seq<char>) -> Seq<char> {
        node_line(dashes, None, "Function Parameter \""@ + self.spec_name() + "\""@) + self.spec_param_type().tree(
            dashes.push('-'),
        )
    }

    /// Writes the printed tree of the parameter.
    pub fn print_tree(&self, out: &mut Vec<char>, dashes: &Vec<char>)
        ensures
            final(out)@ == old(out)@ + self.tree(dashes@),
    {
        let ghost start = out@;
        let mut name: Vec<char> = Vec::new();
        push_str(&mut name, "Function Parameter \"");
        push_chars(&mut name, self.name.as_slice());
        push_str(&mut name, "\"");
        push_node_line(out, dashes, None, name.as_slice());
        let below = deeper(dashes);
        self.param_type.print_tree(out, &below);
        proof {
            assert(out@ =~= start + self.tree(dashes@));
        }
    }
}

/// The printed tree of each parameter.
pub open spec fn parameter_tree_parts(ps: Seq<CFunctionParameter>, dashes: Seq<char>) -> Seq<Seq<char>> {
    Seq::new(ps.len(), |i: int| ps[i].tree(dashes))
}

/// Writes the printed trees of parameters, one after the other.
pub fn print_parameter_trees(ps: &Vec<CFunctionParameter>, out: &mut Vec<char>, dashes: &Vec<char>)
    ensures
        final(out)@ == old(out)@ + concat(parameter_tree_parts(ps@, dashes@)),
{
    let ghost start = out@;
    let ghost parts = parameter_tree_parts(ps@, dashes@);
    let mut i: usize = 0;
    while i < ps.len()
        invariant
            i <= ps@.len(),
            parts == parameter_tree_parts(ps@, dashes@),
            out@ == start + concat(parts.take(i as int)),
        decreases ps@.len() - i,
    {
        proof {
            lemma_concat_take(parts, i as int);
        }
        ps[i].print_tree(out, dashes);
        i = i + 1;
    }
    proof {
        assert(parts.take(ps@.len() as int) =~= parts);
    }
}

impl CModuleElement {
    /// The name of the element as it is printed.
    pub open spec fn spec_print_name(&self) -> Seq<char> {
        match self {
            CModuleElement::FunctionDefinition { name, .. } => "Function Definition \""@ + name@ + "\""@,
            CModuleElement::FunctionDeclaration { name, .. } => "Function Declaration \""@ + name@ + "\""@,
            CModuleElement::AngleIncludeInHeader(name) => "Include <"@ + name@ + "> in Header"@,
            CModuleElement::DoubleQuotesIncludeInHeader(name) => "Include \""@ + name@ + "\" in Header"@,
            CModuleElement::AngleIncludeInMain(name) => "Include <"@ + name@ + "> in Main"@,
            CModuleElement::DoubleQuotesIncludeInMain(name) => "Include \""@ + name@ + "\" in Main"@,
        }
    }

    /// The printed tree of the element: its line; for a function, the tree of its return type, an
    /// empty line, the trees of its parameters, and that of its body.
    pub open spec fn tree(&self, dashes: Seq<char>) -> Seq<char> {
        node_line(dashes, None, self.spec_print_name()) + match self {
            CModuleElement::FunctionDefinition { return_type, parameters, body, .. } => return_type.tree(dashes.push('-'))
                + "\n"@ + concat(parameter_tree_parts(parameters@, dashes.push('-'))) + body.tree(dashes.push('-')),
            CModuleElement::FunctionDeclaration { return_type, parameters, .. } => return_type.tree(dashes.push('-')) + "\n"@
                + concat(parameter_tree_parts(parameters@, dashes.push('-'))),
            _ => Seq::empty(),
        }
    }

    /// Writes the printed tree of the element.
    pub fn print_tree(&self, out: &mut Vec<char>, dashes: &Vec<char>)
        ensures
            final(out)@ == old(out)@ + self.tree(dashes@),
    {
        let ghost start = out@;
        let mut name: Vec<char> = Vec::new();
        match self {
            CModuleElement::FunctionDefinition { name: n, .. } => {
                push_str(&mut name, "Function Definition \"");
                push_chars(&mut name, n.as_slice());
                push_str(&mut name, "\"");
            },
            CModuleElement::FunctionDeclaration { name: n, .. } => {
                push_str(&mut name, "Function Declaration \"");
                push_chars(&mut name, n.as_slice());
                push_str(&mut name, "\"");
            },
            CModuleElement::AngleIncludeInHeader(n) => {
                push_str(&mut name, "Include <");
                push_chars(&mut name, n.as_slice());
                push_str(&mut name, "> in Header");
            },
            CModuleElement::DoubleQuotesIncludeInHeader(n) => {
                push_str(&mut name, "Include \"");
                push_chars(&mut name, n.as_slice());
                push_str(&mut name, "\" in Header");
            },
            CModuleElement::AngleIncludeInMain(n) => {
                push_str(&mut name, "Include <");
                push_chars(&mut name, n.as_slice());
                push_str(&mut name, "> in Main");
            },
            CModuleElement::DoubleQuotesIncludeInMain(n) => {
                push_str(&mut name, "Include \"");
                push_chars(&mut name, n.as_slice());
                push_str(&mut name, "\" in Main");
            },
        }
        proof {
            assert(name@ =~= self.spec_print_name());
        }
        push_node_line(out, dashes, None, name.as_slice());
        let below = deeper(dashes);
        match self {
            CModuleElement::FunctionDefinition { return_type, parameters, body, .. } => {
                return_type.print_tree(out, &below);
                push_str(out, "\n");
                print_parameter_trees(parameters, out, &below);
                body.print_tree(out, &below);
            },
            CModuleElement::FunctionDeclaration { return_type, parameters, .. } => {
                return_type.print_tree(out, &below);
                push_str(out, "\n");
                print_parameter_trees(parameters, out, &below);
            },
            _ => {},
        }
        proof {
            assert(out@ =~= start + self.tree(dashes@));
        }
    }
}

} // verus!
