use vstd::prelude::*;

use crate::programming_languages::c::expression::CExpression;
use crate::programming_languages::c::types::CType;
use crate::programming_languages::c::{block_body, concat, lemma_concat_take, push_tabs, push_text, tabs};
use crate::text::{push_chars, push_str};
use crate::traits::ast_node::{deeper, node_line, push_node_line};

verus! {

/// A C statement.
#[derive(Debug)]
pub enum CStatement {
    CompoundStatement(CCompoundStatement),
    VariableDeclaration(CType, Vec<char>, Option<Box<CInitializer>>),
    Expression(CExpression),
    Comment(Vec<char>),
    If(Box<CExpression>, Box<CStatement>),
    While(Box<CExpression>, Box<CStatement>),
    Return(Option<Box<CExpression>>),
}

/// A block of statements between braces.
#[derive(Debug)]
pub struct CCompoundStatement {
    sub_statements: Vec<CStatement>,
}

/// The value a declared variable starts with.
#[derive(Debug)]
pub enum CInitializer {
    Expression(CExpression),
}

impl View for CCompoundStatement {
    type V = Seq<CStatement>;

    closed spec fn view(&self) -> Seq<CStatement> {
        self.sub_statements@
    }
}

/// The largest of a sequence of naturals, or 0 when it is empty.
pub open spec fn seq_max(s: Seq<nat>) -> nat
    decreases s.len(),
{
    if s.len() == 0 {
        0
    } else {
        let m = seq_max(s.drop_last());
        if s.last() > m {
            s.last()
        } else {
            m
        }
    }
}

pub proof fn lemma_seq_max(s: Seq<nat>)
    ensures
        forall|i: int| 0 <= i < s.len() ==> #[trigger] s[i] <= seq_max(s),
    decreases s.len(),
{
    if s.len() > 0 {
        lemma_seq_max(s.drop_last());
        assert forall|i: int| 0 <= i < s.len() implies #[trigger] s[i] <= seq_max(s) by {
            if i < s.len() - 1 {
                assert(s[i] == s.drop_last()[i]);
            }
        }
    }
}

impl CStatement {
    /// How deeply blocks are nested in the statement.
    pub open spec fn depth(&self) -> nat
        decreases self, 0int,
    {
        match self {
            CStatement::CompoundStatement(c) => c.depth(),
            CStatement::If(_, s) => s.depth(),
            CStatement::While(_, s) => s.depth(),
            _ => 0,
        }
    }

    /// The C text of the statement; blocks inside it are indented one level deeper than `indent`.
    pub open spec fn render(&self, indent: nat) -> Seq<char>
        decreases self, 0int,
    {
        match self {
            CStatement::CompoundStatement(c) => c.render(indent),
            CStatement::Expression(e) => e.render(indent) + ";"@,
            CStatement::VariableDeclaration(t, name, initializer) => t.render_with_name(indent, name@) + match initializer {
                Some(i) => " = "@ + i.render(indent),
                None => Seq::empty(),
            } + ";"@,
            CStatement::Comment(c) => "// "@ + c@,
            CStatement::If(c, s) => "if ("@ + c.render(indent) + ") "@ + s.render(indent),
            CStatement::While(c, s) => "while ("@ + c.render(indent) + ") "@ + s.render(indent),
            CStatement::Return(v) => "return"@ + match v {
                Some(e) => " "@ + e.render(indent),
                None => Seq::empty(),
            } + ";"@,
        }
    }
}

impl CCompoundStatement {
    /// How deeply blocks are nested in the block, itself included.
    pub open spec fn depth(&self) -> nat
        decreases self, 1int,
    {
        1 + seq_max(statement_depths(self@))
    }

    /// The C text of the block: each statement on a line of its own, indented one level deeper.
    pub open spec fn render(&self, indent: nat) -> Seq<char>
        decreases self, 1int,
    {
        "{"@ + block_body(render_statement_lines(self@, indent as nat + 1), indent) + "}"@
    }
}

/// The nesting depths of a sequence of statements.
pub open spec fn statement_depths(ss: Seq<CStatement>) -> Seq<nat>
    decreases ss, 0int,
{
    Seq::new(ss.len(), |i: int| if 0 <= i < ss.len() { ss[i].depth() } else { 0 })
}

/// The lines of a block's statements, each indented by `indent` tabs.
pub open spec fn render_statement_lines(ss: Seq<CStatement>, indent: nat) -> Seq<Seq<char>>
    decreases ss, 0int,
{
    Seq::new(ss.len(), |i: int| if 0 <= i < ss.len() { tabs(indent) + ss[i].render(indent) + "\n"@ } else { Seq::empty() })
}

impl CInitializer {
    /// The C text of the initial value.
    pub open spec fn render(&self, indent: nat) -> Seq<char> {
        match self {
            CInitializer::Expression(e) => e.render(indent),
        }
    }

    /// Appends the C text of the initial value.
    pub fn write_to_file(&self, out: &mut Vec<char>, indent: usize)
        requires
            indent < usize::MAX,
        ensures
            final(out)@ == old(out)@ + self.render(indent as nat),
    {
        match self {
            CInitializer::Expression(e) => e.write_to_file(out, indent),
        }
    }
}

impl CCompoundStatement {
    /// An empty block.
    pub fn new() -> (r: Self)
        ensures
            r@ == Seq::<CStatement>::empty(),
    {
        CCompoundStatement { sub_statements: Vec::new() }
    }

    /// Adds a statement at the end of the block.
    pub fn push_statement(&mut self, statement: CStatement)
        ensures
            final(self)@ == old(self)@.push(statement),
    {
        self.sub_statements.push(statement);
    }

    /// Appends the C text of the block.
    pub fn write_to_file(&self, out: &mut Vec<char>, indent: usize)
        requires
            indent + self.depth() < usize::MAX,
        ensures
            final(out)@ == old(out)@ + self.render(indent as nat),
        decreases self, 1int,
    {
        let ghost lines = render_statement_lines(self@, indent as nat + 1);
        proof {
            lemma_seq_max(statement_depths(self@));
        }
        push_str(out, "{");
        if self.sub_statements.len() > 0 {
            out.push('\n');
            let ghost start = out@;
            let mut i: usize = 0;
            while i < self.sub_statements.len()
                invariant
                    i <= self@.len(),
                    self.sub_statements@ == self@,
                    indent + self.depth() < usize::MAX,
                    lines == render_statement_lines(self@, indent as nat + 1),
                    lines.len() == self@.len(),
                    forall|j: int| 0 <= j < self@.len() ==> #[trigger] statement_depths(self@)[j] <= seq_max(statement_depths(self@)),
                    out@ == start + concat(lines.take(i as int)),
                decreases self@.len() - i,
            {
                assert(statement_depths(self@)[i as int] == self@[i as int].depth());
                push_tabs(out, indent + 1);
                proof {
                    vstd::std_specs::vec::axiom_vec_index_decreases(self.sub_statements, i as int);
                }
                self.sub_statements[i].write_to_file(out, indent + 1);
                push_str(out, "\n");
                proof {
                    lemma_concat_take(lines, i as int);
                    assert(lines[i as int] == tabs(indent as nat + 1) + self@[i as int].render(indent as nat + 1) + "\n"@);
                    assert(out@ =~= start + concat(lines.take(i + 1)));
                }
                i = i + 1;
            }
            push_tabs(out, indent);
            proof {
                assert(lines.take(self@.len() as int) =~= lines);
            }
        }
        push_str(out, "}");
    }
}

impl CStatement {
    /// Appends the C text of the statement.
    pub fn write_to_file(&self, out: &mut Vec<char>, indent: usize)
        requires
            indent + self.depth() < usize::MAX,
        ensures
            final(out)@ == old(out)@ + self.render(indent as nat),
        decreases self, 0int,
    {
        match self {
            CStatement::CompoundStatement(c) => c.write_to_file(out, indent),
            CStatement::Expression(e) => {
                e.write_to_file(out, indent);
                push_str(out, ";");
            },
            CStatement::VariableDeclaration(t, name, initializer) => {
                t.write_to_file_with_name(out, indent, name);
                match initializer {
                    Some(i) => {
                        push_str(out, " = ");
                        i.write_to_file(out, indent);
                    },
                    None => {},
                }
                push_str(out, ";");
            },
            CStatement::Comment(c) => {
                push_str(out, "// ");
                push_text(out, c);
            },
            CStatement::If(c, s) => {
                push_str(out, "if (");
                c.write_to_file(out, indent);
                push_str(out, ") ");
                s.write_to_file(out, indent);
            },
            CStatement::While(c, s) => {
                push_str(out, "while (");
                c.write_to_file(out, indent);
                push_str(out, ") ");
                s.write_to_file(out, indent);
            },
            CStatement::Return(v) => {
                push_str(out, "return");
                match v {
                    Some(e) => {
                        push_str(out, " ");
                        e.write_to_file(out, indent);
                    },
                    None => {},
                }
                push_str(out, ";");
            },
        }
    }
}

impl CStatement {
    /// The name of the statement as it is printed.
    pub open spec fn spec_print_name(&self) -> Seq<char> {
        match self {
            CStatement::CompoundStatement(_) => "Compound Statement"@,
            CStatement::VariableDeclaration(_, name, _) => "Variable Declaration \""@ + name@ + "\""@,
            CStatement::Expression(_) => "Expression"@,
            CStatement::Comment(comment) => "Comment \""@ + comment@ + "\""@,
            CStatement::If(_, _) => "If"@,
            CStatement::While(_, _) => "While"@,
            CStatement::Return(_) => "Return"@,
        }
    }

    /// The name of the statement as it is printed.
    pub fn print_name(&self) -> (r: Vec<char>)
        ensures
            r@ == self.spec_print_name(),
    {
        let mut out: Vec<char> = Vec::new();
        match self {
            CStatement::CompoundStatement(_) => push_str(&mut out, "Compound Statement"),
            CStatement::VariableDeclaration(_, name, _) => {
                push_str(&mut out, "Variable Declaration \"");
                push_chars(&mut out, name.as_slice());
                push_str(&mut out, "\"");
            },
            CStatement::Expression(_) => push_str(&mut out, "Expression"),
            CStatement::Comment(comment) => {
                push_str(&mut out, "Comment \"");
                push_chars(&mut out, comment.as_slice());
                push_str(&mut out, "\"");
            },
            CStatement::If(_, _) => push_str(&mut out, "If"),
            CStatement::While(_, _) => push_str(&mut out, "While"),
            CStatement::Return(_) => push_str(&mut out, "Return"),
        }
        proof {
            assert(out@ =~= self.spec_print_name());
        }
        out
    }

    /// The printed tree of the statement: its line, then the trees of what it holds.
    pub open spec fn tree(&self, dashes: Seq<char>) -> Seq<char>
        decreases self, 2nat,
    {
        node_line(dashes, None, self.spec_print_name()) + match self {
            CStatement::CompoundStatement(block) => block.tree(dashes.push('-')),
            CStatement::VariableDeclaration(t, _, initializer) => t.tree(dashes.push('-')) + match initializer {
                Some(i) => i.tree(dashes.push('-')),
                None => Seq::empty(),
            },
            CStatement::Expression(e) => e.tree(dashes.push('-')),
            CStatement::If(condition, body) => condition.tree(dashes.push('-')) + body.tree(dashes.push('-')),
            CStatement::While(condition, body) => condition.tree(dashes.push('-')) + body.tree(dashes.push('-')),
            CStatement::Return(Some(e)) => e.tree(dashes.push('-')),
            _ => Seq::empty(),
        }
    }

    /// Writes the printed tree of the statement.
    pub fn print_tree(&self, out: &mut Vec<char>, dashes: &Vec<char>)
        ensures
            final(out)@ == old(out)@ + self.tree(dashes@),
        decreases self,
    {
        let ghost start = out@;
        let name = self.print_name();
        push_node_line(out, dashes, None, name.as_slice());
        let below = deeper(dashes);
        match self {
            CStatement::CompoundStatement(block) => block.print_tree(out, &below),
            CStatement::VariableDeclaration(t, _, initializer) => {
                t.print_tree(out, &below);
                match initializer {
                    Some(i) => i.print_tree(out, &below),
                    None => {},
                }
            },
            CStatement::Expression(e) => e.print_tree(out, &below),
            CStatement::If(condition, body) => {
                condition.print_tree(out, &below);
                body.print_tree(out, &below);
            },
            CStatement::While(condition, body) => {
                condition.print_tree(out, &below);
                body.print_tree(out, &below);
            },
            CStatement::Return(Some(e)) => e.print_tree(out, &below),
            _ => {},
        }
        proof {
            assert(out@ =~= start + self.tree(dashes@));
        }
    }
}

impl CCompoundStatement {
    /// The printed tree of the block: its line, then the trees of its statements.
    pub open spec fn tree(&self, dashes: Seq<char>) -> Seq<char>
        decreases self, 2nat,
    {
        node_line(dashes, None, "Compound Statement"@) + c_statement_trees(self@, dashes.push('-'))
    }

    /// Writes the printed tree of the block.
    pub fn print_tree(&self, out: &mut Vec<char>, dashes: &Vec<char>)
        ensures
            final(out)@ == old(out)@ + self.tree(dashes@),
        decreases self,
    {
        let ghost start = out@;
        let mut name: Vec<char> = Vec::new();
        push_str(&mut name, "Compound Statement");
        push_node_line(out, dashes, None, name.as_slice());
        let below = deeper(dashes);
        print_c_statement_trees(&self.sub_statements, out, &below);
        proof {
            assert(out@ =~= start + self.tree(dashes@));
        }
    }
}

impl CInitializer {
    /// The printed tree of the initializer: its line, then the tree of its expression.
    pub open spec fn tree(&self, dashes: Seq<char>) -> Seq<char> {
        match self {
            CInitializer::Expression(e) => node_line(dashes, None, "Expression"@) + e.tree(dashes.push('-')),
        }
    }

    /// Writes the printed tree of the initializer.
    pub fn print_tree(&self, out: &mut Vec<char>, dashes: &Vec<char>)
        ensures
            final(out)@ == old(out)@ + self.tree(dashes@),
    {
        let ghost start = out@;
        match self {
            CInitializer::Expression(e) => {
                let mut name: Vec<char> = Vec::new();
                push_str(&mut name, "Expression");
                push_node_line(out, dashes, None, name.as_slice());
                let below = deeper(dashes);
                e.print_tree(out, &below);
            },
        }
        proof {
            assert(out@ =~= start + self.tree(dashes@));
        }
    }
}

/// The printed tree of each statement.
pub open spec fn c_statement_tree_parts(ss: Seq<CStatement>, dashes: Seq<char>) -> Seq<Seq<char>>
    decreases ss, 0nat,
{
    Seq::new(ss.len(), |i: int| if 0 <= i < ss.len() { ss[i].tree(dashes) } else { Seq::empty() })
}

/// The printed trees of statements, one after the other.
pub open spec fn c_statement_trees(ss: Seq<CStatement>, dashes: Seq<char>) -> Seq<char>
    decreases ss, 1nat,
{
    concat(c_statement_tree_parts(ss, dashes))
}

/// Writes the printed trees of statements, one after the other.
pub fn print_c_statement_trees(ss: &Vec<CStatement>, out: &mut Vec<char>, dashes: &Vec<char>)
    ensures
        final(out)@ == old(out)@ + c_statement_trees(ss@, dashes@),
    decreases ss,
{
    let ghost start = out@;
    let ghost parts = c_statement_tree_parts(ss@, dashes@);
    let mut i: usize = 0;
    while i < ss.len()
        invariant
            i <= ss@.len(),
            parts == c_statement_tree_parts(ss@, dashes@),
            out@ == start + concat(parts.take(i as int)),
        decreases ss@.len() - i,
    {
        proof {
            lemma_concat_take(parts, i as int);
            assert(decreases_to!(ss => ss@));
            assert(decreases_to!(ss@ => ss@[i as int]));
        }
        ss[i].print_tree(out, dashes);
        i = i + 1;
    }
    proof {
        assert(parts.take(ss@.len() as int) =~= parts);
    }
}

} // verus!
