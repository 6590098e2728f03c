use vstd::prelude::*;

use crate::programming_languages::c::{
    block_body, concat, join, lemma_concat_take, lemma_join_take, push_tabs, push_text, tabs,
};
use crate::text::{push_chars, push_str};
use crate::traits::ast_node::{deeper, node_line, push_node_line};

verus! {

/// A C type.
#[derive(Debug)]
pub enum CType {
    Void,
    Int,
    Bool,
    U8,
    U16,
    U32,
    U64,
    USize,
    I8,
    I16,
    I32,
    I64,
    PointerTo(Box<CType>),
    FunctionPointer(Box<CType>, Vec<CType>),
    Struct(Vec<CTypeAndName>),
    NamedType(Vec<char>),
}

/// A member of a struct type: its type and name.
#[derive(Debug)]
pub struct CTypeAndName {
    pub type_t: CType,
    pub name: Vec<char>,
}

impl CType {
    /// The width in bits of a fixed-width C integer type and whether it is signed: `uint8_t` to
    /// `uint64_t` are unsigned, `int8_t` to `int64_t` signed.
    pub open spec fn fixed_integer(&self) -> Option<(nat, bool)> {
        match self {
            CType::U8 => Some((8, false)),
            CType::U16 => Some((16, false)),
            CType::U32 => Some((32, false)),
            CType::U64 => Some((64, false)),
            CType::I8 => Some((8, true)),
            CType::I16 => Some((16, true)),
            CType::I32 => Some((32, true)),
            CType::I64 => Some((64, true)),
            _ => None,
        }
    }

    /// The name of a type that is written as a single word.
    pub open spec fn simple_name(&self) -> Seq<char> {
        match self {
            CType::Void => "void"@,
            CType::Int => "int"@,
            CType::Bool => "bool"@,
            CType::U8 => "uint8_t"@,
            CType::U16 => "uint16_t"@,
            CType::U32 => "uint32_t"@,
            CType::U64 => "uint64_t"@,
            CType::USize => "size_t"@,
            CType::I8 => "int8_t"@,
            CType::I16 => "int16_t"@,
            CType::I32 => "int32_t"@,
            CType::I64 => "int64_t"@,
            CType::NamedType(name) => name@,
            _ => Seq::empty(),
        }
    }

    /// The C text of the type, with struct members indented one level deeper than `indent`.
    pub open spec fn render(&self, indent: nat) -> Seq<char>
        decreases self, 0int,
    {
        match self {
            CType::PointerTo(pointee) => match &**pointee {
                CType::FunctionPointer(return_type, parameter_types) => return_type.render(indent) + " (**)("@
                    + join(render_types(parameter_types@, indent), ", "@) + ")"@,
                _ => pointee.render(indent) + "*"@,
            },
            CType::FunctionPointer(return_type, parameter_types) => return_type.render(indent) + " (*)("@
                + join(render_types(parameter_types@, indent), ", "@) + ")"@,
            CType::Struct(members) => "struct {"@ + block_body(render_members(members@, indent, Seq::empty()), indent) + "}"@,
            _ => self.simple_name(),
        }
    }

    /// The C text of a declaration of `name` with this type.
    pub open spec fn render_with_name(&self, indent: nat, name: Seq<char>) -> Seq<char>
        decreases self, 1int,
    {
        match self {
            CType::PointerTo(pointee) => match &**pointee {
                CType::PointerTo(pointee_pointee) => pointee_pointee.render(indent) + " **"@ + name,
                CType::FunctionPointer(return_type, parameter_types) => return_type.render(indent) + " (**"@ + name + ")("@
                    + join(render_types(parameter_types@, indent), ", "@) + ")"@,
                _ => pointee.render(indent) + " *"@ + name,
            },
            CType::FunctionPointer(return_type, parameter_types) => return_type.render(indent) + " (*"@ + name + ")("@
                + join(render_types(parameter_types@, indent), ", "@) + ")"@,
            CType::Struct(members) => "struct {"@ + block_body(render_members(members@, indent, ";\n"@), indent) + "} "@ + name,
            _ => self.render(indent) + " "@ + name,
        }
    }
}

impl CTypeAndName {
    /// The C text of the member: its type with its name.
    pub open spec fn render(&self, indent: nat) -> Seq<char>
        decreases self, 2int,
    {
        self.type_t.render_with_name(indent, self.name@)
    }
}

/// The C texts of a sequence of types.
pub open spec fn render_types(ts: Seq<CType>, indent: nat) -> Seq<Seq<char>>
    decreases ts, 0int,
{
    Seq::new(ts.len(), |i: int| if 0 <= i < ts.len() { ts[i].render(indent) } else { Seq::empty() })
}

/// The lines of the members of a struct: each indented one level deeper and followed by a suffix.
pub open spec fn render_members(ms: Seq<CTypeAndName>, indent: nat, suffix: Seq<char>) -> Seq<Seq<char>>
    decreases ms, 0int,
{
    Seq::new(ms.len(), |i: int| if 0 <= i < ms.len() { tabs(indent + 1) + ms[i].render(indent) + suffix } else { Seq::empty() })
}

impl CType {
    /// Appends the types' texts with `, ` between each two.
    fn write_types(ts: &Vec<CType>, out: &mut Vec<char>, indent: usize)
        requires
            indent < usize::MAX,
        ensures
            final(out)@ == old(out)@ + join(render_types(ts@, indent as nat), ", "@),
        decreases ts@, 0int,
    {
        let ghost parts = render_types(ts@, indent as nat);
        let mut i: usize = 0;
        while i < ts.len()
            invariant
                i <= ts@.len(),
                indent < usize::MAX,
                parts == render_types(ts@, indent as nat),
                parts.len() == ts@.len(),
                out@ == old(out)@ + join(parts.take(i as int), ", "@),
            decreases ts@.len() - i,
        {
            if i > 0 {
                push_str(out, ", ");
            }
            proof {
                vstd::std_specs::vec::axiom_vec_index_decreases(*ts, i as int);
            }
            ts[i].write_to_file(out, indent);
            proof {
                lemma_join_take(parts, ", "@, i as int);
            }
            i = i + 1;
        }
        proof {
            assert(parts.take(ts@.len() as int) =~= parts);
        }
    }

    /// Appends the lines of the members of a struct, each followed by `;` and a line break when
    /// `with_semicolons` holds, and the indentation before the closing brace.
    fn write_members(members: &Vec<CTypeAndName>, out: &mut Vec<char>, indent: usize, with_semicolons: bool)
        requires
            indent < usize::MAX,
        ensures
            final(out)@ == old(out)@ + block_body(
                render_members(members@, indent as nat, if with_semicolons { ";\n"@ } else { Seq::empty() }),
                indent as nat,
            ),
        decreases members@, 0int,
    {
        let ghost suffix: Seq<char> = if with_semicolons { ";\n"@ } else { Seq::empty() };
        let ghost lines = render_members(members@, indent as nat, suffix);
        if members.len() == 0 {
            return;
        }
        out.push('\n');
        let ghost start = out@;
        let mut i: usize = 0;
        while i < members.len()
            invariant
                i <= members@.len(),
                indent < usize::MAX,
                suffix == (if with_semicolons { ";\n"@ } else { Seq::<char>::empty() }),
                lines == render_members(members@, indent as nat, suffix),
                lines.len() == members@.len(),
                out@ == start + concat(lines.take(i as int)),
            decreases members@.len() - i,
        {
            push_tabs(out, indent + 1);
            proof {
                vstd::std_specs::vec::axiom_vec_index_decreases(*members, i as int);
            }
            members[i].write_to_file(out, indent);
            if with_semicolons {
                push_str(out, ";\n");
            }
            proof {
                lemma_concat_take(lines, i as int);
                assert(lines[i as int] == tabs(indent as nat + 1) + members@[i as int].render(indent as nat) + suffix);
                assert(out@ =~= start + concat(lines.take(i + 1)));
            }
            i = i + 1;
        }
        push_tabs(out, indent);
        proof {
            assert(lines.take(members@.len() as int) =~= lines);
        }
    }

    /// Appends the C text of the type.
    pub fn write_to_file(&self, out: &mut Vec<char>, indent: usize)
        requires
            indent < usize::MAX,
        ensures
            final(out)@ == old(out)@ + self.render(indent as nat),
        decreases self, 1int,
    {
        match self {
            CType::Void => push_str(out, "void"),
            CType::Int => push_str(out, "int"),
            CType::Bool => push_str(out, "bool"),
            CType::U8 => push_str(out, "uint8_t"),
            CType::U16 => push_str(out, "uint16_t"),
            CType::U32 => push_str(out, "uint32_t"),
            CType::U64 => push_str(out, "uint64_t"),
            CType::USize => push_str(out, "size_t"),
            CType::I8 => push_str(out, "int8_t"),
            CType::I16 => push_str(out, "int16_t"),
            CType::I32 => push_str(out, "int32_t"),
            CType::I64 => push_str(out, "int64_t"),
            CType::NamedType(name) => push_text(out, name),
            CType::PointerTo(pointee) => match &**pointee {
                CType::FunctionPointer(return_type, parameter_types) => {
                    return_type.write_to_file(out, indent);
                    push_str(out, " (**)(");
                    CType::write_types(parameter_types, out, indent);
                    push_str(out, ")");
                },
                _ => {
                    pointee.write_to_file(out, indent);
                    push_str(out, "*");
                },
            },
            CType::FunctionPointer(return_type, parameter_types) => {
                return_type.write_to_file(out, indent);
                push_str(out, " (*)(");
                CType::write_types(parameter_types, out, indent);
                push_str(out, ")");
            },
            CType::Struct(members) => {
                push_str(out, "struct {");
                CType::write_members(members, out, indent, false);
                push_str(out, "}");
            },
        }
    }

    /// Appends the C text of a declaration of `name` with this type.
    pub fn write_to_file_with_name(&self, out: &mut Vec<char>, indent: usize, name: &Vec<char>)
        requires
            indent < usize::MAX,
        ensures
            final(out)@ == old(out)@ + self.render_with_name(indent as nat, name@),
        decreases self, 2int,
    {
        match self {
            CType::PointerTo(pointee) => match &**pointee {
                CType::PointerTo(pointee_pointee) => {
                    pointee_pointee.write_to_file(out, indent);
                    push_str(out, " **");
                    push_text(out, name);
                },
                CType::FunctionPointer(return_type, parameter_types) => {
                    return_type.write_to_file(out, indent);
                    push_str(out, " (**");
                    push_text(out, name);
                    push_str(out, ")(");
                    CType::write_types(parameter_types, out, indent);
                    push_str(out, ")");
                },
                _ => {
                    pointee.write_to_file(out, indent);
                    push_str(out, " *");
                    push_text(out, name);
                },
            },
            CType::FunctionPointer(return_type, parameter_types) => {
                return_type.write_to_file(out, indent);
                push_str(out, " (*");
                push_text(out, name);
                push_str(out, ")(");
                CType::write_types(parameter_types, out, indent);
                push_str(out, ")");
            },
            CType::Struct(members) => {
                push_str(out, "struct {");
                CType::write_members(members, out, indent, true);
                push_str(out, "} ");
                push_text(out, name);
            },
            _ => {
                self.write_to_file(out, indent);
                push_str(out, " ");
                push_text(out, name);
            },
        }
    }
}

impl CTypeAndName {
    /// Appends the C text of the member.
    pub fn write_to_file(&self, out: &mut Vec<char>, indent: usize)
        requires
            indent < usize::MAX,
        ensures
            final(out)@ == old(out)@ + self.render(indent as nat),
        decreases self, 3int,
    {
        self.type_t.write_to_file_with_name(out, indent, &self.name);
    }
}

impl CType {
    /// The name of the type as it is printed.
    pub open spec fn spec_print_name(&self) -> Seq<char> {
        match self {
            CType::Void => "Void"@,
            CType::Int => "Int"@,
            CType::Bool => "Bool"@,
            CType::U8 => "U8"@,
            CType::U16 => "U16"@,
            CType::U32 => "U32"@,
            CType::U64 => "U64"@,
            CType::USize => "USize"@,
            CType::I8 => "I8"@,
            CType::I16 => "I16"@,
            CType::I32 => "I32"@,
            CType::I64 => "I64"@,
            CType::PointerTo(_) => "Pointer To"@,
            CType::FunctionPointer(_, _) => "Function Pointer"@,
            CType::Struct(_) => "Struct"@,
            CType::NamedType(name) => "Named \""@ + name@ + "\""@,
        }
    }

    /// The name of the type as it is printed.
    pub fn print_name(&self) -> (r: Vec<char>)
        ensures
            r@ == self.spec_print_name(),
    {
        let mut out: Vec<char> = Vec::new();
        match self {
            CType::Void => push_str(&mut out, "Void"),
            CType::Int => push_str(&mut out, "Int"),
            CType::Bool => push_str(&mut out, "Bool"),
            CType::U8 => push_str(&mut out, "U8"),
            CType::U16 => push_str(&mut out, "U16"),
            CType::U32 => push_str(&mut out, "U32"),
            CType::U64 => push_str(&mut out, "U64"),
            CType::USize => push_str(&mut out, "USize"),
            CType::I8 => push_str(&mut out, "I8"),
            CType::I16 => push_str(&mut out, "I16"),
            CType::I32 => push_str(&mut out, "I32"),
            CType::I64 => push_str(&mut out, "I64"),
            CType::PointerTo(_) => push_str(&mut out, "Pointer To"),
            CType::FunctionPointer(_, _) => push_str(&mut out, "Function Pointer"),
            CType::Struct(_) => push_str(&mut out, "Struct"),
            CType::NamedType(name) => {
                push_str(&mut out, "Named \"");
                push_chars(&mut out, name.as_slice());
                push_str(&mut out, "\"");
            },
        }
        proof {
            assert(out@ =~= self.spec_print_name());
        }
        out
    }

    /// The printed tree of the type: its line, then the trees of the types it is made of.
    pub open spec fn tree(&self, dashes: Seq<char>) -> Seq<char>
        decreases self, 2nat,
    {
        node_line(dashes, None, self.spec_print_name()) + match self {
            CType::PointerTo(pointee) => pointee.tree(dashes.push('-')),
            CType::FunctionPointer(return_type, parameter_types) => return_type.tree(dashes.push('-')) + c_type_trees(
                parameter_types@,
                dashes.push('-'),
            ),
            CType::Struct(members) => member_trees(members@, dashes.push('-')),
            _ => Seq::empty(),
        }
    }

    /// Writes the printed tree of the type.
    pub fn print_tree(&self, out: &mut Vec<char>, dashes: &Vec<char>)
        ensures
            final(out)@ == old(out)@ + self.tree(dashes@),
        decreases self,
    {
        let ghost start = out@;
        let name = self.print_name();
        push_node_line(out, dashes, None, name.as_slice());
        let below = deeper(dashes);
        match self {
            CType::PointerTo(pointee) => pointee.print_tree(out, &below),
            CType::FunctionPointer(return_type, parameter_types) => {
                return_type.print_tree(out, &below);
                print_c_type_trees(parameter_types, out, &below);
            },
            CType::Struct(members) => print_member_trees(members, out, &below),
            _ => {},
        }
        proof {
            assert(out@ =~= start + self.tree(dashes@));
        }
    }
}

impl CTypeAndName {
    /// The printed tree of a struct member: its name, then the tree of its type.
    pub open spec fn tree(&self, dashes: Seq<char>) -> Seq<char>
        decreases self, 2nat,
    {
        node_line(dashes, None, "Member \""@ + self.name@ + "\""@) + self.type_t.tree(dashes.push('-'))
    }

    /// Writes the printed tree of the struct member.
    pub fn print_tree(&self, out: &mut Vec<char>, dashes: &Vec<char>)
        ensures
            final(out)@ == old(out)@ + self.tree(dashes@),
        decreases self,
    {
        let ghost start = out@;
        let mut name: Vec<char> = Vec::new();
        push_str(&mut name, "Member \"");
        push_chars(&mut name, self.name.as_slice());
        push_str(&mut name, "\"");
        push_node_line(out, dashes, None, name.as_slice());
        let below = deeper(dashes);
        self.type_t.print_tree(out, &below);
        proof {
            assert(out@ =~= start + self.tree(dashes@));
        }
    }
}

/// The printed tree of each type.
pub open spec fn c_type_tree_parts(ts: Seq<CType>, dashes: Seq<char>) -> Seq<Seq<char>>
    decreases ts, 0nat,
{
    Seq::new(ts.len(), |i: int| if 0 <= i < ts.len() { ts[i].tree(dashes) } else { Seq::empty() })
}

/// The printed trees of types, one after the other.
pub open spec fn c_type_trees(ts: Seq<CType>, dashes: Seq<char>) -> Seq<char>
    decreases ts, 1nat,
{
    concat(c_type_tree_parts(ts, dashes))
}

/// The printed tree of each struct member.
pub open spec fn member_tree_parts(ms: Seq<CTypeAndName>, dashes: Seq<char>) -> Seq<Seq<char>>
    decreases ms, 0nat,
{
    Seq::new(ms.len(), |i: int| if 0 <= i < ms.len() { ms[i].tree(dashes) } else { Seq::empty() })
}

/// The printed trees of struct members, one after the other.
pub open spec fn member_trees(ms: Seq<CTypeAndName>, dashes: Seq<char>) -> Seq<char>
    decreases ms, 1nat,
{
    concat(member_tree_parts(ms, dashes))
}

/// Writes the printed trees of types, one after the other.
pub fn print_c_type_trees(ts: &Vec<CType>, out: &mut Vec<char>, dashes: &Vec<char>)
    ensures
        final(out)@ == old(out)@ + c_type_trees(ts@, dashes@),
    decreases ts,
{
    let ghost start = out@;
    let ghost parts = c_type_tree_parts(ts@, dashes@);
    let mut i: usize = 0;
    while i < ts.len()
        invariant
            i <= ts@.len(),
            parts == c_type_tree_parts(ts@, dashes@),
            out@ == start + concat(parts.take(i as int)),
        decreases ts@.len() - i,
    {
        proof {
            lemma_concat_take(parts, i as int);
            assert(decreases_to!(ts => ts@));
            assert(decreases_to!(ts@ => ts@[i as int]));
        }
        ts[i].print_tree(out, dashes);
        i = i + 1;
    }
    proof {
        assert(parts.take(ts@.len() as int) =~= parts);
    }
}

/// Writes the printed trees of struct members, one after the other.
pub fn print_member_trees(ms: &Vec<CTypeAndName>, out: &mut Vec<char>, dashes: &Vec<char>)
    ensures
        final(out)@ == old(out)@ + member_trees(ms@, dashes@),
    decreases ms,
{
    let ghost start = out@;
    let ghost parts = member_tree_parts(ms@, dashes@);
    let mut i: usize = 0;
    while i < ms.len()
        invariant
            i <= ms@.len(),
            parts == member_tree_parts(ms@, dashes@),
            out@ == start + concat(parts.take(i as int)),
        decreases ms@.len() - i,
    {
        proof {
            lemma_concat_take(parts, i as int);
            assert(decreases_to!(ms => ms@));
            assert(decreases_to!(ms@ => ms@[i as int]));
        }
        ms[i].print_tree(out, dashes);
        i = i + 1;
    }
    proof {
        assert(parts.take(ms@.len() as int) =~= parts);
    }
}

} // verus!
