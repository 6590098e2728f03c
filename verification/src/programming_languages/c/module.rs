use vstd::prelude::*;

use crate::programming_languages::c::module_element::CModuleElement;
use crate::programming_languages::c::{concat, join, lemma_concat_take, lemma_join_take};
use crate::text::push_str;
use crate::traits::ast_node::{deeper, node_line, push_node_line};

verus! {

/// A C module: the elements of one source file and its header.
#[derive(Debug)]
pub struct CModule {
    elements: Vec<CModuleElement>,
}

impl View for CModule {
    type V = Seq<CModuleElement>;

    closed spec fn view(&self) -> Seq<CModuleElement> {
        self.elements@
    }
}

impl CModuleElement {
    /// Whether the element is set apart from the one before it by an empty line in the source file;
    /// declarations and includes are not.
    pub open spec fn is_separated(&self) -> bool {
        !(self is FunctionDeclaration || self is AngleIncludeInHeader || self is DoubleQuotesIncludeInHeader
            || self is AngleIncludeInMain || self is DoubleQuotesIncludeInMain)
    }
}

/// Whether an element that is set apart is among some elements.
pub open spec fn has_separated(es: Seq<CModuleElement>) -> bool {
    exists|j: int| 0 <= j < es.len() && #[trigger] es[j].is_separated()
}

/// The source file text of a module's elements: each element's text, with an empty line before
/// each element that is set apart and follows one that is set apart.
pub open spec fn render_elements(es: Seq<CModuleElement>, indent: nat) -> Seq<char>
    decreases es.len(),
{
    if es.len() == 0 {
        Seq::empty()
    } else {
        let e = es.last();
        render_elements(es.drop_last(), indent) + (if has_separated(es.drop_last()) && e.is_separated() {
            "\n\n"@
        } else {
            Seq::empty()
        }) + e.render(indent)
    }
}

/// The header file texts of a module's elements.
pub open spec fn render_headers(es: Seq<CModuleElement>, indent: nat) -> Seq<Seq<char>> {
    Seq::new(es.len(), |i: int| es[i].render_header(indent))
}

impl CModule {
    /// A module without elements.
    pub fn new() -> (r: Self)
        ensures
            r@ == Seq::<CModuleElement>::empty(),
    {
        CModule { elements: Vec::new() }
    }

    /// Adds an element at the end of the module.
    pub fn push_element(&mut self, element: CModuleElement)
        ensures
            final(self)@ == old(self)@.push(element),
    {
        self.elements.push(element);
    }

    /// The text of the module's source file.
    pub open spec fn render(&self, indent: nat) -> Seq<char> {
        render_elements(self@, indent)
    }

    /// The text of the module's header file: the elements' header texts, one per line.
    pub open spec fn render_header(&self, indent: nat) -> Seq<char> {
        join(render_headers(self@, indent), "\n"@)
    }

    /// Appends the text of the module's source file.
    pub fn write_to_file(&self, out: &mut Vec<char>, indent: usize)
        requires
            forall|i: int| 0 <= i < self@.len() ==> indent + (#[trigger] self@[i]).depth() < usize::MAX,
        ensures
            final(out)@ == old(out)@ + self.render(indent as nat),
    {
        let mut is_first_element = true;
        let mut i: usize = 0;
        while i < self.elements.len()
            invariant
                i <= self@.len(),
                self.elements@ == self@,
                forall|k: int| 0 <= k < self@.len() ==> indent + (#[trigger] self@[k]).depth() < usize::MAX,
                is_first_element == !has_separated(self@.take(i as int)),
                out@ == old(out)@ + render_elements(self@.take(i as int), indent as nat),
            decreases self@.len() - i,
        {
            let element = &self.elements[i];
            let separated = match element {
                CModuleElement::FunctionDeclaration { .. } => false,
                CModuleElement::AngleIncludeInHeader(..) => false,
                CModuleElement::DoubleQuotesIncludeInHeader(..) => false,
                CModuleElement::AngleIncludeInMain(..) => false,
                CModuleElement::DoubleQuotesIncludeInMain(..) => false,
                _ => true,
            };
            if !is_first_element && separated {
                push_str(out, "\n\n");
            }
            element.write_to_file(out, indent);
            if separated {
                is_first_element = false;
            }
            proof {
                let t = self@.take(i + 1);
                assert(t.drop_last() =~= self@.take(i as int));
                assert(t.last() == self@[i as int]);
                if has_separated(t) && !has_separated(self@.take(i as int)) {
                    let j = choose|j: int| 0 <= j < t.len() && #[trigger] t[j].is_separated();
                    assert(j == i);
                }
                if separated {
                    assert(t[i as int].is_separated());
                }
                if has_separated(self@.take(i as int)) {
                    let j = choose|j: int| 0 <= j < i && #[trigger] self@.take(i as int)[j].is_separated();
                    assert(t[j].is_separated());
                }
            }
            i = i + 1;
        }
        proof {
            assert(self@.take(self@.len() as int) =~= self@);
        }
    }

    /// Appends the text of the module's header file.
    pub fn write_header_to_file(&self, out: &mut Vec<char>, indent: usize)
        requires
            indent < usize::MAX,
        ensures
            final(out)@ == old(out)@ + self.render_header(indent as nat),
    {
        let ghost parts = render_headers(self@, indent as nat);
        let mut i: usize = 0;
        while i < self.elements.len()
            invariant
                i <= self@.len(),
                self.elements@ == self@,
                indent < usize::MAX,
                parts == render_headers(self@, indent as nat),
                out@ == old(out)@ + join(parts.take(i as int), "\n"@),
            decreases self@.len() - i,
        {
            if i > 0 {
                push_str(out, "\n");
            }
            self.elements[i].write_header_to_file(out, indent);
            proof {
                lemma_join_take(parts, "\n"@, i as int);
            }
            i = i + 1;
        }
        proof {
            assert(parts.take(self@.len() as int) =~= parts);
        }
    }
}

/// The printed tree of each element.
pub open spec fn element_tree_parts(es: Seq<CModuleElement>, dashes: Seq<char>) -> Seq<Seq<char>> {
    Seq::new(es.len(), |i: int| es[i].tree(dashes))
}

impl CModule {
    /// The printed tree of the module: "C Module", then the trees of its elements.
    pub open spec fn tree(&self) -> Seq<char> {
        node_line(Seq::empty(), None, "C Module"@) + concat(element_tree_parts(self@, seq!['-']))
    }

    /// The printed tree of the module.
    pub fn print(&self) -> (r: Vec<char>)
        ensures
            r@ == self.tree(),
    {
        let mut out: Vec<char> = Vec::new();
        let no_dashes: Vec<char> = Vec::new();
        let mut name: Vec<char> = Vec::new();
        push_str(&mut name, "C Module");
        push_node_line(&mut out, &no_dashes, None, name.as_slice());
        let below = deeper(&no_dashes);
        proof {
            assert(below@ =~= seq!['-']);
        }
        let ghost start = out@;
        let ghost parts = element_tree_parts(self@, seq!['-']);
        let mut i: usize = 0;
        while i < self.elements.len()
            invariant
                i <= self@.len(),
                self@ == self.elements@,
                below@ == seq!['-'],
                parts == element_tree_parts(self@, seq!['-']),
                out@ == start + concat(parts.take(i as int)),
            decreases self@.len() - i,
        {
            proof {
                lemma_concat_take(parts, i as int);
            }
            self.elements[i].print_tree(&mut out, &below);
            i = i + 1;
        }
        proof {
            assert(parts.take(self@.len() as int) =~= parts);
        }
        out
    }
}

} // verus!
