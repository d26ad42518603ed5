//! The parts of a module's syntax tree that the analysis reads: its calls
//! and its export declarations, each reduced to the shape that matters.

use vstd::prelude::*;

verus! {

/// What a call expression calls.
#[derive(Debug, PartialEq, Eq)]
pub enum Callee {
    /// A bare identifier, as in `useState(0)`.
    Identifier(String),
    /// A member of an object, as in `React.useState(0)`.
    Member {
        /// Whether the object is a bare identifier, and not, say, a member
        /// access itself as in `a.b.useState(0)`.
        object_is_identifier: bool,
        /// The name of the property where it is written as an identifier
        /// after a dot; `None` for `object[property]` and `object.#property`.
        property: Option<String>,
    },
    /// Any other expression, `super` or `import`.
    Other,
}

/// What an export declaration declares.
#[derive(Debug, PartialEq, Eq)]
pub enum ExportedDecl {
    /// A function declaration, with the function's name:
    /// `export function name() {}`.
    Function(String),
    /// A variable declaration, with its bindings in their order: the name
    /// of each that is a plain identifier, as in `export const name = ..`,
    /// and `None` for each that is a pattern, as in `export const { a } = ..`.
    Variable(Vec<Option<String>>),
    /// A class, a type, an enum, a namespace or a `using` declaration.
    Other,
}

/// A node of the syntax tree that the analysis looks at.
#[derive(Debug, PartialEq, Eq)]
pub enum Node {
    /// A call expression.
    Call(Callee),
    /// An export declaration: `export` before a declaration.
    ExportDecl {
        /// What is declared.
        declaration: ExportedDecl,
        /// Whether the declaration stands at the top level of the module,
        /// and not inside a namespace.
        top_level: bool,
    },
}

/// The mathematical content of a `Callee`.
pub enum CalleeView {
    Identifier(Seq<char>),
    Member { object_is_identifier: bool, property: Option<Seq<char>> },
    Other,
}

/// The mathematical content of an `ExportedDecl`.
pub enum ExportedDeclView {
    Function(Seq<char>),
    Variable(Seq<Option<Seq<char>>>),
    Other,
}

/// The mathematical content of a `Node`.
pub enum NodeView {
    Call(CalleeView),
    ExportDecl { declaration: ExportedDeclView, top_level: bool },
}

/// The mathematical content of the bindings of a variable declaration.
pub open spec fn binding_names(bindings: Seq<Option<String>>) -> Seq<Option<Seq<char>>> {
    bindings.map_values(
        |binding: Option<String>|
            match binding {
                Some(name) => Some(name@),
                None => None,
            },
    )
}

impl View for Callee {
    type V = CalleeView;

    open spec fn view(&self) -> CalleeView {
        match *self {
            Callee::Identifier(name) => CalleeView::Identifier(name@),
            Callee::Member { object_is_identifier, property } => CalleeView::Member {
                object_is_identifier,
                property: match property {
                    Some(name) => Some(name@),
                    None => None,
                },
            },
            Callee::Other => CalleeView::Other,
        }
    }
}

impl View for ExportedDecl {
    type V = ExportedDeclView;

    open spec fn view(&self) -> ExportedDeclView {
        match *self {
            ExportedDecl::Function(name) => ExportedDeclView::Function(name@),
            ExportedDecl::Variable(bindings) => ExportedDeclView::Variable(
                binding_names(bindings@),
            ),
            ExportedDecl::Other => ExportedDeclView::Other,
        }
    }
}

impl View for Node {
    type V = NodeView;

    open spec fn view(&self) -> NodeView {
        match *self {
            Node::Call(callee) => NodeView::Call(callee@),
            Node::ExportDecl { declaration, top_level } => NodeView::ExportDecl {
                declaration: declaration@,
                top_level,
            },
        }
    }
}

impl Clone for Callee {
    fn clone(&self) -> (copy: Callee)
        ensures
            copy@ == self@,
    {
        match self {
            Callee::Identifier(name) => Callee::Identifier(name.clone()),
            Callee::Member { object_is_identifier, property } => Callee::Member {
                object_is_identifier: *object_is_identifier,
                property: match property {
                    Some(name) => Some(name.clone()),
                    None => None,
                },
            },
            Callee::Other => Callee::Other,
        }
    }
}

/// A copy of the bindings of a variable declaration.
fn clone_bindings(bindings: &Vec<Option<String>>) -> (copy: Vec<Option<String>>)
    ensures
        binding_names(copy@) == binding_names(bindings@),
{
    let mut copy: Vec<Option<String>> = Vec::new();
    let n: usize = bindings.len();
    let mut i: usize = 0;
    while i < n
        invariant
            i <= n,
            n == bindings@.len(),
            binding_names(copy@) == binding_names(bindings@).subrange(0, i as int),
        decreases n - i,
    {
        let ghost before = copy@;
        let binding = match &bindings[i] {
            Some(name) => Some(name.clone()),
            None => None,
        };
        copy.push(binding);
        assert(binding_names(copy@) =~= binding_names(before).push(
            binding_names(bindings@)[i as int],
        ));
        i += 1;
    }
    assert(binding_names(bindings@).subrange(0, n as int) =~= binding_names(bindings@));
    copy
}

impl Clone for ExportedDecl {
    fn clone(&self) -> (copy: ExportedDecl)
        ensures
            copy@ == self@,
    {
        match self {
            ExportedDecl::Function(name) => ExportedDecl::Function(name.clone()),
            ExportedDecl::Variable(bindings) => ExportedDecl::Variable(clone_bindings(bindings)),
            ExportedDecl::Other => ExportedDecl::Other,
        }
    }
}

impl Clone for Node {
    fn clone(&self) -> (copy: Node)
        ensures
            copy@ == self@,
    {
        match self {
            Node::Call(callee) => Node::Call(callee.clone()),
            Node::ExportDecl { declaration, top_level } => Node::ExportDecl {
                declaration: declaration.clone(),
                top_level: *top_level,
            },
        }
    }
}

/// The mathematical content of a sequence of nodes.
pub open spec fn outline(nodes: Seq<Node>) -> Seq<NodeView> {
    nodes.map_values(|node: Node| node@)
}

} // verus!
