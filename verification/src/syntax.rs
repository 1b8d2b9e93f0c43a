//! The part of a module's syntax tree that type-only imports can stand in.
//!
//! The tree is an arena: nodes live in one vector and name their children by index.
//! A node is added after its children, so a child's index is always below its parent's
//! and the node added last is the root.

use vstd::prelude::*;

verus! {

/// The index of a node in its tree.
pub type NodeId = usize;

/// One binding of an import declaration.
#[derive(Debug, Clone, Copy, PartialEq, Eq, Structural)]
pub enum ImportSpecifier {
    /// `import { a } from "m"`, or `import { type A } from "m"` where `type_only` is set.
    Named { type_only: bool },
    /// `import a from "m"`.
    Default,
    /// `import * as a from "m"`.
    Namespace,
}

/// An import declaration.
#[derive(Debug)]
pub struct ImportDeclaration {
    /// The whole declaration is marked type-only: `import type { A } from "m"`.
    pub type_only: bool,
    /// The bindings; `None` for `import "m"`.
    pub specifiers: Option<Vec<ImportSpecifier>>,
    /// The module the declaration imports from.
    pub source: String,
}

/// An inline type-only reference to a module: `import("m")` in a type position.
#[derive(Debug)]
pub struct TsImportType {
    /// The module named, where the argument is a string literal.
    pub argument: Option<String>,
}

/// What a node is, as far as type-only imports are concerned.
#[derive(Debug)]
pub enum NodeKind {
    ImportDeclaration(ImportDeclaration),
    TsImportType(TsImportType),
    /// A reference to a named type; its children are the name and the type arguments.
    TsTypeReference,
    /// Any other node; only its children matter.
    Other,
}

/// A node and the indices of its children, in source order.
#[derive(Debug)]
pub struct Node {
    pub kind: NodeKind,
    pub children: Vec<NodeId>,
}

/// A syntax tree. Every child index is below the index of the node that holds it.
#[derive(Debug)]
pub struct SyntaxTree {
    nodes: Vec<Node>,
}

impl ImportSpecifier {
    /// The binding is marked type-only by itself.
    pub open spec fn is_type(self) -> bool {
        self matches ImportSpecifier::Named { type_only } && type_only
    }
}

impl ImportDeclaration {
    /// One of the bindings is marked type-only.
    pub open spec fn has_type_specifier(self) -> bool {
        self.specifiers matches Some(specifiers) && exists|k: int|
            0 <= k < specifiers@.len() && (#[trigger] specifiers@[k]).is_type()
    }

    /// The declaration brings in types only, as a whole or in one of its bindings.
    pub open spec fn imports_types(self) -> bool {
        self.type_only || self.has_type_specifier()
    }
}

/// Every id in `children` is below `bound`.
pub open spec fn all_below(children: Seq<NodeId>, bound: int) -> bool {
    forall|k: int| 0 <= k < children.len() ==> (#[trigger] children[k]) < bound
}

/// Every node was added after its children.
pub open spec fn well_ordered(nodes: Seq<Node>) -> bool {
    forall|id: int| 0 <= id < nodes.len() ==> all_below((#[trigger] nodes[id]).children@, id)
}

impl View for SyntaxTree {
    type V = Seq<Node>;

    closed spec fn view(&self) -> Seq<Node> {
        self.nodes@
    }
}

impl SyntaxTree {
    /// The invariant of the tree: children come before parents.
    #[verifier::type_invariant]
    pub open spec fn wf(&self) -> bool {
        well_ordered(self@)
    }

    /// The root: the node added last.
    pub open spec fn spec_root(&self) -> Option<NodeId> {
        if self@.len() == 0 {
            None
        } else {
            Some((self@.len() - 1) as usize)
        }
    }

    /// A tree without nodes.
    pub fn new() -> (tree: SyntaxTree)
        ensures
            tree@.len() == 0,
    {
        SyntaxTree { nodes: Vec::new() }
    }

    /// The number of nodes.
    pub fn len(&self) -> (n: usize)
        ensures
            n == self@.len(),
    {
        self.nodes.len()
    }

    /// The root, if the tree has a node.
    pub fn root(&self) -> (r: Option<NodeId>)
        ensures
            r == self.spec_root(),
    {
        let n = self.nodes.len();
        if n == 0 {
            None
        } else {
            Some(n - 1)
        }
    }

    /// The node with index `id`.
    pub fn node(&self, id: NodeId) -> (r: Option<&Node>)
        ensures
            id < self@.len() ==> r == Some(&self@[id as int]),
            id >= self@.len() ==> r is None,
    {
        if id < self.nodes.len() {
            Some(&self.nodes[id])
        } else {
            None
        }
    }

    /// Adds a node whose children are already in the tree and returns its index. A child
    /// index that names no node is refused, and the tree stays as it was.
    pub fn add(&mut self, kind: NodeKind, children: Vec<NodeId>) -> (r: Option<NodeId>)
        ensures
            all_below(children@, old(self)@.len() as int) ==> r == Some(old(self)@.len() as usize)
                && final(self)@ == old(self)@.push(Node { kind, children }),
            !all_below(children@, old(self)@.len() as int) ==> r is None && final(self)@ == old(
                self,
            )@,
    {
        proof {
            use_type_invariant(&*self);
        }
        let n = self.nodes.len();
        let mut k: usize = 0;
        while k < children.len()
            invariant
                k <= children@.len(),
                n == self@.len(),
                self@ == old(self)@,
                well_ordered(self@),
                forall|j: int| 0 <= j < k ==> (#[trigger] children@[j]) < n,
            decreases children@.len() - k,
        {
            if children[k] >= n {
                return None;
            }
            k += 1;
        }
        let mut taken = SyntaxTree { nodes: Vec::new() };
        core::mem::swap(self, &mut taken);
        let mut nodes = taken.nodes;
        nodes.push(Node { kind, children });
        *self = SyntaxTree { nodes };
        Some(n)
    }
}

} // verus!
