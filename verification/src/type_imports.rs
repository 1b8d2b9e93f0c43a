//! Finding the modules that a module imports for their types only.

use crate::syntax::{
    well_ordered, ImportDeclaration, ImportSpecifier, Node, NodeId, NodeKind, SyntaxTree,
    TsImportType,
};
use crate::text::texts;
use vstd::prelude::*;

verus! {

/// The syntactic form that a type-only import was written in.
#[derive(Debug, Clone, Copy, PartialEq, Eq, Structural)]
pub enum ImportForm {
    /// An import declaration that is type-only as a whole: `import type { A } from "m"`.
    Declaration,
    /// An import declaration with a type-only binding: `import { type A } from "m"`.
    Binding,
    /// An inline type-only reference: `import("m")` in a type position.
    Inline,
}

/// A type-only import: the module it names and the form it was written in.
#[derive(Debug)]
pub struct TypeImport {
    pub specifier: String,
    pub form: ImportForm,
}

impl View for TypeImport {
    type V = (Seq<char>, ImportForm);

    open spec fn view(&self) -> (Seq<char>, ImportForm) {
        (self.specifier@, self.form)
    }
}

/// The form in which an import declaration brings in types, if it does: as a whole, or
/// else by one of its bindings.
pub open spec fn declaration_form(decl: ImportDeclaration) -> Option<ImportForm> {
    if decl.type_only {
        Some(ImportForm::Declaration)
    } else if decl.has_type_specifier() {
        Some(ImportForm::Binding)
    } else {
        None
    }
}

/// What an import declaration adds: its source, once, if the declaration or one of its
/// bindings is type-only.
pub open spec fn declaration_imports(decl: ImportDeclaration) -> Seq<(Seq<char>, ImportForm)> {
    match declaration_form(decl) {
        Some(form) => seq![(decl.source@, form)],
        None => Seq::empty(),
    }
}

/// What an inline type-only reference adds: its argument, if that is a string literal.
pub open spec fn import_type_imports(ty: TsImportType) -> Seq<(Seq<char>, ImportForm)> {
    match ty.argument {
        Some(source) => seq![(source@, ImportForm::Inline)],
        None => Seq::empty(),
    }
}

/// The type-only imports found below the node `id`, the node included, in source order.
/// An import declaration and an inline reference are not looked into; every other node
/// hands on what its children hold.
pub open spec fn node_imports(nodes: Seq<Node>, id: int) -> Seq<(Seq<char>, ImportForm)>
    decreases id + 1, 0nat,
{
    if 0 <= id < nodes.len() {
        match nodes[id].kind {
            NodeKind::ImportDeclaration(decl) => declaration_imports(decl),
            NodeKind::TsImportType(ty) => import_type_imports(ty),
            NodeKind::TsTypeReference => children_imports(nodes, nodes[id].children@, id),
            NodeKind::Other => children_imports(nodes, nodes[id].children@, id),
        }
    } else {
        Seq::empty()
    }
}

/// The type-only imports found below the nodes `children`, one child after the other.
/// A child at or above `bound` is no child of a node of a well-ordered tree and adds
/// nothing.
pub open spec fn children_imports(nodes: Seq<Node>, children: Seq<NodeId>, bound: int) -> Seq<
    (Seq<char>, ImportForm),
>
    decreases bound, children.len() + 1,
{
    if children.len() == 0 {
        Seq::empty()
    } else {
        let last = children.last();
        children_imports(nodes, children.drop_last(), bound) + (if last < bound {
            node_imports(nodes, last as int)
        } else {
            Seq::empty()
        })
    }
}

/// The type-only imports of a whole tree: those found below its root.
pub open spec fn tree_imports(tree: SyntaxTree) -> Seq<(Seq<char>, ImportForm)> {
    match tree.spec_root() {
        Some(root) => node_imports(tree@, root as int),
        None => Seq::empty(),
    }
}

/// The modules that the imports name, in order.
pub open spec fn specifiers_of(imports: Seq<(Seq<char>, ImportForm)>) -> Seq<Seq<char>> {
    imports.map_values(|import: (Seq<char>, ImportForm)| import.0)
}

/// The modules that the type-only imports of a tree name, in source order, each as
/// often as it is imported.
pub open spec fn tree_specifiers(tree: SyntaxTree) -> Seq<Seq<char>> {
    specifiers_of(tree_imports(tree))
}

/// Collects the type-only imports of a module, in the order met.
#[derive(Debug)]
pub struct TypeImportVisitor {
    pub imported: Vec<TypeImport>,
}

impl View for TypeImportVisitor {
    type V = Seq<(Seq<char>, ImportForm)>;

    open spec fn view(&self) -> Seq<(Seq<char>, ImportForm)> {
        self.imported@.map_values(|import: TypeImport| import@)
    }
}

impl TypeImportVisitor {
    /// A visitor that has found nothing yet.
    pub fn new() -> (visitor: TypeImportVisitor)
        ensures
            visitor@ == Seq::<(Seq<char>, ImportForm)>::empty(),
    {
        let visitor = TypeImportVisitor { imported: Vec::new() };
        assert(visitor@ =~= Seq::<(Seq<char>, ImportForm)>::empty());
        visitor
    }

    /// Notes `source` as found, in the form `form`.
    fn record(&mut self, source: &String, form: ImportForm)
        ensures
            final(self)@ == old(self)@.push((source@, form)),
    {
        self.imported.push(TypeImport { specifier: source.clone(), form });
        assert(self@ =~= old(self)@.push((source@, form)));
    }

    /// Whether one of the bindings is marked type-only.
    fn has_type_specifier(decl: &ImportDeclaration) -> (r: bool)
        ensures
            r == decl.has_type_specifier(),
    {
        match &decl.specifiers {
            None => false,
            Some(specifiers) => {
                let mut k: usize = 0;
                while k < specifiers.len()
                    invariant
                        k <= specifiers@.len(),
                        decl.specifiers == Some(*specifiers),
                        forall|j: int| 0 <= j < k ==> !(#[trigger] specifiers@[j]).is_type(),
                    decreases specifiers@.len() - k,
                {
                    match specifiers[k] {
                        ImportSpecifier::Named { type_only } => {
                            if type_only {
                                assert(decl.specifiers->0@[k as int].is_type());
                                return true;
                            }
                        },
                        _ => {},
                    }
                    k += 1;
                }
                false
            },
        }
    }

    /// An import declaration adds its source if it is type-only as a whole, or else if
    /// one of its bindings is: once for the declaration, however many bindings are.
    pub fn visit_import_declaration(&mut self, decl: &ImportDeclaration)
        ensures
            final(self)@ == old(self)@ + declaration_imports(*decl),
    {
        if decl.type_only {
            self.record(&decl.source, ImportForm::Declaration);
            assert(self@ =~= old(self)@ + declaration_imports(*decl));
            return ;
        }
        if Self::has_type_specifier(decl) {
            self.record(&decl.source, ImportForm::Binding);
        }
        assert(self@ =~= old(self)@ + declaration_imports(*decl));
    }

    /// An inline type-only reference adds its argument if that is a string literal. What
    /// stands inside the reference is not looked into.
    pub fn visit_ts_import_type(&mut self, ty: &TsImportType)
        ensures
            final(self)@ == old(self)@ + import_type_imports(*ty),
    {
        if let Some(source) = &ty.argument {
            self.record(source, ImportForm::Inline);
        }
        assert(self@ =~= old(self)@ + import_type_imports(*ty));
    }

    /// A type reference is looked into: its name and its type arguments are visited. An
    /// index that names no node of the tree adds nothing.
    pub fn visit_ts_type_reference(&mut self, tree: &SyntaxTree, id: NodeId)
        ensures
            final(self)@ == old(self)@ + (if id < tree@.len() {
                children_imports(tree@, tree@[id as int].children@, id as int)
            } else {
                Seq::empty()
            }),
        decreases id, 1nat,
    {
        if id < tree.len() {
            self.visit_children(tree, id);
        } else {
            assert(self@ =~= old(self)@ + Seq::<(Seq<char>, ImportForm)>::empty());
        }
    }

    /// Visits the children of the node `id`, in order.
    fn visit_children(&mut self, tree: &SyntaxTree, id: NodeId)
        requires
            id < tree@.len(),
        ensures
            final(self)@ == old(self)@ + children_imports(
                tree@,
                tree@[id as int].children@,
                id as int,
            ),
        decreases id, 0nat,
    {
        proof {
            use_type_invariant(tree);
        }
        let node = tree.node(id).unwrap();
        let children = &node.children;
        let mut k: usize = 0;
        assert(children@.take(0) =~= Seq::<NodeId>::empty());
        assert(self@ =~= old(self)@ + Seq::<(Seq<char>, ImportForm)>::empty());
        while k < children.len()
            invariant
                well_ordered(tree@),
                id < tree@.len(),
                children@ == tree@[id as int].children@,
                k <= children@.len(),
                self@ == old(self)@ + children_imports(tree@, children@.take(k as int), id as int),
            decreases children@.len() - k,
        {
            let child = children[k];
            let ghost before = self@;
            let ghost seen = children_imports(tree@, children@.take(k as int), id as int);
            assert(child < id);
            self.visit_node(tree, child);
            proof {
                let next = children@.take(k + 1);
                assert(next.drop_last() =~= children@.take(k as int));
                assert(next.last() == child);
                assert(self@ =~= old(self)@ + (seen + node_imports(tree@, child as int)));
            }
            k += 1;
        }
        assert(children@.take(k as int) =~= children@);
    }

    /// Visits the node `id` and what stands below it.
    pub fn visit_node(&mut self, tree: &SyntaxTree, id: NodeId)
        ensures
            final(self)@ == old(self)@ + node_imports(tree@, id as int),
        decreases id, 2nat,
    {
        match tree.node(id) {
            None => {
                assert(self@ =~= old(self)@ + node_imports(tree@, id as int));
            },
            Some(node) => {
                match &node.kind {
                    NodeKind::ImportDeclaration(decl) => self.visit_import_declaration(decl),
                    NodeKind::TsImportType(ty) => self.visit_ts_import_type(ty),
                    NodeKind::TsTypeReference => self.visit_ts_type_reference(tree, id),
                    NodeKind::Other => self.visit_children(tree, id),
                }
            },
        }
    }

    /// Visits a whole tree, from its root.
    pub fn visit_program(&mut self, tree: &SyntaxTree)
        ensures
            final(self)@ == old(self)@ + tree_imports(*tree),
    {
        match tree.root() {
            Some(root) => self.visit_node(tree, root),
            None => {
                assert(self@ =~= old(self)@ + tree_imports(*tree));
            },
        }
    }
}

/// The specifiers of all type-only imports of `tree`, in source order, each as often as
/// it is written.
pub fn collect_type_imports(tree: &SyntaxTree) -> (specifiers: Vec<String>)
    ensures
        texts(specifiers@) == tree_specifiers(*tree),
{
    let mut visitor = TypeImportVisitor::new();
    visitor.visit_program(tree);
    assert(visitor@ =~= tree_imports(*tree));
    let found = visitor.imported;
    let mut specifiers: Vec<String> = Vec::new();
    let mut i: usize = 0;
    while i < found.len()
        invariant
            i <= found@.len(),
            specifiers@.len() == i,
            forall|k: int| 0 <= k < i ==> (#[trigger] specifiers@[k])@ == found@[k].specifier@,
        decreases found@.len() - i,
    {
        specifiers.push(found[i].specifier.clone());
        i += 1;
    }
    assert(texts(specifiers@) =~= specifiers_of(found@.map_values(|import: TypeImport| import@)));
    specifiers
}

/// A node of this kind adds no type-only import by itself: an import declaration that
/// is not type-only and has no type-only binding, an inline reference whose argument is
/// no string literal, or any other node.
pub open spec fn adds_nothing(kind: NodeKind) -> bool {
    match kind {
        NodeKind::ImportDeclaration(decl) => !decl.imports_types(),
        NodeKind::TsImportType(ty) => ty.argument is None,
        NodeKind::TsTypeReference => true,
        NodeKind::Other => true,
    }
}

/// Where no node adds an import, nothing is found below a node.
proof fn lemma_nothing_below_node(nodes: Seq<Node>, id: int)
    requires
        forall|i: int| 0 <= i < nodes.len() ==> adds_nothing(#[trigger] nodes[i].kind),
    ensures
        node_imports(nodes, id) == Seq::<(Seq<char>, ImportForm)>::empty(),
    decreases id + 1, 0nat,
{
    if 0 <= id < nodes.len() {
        assert(adds_nothing(nodes[id].kind));
        lemma_nothing_below_children(nodes, nodes[id].children@, id);
    }
}

/// Where no node adds an import, nothing is found below a list of children.
proof fn lemma_nothing_below_children(nodes: Seq<Node>, children: Seq<NodeId>, bound: int)
    requires
        forall|i: int| 0 <= i < nodes.len() ==> adds_nothing(#[trigger] nodes[i].kind),
    ensures
        children_imports(nodes, children, bound) == Seq::<(Seq<char>, ImportForm)>::empty(),
    decreases bound, children.len() + 1,
{
    if children.len() > 0 {
        lemma_nothing_below_children(nodes, children.drop_last(), bound);
        if children.last() < bound {
            lemma_nothing_below_node(nodes, children.last() as int);
        }
    }
}

/// A module without a type-only import construct has no type-only import: where no node
/// of the tree adds one, the collector finds no specifier.
pub proof fn lemma_no_type_import_no_specifier(tree: SyntaxTree)
    requires
        forall|i: int| 0 <= i < tree@.len() ==> adds_nothing(#[trigger] tree@[i].kind),
    ensures
        tree_imports(tree) == Seq::<(Seq<char>, ImportForm)>::empty(),
        tree_specifiers(tree) == Seq::<Seq<char>>::empty(),
{
    if let Some(root) = tree.spec_root() {
        lemma_nothing_below_node(tree@, root as int);
    }
    assert(specifiers_of(Seq::<(Seq<char>, ImportForm)>::empty()) =~= Seq::<Seq<char>>::empty());
}

} // verus!
