use rolldown_plugin_dts::syntax::{
    ImportDeclaration, ImportSpecifier, NodeKind, SyntaxTree, TsImportType,
};
use rolldown_plugin_dts::type_imports::{collect_type_imports, ImportForm, TypeImportVisitor};

fn import(type_only: bool, specifiers: Option<Vec<ImportSpecifier>>, source: &str) -> NodeKind {
    NodeKind::ImportDeclaration(ImportDeclaration {
        type_only,
        specifiers,
        source: source.to_string(),
    })
}

fn import_type(argument: Option<&str>) -> NodeKind {
    NodeKind::TsImportType(TsImportType { argument: argument.map(|s| s.to_string()) })
}

#[test]
fn type_only_declaration_and_type_only_binding_are_found_once_each() {
    // import type X from "a"; import { type Y } from "b";
    let mut tree = SyntaxTree::new();
    let a = tree.add(import(true, Some(vec![ImportSpecifier::Default]), "a"), vec![]).unwrap();
    let b = tree
        .add(import(false, Some(vec![ImportSpecifier::Named { type_only: true }]), "b"), vec![])
        .unwrap();
    tree.add(NodeKind::Other, vec![a, b]).unwrap();
    assert_eq!(collect_type_imports(&tree), vec!["a".to_string(), "b".to_string()]);
}

#[test]
fn several_type_only_bindings_add_the_source_once() {
    let mut tree = SyntaxTree::new();
    let specifiers = vec![
        ImportSpecifier::Named { type_only: true },
        ImportSpecifier::Named { type_only: false },
        ImportSpecifier::Named { type_only: true },
    ];
    tree.add(import(false, Some(specifiers), "m"), vec![]).unwrap();
    assert_eq!(collect_type_imports(&tree), vec!["m".to_string()]);
}

#[test]
fn value_imports_are_not_found() {
    let mut tree = SyntaxTree::new();
    let a = tree.add(import(false, None, "side-effect"), vec![]).unwrap();
    let b = tree.add(import(false, Some(vec![]), "empty"), vec![]).unwrap();
    let c = tree
        .add(
            import(
                false,
                Some(vec![
                    ImportSpecifier::Default,
                    ImportSpecifier::Namespace,
                    ImportSpecifier::Named { type_only: false },
                ]),
                "values",
            ),
            vec![],
        )
        .unwrap();
    tree.add(NodeKind::Other, vec![a, b, c]).unwrap();
    assert_eq!(collect_type_imports(&tree), Vec::<String>::new());
}

#[test]
fn empty_tree_has_no_imports() {
    let tree = SyntaxTree::new();
    assert_eq!(tree.root(), None);
    assert_eq!(collect_type_imports(&tree), Vec::<String>::new());
}

#[test]
fn inline_reference_with_literal_argument_is_found() {
    let mut tree = SyntaxTree::new();
    let lit = tree.add(import_type(Some("./types")), vec![]).unwrap();
    let other = tree.add(import_type(None), vec![]).unwrap();
    tree.add(NodeKind::Other, vec![lit, other]).unwrap();
    assert_eq!(collect_type_imports(&tree), vec!["./types".to_string()]);
}

#[test]
fn type_references_are_looked_into() {
    // type T = Box<import("inner").V, Map<import("deep").K>>
    let mut tree = SyntaxTree::new();
    let name = tree.add(NodeKind::Other, vec![]).unwrap();
    let inner = tree.add(import_type(Some("inner")), vec![]).unwrap();
    let map_name = tree.add(NodeKind::Other, vec![]).unwrap();
    let deep = tree.add(import_type(Some("deep")), vec![]).unwrap();
    let map = tree.add(NodeKind::TsTypeReference, vec![map_name, deep]).unwrap();
    let boxed = tree.add(NodeKind::TsTypeReference, vec![name, inner, map]).unwrap();
    tree.add(NodeKind::Other, vec![boxed]).unwrap();
    assert_eq!(collect_type_imports(&tree), vec!["inner".to_string(), "deep".to_string()]);
}

#[test]
fn inline_reference_is_not_looked_into() {
    // import("outer")<import("hidden").T>
    let mut tree = SyntaxTree::new();
    let hidden = tree.add(import_type(Some("hidden")), vec![]).unwrap();
    let outer = tree.add(import_type(Some("outer")), vec![hidden]).unwrap();
    tree.add(NodeKind::Other, vec![outer]).unwrap();
    assert_eq!(collect_type_imports(&tree), vec!["outer".to_string()]);
}

#[test]
fn imports_come_in_source_order_with_repeats() {
    let mut tree = SyntaxTree::new();
    let first = tree.add(import(true, None, "z"), vec![]).unwrap();
    let second = tree.add(import_type(Some("a")), vec![]).unwrap();
    let wrap = tree.add(NodeKind::Other, vec![second]).unwrap();
    let third = tree.add(import(true, None, "z"), vec![]).unwrap();
    tree.add(NodeKind::Other, vec![first, wrap, third]).unwrap();
    assert_eq!(
        collect_type_imports(&tree),
        vec!["z".to_string(), "a".to_string(), "z".to_string()]
    );
}

#[test]
fn only_what_hangs_below_the_root_is_visited() {
    let mut tree = SyntaxTree::new();
    tree.add(import(true, None, "loose"), vec![]).unwrap();
    let kept = tree.add(import(true, None, "kept"), vec![]).unwrap();
    tree.add(NodeKind::Other, vec![kept]).unwrap();
    assert_eq!(collect_type_imports(&tree), vec!["kept".to_string()]);
}

#[test]
fn add_refuses_a_child_that_is_not_in_the_tree() {
    let mut tree = SyntaxTree::new();
    assert_eq!(tree.add(NodeKind::Other, vec![0]), None);
    assert_eq!(tree.len(), 0);
    let leaf = tree.add(NodeKind::Other, vec![]).unwrap();
    assert_eq!(leaf, 0);
    assert_eq!(tree.add(NodeKind::Other, vec![0, 1]), None);
    assert_eq!(tree.len(), 1);
    assert_eq!(tree.add(NodeKind::Other, vec![0, 0]), Some(1));
    assert_eq!(tree.root(), Some(1));
    assert!(tree.node(1).is_some());
    assert!(tree.node(2).is_none());
}

#[test]
fn visitor_adds_to_what_it_has_found() {
    let mut visitor = TypeImportVisitor::new();
    assert!(visitor.imported.is_empty());
    visitor.visit_import_declaration(&ImportDeclaration {
        type_only: true,
        specifiers: None,
        source: "one".to_string(),
    });
    visitor.visit_ts_import_type(&TsImportType { argument: Some("two".to_string()) });
    visitor.visit_ts_import_type(&TsImportType { argument: None });
    let mut tree = SyntaxTree::new();
    let inner = tree.add(import_type(Some("three")), vec![]).unwrap();
    let reference = tree.add(NodeKind::TsTypeReference, vec![inner]).unwrap();
    visitor.visit_ts_type_reference(&tree, reference);
    visitor.visit_node(&tree, 99);
    visitor.visit_ts_type_reference(&tree, 99);
    visitor.visit_program(&tree);
    let found: Vec<(&str, ImportForm)> =
        visitor.imported.iter().map(|import| (import.specifier.as_str(), import.form)).collect();
    assert_eq!(
        found,
        vec![
            ("one", ImportForm::Declaration),
            ("two", ImportForm::Inline),
            ("three", ImportForm::Inline),
            ("three", ImportForm::Inline),
        ]
    );
}

#[test]
fn each_import_keeps_the_form_it_was_written_in() {
    let mut visitor = TypeImportVisitor::new();
    let both = ImportDeclaration {
        type_only: true,
        specifiers: Some(vec![ImportSpecifier::Named { type_only: true }]),
        source: "whole".to_string(),
    };
    let binding = ImportDeclaration {
        type_only: false,
        specifiers: Some(vec![ImportSpecifier::Default, ImportSpecifier::Named { type_only: true }]),
        source: "binding".to_string(),
    };
    let value = ImportDeclaration {
        type_only: false,
        specifiers: Some(vec![ImportSpecifier::Named { type_only: false }]),
        source: "value".to_string(),
    };
    visitor.visit_import_declaration(&both);
    visitor.visit_import_declaration(&binding);
    visitor.visit_import_declaration(&value);
    visitor.visit_ts_import_type(&TsImportType { argument: Some("inline".to_string()) });
    let found: Vec<(&str, ImportForm)> =
        visitor.imported.iter().map(|import| (import.specifier.as_str(), import.form)).collect();
    assert_eq!(
        found,
        vec![
            ("whole", ImportForm::Declaration),
            ("binding", ImportForm::Binding),
            ("inline", ImportForm::Inline),
        ]
    );
}
