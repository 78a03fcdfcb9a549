use lint_rules::binding::{
    Binding, BindingCatalog, BindingKind, Declaration, Declarator, InitShape,
};
use lint_rules::span::Span;

fn variable(name: &str, init: Option<InitShape>, start: u32) -> Declarator {
    Declarator { name: name.to_string(), init, span: Span { start, end: start + 1 } }
}

fn spans_in_order(catalog: &BindingCatalog) -> Vec<(String, u32)> {
    (0..catalog.len()).map(|i| (catalog.get(i).name.clone(), catalog.get(i).span.start)).collect()
}

#[test]
fn every_declarator_is_catalogued() {
    let declarations = vec![
        Declaration::Function { name: "render".to_string(), span: Span { start: 0, end: 1 } },
        Declaration::Variable {
            is_const: true,
            declarators: vec![
                variable("a", Some(InitShape::StringLiteral), 10),
                variable("b", None, 20),
            ],
        },
        Declaration::Variable { is_const: false, declarators: vec![] },
        Declaration::Class { name: "Widget".to_string(), span: Span { start: 30, end: 31 } },
    ];
    let catalog = BindingCatalog::collect(&declarations);
    assert_eq!(catalog.len(), 4);
    assert_eq!(
        spans_in_order(&catalog),
        vec![
            ("render".to_string(), 0),
            ("a".to_string(), 10),
            ("b".to_string(), 20),
            ("Widget".to_string(), 30),
        ]
    );
    let a = catalog.lookup("a").expect("a is declared");
    assert!(a.kind == BindingKind::Variable && a.is_const);
    assert!(matches!(a.init_shape, Some(InitShape::StringLiteral)));
    let b = catalog.lookup("b").expect("b is declared");
    assert!(b.is_const && b.init_shape.is_none());
    let render = catalog.lookup("render").expect("render is declared");
    assert!(render.kind == BindingKind::Function && !render.is_const);
    let widget = catalog.lookup("Widget").expect("Widget is declared");
    assert!(widget.kind == BindingKind::Class && !widget.is_const);
    assert!(catalog.lookup("c").is_none());
    assert!(catalog.lookup("").is_none());
}

#[test]
fn last_declaration_of_a_name_wins() {
    let declarations = vec![
        Declaration::Variable {
            is_const: false,
            declarators: vec![variable("x", Some(InitShape::Other), 1), variable("y", None, 2)],
        },
        Declaration::Function { name: "x".to_string(), span: Span { start: 3, end: 4 } },
        Declaration::Variable {
            is_const: true,
            declarators: vec![
                variable("y", Some(InitShape::ArrowFunction), 5),
                variable("x", Some(InitShape::BinaryExpr), 6),
                variable("y", Some(InitShape::TemplateLiteral), 7),
            ],
        },
    ];
    let catalog = BindingCatalog::collect(&declarations);
    assert_eq!(spans_in_order(&catalog), vec![("x".to_string(), 6), ("y".to_string(), 7)]);
    let x = catalog.lookup("x").expect("x is declared");
    assert!(x.kind == BindingKind::Variable && x.is_const);
    assert!(matches!(x.init_shape, Some(InitShape::BinaryExpr)));
    let y = catalog.lookup("y").expect("y is declared");
    assert!(matches!(y.init_shape, Some(InitShape::TemplateLiteral)));
}

#[test]
fn inserting_replaces_in_place() {
    let binding = |name: &str, start: u32| Binding {
        name: name.to_string(),
        kind: BindingKind::Variable,
        is_const: false,
        init_shape: None,
        span: Span { start, end: start },
    };
    let catalog = BindingCatalog::new();
    assert_eq!(catalog.len(), 0);
    assert!(catalog.lookup("a").is_none());
    let catalog = catalog.insert(binding("a", 1)).insert(binding("b", 2)).insert(binding("a", 3));
    assert_eq!(spans_in_order(&catalog), vec![("a".to_string(), 3), ("b".to_string(), 2)]);
}

#[test]
fn empty_module_has_an_empty_catalogue() {
    let catalog = BindingCatalog::collect(&vec![]);
    assert_eq!(catalog.len(), 0);
}
