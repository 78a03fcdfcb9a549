use lint_rules::binding::{BindingCatalog, Declaration, Declarator, FirstArgument, InitShape};
use lint_rules::classify::{classify_export, Classification, ExemptReason};
use lint_rules::decision::{Diagnostic, MessageKind, Severity, Verdict};
use lint_rules::module_record::{
    ExportEntry, ExportKind, ModuleRecord, RequestedEntry, RequestedModule, StarExportEntry,
};
use lint_rules::name_heuristic::NameHeuristic;
use lint_rules::only_export_components::OnlyExportComponents;
use lint_rules::span::Span;

/// The span of the first occurrence of `needle` in `source`.
fn at(source: &str, needle: &str) -> Span {
    let start = source.find(needle).expect("needle occurs in the source");
    Span { start: start as u32, end: (start + needle.len()) as u32 }
}

fn module(extension: &str, named: Vec<ExportEntry>, default: Option<ExportEntry>) -> ModuleRecord {
    ModuleRecord {
        is_module: true,
        path_extension: Some(extension.to_string()),
        star_export_entries: vec![],
        requested_modules: vec![],
        named_export_entries: named,
        default_export_entry: default,
    }
}

fn named_export(name: &str, span: Span) -> ExportEntry {
    ExportEntry {
        exported_name: name.to_string(),
        local_name: Some(name.to_string()),
        kind: ExportKind::Named,
        span,
        inline: None,
    }
}

fn default_of(local: &str, span: Span) -> ExportEntry {
    ExportEntry {
        exported_name: "default".to_string(),
        local_name: Some(local.to_string()),
        kind: ExportKind::Default,
        span,
        inline: None,
    }
}

fn inline_default(shape: InitShape, span: Span) -> ExportEntry {
    ExportEntry {
        exported_name: "default".to_string(),
        local_name: None,
        kind: ExportKind::Default,
        span,
        inline: Some(shape),
    }
}

fn star(request: &str, span: Span, is_type_only: bool) -> StarExportEntry {
    StarExportEntry { module_request: Some(request.to_string()), span, is_type_only }
}

fn reexported(request: &str, is_type: bool) -> RequestedModule {
    RequestedModule {
        request: request.to_string(),
        entries: vec![RequestedEntry { is_import: false, is_type }],
    }
}

fn constant(name: &str, init: InitShape, span: Span) -> Declaration {
    Declaration::Variable {
        is_const: true,
        declarators: vec![Declarator { name: name.to_string(), init: Some(init), span }],
    }
}

fn function(name: &str, span: Span) -> Declaration {
    Declaration::Function { name: name.to_string(), span }
}

fn call(callee: &str, first_argument: FirstArgument) -> InitShape {
    InitShape::CallExpression { callee_name: Some(callee.to_string()), first_argument }
}

fn run(
    rule: &OnlyExportComponents,
    record: &ModuleRecord,
    declarations: &Vec<Declaration>,
) -> Vec<Diagnostic> {
    let names = NameHeuristic::new().expect("the naming patterns compile");
    rule.run_once(&names, record, declarations)
}

fn verdict(
    rule: &OnlyExportComponents,
    record: &ModuleRecord,
    declarations: &Vec<Declaration>,
) -> Option<Verdict> {
    let names = NameHeuristic::new().expect("the naming patterns compile");
    rule.verdict(&names, record, declarations)
}

fn allowing(names: &[&str]) -> OnlyExportComponents {
    OnlyExportComponents {
        allow_export_names: names.iter().map(|n| n.to_string()).collect(),
        allow_constant_export: false,
        check_js: false,
    }
}

fn warn(kind: MessageKind, span: Span) -> Diagnostic {
    Diagnostic { kind, span }
}

#[test]
fn only_export_components_test() {
    let source = "export enum Tab { Home, Settings }; export const Bar = () => {};";
    let tab = at(source, "Tab");
    let bar = at(source, "Bar");
    let record = module("tsx", vec![named_export("Tab", tab), named_export("Bar", bar)], None);
    let declarations = vec![constant("Bar", InitShape::ArrowFunction, bar)];
    let rule = OnlyExportComponents::default();
    let found = run(&rule, &record, &declarations);
    assert!(!found.is_empty());
    assert_eq!(found, vec![warn(MessageKind::MixedExports, tab)]);
    assert!(matches!(verdict(&rule, &record, &declarations), Some(Verdict::Mixed(_))));
}

#[test]
fn exported_arrow_component_passes() {
    let source = "export const Foo = () => {};";
    let foo = at(source, "Foo");
    let record = module("tsx", vec![named_export("Foo", foo)], None);
    let declarations = vec![constant("Foo", InitShape::ArrowFunction, foo)];
    let rule = OnlyExportComponents::default();
    assert_eq!(run(&rule, &record, &declarations), vec![]);
    assert!(matches!(verdict(&rule, &record, &declarations), Some(Verdict::AllComponents)));
}

#[test]
fn exported_function_components_pass() {
    let source = "export function Foo() {}; export function CMS() {}; export const Foo2 = () => {}";
    let record = module(
        "jsx",
        vec![
            named_export("Foo", at(source, "Foo")),
            named_export("CMS", at(source, "CMS")),
            named_export("Foo2", at(source, "Foo2")),
        ],
        None,
    );
    let declarations = vec![
        function("Foo", at(source, "Foo")),
        function("CMS", at(source, "CMS")),
        constant("Foo2", InitShape::ArrowFunction, at(source, "Foo2")),
    ];
    assert_eq!(run(&OnlyExportComponents::default(), &record, &declarations), vec![]);
}

#[test]
fn all_capitals_needs_a_callable() {
    let source = "export const CMS = 4; export const Foo = () => {};";
    let cms = at(source, "CMS");
    let foo = at(source, "Foo");
    let record = module("tsx", vec![named_export("CMS", cms), named_export("Foo", foo)], None);
    let declarations = vec![
        constant("CMS", InitShape::Other, cms),
        constant("Foo", InitShape::ArrowFunction, foo),
    ];
    assert_eq!(
        run(&OnlyExportComponents::default(), &record, &declarations),
        vec![warn(MessageKind::MixedExports, cms)]
    );
}

#[test]
fn star_export_is_reported_once() {
    let source = "export * from 'mod';";
    let mut record = module("tsx", vec![], None);
    record.star_export_entries = vec![star("mod", at(source, source), false)];
    record.requested_modules = vec![reexported("mod", false)];
    let rule = OnlyExportComponents::default();
    assert_eq!(
        run(&rule, &record, &vec![]),
        vec![warn(MessageKind::StarExportUnverifiable, at(source, source))]
    );
    assert!(matches!(verdict(&rule, &record, &vec![]), Some(Verdict::Unverifiable)));
}

#[test]
fn star_export_of_unresolved_module_is_reported() {
    let source = "export * from 'missing';";
    let mut record = module("tsx", vec![], None);
    record.star_export_entries =
        vec![StarExportEntry { module_request: None, span: at(source, source), is_type_only: false }];
    assert_eq!(
        run(&OnlyExportComponents::default(), &record, &vec![]),
        vec![warn(MessageKind::StarExportUnverifiable, at(source, source))]
    );
}

#[test]
fn type_only_star_export_is_ignored() {
    let source = "export type * from './module';";
    let mut record = module("tsx", vec![], None);
    record.star_export_entries = vec![star("./module", at(source, source), true)];
    record.requested_modules = vec![reexported("other", false), reexported("./module", true)];
    let rule = OnlyExportComponents::default();
    assert_eq!(run(&rule, &record, &vec![]), vec![]);
    assert!(matches!(verdict(&rule, &record, &vec![]), Some(Verdict::AllComponents)));
}

#[test]
fn type_only_star_export_must_be_resolved() {
    let source = "export type * from './module';";
    let whole = at(source, source);
    let reported = vec![warn(MessageKind::StarExportUnverifiable, whole)];
    let rule = OnlyExportComponents::default();
    let mut record = module("tsx", vec![], None);
    record.star_export_entries = vec![star("./module", whole, true)];
    assert_eq!(run(&rule, &record, &vec![]), reported);
    record.requested_modules = vec![reexported("./other", true), reexported("./module", false)];
    assert_eq!(run(&rule, &record, &vec![]), reported);
    record.requested_modules = vec![RequestedModule {
        request: "./module".to_string(),
        entries: vec![RequestedEntry { is_import: true, is_type: true }],
    }];
    assert_eq!(run(&rule, &record, &vec![]), reported);
    record.requested_modules = vec![RequestedModule {
        request: "./module".to_string(),
        entries: vec![
            RequestedEntry { is_import: true, is_type: false },
            RequestedEntry { is_import: false, is_type: true },
        ],
    }];
    assert_eq!(run(&rule, &record, &vec![]), vec![]);
    record.star_export_entries =
        vec![StarExportEntry { module_request: None, span: whole, is_type_only: true }];
    assert_eq!(run(&rule, &record, &vec![]), reported);
    assert!(matches!(verdict(&rule, &record, &vec![]), Some(Verdict::Unverifiable)));
}

#[test]
fn each_open_star_export_has_its_diagnostic() {
    let source = "export * from 'a'; export type * from 'b'; export * from 'c'; export const Foo = () => {};";
    let a = at(source, "export * from 'a';");
    let b = at(source, "export type * from 'b';");
    let c = at(source, "export * from 'c';");
    let foo = at(source, "Foo");
    let mut record = module("tsx", vec![named_export("Foo", foo)], None);
    record.star_export_entries = vec![star("a", a, false), star("b", b, true), star("c", c, false)];
    record.requested_modules =
        vec![reexported("a", false), reexported("b", true), reexported("c", false)];
    let declarations = vec![constant("Foo", InitShape::ArrowFunction, foo)];
    assert_eq!(
        run(&OnlyExportComponents::default(), &record, &declarations),
        vec![
            warn(MessageKind::StarExportUnverifiable, a),
            warn(MessageKind::StarExportUnverifiable, c),
        ]
    );
}

#[test]
fn star_kind_among_the_exports_is_unverifiable() {
    let source = "export * as all from 'a'; export const Foo = () => {};";
    let all = at(source, "export * as all from 'a';");
    let foo = at(source, "Foo");
    let star_entry = ExportEntry {
        exported_name: "all".to_string(),
        local_name: None,
        kind: ExportKind::Star,
        span: all,
        inline: None,
    };
    let record = module("tsx", vec![star_entry, named_export("Foo", foo)], None);
    let declarations = vec![constant("Foo", InitShape::ArrowFunction, foo)];
    let rule = OnlyExportComponents::default();
    assert_eq!(
        run(&rule, &record, &declarations),
        vec![warn(MessageKind::StarExportUnverifiable, all)]
    );
    assert!(matches!(verdict(&rule, &record, &declarations), Some(Verdict::Unverifiable)));
}

#[test]
fn anonymous_default_arrow_is_reported_as_such() {
    let source = "export default () => {}";
    let whole = at(source, source);
    let record = module("tsx", vec![], Some(inline_default(InitShape::ArrowFunction, whole)));
    let rule = OnlyExportComponents::default();
    let found = run(&rule, &record, &vec![]);
    assert_eq!(found, vec![warn(MessageKind::AnonymousDefaultExport, whole)]);
    assert!(found.iter().all(|d| d.kind != MessageKind::MixedExports));
    match verdict(&rule, &record, &vec![]) {
        Some(Verdict::Mixed(at_fault)) => assert_eq!(at_fault, found),
        _ => panic!("an anonymous default export makes the file mixed"),
    }
}

#[test]
fn anonymous_default_beside_a_component() {
    let source = "export const Foo = () => {}; export default function () {}";
    let foo = at(source, "Foo");
    let anonymous = at(source, "export default function () {}");
    let record = module(
        "tsx",
        vec![named_export("Foo", foo)],
        Some(inline_default(InitShape::FunctionExpr, anonymous)),
    );
    let declarations = vec![constant("Foo", InitShape::ArrowFunction, foo)];
    assert_eq!(
        run(&OnlyExportComponents::default(), &record, &declarations),
        vec![warn(MessageKind::AnonymousDefaultExport, anonymous)]
    );
}

#[test]
fn constant_export_needs_the_option() {
    let source = "export const CONSTANT = 'hi'; export const Foo = () => {};";
    let constant_span = at(source, "CONSTANT");
    let foo = at(source, "Foo");
    let record = module(
        "tsx",
        vec![named_export("CONSTANT", constant_span), named_export("Foo", foo)],
        None,
    );
    let declarations = vec![
        constant("CONSTANT", InitShape::StringLiteral, constant_span),
        constant("Foo", InitShape::ArrowFunction, foo),
    ];
    let mut rule = OnlyExportComponents::default();
    rule.allow_constant_export = true;
    assert_eq!(run(&rule, &record, &declarations), vec![]);
    rule.allow_constant_export = false;
    assert_eq!(
        run(&rule, &record, &declarations),
        vec![warn(MessageKind::MixedExports, constant_span)]
    );
}

#[test]
fn template_and_binary_constants_are_exempt_with_the_option() {
    let source = "export const A = `x${y}`; export const B = 1 + 2; export const Foo = () => {};";
    let a = at(source, "A");
    let b = at(source, "B");
    let foo = at(source, "Foo");
    let record = module(
        "tsx",
        vec![named_export("A", a), named_export("B", b), named_export("Foo", foo)],
        None,
    );
    let declarations = vec![
        constant("A", InitShape::TemplateLiteral, a),
        constant("B", InitShape::BinaryExpr, b),
        constant("Foo", InitShape::ArrowFunction, foo),
    ];
    let mut rule = OnlyExportComponents::default();
    rule.allow_constant_export = true;
    assert_eq!(run(&rule, &record, &declarations), vec![]);
    rule.allow_constant_export = false;
    assert_eq!(
        run(&rule, &record, &declarations),
        vec![warn(MessageKind::MixedExports, a), warn(MessageKind::MixedExports, b)]
    );
}

#[test]
fn allow_listed_names_are_exempt() {
    let source = "export const loader = () => {}; export const Bar = () => {};";
    let loader = at(source, "loader");
    let bar = at(source, "Bar");
    let record = module("tsx", vec![named_export("loader", loader), named_export("Bar", bar)], None);
    let declarations = vec![
        constant("loader", InitShape::ArrowFunction, loader),
        constant("Bar", InitShape::ArrowFunction, bar),
    ];
    assert_eq!(run(&allowing(&["loader"]), &record, &declarations), vec![]);
    assert_eq!(run(&allowing(&["loader", "meta"]), &record, &declarations), vec![]);
    assert_eq!(
        run(&allowing(&[]), &record, &declarations),
        vec![warn(MessageKind::MixedExports, loader)]
    );
}

#[test]
fn forward_ref_wrapping_is_a_component() {
    let source = "export const SVG = forwardRef(() => <svg/>);";
    let svg = at(source, "SVG");
    let entry = named_export("SVG", svg);
    let declarations = vec![constant("SVG", call("forwardRef", FirstArgument::Arrow), svg)];
    let names = NameHeuristic::new().expect("the naming patterns compile");
    let catalog = BindingCatalog::collect(&declarations);
    assert_eq!(
        classify_export(&names, &vec![], false, &entry, &catalog),
        Some(Classification::Component)
    );
    let record = module("tsx", vec![entry], None);
    assert_eq!(run(&OnlyExportComponents::default(), &record, &declarations), vec![]);
}

#[test]
fn wrapped_function_is_judged_by_its_own_name() {
    let names = NameHeuristic::new().expect("the naming patterns compile");
    let span = Span { start: 0, end: 1 };
    let inner = |name: &str| FirstArgument::Function { name: Some(name.to_string()) };
    let declarations = vec![
        constant("page", call("withRouter", inner("Page")), span),
        constant("Page", call("withRouter", inner("page")), span),
        constant("Plain", call("connect", inner("Inner")), span),
        constant("Passed", call("withRouter", FirstArgument::Other), span),
        constant("PASSED", call("withRouter", FirstArgument::Other), span),
        constant("Nameless", call("with", FirstArgument::Function { name: None }), span),
    ];
    let catalog = BindingCatalog::collect(&declarations);
    let class = |name: &str| {
        classify_export(&names, &vec![], false, &named_export(name, span), &catalog)
    };
    assert_eq!(class("page"), Some(Classification::Component));
    assert_eq!(class("Page"), Some(Classification::NonComponent));
    assert_eq!(class("Plain"), Some(Classification::NonComponent));
    assert_eq!(class("Passed"), Some(Classification::Component));
    assert_eq!(class("PASSED"), Some(Classification::NonComponent));
    assert_eq!(class("Nameless"), Some(Classification::Component));
}

#[test]
fn classification_of_each_kind_of_entry() {
    let names = NameHeuristic::new().expect("the naming patterns compile");
    let span = Span { start: 3, end: 9 };
    let declarations = vec![
        constant("Foo", InitShape::ArrowFunction, span),
        constant("text", InitShape::StringLiteral, span),
        Declaration::Class { name: "Widget".to_string(), span },
    ];
    let catalog = BindingCatalog::collect(&declarations);
    let allow = vec!["text".to_string()];
    let entry = |name: &str, kind: ExportKind| ExportEntry {
        exported_name: name.to_string(),
        local_name: Some(name.to_string()),
        kind,
        span,
        inline: None,
    };
    assert_eq!(
        classify_export(&names, &vec![], false, &entry("Foo", ExportKind::Star), &catalog),
        None
    );
    assert_eq!(
        classify_export(&names, &allow, false, &entry("text", ExportKind::Named), &catalog),
        Some(Classification::Exempted(ExemptReason::AllowListed))
    );
    assert_eq!(
        classify_export(&names, &vec![], false, &entry("Foo", ExportKind::TypeOnly), &catalog),
        Some(Classification::Exempted(ExemptReason::TypeOnly))
    );
    assert_eq!(
        classify_export(&names, &vec![], true, &entry("text", ExportKind::Named), &catalog),
        Some(Classification::Exempted(ExemptReason::Constant))
    );
    assert_eq!(
        classify_export(&names, &vec![], false, &entry("text", ExportKind::Named), &catalog),
        Some(Classification::NonComponent)
    );
    assert_eq!(
        classify_export(&names, &vec![], false, &entry("Widget", ExportKind::Named), &catalog),
        Some(Classification::Component)
    );
    assert_eq!(
        classify_export(&names, &vec![], false, &entry("Gone", ExportKind::Named), &catalog),
        Some(Classification::Unknown)
    );
    let reexport = ExportEntry {
        exported_name: "Foo".to_string(),
        local_name: None,
        kind: ExportKind::Named,
        span,
        inline: None,
    };
    assert_eq!(
        classify_export(&names, &vec![], false, &reexport, &catalog),
        Some(Classification::Unknown)
    );
    assert_eq!(
        classify_export(
            &names,
            &vec![],
            false,
            &inline_default(call("withData", FirstArgument::Function { name: Some("List".to_string()) }), span),
            &catalog
        ),
        Some(Classification::Component)
    );
    assert_eq!(
        classify_export(&names, &vec![], false, &inline_default(InitShape::Other, span), &catalog),
        Some(Classification::NonComponent)
    );
}

#[test]
fn two_runs_report_the_same() {
    let source = "export enum Tab { Home, Settings }; export const Bar = () => {}; export * from 'x';";
    let tab = at(source, "Tab");
    let bar = at(source, "Bar");
    let mut record = module("tsx", vec![named_export("Tab", tab), named_export("Bar", bar)], None);
    record.star_export_entries = vec![star("x", at(source, "export * from 'x';"), false)];
    let declarations = vec![constant("Bar", InitShape::ArrowFunction, bar)];
    let rule = OnlyExportComponents::default();
    let names = NameHeuristic::new().expect("the naming patterns compile");
    let first = rule.run_once(&names, &record, &declarations);
    let second = rule.run_once(&names, &record, &declarations);
    assert_eq!(first, second);
    assert_eq!(
        first,
        vec![
            warn(MessageKind::StarExportUnverifiable, at(source, "export * from 'x';")),
            warn(MessageKind::MixedExports, tab),
        ]
    );
}

#[test]
fn other_files_are_left_alone() {
    let source = "export const foo = 3; export const Bar = () => {};";
    let foo = at(source, "foo");
    let bar = at(source, "Bar");
    let declarations = vec![
        constant("foo", InitShape::Other, foo),
        constant("Bar", InitShape::ArrowFunction, bar),
    ];
    let exports = || vec![named_export("foo", foo), named_export("Bar", bar)];
    let rule = OnlyExportComponents::default();

    let inside = module("tsx", exports(), None);
    assert!(rule.applies(&inside));
    assert_eq!(run(&rule, &inside, &declarations), vec![warn(MessageKind::MixedExports, foo)]);
    let plain = module("jsx", exports(), None);
    assert!(rule.applies(&plain));
    assert_eq!(run(&rule, &plain, &declarations), vec![warn(MessageKind::MixedExports, foo)]);

    let mut script = module("tsx", exports(), None);
    script.is_module = false;
    assert!(!rule.applies(&script));
    assert_eq!(run(&rule, &script, &declarations), vec![]);
    assert!(verdict(&rule, &script, &declarations).is_none());

    for extension in ["js", "ts", "TSX", "", "tsx "] {
        let other = module(extension, exports(), None);
        assert!(!rule.applies(&other));
        assert_eq!(run(&rule, &other, &declarations), vec![]);
    }
    let mut bare = module("tsx", exports(), None);
    bare.path_extension = None;
    assert!(!rule.applies(&bare));
    assert_eq!(run(&rule, &bare, &declarations), vec![]);
}

#[test]
fn plain_files_may_need_the_framework_in_scope() {
    let source = "export const foo = 3; export const Bar = () => {};";
    let foo = at(source, "foo");
    let bar = at(source, "Bar");
    let declarations = vec![
        constant("foo", InitShape::Other, foo),
        constant("Bar", InitShape::ArrowFunction, bar),
    ];
    let exports = || vec![named_export("foo", foo), named_export("Bar", bar)];
    let mut rule = OnlyExportComponents::default();
    rule.check_js = true;
    let requested = |request: &str, is_import: bool| RequestedModule {
        request: request.to_string(),
        entries: vec![
            RequestedEntry { is_import: false, is_type: false },
            RequestedEntry { is_import, is_type: false },
        ],
    };

    let mut plain = module("jsx", exports(), None);
    assert!(!rule.applies(&plain));
    assert_eq!(run(&rule, &plain, &declarations), vec![]);
    plain.requested_modules = vec![requested("lodash", true), requested("react", false)];
    assert!(!plain.imports_framework());
    assert!(!rule.applies(&plain));
    plain.requested_modules = vec![requested("lodash", true), requested("react", true)];
    assert!(plain.imports_framework());
    assert!(rule.applies(&plain));
    assert_eq!(run(&rule, &plain, &declarations), vec![warn(MessageKind::MixedExports, foo)]);

    let typed = module("tsx", exports(), None);
    assert!(rule.applies(&typed));
    assert_eq!(run(&rule, &typed, &declarations), vec![warn(MessageKind::MixedExports, foo)]);
}

#[test]
fn unexported_component_beside_other_exports() {
    let source = "const Foo = () => {}; export const foo = 3;";
    let component = at(source, "Foo");
    let foo = at(source, "foo");
    let record = module("tsx", vec![named_export("foo", foo)], None);
    let declarations = vec![
        constant("Foo", InitShape::ArrowFunction, component),
        constant("foo", InitShape::Other, foo),
    ];
    let rule = OnlyExportComponents::default();
    let found = run(&rule, &record, &declarations);
    assert_eq!(found, vec![warn(MessageKind::LocalComponentNotExported, component)]);
    match verdict(&rule, &record, &declarations) {
        Some(Verdict::Mixed(at_fault)) => assert_eq!(at_fault, found),
        _ => panic!("a component beside other exports makes the file mixed"),
    }
}

#[test]
fn file_without_exports() {
    let source = "import x from 'y'; const Foo = () => {}; function helper() {}; class Bar {}";
    let foo = at(source, "Foo");
    let bar = at(source, "Bar");
    let record = module("tsx", vec![], None);
    let declarations = vec![
        constant("Foo", InitShape::ArrowFunction, foo),
        function("helper", at(source, "helper")),
        Declaration::Class { name: "Bar".to_string(), span: bar },
    ];
    let rule = OnlyExportComponents::default();
    assert!(!record.has_exports());
    assert_eq!(
        run(&rule, &record, &declarations),
        vec![warn(MessageKind::NoExportsInFile, foo), warn(MessageKind::NoExportsInFile, bar)]
    );
    assert!(matches!(verdict(&rule, &record, &declarations), Some(Verdict::Empty)));
    assert_eq!(run(&rule, &record, &vec![function("helper", at(source, "helper"))]), vec![]);
}

#[test]
fn exports_may_come_before_the_declaration() {
    let source = "export { App as default }; const App = () => <>Text</>;";
    let export = at(source, "App as default");
    let app = at(source, "App = ");
    let record = module("tsx", vec![], Some(default_of("App", export)));
    let declarations = vec![constant("App", InitShape::ArrowFunction, app)];
    assert_eq!(run(&OnlyExportComponents::default(), &record, &declarations), vec![]);
}

#[test]
fn aliased_export_is_judged_by_the_local_binding() {
    let source = "const helper = 1; const Foo = () => {}; export { helper as Helper, Foo as foo };";
    let helper = at(source, "helper as Helper");
    let foo = at(source, "Foo as foo");
    let alias = |exported: &str, local: &str, span: Span| ExportEntry {
        exported_name: exported.to_string(),
        local_name: Some(local.to_string()),
        kind: ExportKind::Named,
        span,
        inline: None,
    };
    let record =
        module("tsx", vec![alias("Helper", "helper", helper), alias("foo", "Foo", foo)], None);
    let declarations = vec![
        constant("helper", InitShape::Other, at(source, "helper")),
        constant("Foo", InitShape::ArrowFunction, at(source, "Foo")),
    ];
    assert_eq!(
        run(&OnlyExportComponents::default(), &record, &declarations),
        vec![warn(MessageKind::MixedExports, helper)]
    );
}

#[test]
fn unresolved_export_alone_is_not_reported() {
    let source = "export { gone };";
    let record = module("tsx", vec![named_export("gone", at(source, "gone"))], None);
    let rule = OnlyExportComponents::default();
    assert_eq!(run(&rule, &record, &vec![]), vec![]);
    assert!(matches!(verdict(&rule, &record, &vec![]), Some(Verdict::AllComponents)));
}

#[test]
fn messages_and_advice() {
    let star = warn(MessageKind::StarExportUnverifiable, Span::new(0, 1));
    assert_eq!(star.severity(), Severity::Warning);
    assert_eq!(
        star.kind.text(),
        "eslint-plugin-react-refresh(only-export-components): This rule can't verify that `export *` only exports components."
    );
    assert_eq!(star.kind.help(), None);
    assert_eq!(
        MessageKind::MixedExports.help(),
        Some("Use a new file to share constants or functions between components.")
    );
    assert_eq!(MessageKind::AnonymousDefaultExport.help(), Some("Add a name to your export."));
    assert_eq!(
        MessageKind::AnonymousDefaultExport.text(),
        "eslint-plugin-react-refresh(only-export-components): Fast refresh can't handle anonymous components."
    );
    assert_eq!(
        MessageKind::NoExportsInFile.text(),
        "eslint-plugin-react-refresh(only-export-components): Fast refresh only works when a file has exports."
    );
    assert_eq!(
        MessageKind::LocalComponentNotExported.help(),
        Some("Move your component(s) to a separate file.")
    );
}
