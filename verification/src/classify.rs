//! Classifies one export at a time.

use crate::binding::{
    found, holds, Binding, BindingCatalog, BindingKind, FirstArgument, InitShape,
};
use crate::hoc::{is_wrapper_call, unwrap_hoc, unwrapped, wraps};
use crate::module_record::{ExportEntry, ExportKind};
use crate::name_heuristic::NameHeuristic;
use crate::pattern::{loose_pascal, strict_pascal};
use crate::text::{is_listed, listed};
use vstd::prelude::*;

verus! {

/// Why an export is left out of the reckoning.
#[derive(Clone, Copy, Debug, PartialEq, Eq, Structural)]
pub enum ExemptReason {
    /// Its exported name is on the allow-list.
    AllowListed,
    /// It is initialised with a constant, and constants are allowed.
    Constant,
    /// It exports a type only.
    TypeOnly,
}

/// What one export is taken for.
#[derive(Clone, Copy, Debug, PartialEq, Eq, Structural)]
pub enum Classification {
    Component,
    NonComponent,
    Exempted(ExemptReason),
    /// The exported binding is not in the catalogue. Counts as no component.
    Unknown,
}

/// The initializer is a string, a template or a binary expression.
pub open spec fn constant_shape(shape: Option<InitShape>) -> bool {
    shape matches Some(s) && (s is StringLiteral || s is TemplateLiteral || s is BinaryExpr)
}

/// What is bound can be called, so its name cannot be a constant's.
pub open spec fn callable(kind: BindingKind, shape: Option<InitShape>) -> bool {
    ||| kind is Function
    ||| kind is Class
    ||| shape matches Some(s) && (s is ArrowFunction || s is FunctionExpr)
}

/// The naming rule: a component's name is loose PascalCase and, unless what
/// it names can be called, has a lower-case letter after the first.
pub open spec fn name_verdict(name: Seq<char>, callable: bool) -> Classification {
    if loose_pascal(name) && (callable || strict_pascal(name)) {
        Classification::Component
    } else {
        Classification::NonComponent
    }
}

/// The naming rule applied to what `name` is bound to. A call to a known
/// wrapper is judged by the function it wraps; a call to anything else is
/// no component.
pub open spec fn shape_verdict(name: Seq<char>, kind: BindingKind, shape: Option<InitShape>)
    -> Classification {
    match shape {
        Some(InitShape::CallExpression { callee_name, first_argument }) => {
            if wraps(callee_name) {
                match unwrapped(callee_name, first_argument, name) {
                    Some(inner) => name_verdict(inner, true),
                    None => name_verdict(name, false),
                }
            } else {
                Classification::NonComponent
            }
        },
        _ => name_verdict(name, callable(kind, shape)),
    }
}

/// The class of a resolved export: exempt as a constant, or by its name and
/// shape.
pub open spec fn subject_class(
    allow_constant: bool,
    name: Seq<char>,
    kind: BindingKind,
    shape: Option<InitShape>,
) -> Classification {
    if allow_constant && constant_shape(shape) {
        Classification::Exempted(ExemptReason::Constant)
    } else {
        shape_verdict(name, kind, shape)
    }
}

/// A default export of a function or arrow written in place, with no name
/// of its own.
pub open spec fn anonymous_default(entry: ExportEntry) -> bool {
    &&& entry.kind is Default
    &&& entry.local_name is None
    &&& entry.inline matches Some(s)
    &&& (s is ArrowFunction || s is FunctionExpr)
}

/// The class of one export entry. A star export has none; a default export
/// of a function without a name is never a component.
pub open spec fn classified(
    allow: Seq<String>,
    allow_constant: bool,
    entry: ExportEntry,
    cat: Seq<Binding>,
) -> Option<Classification> {
    if entry.kind is Star {
        None
    } else if listed(allow, entry.exported_name@) {
        Some(Classification::Exempted(ExemptReason::AllowListed))
    } else if entry.kind is TypeOnly {
        Some(Classification::Exempted(ExemptReason::TypeOnly))
    } else {
        Some(
            match entry.local_name {
                Some(local) => match found(cat, local@) {
                    Some(b) => subject_class(allow_constant, b.name@, b.kind, b.init_shape),
                    None => Classification::Unknown,
                },
                None => if anonymous_default(entry) {
                    Classification::NonComponent
                } else if entry.kind is Default && entry.inline is Some {
                    subject_class(
                        allow_constant,
                        entry.exported_name@,
                        BindingKind::Variable,
                        entry.inline,
                    )
                } else {
                    Classification::Unknown
                },
            },
        )
    }
}

/// The binding is a function: declared as one, or a variable initialised
/// with a function or an arrow.
pub open spec fn function_like(b: Binding) -> bool {
    ||| b.kind is Function && b.init_shape is None
    ||| b.init_shape matches Some(s) && (s is ArrowFunction || s is FunctionExpr)
}

/// The binding is a variable initialised with a call that hands a function
/// without a name of its own to a known wrapper.
pub open spec fn wrapped_function(b: Binding) -> bool {
    &&& b.kind is Variable
    &&& b.init_shape matches Some(InitShape::CallExpression { callee_name, first_argument })
    &&& wraps(callee_name)
    &&& (first_argument is Arrow || first_argument == (FirstArgument::Function { name: None }))
}

/// The entry exports, under a name that is not on the allow-list, the
/// binding `b` of the catalogue, and not as a type.
pub open spec fn exports_binding(
    allow: Seq<String>,
    entry: ExportEntry,
    cat: Seq<Binding>,
    b: Binding,
) -> bool {
    &&& entry.kind is Named || entry.kind is Default
    &&& !listed(allow, entry.exported_name@)
    &&& entry.local_name matches Some(local)
    &&& found(cat, local@) == Some(b)
}

/// The entry exports a function or arrow of the catalogue whose name is
/// loose PascalCase, and not as a type.
pub open spec fn exports_component_function(entry: ExportEntry, cat: Seq<Binding>) -> bool {
    &&& entry.kind is Named || entry.kind is Default
    &&& entry.local_name matches Some(local)
    &&& found(cat, local@) matches Some(b)
    &&& function_like(b)
    &&& loose_pascal(b.name@)
}

/// An exported function or arrow whose name is loose PascalCase is a
/// component, whatever the options, unless its exported name is on the
/// allow-list: then it is exempt. So it is, in particular, where the name
/// has a lower-case letter.
pub proof fn lemma_function_export_is_component(
    allow: Seq<String>,
    allow_constant: bool,
    entry: ExportEntry,
    cat: Seq<Binding>,
)
    requires
        exports_component_function(entry, cat),
    ensures
        classified(allow, allow_constant, entry, cat) == Some(
            if listed(allow, entry.exported_name@) {
                Classification::Exempted(ExemptReason::AllowListed)
            } else {
                Classification::Component
            },
        ),
{
}

/// A function without a name of its own that is handed to a known wrapper
/// is judged by the name of the binding: an exported binding so initialised
/// is a component if its name is loose PascalCase, all capitals or not.
pub proof fn lemma_wrapped_export_is_component(
    allow: Seq<String>,
    allow_constant: bool,
    entry: ExportEntry,
    cat: Seq<Binding>,
    b: Binding,
)
    requires
        exports_binding(allow, entry, cat, b),
        wrapped_function(b),
        loose_pascal(b.name@),
    ensures
        classified(allow, allow_constant, entry, cat) == Some(Classification::Component),
{
}

/// An export whose name is on the allow-list is exempt, whatever it is
/// bound to, unless it is a star export.
pub proof fn lemma_allow_listed_is_exempt(
    allow: Seq<String>,
    allow_constant: bool,
    entry: ExportEntry,
    cat: Seq<Binding>,
)
    requires
        !(entry.kind is Star),
        listed(allow, entry.exported_name@),
    ensures
        classified(allow, allow_constant, entry, cat) == Some(
            Classification::Exempted(ExemptReason::AllowListed),
        ),
{
}

/// An exported variable initialised with a string, a template or a binary
/// expression is exempt where constants are allowed; where they are not, it
/// goes by its name, which must then have a lower-case letter after the
/// first.
pub proof fn lemma_constant_export(
    allow: Seq<String>,
    allow_constant: bool,
    entry: ExportEntry,
    cat: Seq<Binding>,
    b: Binding,
)
    requires
        exports_binding(allow, entry, cat, b),
        b.kind is Variable,
        constant_shape(b.init_shape),
    ensures
        classified(allow, allow_constant, entry, cat) == Some(
            if allow_constant {
                Classification::Exempted(ExemptReason::Constant)
            } else if strict_pascal(b.name@) {
                Classification::Component
            } else {
                Classification::NonComponent
            },
        ),
{
}

/// A default export of a function without a name is no component, whatever
/// the catalogue holds, unless its exported name is on the allow-list.
pub proof fn lemma_anonymous_default_is_no_component(
    allow: Seq<String>,
    allow_constant: bool,
    entry: ExportEntry,
    cat: Seq<Binding>,
)
    requires
        anonymous_default(entry),
        !listed(allow, entry.exported_name@),
    ensures
        classified(allow, allow_constant, entry, cat) == Some(Classification::NonComponent),
{
}

/// An export whose binding is not in the catalogue is classified all the
/// same, as unknown.
pub proof fn lemma_unresolved_is_unknown(
    allow: Seq<String>,
    allow_constant: bool,
    entry: ExportEntry,
    cat: Seq<Binding>,
)
    requires
        entry.kind is Named || entry.kind is Default,
        !listed(allow, entry.exported_name@),
        entry.local_name matches Some(local) && !holds(cat, local@),
    ensures
        classified(allow, allow_constant, entry, cat) == Some(Classification::Unknown),
{
}

/// Whether the initializer is a string, a template or a binary expression.
pub fn is_constant_shape(shape: &Option<InitShape>) -> (r: bool)
    ensures
        r == constant_shape(*shape),
{
    match shape {
        Some(InitShape::StringLiteral) => true,
        Some(InitShape::TemplateLiteral) => true,
        Some(InitShape::BinaryExpr) => true,
        _ => false,
    }
}

/// Whether what is bound can be called.
pub fn is_callable(kind: BindingKind, shape: &Option<InitShape>) -> (r: bool)
    ensures
        r == callable(kind, *shape),
{
    match kind {
        BindingKind::Function => true,
        BindingKind::Class => true,
        BindingKind::Variable => match shape {
            Some(InitShape::ArrowFunction) => true,
            Some(InitShape::FunctionExpr) => true,
            _ => false,
        },
    }
}

/// Applies the naming rule to `name`.
pub fn classify_name(names: &NameHeuristic, name: &str, callable: bool) -> (c: Classification)
    ensures
        c == name_verdict(name@, callable),
{
    if names.possible_component(name) && (callable || names.strict_non_constant(name)) {
        Classification::Component
    } else {
        Classification::NonComponent
    }
}

/// Applies the naming rule to what `name` is bound to, looking through a
/// call to a known wrapper.
pub fn classify_shape(
    names: &NameHeuristic,
    name: &str,
    kind: BindingKind,
    shape: &Option<InitShape>,
) -> (c: Classification)
    ensures
        c == shape_verdict(name@, kind, *shape),
{
    match shape {
        Some(InitShape::CallExpression { callee_name, first_argument }) => {
            if is_wrapper_call(callee_name) {
                match unwrap_hoc(callee_name, first_argument, name) {
                    Some(inner) => classify_name(names, inner, true),
                    None => classify_name(names, name, false),
                }
            } else {
                Classification::NonComponent
            }
        },
        _ => classify_name(names, name, is_callable(kind, shape)),
    }
}

/// Classifies a resolved export: exempt as a constant, or by its name and
/// shape.
pub fn classify_subject(
    names: &NameHeuristic,
    allow_constant: bool,
    name: &str,
    kind: BindingKind,
    shape: &Option<InitShape>,
) -> (c: Classification)
    ensures
        c == subject_class(allow_constant, name@, kind, *shape),
{
    if allow_constant && is_constant_shape(shape) {
        Classification::Exempted(ExemptReason::Constant)
    } else {
        classify_shape(names, name, kind, shape)
    }
}

/// Classifies one export against the finished catalogue.
pub fn classify_export(
    names: &NameHeuristic,
    allow: &Vec<String>,
    allow_constant: bool,
    entry: &ExportEntry,
    catalog: &BindingCatalog,
) -> (c: Option<Classification>)
    ensures
        c == classified(allow@, allow_constant, *entry, catalog@),
{
    match entry.kind {
        ExportKind::Star => {
            return None;
        },
        _ => {},
    }
    if is_listed(allow, entry.exported_name.as_str()) {
        return Some(Classification::Exempted(ExemptReason::AllowListed));
    }
    match entry.kind {
        ExportKind::TypeOnly => {
            return Some(Classification::Exempted(ExemptReason::TypeOnly));
        },
        _ => {},
    }
    match &entry.local_name {
        Some(local) => match catalog.lookup(local.as_str()) {
            Some(b) => Some(
                classify_subject(names, allow_constant, b.name.as_str(), b.kind, &b.init_shape),
            ),
            None => Some(Classification::Unknown),
        },
        None => {
            let is_default = match entry.kind {
                ExportKind::Default => true,
                _ => false,
            };
            if is_anonymous_default(entry) {
                Some(Classification::NonComponent)
            } else if is_default && entry.inline.is_some() {
                Some(
                    classify_subject(
                        names,
                        allow_constant,
                        entry.exported_name.as_str(),
                        BindingKind::Variable,
                        &entry.inline,
                    ),
                )
            } else {
                Some(Classification::Unknown)
            }
        },
    }
}

/// Whether the entry is a default export of a function without a name.
pub fn is_anonymous_default(entry: &ExportEntry) -> (r: bool)
    ensures
        r == anonymous_default(*entry),
{
    let is_default = match entry.kind {
        ExportKind::Default => true,
        _ => false,
    };
    if !is_default || entry.local_name.is_some() {
        return false;
    }
    match &entry.inline {
        Some(InitShape::ArrowFunction) => true,
        Some(InitShape::FunctionExpr) => true,
        _ => false,
    }
}

} // verus!
