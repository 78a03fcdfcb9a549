//! The rule that `undefined` is not written where leaving it out means the
//! same: returned, yielded, as an initialiser, as a default value, or as the
//! last arguments of a call.

use crate::pattern::{
    compile, is_match, pattern_compiles, regex_source, setter_like, PatternError, SETTER,
};
use crate::span::Span;
use crate::text::str_eq;
use regex::Regex;
use vstd::prelude::*;

verus! {

/// An identifier where an expression is expected.
pub struct Identifier {
    pub name: String,
    pub span: Span,
}

/// An expression, as far as the rule tells expressions apart.
pub enum Expression {
    Identifier(Identifier),
    /// `object.property`
    StaticMember { property: String },
    Other,
}

/// A statement of a function body.
pub enum Statement {
    Return { argument: Option<Expression>, span: Span },
    Expression { expression: Expression },
    Other,
}

/// An argument of a call.
pub enum Argument {
    Identifier(Identifier),
    Other,
}

/// One declarator of a variable declaration.
pub struct VariableDeclarator {
    pub init: Option<Expression>,
}

/// A call.
pub struct CallExpression {
    pub callee: Expression,
    /// Written with `?.`.
    pub optional: bool,
    pub arguments: Vec<Argument>,
}

/// A node of the syntax tree, as far as the rule tells nodes apart.
pub enum Node {
    Function { body: Option<Vec<Statement>>, has_return_type: bool },
    YieldExpression { argument: Option<Expression>, delegate: bool, span: Span },
    ArrowFunctionExpression { statements: Vec<Statement>, has_return_type: bool },
    VariableDeclaration { is_const: bool, declarations: Vec<VariableDeclarator> },
    AssignmentPattern { right: Expression },
    CallExpression(CallExpression),
    Other,
}

/// Where a useless `undefined` was found.
#[derive(Clone, Copy, Debug, PartialEq, Eq, Structural)]
pub enum Site {
    Return,
    Yield,
    ArrowBody,
    Initializer,
    DefaultValue,
    Arguments,
}

/// One useless `undefined`, or one run of them at the end of a call.
#[derive(Clone, Copy, Debug, PartialEq, Eq, Structural)]
pub struct Finding {
    pub span: Span,
    pub site: Site,
}

/// The rule and its two switches.
#[derive(Clone, Copy, Debug)]
pub struct NoUselessUndefined {
    pub check_arguments: bool,
    pub check_arrow_function_body: bool,
}

impl Default for NoUselessUndefined {
    fn default() -> (r: Self)
        ensures
            r.check_arguments,
            r.check_arrow_function_body,
    {
        NoUselessUndefined { check_arguments: true, check_arrow_function_body: true }
    }
}

/// The message of every finding.
pub const MESSAGE: &'static str = "Do not use useless `undefined`.";

/// The label on a run of arguments.
pub const ARGUMENTS_LABEL: &'static str = "Do not use useless `undefined`";

impl Finding {
    /// The label to print at the span, where the finding has one.
    pub fn label(&self) -> (l: Option<&'static str>)
        ensures
            l is Some <==> self.site == Site::Arguments,
            l matches Some(s) ==> s@ == ARGUMENTS_LABEL@,
    {
        match self.site {
            Site::Arguments => Some(ARGUMENTS_LABEL),
            _ => None,
        }
    }
}

/// The identifier that the rule is about.
pub const UNDEFINED: &'static str = "undefined";

/// Where `undefined` stands, if the expression is that identifier.
pub open spec fn undefined_at(e: Expression) -> Option<Span> {
    match e {
        Expression::Identifier(id) => if id.name@ == UNDEFINED@ {
            Some(id.span)
        } else {
            None
        },
        _ => None,
    }
}

/// What one statement of a function body is reported for. `return
/// undefined` is useless unless the function declares what it returns; in
/// the body of an arrow function so is `undefined` as a statement.
pub open spec fn statement_finding(s: Statement, has_return_type: bool, in_arrow: bool) -> Option<
    Finding,
> {
    match s {
        Statement::Return { argument: Some(e), span } => if undefined_at(e) is Some
            && !has_return_type {
            Some(Finding { span, site: Site::Return })
        } else {
            None
        },
        Statement::Expression { expression } => if in_arrow && undefined_at(expression) is Some {
            Some(Finding { span: undefined_at(expression)->0, site: Site::ArrowBody })
        } else {
            None
        },
        _ => None,
    }
}

/// The findings of a function body, in order.
pub open spec fn body_findings(body: Seq<Statement>, has_return_type: bool, in_arrow: bool) -> Seq<
    Finding,
>
    decreases body.len(),
{
    if body.len() == 0 {
        Seq::empty()
    } else {
        match statement_finding(body.last(), has_return_type, in_arrow) {
            Some(f) => body_findings(body.drop_last(), has_return_type, in_arrow).push(f),
            None => body_findings(body.drop_last(), has_return_type, in_arrow),
        }
    }
}

/// What one declarator is reported for.
pub open spec fn declarator_finding(d: VariableDeclarator) -> Option<Finding> {
    match d.init {
        Some(e) => match undefined_at(e) {
            Some(span) => Some(Finding { span, site: Site::Initializer }),
            None => None,
        },
        None => None,
    }
}

/// The findings of the declarators of one declaration, in order.
pub open spec fn declarator_findings(ds: Seq<VariableDeclarator>) -> Seq<Finding>
    decreases ds.len(),
{
    if ds.len() == 0 {
        Seq::empty()
    } else {
        match declarator_finding(ds.last()) {
            Some(f) => declarator_findings(ds.drop_last()).push(f),
            None => declarator_findings(ds.drop_last()),
        }
    }
}

/// Where the `undefined` arguments at the end of a call stand, in order:
/// those met going backwards from the last argument until an identifier
/// other than `undefined` is met. Arguments that are no identifiers are
/// passed over.
pub open spec fn trailing_undefined(args: Seq<Argument>) -> Seq<Span>
    decreases args.len(),
{
    if args.len() == 0 {
        Seq::empty()
    } else {
        match args.last() {
            Argument::Identifier(id) => if id.name@ == UNDEFINED@ {
                trailing_undefined(args.drop_last()).push(id.span)
            } else {
                Seq::empty()
            },
            Argument::Other => trailing_undefined(args.drop_last()),
        }
    }
}

/// A name of a function that compares its arguments, so that `undefined`
/// among them says something.
pub open spec fn compare_function_name(n: Seq<char>) -> bool {
    ||| n == "is"@
    ||| n == "equal"@
    ||| n == "notEqual"@
    ||| n == "strictEqual"@
    ||| n == "notStrictEqual"@
    ||| n == "propertyVal"@
    ||| n == "notPropertyVal"@
    ||| n == "not"@
    ||| n == "include"@
    ||| n == "property"@
    ||| n == "toBe"@
    ||| n == "toHaveBeenCalledWith"@
    ||| n == "toContain"@
    ||| n == "toContainEqual"@
    ||| n == "toEqual"@
    ||| n == "same"@
    ||| n == "notSame"@
    ||| n == "strictSame"@
    ||| n == "strictNotSame"@
}

/// A name of a function that stores or looks up its argument.
pub open spec fn collection_function_name(n: Seq<char>) -> bool {
    ||| n == "push"@
    ||| n == "unshift"@
    ||| n == "includes"@
    ||| n == "add"@
    ||| n == "has"@
    ||| n == "set"@
    ||| n == "createContext"@
    ||| n == "ref'"@
}

/// A name of a function in whose calls `undefined` is not looked for.
pub open spec fn ignored_name(n: Seq<char>) -> bool {
    compare_function_name(n) || collection_function_name(n) || setter_like(n)
}

/// The name that a callee is known by: the identifier, or the property of
/// a member access.
pub open spec fn callee_name(callee: Expression) -> Option<Seq<char>> {
    match callee {
        Expression::Identifier(id) => Some(id.name@),
        Expression::StaticMember { property } => Some(property@),
        Expression::Other => None,
    }
}

/// Calls of `callee` are left alone.
pub open spec fn ignored_callee(callee: Expression) -> bool {
    callee_name(callee) matches Some(n) && ignored_name(n)
}

/// A call `f.bind(..)`, not written with `?.`.
pub open spec fn function_bind_call(call: CallExpression) -> bool {
    !call.optional && (call.callee matches Expression::StaticMember { property } && property@
        == "bind"@)
}

/// The text from the first of the places to the last.
pub open spec fn covering(places: Seq<Span>) -> Span
    recommends
        places.len() > 0,
{
    Span { start: places.first().start, end: places.last().end }
}

/// What one call is reported for: its run of `undefined` arguments at the
/// end, unless the callee is one to leave alone, or a `bind` with more or
/// less than one argument.
pub open spec fn call_finding(check_arguments: bool, call: CallExpression) -> Option<Finding> {
    if !check_arguments || ignored_callee(call.callee) || (function_bind_call(call)
        && call.arguments@.len() != 1) || trailing_undefined(call.arguments@).len() == 0 {
        None
    } else {
        Some(Finding { span: covering(trailing_undefined(call.arguments@)), site: Site::Arguments })
    }
}

/// All-or-nothing as a sequence.
pub open spec fn one_or_none(f: Option<Finding>) -> Seq<Finding> {
    match f {
        Some(f) => seq![f],
        None => Seq::empty(),
    }
}

/// The findings of one node.
pub open spec fn node_findings(rule: NoUselessUndefined, node: Node) -> Seq<Finding> {
    match node {
        Node::Function { body: Some(statements), has_return_type } => body_findings(
            statements@,
            has_return_type,
            false,
        ),
        Node::Function { body: None, .. } => Seq::empty(),
        Node::YieldExpression { argument: Some(e), delegate, span } => if undefined_at(e) is Some
            && !delegate {
            seq![Finding { span, site: Site::Yield }]
        } else {
            Seq::empty()
        },
        Node::YieldExpression { argument: None, .. } => Seq::empty(),
        Node::ArrowFunctionExpression { statements, has_return_type } => if rule.check_arrow_function_body {
            body_findings(statements@, has_return_type, true)
        } else {
            Seq::empty()
        },
        Node::VariableDeclaration { is_const, declarations } => if is_const {
            Seq::empty()
        } else {
            declarator_findings(declarations@)
        },
        Node::AssignmentPattern { right } => match undefined_at(right) {
            Some(span) => seq![Finding { span, site: Site::DefaultValue }],
            None => Seq::empty(),
        },
        Node::CallExpression(call) => one_or_none(call_finding(rule.check_arguments, call)),
        Node::Other => Seq::empty(),
    }
}

/// The findings of all nodes, in order. What one node is reported for
/// does not depend on any other.
pub open spec fn all_findings(rule: NoUselessUndefined, nodes: Seq<Node>) -> Seq<Finding>
    decreases nodes.len(),
{
    if nodes.len() == 0 {
        Seq::empty()
    } else {
        all_findings(rule, nodes.drop_last()) + node_findings(rule, nodes.last())
    }
}

/// What is found in a stretch of nodes does not depend on the nodes before
/// it: no node keeps the rule from looking at the ones that follow.
pub proof fn lemma_findings_concat(rule: NoUselessUndefined, a: Seq<Node>, b: Seq<Node>)
    ensures
        all_findings(rule, a + b) == all_findings(rule, a) + all_findings(rule, b),
    decreases b.len(),
{
    if b.len() == 0 {
        assert(a + b =~= a);
        assert(all_findings(rule, a) + all_findings(rule, b) =~= all_findings(rule, a));
    } else {
        lemma_findings_concat(rule, a, b.drop_last());
        assert((a + b).drop_last() =~= a + b.drop_last());
        assert((a + b).last() == b.last());
        assert(all_findings(rule, a + b) =~= all_findings(rule, a) + all_findings(rule, b));
    }
}

/// The compiled test for the names of state setters. Built once and lent to
/// every run.
pub struct SetterNames {
    setter: Regex,
}

impl SetterNames {
    #[verifier::type_invariant]
    spec fn well_formed(self) -> bool {
        regex_source(self.setter) == SETTER@
    }

    /// Compiles the expression. Succeeds just when the outside crate accepts
    /// the pattern text.
    pub fn new() -> (r: Result<SetterNames, PatternError>)
        ensures
            r is Ok <==> pattern_compiles(SETTER@),
            r matches Err(e) ==> e == PatternError::Setter,
    {
        SetterNames::assemble(compile(SETTER))
    }

    /// Wraps the compiled expression, or says that it was refused. An
    /// expression handed in must be what `Regex::new` made of the pattern
    /// text `SETTER`: one built in another way, or from another text, makes
    /// the test answer for something else.
    pub fn assemble(setter: Result<Regex, regex::Error>) -> (r: Result<SetterNames, PatternError>)
        requires
            setter matches Ok(re) ==> regex_source(re) == SETTER@,
        ensures
            r is Ok <==> setter is Ok,
            r matches Err(e) ==> e == PatternError::Setter,
    {
        match setter {
            Ok(setter) => Ok(SetterNames { setter }),
            Err(_) => Err(PatternError::Setter),
        }
    }

    /// Whether `name` begins with `set` and an upper-case letter.
    pub fn is_setter(&self, name: &str) -> (b: bool)
        ensures
            b == setter_like(name@),
    {
        proof {
            use_type_invariant(self);
        }
        is_match(&self.setter, name)
    }
}

/// Whether `name` is that of a function that compares its arguments.
pub fn is_compare_function_name(name: &str) -> (r: bool)
    ensures
        r == compare_function_name(name@),
{
    str_eq(name, "is") || str_eq(name, "equal") || str_eq(name, "notEqual") || str_eq(
        name,
        "strictEqual",
    ) || str_eq(name, "notStrictEqual") || str_eq(name, "propertyVal") || str_eq(
        name,
        "notPropertyVal",
    ) || str_eq(name, "not") || str_eq(name, "include") || str_eq(name, "property") || str_eq(
        name,
        "toBe",
    ) || str_eq(name, "toHaveBeenCalledWith") || str_eq(name, "toContain") || str_eq(
        name,
        "toContainEqual",
    ) || str_eq(name, "toEqual") || str_eq(name, "same") || str_eq(name, "notSame") || str_eq(
        name,
        "strictSame",
    ) || str_eq(name, "strictNotSame")
}

/// Whether `name` is that of a function that stores or looks up its
/// argument.
pub fn is_collection_function_name(name: &str) -> (r: bool)
    ensures
        r == collection_function_name(name@),
{
    str_eq(name, "push") || str_eq(name, "unshift") || str_eq(name, "includes") || str_eq(
        name,
        "add",
    ) || str_eq(name, "has") || str_eq(name, "set") || str_eq(name, "createContext") || str_eq(
        name,
        "ref'",
    )
}

/// Whether calls of `callee` are left alone.
pub fn should_ignore(setters: &SetterNames, callee: &Expression) -> (r: bool)
    ensures
        r == ignored_callee(*callee),
{
    let name = match callee {
        Expression::Identifier(id) => id.name.as_str(),
        Expression::StaticMember { property } => property.as_str(),
        Expression::Other => {
            return false;
        },
    };
    is_compare_function_name(name) || is_collection_function_name(name) || setters.is_setter(name)
}

/// Whether the call is `f.bind(..)`, not written with `?.`.
pub fn is_function_bind_call(call: &CallExpression) -> (r: bool)
    ensures
        r == function_bind_call(*call),
{
    if call.optional {
        return false;
    }
    match &call.callee {
        Expression::StaticMember { property } => str_eq(property.as_str(), "bind"),
        _ => false,
    }
}

/// Where `undefined` stands, if the expression is that identifier.
pub fn find_undefined(e: &Expression) -> (r: Option<Span>)
    ensures
        r == undefined_at(*e),
{
    match e {
        Expression::Identifier(id) => if str_eq(id.name.as_str(), UNDEFINED) {
            Some(id.span)
        } else {
            None
        },
        _ => None,
    }
}

/// What one statement of a function body is reported for.
pub fn check_statement(s: &Statement, has_return_type: bool, in_arrow: bool) -> (r: Option<Finding>)
    ensures
        r == statement_finding(*s, has_return_type, in_arrow),
{
    match s {
        Statement::Return { argument: Some(e), span } => {
            if find_undefined(e).is_some() && !has_return_type {
                Some(Finding { span: *span, site: Site::Return })
            } else {
                None
            }
        },
        Statement::Expression { expression } => {
            if !in_arrow {
                return None;
            }
            match find_undefined(expression) {
                Some(span) => Some(Finding { span, site: Site::ArrowBody }),
                None => None,
            }
        },
        _ => None,
    }
}

/// Adds the findings of a function body to `out`.
pub fn check_body(
    body: &Vec<Statement>,
    has_return_type: bool,
    in_arrow: bool,
    out: &mut Vec<Finding>,
)
    ensures
        final(out)@ == old(out)@ + body_findings(body@, has_return_type, in_arrow),
{
    let ghost head = out@;
    let mut i: usize = 0;
    assert(body@.take(0) =~= Seq::<Statement>::empty());
    while i < body.len()
        invariant
            i <= body.len(),
            out@ == head + body_findings(body@.take(i as int), has_return_type, in_arrow),
        decreases body.len() - i,
    {
        proof {
            assert(body@.take(i + 1).drop_last() =~= body@.take(i as int));
            assert(body@.take(i + 1).last() == body@[i as int]);
        }
        match check_statement(&body[i], has_return_type, in_arrow) {
            Some(f) => {
                out.push(f);
            },
            None => {},
        }
        i += 1;
    }
    assert(body@.take(i as int) =~= body@);
}

/// Adds the findings of the declarators of one declaration to `out`.
pub fn check_declarators(declarations: &Vec<VariableDeclarator>, out: &mut Vec<Finding>)
    ensures
        final(out)@ == old(out)@ + declarator_findings(declarations@),
{
    let ghost head = out@;
    let mut i: usize = 0;
    assert(declarations@.take(0) =~= Seq::<VariableDeclarator>::empty());
    while i < declarations.len()
        invariant
            i <= declarations.len(),
            out@ == head + declarator_findings(declarations@.take(i as int)),
        decreases declarations.len() - i,
    {
        proof {
            assert(declarations@.take(i + 1).drop_last() =~= declarations@.take(i as int));
            assert(declarations@.take(i + 1).last() == declarations@[i as int]);
        }
        match &declarations[i].init {
            Some(e) => match find_undefined(e) {
                Some(span) => {
                    out.push(Finding { span, site: Site::Initializer });
                },
                None => {},
            },
            None => {},
        }
        i += 1;
    }
    assert(declarations@.take(i as int) =~= declarations@);
}

/// The first and the last of the `undefined` arguments at the end of a
/// call, or `None` where the call does not end in one.
pub fn trailing_bounds(args: &Vec<Argument>) -> (r: Option<(Span, Span)>)
    ensures
        r is Some <==> trailing_undefined(args@).len() > 0,
        r matches Some(b) ==> b.0 == trailing_undefined(args@).first() && b.1
            == trailing_undefined(args@).last(),
{
    let mut first: Option<Span> = None;
    let mut last: Option<Span> = None;
    let mut i: usize = args.len();
    let ghost mut tail: Seq<Span> = Seq::empty();
    assert(args@.take(i as int) =~= args@);
    while i > 0
        invariant
            i <= args.len(),
            trailing_undefined(args@) == trailing_undefined(args@.take(i as int)) + tail,
            first is Some <==> tail.len() > 0,
            last is Some <==> tail.len() > 0,
            tail.len() > 0 ==> first == Some(tail.first()) && last == Some(tail.last()),
        decreases i,
    {
        let ghost upto = args@.take(i as int);
        proof {
            assert(upto.drop_last() =~= args@.take(i - 1));
            assert(upto.last() == args@[i - 1]);
        }
        match &args[i - 1] {
            Argument::Identifier(id) => {
                if str_eq(id.name.as_str(), UNDEFINED) {
                    proof {
                        let before = trailing_undefined(args@.take(i - 1));
                        assert(before.push(id.span) + tail =~= before + seq![id.span].add(tail));
                        tail = seq![id.span] + tail;
                    }
                    first = Some(id.span);
                    if last.is_none() {
                        last = Some(id.span);
                    }
                } else {
                    proof {
                        assert(trailing_undefined(upto) + tail =~= tail);
                        assert(trailing_undefined(args@.take(0)) + tail =~= tail);
                    }
                    i = 1;
                }
            },
            Argument::Other => {},
        }
        i -= 1;
    }
    proof {
        assert(trailing_undefined(args@.take(0)) + tail =~= tail);
    }
    match (first, last) {
        (Some(a), Some(b)) => Some((a, b)),
        _ => None,
    }
}

impl NoUselessUndefined {
    /// What one call is reported for.
    pub fn check_call(&self, setters: &SetterNames, call: &CallExpression) -> (r: Option<Finding>)
        ensures
            r == call_finding(self.check_arguments, *call),
    {
        if !self.check_arguments {
            return None;
        }
        if should_ignore(setters, &call.callee) {
            return None;
        }
        if is_function_bind_call(call) && call.arguments.len() != 1 {
            return None;
        }
        match trailing_bounds(&call.arguments) {
            Some((first, last)) => Some(
                Finding { span: Span { start: first.start, end: last.end }, site: Site::Arguments },
            ),
            None => None,
        }
    }

    /// Adds the findings of one node to `out`.
    pub fn check_node(&self, setters: &SetterNames, node: &Node, out: &mut Vec<Finding>)
        ensures
            final(out)@ == old(out)@ + node_findings(*self, *node),
    {
        let ghost head = out@;
        match node {
            Node::Function { body: Some(statements), has_return_type } => {
                check_body(statements, *has_return_type, false, out);
            },
            Node::YieldExpression { argument: Some(e), delegate, span } => {
                if find_undefined(e).is_some() && !*delegate {
                    out.push(Finding { span: *span, site: Site::Yield });
                }
            },
            Node::ArrowFunctionExpression { statements, has_return_type } => {
                if self.check_arrow_function_body {
                    check_body(statements, *has_return_type, true, out);
                }
            },
            Node::VariableDeclaration { is_const, declarations } => {
                if !*is_const {
                    check_declarators(declarations, out);
                }
            },
            Node::AssignmentPattern { right } => {
                match find_undefined(right) {
                    Some(span) => {
                        out.push(Finding { span, site: Site::DefaultValue });
                    },
                    None => {},
                }
            },
            Node::CallExpression(call) => {
                match self.check_call(setters, call) {
                    Some(f) => {
                        out.push(f);
                    },
                    None => {},
                }
            },
            _ => {},
        }
        assert(out@ =~= head + node_findings(*self, *node));
    }

    /// Runs the rule over the nodes of one file.
    pub fn run_once(&self, setters: &SetterNames, nodes: &Vec<Node>) -> (out: Vec<Finding>)
        ensures
            out@ == all_findings(*self, nodes@),
    {
        let mut out: Vec<Finding> = Vec::new();
        let mut i: usize = 0;
        assert(nodes@.take(0) =~= Seq::<Node>::empty());
        while i < nodes.len()
            invariant
                i <= nodes.len(),
                out@ == all_findings(*self, nodes@.take(i as int)),
            decreases nodes.len() - i,
        {
            proof {
                assert(nodes@.take(i + 1).drop_last() =~= nodes@.take(i as int));
                assert(nodes@.take(i + 1).last() == nodes@[i as int]);
            }
            self.check_node(setters, &nodes[i], &mut out);
            i += 1;
        }
        assert(nodes@.take(i as int) =~= nodes@);
        out
    }
}

} // verus!
