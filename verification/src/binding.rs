//! Top-level declarations of a module and the catalogue of the bindings they
//! make.

use crate::span::Span;
use crate::text::str_eq;
use vstd::prelude::*;

verus! {

/// What the first argument of a call is, as far as wrapping goes.
pub enum FirstArgument {
    /// An arrow function.
    Arrow,
    /// A function expression, with its own name if it has one.
    Function { name: Option<String> },
    /// Anything else, or no argument.
    Other,
}

/// The syntactic shape of an initializer.
pub enum InitShape {
    StringLiteral,
    TemplateLiteral,
    BinaryExpr,
    ArrowFunction,
    FunctionExpr,
    /// A call, with the callee's name where it has one.
    CallExpression { callee_name: Option<String>, first_argument: FirstArgument },
    Other,
}

/// How a binding was declared.
#[derive(Clone, Copy, Debug, PartialEq, Eq, Structural)]
pub enum BindingKind {
    Function,
    Variable,
    Class,
}

/// One top-level binding.
pub struct Binding {
    pub name: String,
    pub kind: BindingKind,
    /// True only for a variable declared with `const`.
    pub is_const: bool,
    pub init_shape: Option<InitShape>,
    pub span: Span,
}

/// One declarator of a variable declaration.
pub struct Declarator {
    pub name: String,
    pub init: Option<InitShape>,
    pub span: Span,
}

/// One top-level declaration.
pub enum Declaration {
    Function { name: String, span: Span },
    Variable { is_const: bool, declarators: Vec<Declarator> },
    Class { name: String, span: Span },
}

impl Clone for FirstArgument {
    fn clone(&self) -> (r: Self)
        ensures
            r == *self,
    {
        match self {
            FirstArgument::Arrow => FirstArgument::Arrow,
            FirstArgument::Function { name } => FirstArgument::Function { name: name.clone() },
            FirstArgument::Other => FirstArgument::Other,
        }
    }
}

impl Clone for InitShape {
    fn clone(&self) -> (r: Self)
        ensures
            r == *self,
    {
        match self {
            InitShape::StringLiteral => InitShape::StringLiteral,
            InitShape::TemplateLiteral => InitShape::TemplateLiteral,
            InitShape::BinaryExpr => InitShape::BinaryExpr,
            InitShape::ArrowFunction => InitShape::ArrowFunction,
            InitShape::FunctionExpr => InitShape::FunctionExpr,
            InitShape::CallExpression { callee_name, first_argument } => InitShape::CallExpression {
                callee_name: callee_name.clone(),
                first_argument: first_argument.clone(),
            },
            InitShape::Other => InitShape::Other,
        }
    }
}

/// The binding that a function declaration makes.
pub open spec fn function_binding(name: String, span: Span) -> Binding {
    Binding { name, kind: BindingKind::Function, is_const: false, init_shape: None, span }
}

/// The binding that a class declaration makes.
pub open spec fn class_binding(name: String, span: Span) -> Binding {
    Binding { name, kind: BindingKind::Class, is_const: false, init_shape: None, span }
}

/// The binding that one declarator makes.
pub open spec fn variable_binding(is_const: bool, d: Declarator) -> Binding {
    Binding { name: d.name, kind: BindingKind::Variable, is_const, init_shape: d.init, span: d.span }
}

/// The bindings of one declaration, in source order.
pub open spec fn declared(d: Declaration) -> Seq<Binding> {
    match d {
        Declaration::Function { name, span } => seq![function_binding(name, span)],
        Declaration::Class { name, span } => seq![class_binding(name, span)],
        Declaration::Variable { is_const, declarators } => Seq::new(
            declarators@.len(),
            |i: int| variable_binding(is_const, declarators@[i]),
        ),
    }
}

/// The bindings of all declarations, in source order.
pub open spec fn declared_all(ds: Seq<Declaration>) -> Seq<Binding>
    decreases ds.len(),
{
    if ds.len() == 0 {
        Seq::empty()
    } else {
        declared_all(ds.drop_last()) + declared(ds.last())
    }
}

/// Some binding of `cat` is called `name`.
pub open spec fn holds(cat: Seq<Binding>, name: Seq<char>) -> bool {
    exists|i: int| 0 <= i < cat.len() && (#[trigger] cat[i]).name@ == name
}

/// Where in `cat` a binding called `name` stands.
pub open spec fn position(cat: Seq<Binding>, name: Seq<char>) -> int {
    choose|i: int| 0 <= i < cat.len() && (#[trigger] cat[i]).name@ == name
}

/// The binding called `name`, if `cat` has one.
pub open spec fn found(cat: Seq<Binding>, name: Seq<char>) -> Option<Binding> {
    if holds(cat, name) {
        Some(cat[position(cat, name)])
    } else {
        None
    }
}

/// No two bindings share a name.
pub open spec fn distinct(cat: Seq<Binding>) -> bool {
    forall|i: int, j: int|
        0 <= i < j < cat.len() ==> (#[trigger] cat[i]).name@ != (#[trigger] cat[j]).name@
}

/// `cat` after `b` is declared: `b` takes the place of the binding of the
/// same name, or comes last.
pub open spec fn record(cat: Seq<Binding>, b: Binding) -> Seq<Binding> {
    if holds(cat, b.name@) {
        cat.update(position(cat, b.name@), b)
    } else {
        cat.push(b)
    }
}

/// `cat` after each of `bs` is declared in turn.
pub open spec fn record_all(cat: Seq<Binding>, bs: Seq<Binding>) -> Seq<Binding>
    decreases bs.len(),
{
    if bs.len() == 0 {
        cat
    } else {
        record(record_all(cat, bs.drop_last()), bs.last())
    }
}

/// The catalogue of a module's declarations.
pub open spec fn catalog_of(ds: Seq<Declaration>) -> Seq<Binding> {
    record_all(Seq::empty(), declared_all(ds))
}

/// Declaring keeps names distinct.
pub proof fn lemma_record_distinct(cat: Seq<Binding>, b: Binding)
    requires
        distinct(cat),
    ensures
        distinct(record(cat, b)),
{
    if holds(cat, b.name@) {
        let p = position(cat, b.name@);
        let next = cat.update(p, b);
        assert forall|i: int, j: int| 0 <= i < j < next.len() implies (#[trigger] next[i]).name@ != (
        #[trigger] next[j]).name@ by {
            assert(cat[i].name@ != cat[j].name@);
        }
    } else {
        let next = cat.push(b);
        assert forall|i: int, j: int| 0 <= i < j < next.len() implies (#[trigger] next[i]).name@ != (
        #[trigger] next[j]).name@ by {
            if j < cat.len() {
                assert(cat[i].name@ != cat[j].name@);
            } else {
                assert(cat[i].name@ != b.name@);
            }
        }
    }
}

/// Declaring one group after another is declaring them all in order.
pub proof fn lemma_record_all_concat(cat: Seq<Binding>, a: Seq<Binding>, b: Seq<Binding>)
    ensures
        record_all(cat, a + b) == record_all(record_all(cat, a), b),
    decreases b.len(),
{
    if b.len() == 0 {
        assert(a + b =~= a);
    } else {
        lemma_record_all_concat(cat, a, b.drop_last());
        assert((a + b).drop_last() =~= a + b.drop_last());
        assert((a + b).last() == b.last());
    }
}

/// Declaring in turn keeps names distinct.
pub proof fn lemma_record_all_distinct(cat: Seq<Binding>, bs: Seq<Binding>)
    requires
        distinct(cat),
    ensures
        distinct(record_all(cat, bs)),
    decreases bs.len(),
{
    if bs.len() > 0 {
        lemma_record_all_distinct(cat, bs.drop_last());
        lemma_record_distinct(record_all(cat, bs.drop_last()), bs.last());
    }
}

/// Among distinct names a binding is found where it stands.
pub proof fn lemma_found_at(cat: Seq<Binding>, i: int)
    requires
        distinct(cat),
        0 <= i < cat.len(),
    ensures
        holds(cat, cat[i].name@),
        found(cat, cat[i].name@) == Some(cat[i]),
{
    let n = cat[i].name@;
    assert(cat[i].name@ == n);
    let p = position(cat, n);
    if p < i {
        assert(cat[p].name@ != cat[i].name@);
    } else if i < p {
        assert(cat[i].name@ != cat[p].name@);
    }
}

/// What is found after a declaration: the binding declared, under its own
/// name; under any other name, what was found before.
pub proof fn lemma_record_found(cat: Seq<Binding>, b: Binding, n: Seq<char>)
    requires
        distinct(cat),
    ensures
        found(record(cat, b), n) == if b.name@ == n {
            Some(b)
        } else {
            found(cat, n)
        },
{
    let next = record(cat, b);
    lemma_record_distinct(cat, b);
    if holds(cat, b.name@) {
        let p = position(cat, b.name@);
        assert(next[p] == b);
        if b.name@ == n {
            lemma_found_at(next, p);
        } else if holds(cat, n) {
            let r = position(cat, n);
            assert(next[r] == cat[r]);
            lemma_found_at(next, r);
        } else if holds(next, n) {
            let q = position(next, n);
            assert(cat[q].name@ == n);
        }
    } else {
        let last = cat.len() as int;
        assert(next[last] == b);
        if b.name@ == n {
            lemma_found_at(next, last);
        } else if holds(cat, n) {
            let r = position(cat, n);
            assert(next[r] == cat[r]);
            lemma_found_at(next, r);
        } else if holds(next, n) {
            let q = position(next, n);
            assert(cat[q].name@ == n);
        }
    }
}

/// The last declaration wins: under a name that `bs` declares, the
/// catalogue of `bs` holds the last binding of that name; under a name that
/// `bs` does not declare it holds none.
pub proof fn lemma_last_declaration_wins(bs: Seq<Binding>, n: Seq<char>)
    ensures
        distinct(record_all(Seq::empty(), bs)),
        holds(bs, n) <==> holds(record_all(Seq::empty(), bs), n),
        forall|i: int|
            0 <= i < bs.len() && (#[trigger] bs[i]).name@ == n && (forall|j: int|
                i < j < bs.len() ==> (#[trigger] bs[j]).name@ != n) ==> found(
                record_all(Seq::empty(), bs),
                n,
            ) == Some(bs[i]),
    decreases bs.len(),
{
    let empty = Seq::<Binding>::empty();
    lemma_record_all_distinct(empty, bs);
    if bs.len() > 0 {
        let init = bs.drop_last();
        let before = record_all(empty, init);
        lemma_last_declaration_wins(init, n);
        lemma_record_found(before, bs.last(), n);
        if bs.last().name@ == n {
            assert(bs[bs.len() - 1].name@ == n);
        } else {
            if holds(bs, n) {
                let i = position(bs, n);
                assert(init[i].name@ == n);
            }
            if holds(init, n) {
                let i = position(init, n);
                assert(bs[i].name@ == n);
            }
        }
        assert forall|i: int|
            0 <= i < bs.len() && (#[trigger] bs[i]).name@ == n && (forall|j: int|
                i < j < bs.len() ==> (#[trigger] bs[j]).name@ != n) implies found(
            record_all(empty, bs),
            n,
        ) == Some(bs[i]) by {
            if i < bs.len() - 1 {
                assert(bs[bs.len() - 1].name@ != n);
                assert(init[i] == bs[i]);
                assert forall|j: int| i < j < init.len() implies (#[trigger] init[j]).name@ != n by {
                    assert(bs[j].name@ != n);
                }
            }
        }
    }
}

/// The bindings of a module, one to a name.
pub struct BindingCatalog {
    bindings: Vec<Binding>,
}

impl BindingCatalog {
    #[verifier::type_invariant]
    spec fn well_formed(self) -> bool {
        distinct(self.bindings@)
    }

    /// The bindings in the order in which their names were first declared.
    pub closed spec fn view(&self) -> Seq<Binding> {
        self.bindings@
    }

    /// The catalogue of a module without declarations.
    pub fn new() -> (c: BindingCatalog)
        ensures
            c@ == Seq::<Binding>::empty(),
    {
        BindingCatalog { bindings: Vec::new() }
    }

    /// How many names are catalogued.
    pub fn len(&self) -> (n: usize)
        ensures
            n == self@.len(),
    {
        self.bindings.len()
    }

    /// The `i`-th binding, in the order in which the names were first declared.
    pub fn get(&self, i: usize) -> (b: &Binding)
        requires
            i < self@.len(),
        ensures
            *b == self@[i as int],
    {
        &self.bindings[i]
    }

    /// Where the binding called `name` stands.
    fn index_of(&self, name: &str) -> (r: Option<usize>)
        ensures
            r is Some <==> holds(self@, name@),
            r matches Some(i) ==> i == position(self@, name@) && i < self@.len(),
    {
        proof {
            use_type_invariant(self);
        }
        let mut i: usize = 0;
        while i < self.bindings.len()
            invariant
                i <= self.bindings.len(),
                distinct(self.bindings@),
                forall|j: int| 0 <= j < i ==> (#[trigger] self.bindings@[j]).name@ != name@,
            decreases self.bindings.len() - i,
        {
            if str_eq(self.bindings[i].name.as_str(), name) {
                proof {
                    let p = position(self@, name@);
                    assert(self.bindings@[i as int].name@ == name@);
                    assert(0 <= p < self@.len() && self@[p].name@ == name@);
                    if p < i {
                        assert(self.bindings@[p].name@ != name@);
                    } else if i < p {
                        assert(self.bindings@[i as int].name@ != self.bindings@[p].name@);
                    }
                }
                return Some(i);
            }
            i += 1;
        }
        None
    }

    /// The binding called `name`.
    pub fn lookup(&self, name: &str) -> (r: Option<&Binding>)
        ensures
            r is Some <==> holds(self@, name@),
            r matches Some(b) ==> Some(*b) == found(self@, name@),
    {
        match self.index_of(name) {
            Some(i) => Some(&self.bindings[i]),
            None => None,
        }
    }

    /// Declares `b`: the last declaration of a name is the one that stays.
    pub fn insert(self, b: Binding) -> (c: BindingCatalog)
        ensures
            c@ == record(self@, b),
    {
        proof {
            use_type_invariant(&self);
            lemma_record_distinct(self.bindings@, b);
        }
        let at = self.index_of(b.name.as_str());
        let mut bindings = self.bindings;
        match at {
            Some(i) => {
                bindings.set(i, b);
            },
            None => {
                bindings.push(b);
            },
        }
        BindingCatalog { bindings }
    }

    /// Catalogues every top-level declaration, in one pass.
    pub fn collect(declarations: &Vec<Declaration>) -> (c: BindingCatalog)
        ensures
            c@ == catalog_of(declarations@),
    {
        let mut catalog = BindingCatalog::new();
        let mut i: usize = 0;
        assert(declarations@.take(0) =~= Seq::<Declaration>::empty());
        while i < declarations.len()
            invariant
                i <= declarations.len(),
                catalog@ == catalog_of(declarations@.take(i as int)),
            decreases declarations.len() - i,
        {
            let ghost before = catalog@;
            let ghost done = declared_all(declarations@.take(i as int));
            match &declarations[i] {
                Declaration::Function { name, span } => {
                    catalog = catalog.insert(
                        Binding {
                            name: name.clone(),
                            kind: BindingKind::Function,
                            is_const: false,
                            init_shape: None,
                            span: *span,
                        },
                    );
                    assert(catalog@ == record_all(before, declared(declarations@[i as int]))) by {
                        let one = declared(declarations@[i as int]);
                        assert(one.drop_last() =~= Seq::<Binding>::empty());
                        assert(record_all(before, one.drop_last()) == before);
                    }
                },
                Declaration::Class { name, span } => {
                    catalog = catalog.insert(
                        Binding {
                            name: name.clone(),
                            kind: BindingKind::Class,
                            is_const: false,
                            init_shape: None,
                            span: *span,
                        },
                    );
                    assert(catalog@ == record_all(before, declared(declarations@[i as int]))) by {
                        let one = declared(declarations@[i as int]);
                        assert(one.drop_last() =~= Seq::<Binding>::empty());
                        assert(record_all(before, one.drop_last()) == before);
                    }
                },
                Declaration::Variable { is_const, declarators } => {
                    let ghost all = declared(declarations@[i as int]);
                    let mut j: usize = 0;
                    assert(all.take(0) =~= Seq::<Binding>::empty());
                    while j < declarators.len()
                        invariant
                            j <= declarators.len(),
                            all == declared(declarations@[i as int]),
                            all.len() == declarators@.len(),
                            declarations@[i as int] == (Declaration::Variable {
                                is_const: *is_const,
                                declarators: *declarators,
                            }),
                            catalog@ == record_all(before, all.take(j as int)),
                        decreases declarators.len() - j,
                    {
                        let d = &declarators[j];
                        let init = match &d.init {
                            Some(shape) => Some(shape.clone()),
                            None => None,
                        };
                        catalog = catalog.insert(
                            Binding {
                                name: d.name.clone(),
                                kind: BindingKind::Variable,
                                is_const: *is_const,
                                init_shape: init,
                                span: d.span,
                            },
                        );
                        proof {
                            assert(all.take(j + 1).drop_last() =~= all.take(j as int));
                            assert(all.take(j + 1).last() == all[j as int]);
                            assert(all[j as int] == variable_binding(*is_const, declarators@[j as int]));
                        }
                        j += 1;
                    }
                    assert(all.take(j as int) =~= all);
                },
            }
            proof {
                let next = declarations@.take(i + 1);
                assert(next.drop_last() =~= declarations@.take(i as int));
                assert(next.last() == declarations@[i as int]);
                lemma_record_all_concat(Seq::empty(), done, declared(declarations@[i as int]));
            }
            i += 1;
        }
        assert(declarations@.take(i as int) =~= declarations@);
        catalog
    }
}

} // verus!
