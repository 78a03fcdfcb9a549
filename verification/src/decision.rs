//! Folds the classes of a file's exports into a verdict and the diagnostics
//! to report.

use crate::classify::Classification;
use crate::span::Span;
use vstd::prelude::*;

verus! {

/// What a diagnostic says.
#[derive(Clone, Copy, Debug, PartialEq, Eq, Structural)]
pub enum MessageKind {
    /// `export *` of a module that cannot be looked into.
    StarExportUnverifiable,
    /// An export that is no component, beside one that is.
    MixedExports,
    /// A default export of a function without a name.
    AnonymousDefaultExport,
    /// A component that is not exported, beside exports that are none.
    LocalComponentNotExported,
    /// A component in a file that exports nothing.
    NoExportsInFile,
}

/// Every diagnostic of these rules is a warning.
#[derive(Clone, Copy, Debug, PartialEq, Eq, Structural)]
pub enum Severity {
    Warning,
}

/// One warning, and where it points.
#[derive(Clone, Copy, Debug, PartialEq, Eq, Structural)]
pub struct Diagnostic {
    pub kind: MessageKind,
    pub span: Span,
}

/// One star export, reduced to what the decision reads.
#[derive(Clone, Copy, Debug, PartialEq, Eq, Structural)]
pub struct StarFact {
    pub span: Span,
    /// The export provably carries types only.
    pub type_only: bool,
}

/// One classified export, reduced to what the decision reads.
#[derive(Clone, Copy, Debug, PartialEq, Eq, Structural)]
pub struct ExportFact {
    pub span: Span,
    /// `None` for a star export, which has no class.
    pub class: Option<Classification>,
    /// A default export of a function without a name.
    pub anonymous: bool,
}

/// All that the decision reads of a file.
pub struct FileFacts {
    pub stars: Vec<StarFact>,
    pub exports: Vec<ExportFact>,
    /// Where the component-named bindings stand that no export mentions.
    pub local_components: Vec<Span>,
}

/// The outcome for a file.
pub enum Verdict {
    /// The file exports nothing.
    Empty,
    /// Nothing stands in the way of refreshing the file.
    AllComponents,
    /// Components and other things are mixed; one diagnostic for each entry
    /// at fault.
    Mixed(Vec<Diagnostic>),
    /// A star export hides what the file exports.
    Unverifiable,
}

/// The mathematical value of a `Verdict`.
pub ghost enum VerdictModel {
    Empty,
    AllComponents,
    Mixed(Seq<Diagnostic>),
    Unverifiable,
}

impl View for Verdict {
    type V = VerdictModel;

    open spec fn view(&self) -> VerdictModel {
        match self {
            Verdict::Empty => VerdictModel::Empty,
            Verdict::AllComponents => VerdictModel::AllComponents,
            Verdict::Mixed(at_fault) => VerdictModel::Mixed(at_fault@),
            Verdict::Unverifiable => VerdictModel::Unverifiable,
        }
    }
}

/// Classified as a component.
pub open spec fn is_component(f: ExportFact) -> bool {
    f.class == Some(Classification::Component)
}

/// No component: classified as none, or not resolved.
pub open spec fn is_non_component(f: ExportFact) -> bool {
    f.class == Some(Classification::NonComponent) || f.class == Some(Classification::Unknown)
}

/// No component, and a default export of a function without a name.
pub open spec fn is_anonymous(f: ExportFact) -> bool {
    is_non_component(f) && f.anonymous
}

/// Some export is a component.
pub open spec fn any_component(facts: Seq<ExportFact>) -> bool {
    exists|i: int| 0 <= i < facts.len() && is_component(#[trigger] facts[i])
}

/// Some export is no component.
pub open spec fn any_non_component(facts: Seq<ExportFact>) -> bool {
    exists|i: int| 0 <= i < facts.len() && is_non_component(#[trigger] facts[i])
}

/// Some export is an anonymous default export.
pub open spec fn any_anonymous(facts: Seq<ExportFact>) -> bool {
    exists|i: int| 0 <= i < facts.len() && is_anonymous(#[trigger] facts[i])
}

/// Some star export is not type-only, among the star entries or among the
/// exports.
pub open spec fn any_open_star(stars: Seq<StarFact>, facts: Seq<ExportFact>) -> bool {
    ||| exists|i: int| 0 <= i < stars.len() && !(#[trigger] stars[i]).type_only
    ||| exists|i: int| 0 <= i < facts.len() && (#[trigger] facts[i]).class is None
}

/// One diagnostic for each star export that is not type-only, in order.
pub open spec fn star_findings(stars: Seq<StarFact>) -> Seq<Diagnostic>
    decreases stars.len(),
{
    if stars.len() == 0 {
        Seq::empty()
    } else if stars.last().type_only {
        star_findings(stars.drop_last())
    } else {
        star_findings(stars.drop_last()).push(
            Diagnostic { kind: MessageKind::StarExportUnverifiable, span: stars.last().span },
        )
    }
}

/// What one export is reported for, given whether the file exports a
/// component.
pub open spec fn export_finding(f: ExportFact, with_component: bool) -> Option<Diagnostic> {
    if f.class is None {
        Some(Diagnostic { kind: MessageKind::StarExportUnverifiable, span: f.span })
    } else if is_anonymous(f) {
        Some(Diagnostic { kind: MessageKind::AnonymousDefaultExport, span: f.span })
    } else if is_non_component(f) && with_component {
        Some(Diagnostic { kind: MessageKind::MixedExports, span: f.span })
    } else {
        None
    }
}

/// The diagnostics of the exports, in order.
pub open spec fn export_findings(facts: Seq<ExportFact>, with_component: bool) -> Seq<Diagnostic>
    decreases facts.len(),
{
    if facts.len() == 0 {
        Seq::empty()
    } else {
        match export_finding(facts.last(), with_component) {
            Some(d) => export_findings(facts.drop_last(), with_component).push(d),
            None => export_findings(facts.drop_last(), with_component),
        }
    }
}

/// One diagnostic of the given kind at each place.
pub open spec fn findings_at(kind: MessageKind, places: Seq<Span>) -> Seq<Diagnostic> {
    Seq::new(places.len(), |i: int| Diagnostic { kind, span: places[i] })
}

/// What the unexported components are reported for. In a file without
/// exports each is reported as such. Beside exports of which none is a
/// component and some are none, each is reported as not exported.
pub open spec fn local_findings(
    stars: Seq<StarFact>,
    facts: Seq<ExportFact>,
    locals: Seq<Span>,
) -> Seq<Diagnostic> {
    if stars.len() == 0 && facts.len() == 0 {
        findings_at(MessageKind::NoExportsInFile, locals)
    } else if any_non_component(facts) && !any_component(facts) {
        findings_at(MessageKind::LocalComponentNotExported, locals)
    } else {
        Seq::empty()
    }
}

/// The diagnostics of a file: star exports first, then the exports in
/// order, then the unexported components.
pub open spec fn findings(stars: Seq<StarFact>, facts: Seq<ExportFact>, locals: Seq<Span>) -> Seq<
    Diagnostic,
> {
    star_findings(stars) + export_findings(facts, any_component(facts)) + local_findings(
        stars,
        facts,
        locals,
    )
}

/// The exports are mixed: one is an anonymous default export, or one that
/// is no component stands beside a component, exported or not.
pub open spec fn mixed(facts: Seq<ExportFact>, locals: Seq<Span>) -> bool {
    ||| any_anonymous(facts)
    ||| any_non_component(facts) && (any_component(facts) || locals.len() > 0)
}

/// The verdict on a file.
pub open spec fn verdict_of(stars: Seq<StarFact>, facts: Seq<ExportFact>, locals: Seq<Span>)
    -> VerdictModel {
    if stars.len() == 0 && facts.len() == 0 {
        VerdictModel::Empty
    } else if any_open_star(stars, facts) {
        VerdictModel::Unverifiable
    } else if mixed(facts, locals) {
        VerdictModel::Mixed(findings(stars, facts, locals))
    } else {
        VerdictModel::AllComponents
    }
}

/// Type-only star exports are not reported.
pub proof fn lemma_closed_stars_silent(stars: Seq<StarFact>)
    requires
        forall|i: int| 0 <= i < stars.len() ==> (#[trigger] stars[i]).type_only,
    ensures
        star_findings(stars) == Seq::<Diagnostic>::empty(),
    decreases stars.len(),
{
    if stars.len() > 0 {
        assert(stars.last().type_only);
        let init = stars.drop_last();
        assert forall|i: int| 0 <= i < init.len() implies (#[trigger] init[i]).type_only by {
            assert(stars[i].type_only);
        }
        lemma_closed_stars_silent(init);
    }
}

/// Exports of which none is at fault are not reported.
pub proof fn lemma_faultless_exports_silent(facts: Seq<ExportFact>, with_component: bool)
    requires
        forall|i: int|
            0 <= i < facts.len() ==> export_finding(#[trigger] facts[i], with_component) is None,
    ensures
        export_findings(facts, with_component) == Seq::<Diagnostic>::empty(),
    decreases facts.len(),
{
    if facts.len() > 0 {
        assert(export_finding(facts.last(), with_component) is None);
        assert forall|i: int| 0 <= i < facts.drop_last().len() implies export_finding(
            #[trigger] facts.drop_last()[i],
            with_component,
        ) is None by {
            assert(export_finding(facts[i], with_component) is None);
        }
        lemma_faultless_exports_silent(facts.drop_last(), with_component);
    }
}

/// Neither at fault nor a star export: a component, or exempt.
pub open spec fn is_faultless(f: ExportFact) -> bool {
    f.class is Some && !is_non_component(f)
}

/// A file whose exports are all components or exempt, and whose star
/// exports are all of types, is not reported, whatever else it declares.
pub proof fn lemma_faultless_file(stars: Seq<StarFact>, facts: Seq<ExportFact>, locals: Seq<Span>)
    requires
        stars.len() + facts.len() > 0,
        forall|i: int| 0 <= i < stars.len() ==> (#[trigger] stars[i]).type_only,
        forall|i: int| 0 <= i < facts.len() ==> is_faultless(#[trigger] facts[i]),
    ensures
        findings(stars, facts, locals) == Seq::<Diagnostic>::empty(),
        verdict_of(stars, facts, locals) == VerdictModel::AllComponents,
{
    lemma_closed_stars_silent(stars);
    let with_component = any_component(facts);
    assert forall|i: int| 0 <= i < facts.len() implies export_finding(
        #[trigger] facts[i],
        with_component,
    ) is None by {
        assert(is_faultless(facts[i]));
    }
    lemma_faultless_exports_silent(facts, with_component);
    if any_non_component(facts) {
        let i = choose|i: int| 0 <= i < facts.len() && is_non_component(#[trigger] facts[i]);
        assert(is_faultless(facts[i]));
    }
    if any_anonymous(facts) {
        let i = choose|i: int| 0 <= i < facts.len() && is_anonymous(#[trigger] facts[i]);
        assert(is_faultless(facts[i]));
    }
    if exists|i: int| 0 <= i < facts.len() && (#[trigger] facts[i]).class is None {
        let i = choose|i: int| 0 <= i < facts.len() && (#[trigger] facts[i]).class is None;
        assert(is_faultless(facts[i]));
    }
}

/// A file whose only export is an anonymous default export: one diagnostic
/// for it, then one for each component that is not exported.
pub proof fn lemma_lone_anonymous(fact: ExportFact, locals: Seq<Span>)
    requires
        is_anonymous(fact),
    ensures
        findings(Seq::empty(), seq![fact], locals) == seq![
            Diagnostic { kind: MessageKind::AnonymousDefaultExport, span: fact.span },
        ] + findings_at(MessageKind::LocalComponentNotExported, locals),
        verdict_of(Seq::empty(), seq![fact], locals) == VerdictModel::Mixed(
            findings(Seq::empty(), seq![fact], locals),
        ),
{
    let stars = Seq::<StarFact>::empty();
    let facts = seq![fact];
    assert(facts.last() == fact);
    assert(facts[0] == fact);
    assert(facts.drop_last() =~= Seq::<ExportFact>::empty());
    assert(!any_component(facts)) by {
        if any_component(facts) {
            let i = choose|i: int| 0 <= i < facts.len() && is_component(#[trigger] facts[i]);
            assert(facts[i] == fact);
        }
    }
    assert(is_non_component(facts[0]));
    assert(is_anonymous(facts[0]));
    assert(export_findings(facts.drop_last(), false) =~= Seq::<Diagnostic>::empty());
    assert(export_findings(facts, false) =~= seq![
        Diagnostic { kind: MessageKind::AnonymousDefaultExport, span: fact.span },
    ]);
    assert(star_findings(stars) =~= Seq::<Diagnostic>::empty());
    assert(findings(stars, facts, locals) =~= seq![
        Diagnostic { kind: MessageKind::AnonymousDefaultExport, span: fact.span },
    ] + findings_at(MessageKind::LocalComponentNotExported, locals));
    assert(!any_open_star(stars, facts)) by {
        if exists|i: int| 0 <= i < facts.len() && (#[trigger] facts[i]).class is None {
            let i = choose|i: int| 0 <= i < facts.len() && (#[trigger] facts[i]).class is None;
            assert(facts[i] == fact);
        }
    }
}

/// The verdict that all is well comes with no diagnostic.
pub proof fn lemma_all_components_silent(
    stars: Seq<StarFact>,
    facts: Seq<ExportFact>,
    locals: Seq<Span>,
)
    requires
        verdict_of(stars, facts, locals) == VerdictModel::AllComponents,
    ensures
        findings(stars, facts, locals) == Seq::<Diagnostic>::empty(),
{
    assert forall|i: int| 0 <= i < stars.len() implies (#[trigger] stars[i]).type_only by {}
    lemma_closed_stars_silent(stars);
    let with_component = any_component(facts);
    assert forall|i: int| 0 <= i < facts.len() implies export_finding(
        #[trigger] facts[i],
        with_component,
    ) is None by {
        assert(facts[i].class is Some);
        assert(!is_anonymous(facts[i]));
        if is_non_component(facts[i]) {
            assert(any_non_component(facts));
        }
    }
    lemma_faultless_exports_silent(facts, with_component);
    if any_non_component(facts) && !any_component(facts) {
        assert(locals.len() == 0);
        assert(findings_at(MessageKind::LocalComponentNotExported, locals) =~= Seq::<
            Diagnostic,
        >::empty());
    }
}

/// A diagnostic is among those of the star exports just when it is that of
/// a star export that is not type-only.
pub proof fn lemma_star_findings_members(stars: Seq<StarFact>, d: Diagnostic)
    ensures
        star_findings(stars).contains(d) <==> exists|i: int|
            0 <= i < stars.len() && !(#[trigger] stars[i]).type_only && d == (Diagnostic {
                kind: MessageKind::StarExportUnverifiable,
                span: stars[i].span,
            }),
    decreases stars.len(),
{
    if stars.len() > 0 {
        let init = stars.drop_last();
        let last = stars.last();
        let of_last = Diagnostic { kind: MessageKind::StarExportUnverifiable, span: last.span };
        lemma_star_findings_members(init, d);
        if star_findings(stars).contains(d) {
            let k = choose|k: int| 0 <= k < star_findings(stars).len() && star_findings(stars)[k] == d;
            if !last.type_only && k == star_findings(init).len() {
                assert(stars[stars.len() - 1] == last);
            } else {
                assert(star_findings(init)[k] == d);
                let i = choose|i: int|
                    0 <= i < init.len() && !(#[trigger] init[i]).type_only && d == (Diagnostic {
                        kind: MessageKind::StarExportUnverifiable,
                        span: init[i].span,
                    });
                assert(stars[i] == init[i]);
            }
        }
        if exists|i: int|
            0 <= i < stars.len() && !(#[trigger] stars[i]).type_only && d == (Diagnostic {
                kind: MessageKind::StarExportUnverifiable,
                span: stars[i].span,
            }) {
            let i = choose|i: int|
                0 <= i < stars.len() && !(#[trigger] stars[i]).type_only && d == (Diagnostic {
                    kind: MessageKind::StarExportUnverifiable,
                    span: stars[i].span,
                });
            if i == stars.len() - 1 {
                assert(star_findings(init).push(of_last)[star_findings(init).len() as int] == d);
            } else {
                assert(init[i] == stars[i]);
                let k = choose|k: int|
                    0 <= k < star_findings(init).len() && star_findings(init)[k] == d;
                if !last.type_only {
                    assert(star_findings(init).push(of_last)[k] == d);
                }
            }
        }
    }
}

/// A diagnostic is among those of the exports just when some export is at
/// fault for it.
pub proof fn lemma_export_findings_members(
    facts: Seq<ExportFact>,
    with_component: bool,
    d: Diagnostic,
)
    ensures
        export_findings(facts, with_component).contains(d) <==> exists|i: int|
            0 <= i < facts.len() && export_finding(#[trigger] facts[i], with_component) == Some(d),
    decreases facts.len(),
{
    if facts.len() > 0 {
        let init = facts.drop_last();
        let last = facts.last();
        let before = export_findings(init, with_component);
        let all = export_findings(facts, with_component);
        lemma_export_findings_members(init, with_component, d);
        if all.contains(d) {
            let k = choose|k: int| 0 <= k < all.len() && all[k] == d;
            if export_finding(last, with_component) is Some && k == before.len() {
                assert(facts[facts.len() - 1] == last);
            } else {
                assert(before[k] == d);
                let i = choose|i: int|
                    0 <= i < init.len() && export_finding(#[trigger] init[i], with_component)
                        == Some(d);
                assert(facts[i] == init[i]);
            }
        }
        if exists|i: int|
            0 <= i < facts.len() && export_finding(#[trigger] facts[i], with_component) == Some(d) {
            let i = choose|i: int|
                0 <= i < facts.len() && export_finding(#[trigger] facts[i], with_component)
                    == Some(d);
            if i == facts.len() - 1 {
                assert(before.push(d)[before.len() as int] == d);
            } else {
                assert(init[i] == facts[i]);
                let k = choose|k: int| 0 <= k < before.len() && before[k] == d;
                match export_finding(last, with_component) {
                    Some(e) => {
                        assert(before.push(e)[k] == d);
                    },
                    None => {},
                }
            }
        }
    }
}

/// Mixed exports are reported only at an export that is no component, and
/// only beside an exported component.
pub proof fn lemma_mixed_is_mixed(
    stars: Seq<StarFact>,
    facts: Seq<ExportFact>,
    locals: Seq<Span>,
    d: Diagnostic,
)
    requires
        findings(stars, facts, locals).contains(d),
        d.kind == MessageKind::MixedExports,
    ensures
        any_component(facts),
        exists|i: int|
            0 <= i < facts.len() && is_non_component(#[trigger] facts[i]) && facts[i].span
                == d.span,
{
    let with_component = any_component(facts);
    let head = star_findings(stars);
    let body = export_findings(facts, with_component);
    let tail = local_findings(stars, facts, locals);
    let all = findings(stars, facts, locals);
    let k = choose|k: int| 0 <= k < all.len() && all[k] == d;
    lemma_star_findings_members(stars, d);
    lemma_export_findings_members(facts, with_component, d);
    if k < head.len() {
        assert(head[k] == d);
        assert(head.contains(d));
    } else if k < head.len() + body.len() {
        assert(body[k - head.len()] == d);
        assert(body.contains(d));
        let i = choose|i: int|
            0 <= i < facts.len() && export_finding(#[trigger] facts[i], with_component) == Some(d);
        assert(is_non_component(facts[i]) && facts[i].span == d.span);
    } else {
        assert(tail[k - head.len() - body.len()] == d);
    }
}

/// An export that is no component is reported where it stands: always, as
/// an anonymous default export, if it is one; else as a mixed export, if
/// the file exports a component.
pub proof fn lemma_non_component_reported(
    stars: Seq<StarFact>,
    facts: Seq<ExportFact>,
    locals: Seq<Span>,
    i: int,
)
    requires
        0 <= i < facts.len(),
        is_non_component(facts[i]),
        facts[i].anonymous || any_component(facts),
    ensures
        findings(stars, facts, locals).contains(
            Diagnostic {
                kind: if facts[i].anonymous {
                    MessageKind::AnonymousDefaultExport
                } else {
                    MessageKind::MixedExports
                },
                span: facts[i].span,
            },
        ),
{
    let with_component = any_component(facts);
    let d = export_finding(facts[i], with_component)->0;
    let head = star_findings(stars);
    let body = export_findings(facts, with_component);
    lemma_export_findings_members(facts, with_component, d);
    let k = choose|k: int| 0 <= k < body.len() && body[k] == d;
    assert(findings(stars, facts, locals)[head.len() + k] == d);
}

/// A file whose only export is one star export: one diagnostic at the star
/// export if it is not type-only, none if it is.
pub proof fn lemma_lone_star(star: StarFact, locals: Seq<Span>)
    ensures
        findings(seq![star], Seq::empty(), locals) == if star.type_only {
            Seq::<Diagnostic>::empty()
        } else {
            seq![Diagnostic { kind: MessageKind::StarExportUnverifiable, span: star.span }]
        },
        !star.type_only ==> verdict_of(seq![star], Seq::empty(), locals)
            == VerdictModel::Unverifiable,
        star.type_only ==> verdict_of(seq![star], Seq::empty(), locals)
            == VerdictModel::AllComponents,
{
    let stars = seq![star];
    let none = Seq::<ExportFact>::empty();
    assert(stars.last() == star);
    assert(stars.drop_last() =~= Seq::<StarFact>::empty());
    assert(star_findings(stars.drop_last()) =~= Seq::<Diagnostic>::empty());
    assert(export_findings(none, any_component(none)) =~= Seq::<Diagnostic>::empty());
    assert(!any_non_component(none));
    assert(!any_anonymous(none));
    if !star.type_only {
        assert(!stars[0].type_only);
        assert(findings(stars, none, locals) =~= seq![
            Diagnostic { kind: MessageKind::StarExportUnverifiable, span: star.span },
        ]);
    } else {
        assert(findings(stars, none, locals) =~= Seq::<Diagnostic>::empty());
        assert forall|i: int| 0 <= i < stars.len() implies (#[trigger] stars[i]).type_only by {}
    }
}

/// What is said of a star export.
pub const EXPORT_ALL_MESSAGE: &'static str =
    "eslint-plugin-react-refresh(only-export-components): This rule can't verify that `export *` only exports components.";

/// What is said of mixed exports, and of a component that is not exported.
pub const ONLY_COMPONENTS_MESSAGE: &'static str =
    "eslint-plugin-react-refresh(only-export-components): Fast refresh only works when a file only exports components.";

/// What is said of an anonymous default export.
pub const ANONYMOUS_MESSAGE: &'static str =
    "eslint-plugin-react-refresh(only-export-components): Fast refresh can't handle anonymous components.";

/// What is said of a component in a file without exports.
pub const NO_EXPORTS_MESSAGE: &'static str =
    "eslint-plugin-react-refresh(only-export-components): Fast refresh only works when a file has exports.";

/// The advice on mixed exports.
pub const NEW_FILE_ADVICE: &'static str =
    "Use a new file to share constants or functions between components.";

/// The advice on an anonymous default export.
pub const NAME_ADVICE: &'static str = "Add a name to your export.";

/// The advice on a component that is not exported.
pub const SEPARATE_FILE_ADVICE: &'static str = "Move your component(s) to a separate file.";

impl MessageKind {
    /// The text of the message.
    pub open spec fn message(self) -> Seq<char> {
        match self {
            MessageKind::StarExportUnverifiable => EXPORT_ALL_MESSAGE@,
            MessageKind::MixedExports => ONLY_COMPONENTS_MESSAGE@,
            MessageKind::AnonymousDefaultExport => ANONYMOUS_MESSAGE@,
            MessageKind::LocalComponentNotExported => ONLY_COMPONENTS_MESSAGE@,
            MessageKind::NoExportsInFile => NO_EXPORTS_MESSAGE@,
        }
    }

    /// The advice that goes with the message, where there is any.
    pub open spec fn advice(self) -> Option<Seq<char>> {
        match self {
            MessageKind::StarExportUnverifiable => None,
            MessageKind::MixedExports => Some(NEW_FILE_ADVICE@),
            MessageKind::AnonymousDefaultExport => Some(NAME_ADVICE@),
            MessageKind::LocalComponentNotExported => Some(SEPARATE_FILE_ADVICE@),
            MessageKind::NoExportsInFile => Some(SEPARATE_FILE_ADVICE@),
        }
    }

    /// The text of the message.
    pub fn text(&self) -> (s: &'static str)
        ensures
            s@ == self.message(),
    {
        match self {
            MessageKind::StarExportUnverifiable => EXPORT_ALL_MESSAGE,
            MessageKind::MixedExports => ONLY_COMPONENTS_MESSAGE,
            MessageKind::AnonymousDefaultExport => ANONYMOUS_MESSAGE,
            MessageKind::LocalComponentNotExported => ONLY_COMPONENTS_MESSAGE,
            MessageKind::NoExportsInFile => NO_EXPORTS_MESSAGE,
        }
    }

    /// The advice that goes with the message, where there is any.
    pub fn help(&self) -> (h: Option<&'static str>)
        ensures
            h is Some <==> self.advice() is Some,
            h matches Some(s) ==> Some(s@) == self.advice(),
    {
        match self {
            MessageKind::StarExportUnverifiable => None,
            MessageKind::MixedExports => Some(NEW_FILE_ADVICE),
            MessageKind::AnonymousDefaultExport => Some(NAME_ADVICE),
            MessageKind::LocalComponentNotExported => Some(SEPARATE_FILE_ADVICE),
            MessageKind::NoExportsInFile => Some(SEPARATE_FILE_ADVICE),
        }
    }
}

impl Diagnostic {
    /// How severe the diagnostic is.
    pub fn severity(&self) -> (s: Severity)
        ensures
            s == Severity::Warning,
    {
        Severity::Warning
    }
}

/// The diagnostic for a star export at `span`.
pub fn report_export_all(span: Span) -> (d: Diagnostic)
    ensures
        d == (Diagnostic { kind: MessageKind::StarExportUnverifiable, span }),
{
    Diagnostic { kind: MessageKind::StarExportUnverifiable, span }
}

impl ExportFact {
    /// Whether the export is classified as a component.
    pub fn is_component(&self) -> (r: bool)
        ensures
            r == is_component(*self),
    {
        match self.class {
            Some(Classification::Component) => true,
            _ => false,
        }
    }

    /// Whether the export is no component: classified as none, or not
    /// resolved.
    pub fn is_non_component(&self) -> (r: bool)
        ensures
            r == is_non_component(*self),
    {
        match self.class {
            Some(Classification::NonComponent) => true,
            Some(Classification::Unknown) => true,
            _ => false,
        }
    }

    /// The diagnostic for this export, if it is at fault.
    pub fn finding(&self, with_component: bool) -> (r: Option<Diagnostic>)
        ensures
            r == export_finding(*self, with_component),
    {
        if self.class.is_none() {
            Some(report_export_all(self.span))
        } else if self.is_non_component() && self.anonymous {
            Some(Diagnostic { kind: MessageKind::AnonymousDefaultExport, span: self.span })
        } else if self.is_non_component() && with_component {
            Some(Diagnostic { kind: MessageKind::MixedExports, span: self.span })
        } else {
            None
        }
    }
}

impl FileFacts {
    /// Whether some export is a component.
    pub fn any_component(&self) -> (r: bool)
        ensures
            r == any_component(self.exports@),
    {
        let mut i: usize = 0;
        while i < self.exports.len()
            invariant
                i <= self.exports.len(),
                forall|j: int| 0 <= j < i ==> !is_component(#[trigger] self.exports@[j]),
            decreases self.exports.len() - i,
        {
            if self.exports[i].is_component() {
                return true;
            }
            i += 1;
        }
        false
    }

    /// Whether some export is no component.
    pub fn any_non_component(&self) -> (r: bool)
        ensures
            r == any_non_component(self.exports@),
    {
        let mut i: usize = 0;
        while i < self.exports.len()
            invariant
                i <= self.exports.len(),
                forall|j: int| 0 <= j < i ==> !is_non_component(#[trigger] self.exports@[j]),
            decreases self.exports.len() - i,
        {
            if self.exports[i].is_non_component() {
                return true;
            }
            i += 1;
        }
        false
    }

    /// Whether some export is an anonymous default export.
    pub fn any_anonymous(&self) -> (r: bool)
        ensures
            r == any_anonymous(self.exports@),
    {
        let mut i: usize = 0;
        while i < self.exports.len()
            invariant
                i <= self.exports.len(),
                forall|j: int| 0 <= j < i ==> !is_anonymous(#[trigger] self.exports@[j]),
            decreases self.exports.len() - i,
        {
            if self.exports[i].is_non_component() && self.exports[i].anonymous {
                return true;
            }
            i += 1;
        }
        false
    }

    /// Whether some star export is not type-only.
    pub fn any_open_star(&self) -> (r: bool)
        ensures
            r == any_open_star(self.stars@, self.exports@),
    {
        let mut i: usize = 0;
        while i < self.stars.len()
            invariant
                i <= self.stars.len(),
                forall|j: int| 0 <= j < i ==> (#[trigger] self.stars@[j]).type_only,
            decreases self.stars.len() - i,
        {
            if !self.stars[i].type_only {
                return true;
            }
            i += 1;
        }
        let mut k: usize = 0;
        while k < self.exports.len()
            invariant
                k <= self.exports.len(),
                forall|j: int| 0 <= j < self.stars@.len() ==> (#[trigger] self.stars@[j]).type_only,
                forall|j: int| 0 <= j < k ==> (#[trigger] self.exports@[j]).class is Some,
            decreases self.exports.len() - k,
        {
            if self.exports[k].class.is_none() {
                return true;
            }
            k += 1;
        }
        false
    }

    /// The diagnostics to report for the file, in order.
    pub fn diagnose(&self) -> (out: Vec<Diagnostic>)
        ensures
            out@ == findings(self.stars@, self.exports@, self.local_components@),
    {
        let mut out: Vec<Diagnostic> = Vec::new();
        let mut i: usize = 0;
        assert(self.stars@.take(0) =~= Seq::<StarFact>::empty());
        while i < self.stars.len()
            invariant
                i <= self.stars.len(),
                out@ == star_findings(self.stars@.take(i as int)),
            decreases self.stars.len() - i,
        {
            proof {
                assert(self.stars@.take(i + 1).drop_last() =~= self.stars@.take(i as int));
                assert(self.stars@.take(i + 1).last() == self.stars@[i as int]);
            }
            if !self.stars[i].type_only {
                out.push(report_export_all(self.stars[i].span));
            }
            i += 1;
        }
        assert(self.stars@.take(i as int) =~= self.stars@);

        let with_component = self.any_component();
        let ghost head = out@;
        let mut k: usize = 0;
        assert(self.exports@.take(0) =~= Seq::<ExportFact>::empty());
        while k < self.exports.len()
            invariant
                k <= self.exports.len(),
                out@ == head + export_findings(self.exports@.take(k as int), with_component),
            decreases self.exports.len() - k,
        {
            proof {
                assert(self.exports@.take(k + 1).drop_last() =~= self.exports@.take(k as int));
                assert(self.exports@.take(k + 1).last() == self.exports@[k as int]);
            }
            match self.exports[k].finding(with_component) {
                Some(d) => {
                    out.push(d);
                },
                None => {},
            }
            k += 1;
        }
        assert(self.exports@.take(k as int) =~= self.exports@);

        let as_kind = if self.stars.len() == 0 && self.exports.len() == 0 {
            Some(MessageKind::NoExportsInFile)
        } else if self.any_non_component() && !with_component {
            Some(MessageKind::LocalComponentNotExported)
        } else {
            None
        };
        match as_kind {
            Some(kind) => {
                let ghost body = out@;
                let mut n: usize = 0;
                while n < self.local_components.len()
                    invariant
                        n <= self.local_components.len(),
                        out@ == body + findings_at(kind, self.local_components@.take(n as int)),
                    decreases self.local_components.len() - n,
                {
                    out.push(Diagnostic { kind, span: self.local_components[n] });
                    assert(findings_at(kind, self.local_components@.take(n + 1))
                        =~= findings_at(kind, self.local_components@.take(n as int)).push(
                        Diagnostic { kind, span: self.local_components@[n as int] },
                    ));
                    n += 1;
                }
                assert(self.local_components@.take(n as int) =~= self.local_components@);
            },
            None => {},
        }
        out
    }

    /// The verdict on the file.
    pub fn decide(&self) -> (v: Verdict)
        ensures
            v@ == verdict_of(self.stars@, self.exports@, self.local_components@),
    {
        if self.stars.len() == 0 && self.exports.len() == 0 {
            Verdict::Empty
        } else if self.any_open_star() {
            Verdict::Unverifiable
        } else if self.any_anonymous() || (self.any_non_component() && (self.any_component()
            || self.local_components.len() > 0)) {
            Verdict::Mixed(self.diagnose())
        } else {
            Verdict::AllComponents
        }
    }
}

} // verus!
