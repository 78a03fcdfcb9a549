//! The rule that a file which exports components exports nothing else, so
//! that it can be refreshed in place.

use crate::binding::{catalog_of, holds, Binding, BindingCatalog, Declaration};
use crate::classify::{
    anonymous_default, classified, classify_export, exports_component_function,
    is_anonymous_default, lemma_anonymous_default_is_no_component,
    lemma_function_export_is_component, lemma_unresolved_is_unknown,
};
use crate::decision::{
    findings, findings_at, is_component, is_faultless, is_non_component, lemma_faultless_file,
    lemma_lone_anonymous, lemma_lone_star, lemma_non_component_reported,
    lemma_star_findings_members, star_findings, verdict_of, Diagnostic, ExportFact, FileFacts,
    MessageKind, StarFact, Verdict, VerdictModel,
};
use crate::module_record::{
    exports_of, imports_framework, is_plain_extension, is_typed_extension, provably_type_only,
    ExportEntry, ModuleRecord, RequestedModule, StarExportEntry,
};
use crate::name_heuristic::NameHeuristic;
use crate::pattern::loose_pascal;
use crate::span::Span;
use crate::text::{listed, str_eq};
use vstd::prelude::*;

verus! {

/// The rule and its options.
pub struct OnlyExportComponents {
    /// Exported names that are never looked at.
    pub allow_export_names: Vec<String>,
    /// Exports initialised with a string, a template or a binary expression
    /// are left alone.
    pub allow_constant_export: bool,
    /// A file of plain JSX is only looked at if it imports the component
    /// framework.
    pub check_js: bool,
}

impl Default for OnlyExportComponents {
    fn default() -> (r: Self)
        ensures
            r.allow_export_names@ == Seq::<String>::empty(),
            !r.allow_constant_export,
            !r.check_js,
    {
        OnlyExportComponents {
            allow_export_names: Vec::new(),
            allow_constant_export: false,
            check_js: false,
        }
    }
}

/// Whether the rule looks at the file at all: it has module syntax, and is
/// written in typed JSX, or in plain JSX and, where that is asked for,
/// imports the component framework.
pub open spec fn applies(check_js: bool, record: ModuleRecord) -> bool {
    &&& record.is_module
    &&& (is_typed_extension(record.path_extension) || (is_plain_extension(record.path_extension)
        && (check_js ==> imports_framework(record.requested_modules@))))
}

/// What the decision reads of one star export.
pub open spec fn star_fact(s: StarExportEntry, modules: Seq<RequestedModule>) -> StarFact {
    StarFact { span: s.span, type_only: provably_type_only(s, modules) }
}

/// What the decision reads of the star exports, in order.
pub open spec fn star_facts(stars: Seq<StarExportEntry>, modules: Seq<RequestedModule>) -> Seq<
    StarFact,
> {
    Seq::new(stars.len(), |i: int| star_fact(stars[i], modules))
}

/// What the decision reads of one export: where it stands, its class, and
/// whether it is an anonymous default export.
pub open spec fn export_fact(
    allow: Seq<String>,
    allow_constant: bool,
    entry: ExportEntry,
    cat: Seq<Binding>,
) -> ExportFact {
    ExportFact {
        span: entry.span,
        class: classified(allow, allow_constant, entry, cat),
        anonymous: anonymous_default(entry),
    }
}

/// What the decision reads of the exports, one fact to an export, in
/// order.
pub open spec fn export_facts(
    allow: Seq<String>,
    allow_constant: bool,
    exports: Seq<ExportEntry>,
    cat: Seq<Binding>,
) -> Seq<ExportFact> {
    Seq::new(exports.len(), |i: int| export_fact(allow, allow_constant, exports[i], cat))
}

/// The export is of the local binding called `name`.
pub open spec fn mentions(entry: ExportEntry, name: Seq<char>) -> bool {
    entry.local_name matches Some(n) && n@ == name
}

/// Some export mentions the binding called `name`.
pub open spec fn exported(exports: Seq<ExportEntry>, name: Seq<char>) -> bool {
    exists|i: int| 0 <= i < exports.len() && mentions(#[trigger] exports[i], name)
}

/// A binding named like a component that no export mentions.
pub open spec fn is_local_component(b: Binding, exports: Seq<ExportEntry>) -> bool {
    loose_pascal(b.name@) && !exported(exports, b.name@)
}

/// Where the unexported components of the catalogue stand, in its order.
pub open spec fn local_components(cat: Seq<Binding>, exports: Seq<ExportEntry>) -> Seq<Span>
    decreases cat.len(),
{
    if cat.len() == 0 {
        Seq::empty()
    } else if is_local_component(cat.last(), exports) {
        local_components(cat.drop_last(), exports).push(cat.last().span)
    } else {
        local_components(cat.drop_last(), exports)
    }
}

/// The diagnostics of a file whose bindings are catalogued in `cat`.
pub open spec fn report_with(rule: OnlyExportComponents, record: ModuleRecord, cat: Seq<Binding>)
    -> Seq<Diagnostic> {
    if applies(rule.check_js, record) {
        findings(
            star_facts(record.star_export_entries@, record.requested_modules@),
            export_facts(
                rule.allow_export_names@,
                rule.allow_constant_export,
                exports_of(record),
                cat,
            ),
            local_components(cat, exports_of(record)),
        )
    } else {
        Seq::empty()
    }
}

/// The diagnostics of a file, from its record and its top-level
/// declarations.
pub open spec fn report(
    rule: OnlyExportComponents,
    record: ModuleRecord,
    declarations: Seq<Declaration>,
) -> Seq<Diagnostic> {
    report_with(rule, record, catalog_of(declarations))
}

/// The verdict on a file that the rule looks at.
pub open spec fn verdict_with(rule: OnlyExportComponents, record: ModuleRecord, cat: Seq<Binding>)
    -> VerdictModel {
    verdict_of(
        star_facts(record.star_export_entries@, record.requested_modules@),
        export_facts(
            rule.allow_export_names@,
            rule.allow_constant_export,
            exports_of(record),
            cat,
        ),
        local_components(cat, exports_of(record)),
    )
}

/// A file whose exports are all functions or arrows named in loose
/// PascalCase, and whose star exports are all provably of types, is not
/// reported.
pub proof fn lemma_function_exports_pass(
    rule: OnlyExportComponents,
    record: ModuleRecord,
    cat: Seq<Binding>,
)
    requires
        exports_of(record).len() > 0,
        forall|i: int|
            0 <= i < record.star_export_entries@.len() ==> provably_type_only(
                #[trigger] record.star_export_entries@[i],
                record.requested_modules@,
            ),
        forall|i: int|
            0 <= i < exports_of(record).len() ==> exports_component_function(
                #[trigger] exports_of(record)[i],
                cat,
            ),
    ensures
        report_with(rule, record, cat) == Seq::<Diagnostic>::empty(),
        verdict_with(rule, record, cat) == VerdictModel::AllComponents,
{
    let stars = star_facts(record.star_export_entries@, record.requested_modules@);
    let exports = exports_of(record);
    let facts = export_facts(rule.allow_export_names@, rule.allow_constant_export, exports, cat);
    assert forall|i: int| 0 <= i < stars.len() implies (#[trigger] stars[i]).type_only by {
        assert(provably_type_only(record.star_export_entries@[i], record.requested_modules@));
    }
    assert forall|i: int| 0 <= i < facts.len() implies is_faultless(#[trigger] facts[i]) by {
        assert(exports_component_function(exports[i], cat));
        lemma_function_export_is_component(
            rule.allow_export_names@,
            rule.allow_constant_export,
            exports[i],
            cat,
        );
    }
    lemma_faultless_file(stars, facts, local_components(cat, exports));
}

/// In a file that the rule looks at, an export whose binding is not in the
/// catalogue, such as that of an enum, is reported as a mixed export
/// wherever a function or arrow named in loose PascalCase is exported under
/// a name that is not on the allow-list.
pub proof fn lemma_unresolved_beside_component(
    rule: OnlyExportComponents,
    record: ModuleRecord,
    cat: Seq<Binding>,
    i: int,
    j: int,
)
    requires
        applies(rule.check_js, record),
        0 <= i < exports_of(record).len(),
        0 <= j < exports_of(record).len(),
        exports_of(record)[i].kind is Named || exports_of(record)[i].kind is Default,
        !listed(rule.allow_export_names@, exports_of(record)[i].exported_name@),
        exports_of(record)[i].local_name matches Some(local) && !holds(cat, local@),
        exports_component_function(exports_of(record)[j], cat),
        !listed(rule.allow_export_names@, exports_of(record)[j].exported_name@),
    ensures
        report_with(rule, record, cat).contains(
            Diagnostic { kind: MessageKind::MixedExports, span: exports_of(record)[i].span },
        ),
{
    let exports = exports_of(record);
    let facts = export_facts(rule.allow_export_names@, rule.allow_constant_export, exports, cat);
    lemma_unresolved_is_unknown(
        rule.allow_export_names@,
        rule.allow_constant_export,
        exports[i],
        cat,
    );
    lemma_function_export_is_component(
        rule.allow_export_names@,
        rule.allow_constant_export,
        exports[j],
        cat,
    );
    assert(is_component(facts[j]));
    assert(is_non_component(facts[i]) && !facts[i].anonymous);
    lemma_non_component_reported(
        star_facts(record.star_export_entries@, record.requested_modules@),
        facts,
        local_components(cat, exports),
        i,
    );
}

/// A file that the rule looks at and whose only export is a default export
/// of a function without a name, where `default` is not on the allow-list:
/// one diagnostic for the anonymous export, then one for each component
/// that is not exported, and none for mixed exports.
pub proof fn lemma_anonymous_default_alone(
    rule: OnlyExportComponents,
    record: ModuleRecord,
    cat: Seq<Binding>,
)
    requires
        applies(rule.check_js, record),
        record.star_export_entries@.len() == 0,
        record.named_export_entries@.len() == 0,
        record.default_export_entry matches Some(e) && anonymous_default(e) && !listed(
            rule.allow_export_names@,
            e.exported_name@,
        ),
    ensures
        report_with(rule, record, cat) == seq![
            Diagnostic {
                kind: MessageKind::AnonymousDefaultExport,
                span: record.default_export_entry->0.span,
            },
        ] + findings_at(
            MessageKind::LocalComponentNotExported,
            local_components(cat, exports_of(record)),
        ),
{
    let e = record.default_export_entry->0;
    let exports = exports_of(record);
    assert(exports =~= seq![e]);
    let fact = export_fact(rule.allow_export_names@, rule.allow_constant_export, e, cat);
    assert(export_facts(rule.allow_export_names@, rule.allow_constant_export, exports, cat)
        =~= seq![fact]);
    assert(star_facts(record.star_export_entries@, record.requested_modules@) =~= Seq::<StarFact>::empty());
    lemma_anonymous_default_is_no_component(
        rule.allow_export_names@,
        rule.allow_constant_export,
        e,
        cat,
    );
    lemma_lone_anonymous(fact, local_components(cat, exports));
}

/// A file that the rule looks at and whose only export is one star export:
/// none if the star export is provably of types, else one diagnostic at the
/// star export. So there is one whenever it is not written `export type *`.
pub proof fn lemma_star_export_alone(
    rule: OnlyExportComponents,
    record: ModuleRecord,
    cat: Seq<Binding>,
)
    requires
        applies(rule.check_js, record),
        record.star_export_entries@.len() == 1,
        exports_of(record).len() == 0,
    ensures
        report_with(rule, record, cat) == if provably_type_only(
            record.star_export_entries@[0],
            record.requested_modules@,
        ) {
            Seq::<Diagnostic>::empty()
        } else {
            seq![
                Diagnostic {
                    kind: MessageKind::StarExportUnverifiable,
                    span: record.star_export_entries@[0].span,
                },
            ]
        },
{
    let star = star_fact(record.star_export_entries@[0], record.requested_modules@);
    assert(star_facts(record.star_export_entries@, record.requested_modules@) =~= seq![star]);
    assert(export_facts(
        rule.allow_export_names@,
        rule.allow_constant_export,
        exports_of(record),
        cat,
    ) =~= Seq::<ExportFact>::empty());
    lemma_lone_star(star, local_components(cat, exports_of(record)));
}

/// In a file that the rule looks at, every star export that is not
/// provably of types is reported, whatever else the file holds: so every one
/// that is not written `export type *`, and every one whose module is not
/// resolved.
pub proof fn lemma_star_export_reported(
    rule: OnlyExportComponents,
    record: ModuleRecord,
    cat: Seq<Binding>,
    i: int,
)
    requires
        applies(rule.check_js, record),
        0 <= i < record.star_export_entries@.len(),
        !provably_type_only(record.star_export_entries@[i], record.requested_modules@),
    ensures
        report_with(rule, record, cat).contains(
            Diagnostic {
                kind: MessageKind::StarExportUnverifiable,
                span: record.star_export_entries@[i].span,
            },
        ),
{
    let stars = star_facts(record.star_export_entries@, record.requested_modules@);
    let d = Diagnostic {
        kind: MessageKind::StarExportUnverifiable,
        span: record.star_export_entries@[i].span,
    };
    assert(!stars[i].type_only);
    lemma_star_findings_members(stars, d);
    let k = choose|k: int| 0 <= k < star_findings(stars).len() && star_findings(stars)[k] == d;
    assert(report_with(rule, record, cat)[k] == d);
}

/// A file that the rule does not look at is not reported: one without
/// module syntax, one that is written neither in typed nor in plain JSX,
/// and, where that is asked for, one in plain JSX that does not import the
/// component framework.
pub proof fn lemma_other_files_silent(
    rule: OnlyExportComponents,
    record: ModuleRecord,
    declarations: Seq<Declaration>,
)
    requires
        !record.is_module || (!is_typed_extension(record.path_extension) && (!is_plain_extension(
            record.path_extension,
        ) || (rule.check_js && !imports_framework(record.requested_modules@)))),
    ensures
        report(rule, record, declarations) == Seq::<Diagnostic>::empty(),
{
}

/// Two runs on the same file report the same: what a run reports is a
/// function of the rule's options, the record and the declarations, and of
/// nothing that a run could leave behind.
pub proof fn lemma_runs_agree(
    rule: OnlyExportComponents,
    record: ModuleRecord,
    declarations: Seq<Declaration>,
    first: Seq<Diagnostic>,
    second: Seq<Diagnostic>,
)
    requires
        first == report(rule, record, declarations),
        second == report(rule, record, declarations),
    ensures
        first == second,
{
}

/// Whether some export mentions the binding called `name`.
pub fn is_exported(record: &ModuleRecord, name: &str) -> (r: bool)
    ensures
        r == exported(exports_of(*record), name@),
{
    let named = &record.named_export_entries;
    let mut i: usize = 0;
    while i < named.len()
        invariant
            i <= named.len(),
            named == &record.named_export_entries,
            forall|j: int| 0 <= j < i ==> !mentions(#[trigger] named@[j], name@),
        decreases named.len() - i,
    {
        match &named[i].local_name {
            Some(n) => {
                if str_eq(n.as_str(), name) {
                    assert(exports_of(*record)[i as int] == named@[i as int]);
                    return true;
                }
            },
            None => {},
        }
        i += 1;
    }
    match &record.default_export_entry {
        Some(e) => match &e.local_name {
            Some(n) => {
                let r = str_eq(n.as_str(), name);
                proof {
                    let all = exports_of(*record);
                    assert(all[named@.len() as int] == *e);
                    if !r {
                        assert forall|j: int| 0 <= j < all.len() implies !mentions(
                            #[trigger] all[j],
                            name@,
                        ) by {
                            if j < named@.len() {
                                assert(all[j] == named@[j]);
                            }
                        }
                    }
                }
                r
            },
            None => {
                proof {
                    let all = exports_of(*record);
                    assert forall|j: int| 0 <= j < all.len() implies !mentions(
                        #[trigger] all[j],
                        name@,
                    ) by {
                        if j < named@.len() {
                            assert(all[j] == named@[j]);
                        }
                    }
                }
                false
            },
        },
        None => false,
    }
}

impl OnlyExportComponents {
    /// Whether the rule looks at the file at all.
    pub fn applies(&self, record: &ModuleRecord) -> (r: bool)
        ensures
            r == applies(self.check_js, *record),
    {
        if !record.is_module {
            return false;
        }
        if record.has_typed_extension() {
            return true;
        }
        record.has_plain_extension() && (!self.check_js || record.imports_framework())
    }

    /// Classifies one export and keeps what the decision needs of it.
    pub fn fact(&self, names: &NameHeuristic, entry: &ExportEntry, catalog: &BindingCatalog) -> (f:
        ExportFact)
        ensures
            f == export_fact(
                self.allow_export_names@,
                self.allow_constant_export,
                *entry,
                catalog@,
            ),
    {
        ExportFact {
            span: entry.span,
            class: classify_export(
                names,
                &self.allow_export_names,
                self.allow_constant_export,
                entry,
                catalog,
            ),
            anonymous: is_anonymous_default(entry),
        }
    }

    /// The second pass: classifies every export against the finished
    /// catalogue and gathers what the decision reads.
    pub fn gather(&self, names: &NameHeuristic, record: &ModuleRecord, catalog: &BindingCatalog)
        -> (facts: FileFacts)
        ensures
            facts.stars@ == star_facts(record.star_export_entries@, record.requested_modules@),
            facts.exports@ == export_facts(
                self.allow_export_names@,
                self.allow_constant_export,
                exports_of(*record),
                catalog@,
            ),
            facts.local_components@ == local_components(catalog@, exports_of(*record)),
    {
        let mut stars: Vec<StarFact> = Vec::new();
        let mut i: usize = 0;
        while i < record.star_export_entries.len()
            invariant
                i <= record.star_export_entries.len(),
                stars@ == star_facts(
                    record.star_export_entries@.take(i as int),
                    record.requested_modules@,
                ),
            decreases record.star_export_entries.len() - i,
        {
            let s = &record.star_export_entries[i];
            stars.push(StarFact { span: s.span, type_only: record.is_provably_type_only(s) });
            assert(stars@ =~= star_facts(
                record.star_export_entries@.take(i + 1),
                record.requested_modules@,
            ));
            i += 1;
        }
        assert(record.star_export_entries@.take(i as int) =~= record.star_export_entries@);

        let named = &record.named_export_entries;
        let mut exports: Vec<ExportFact> = Vec::new();
        let mut k: usize = 0;
        while k < named.len()
            invariant
                k <= named.len(),
                named == &record.named_export_entries,
                exports@ == export_facts(
                    self.allow_export_names@,
                    self.allow_constant_export,
                    named@.take(k as int),
                    catalog@,
                ),
            decreases named.len() - k,
        {
            exports.push(self.fact(names, &named[k], catalog));
            assert(exports@ =~= export_facts(
                self.allow_export_names@,
                self.allow_constant_export,
                named@.take(k + 1),
                catalog@,
            ));
            k += 1;
        }
        assert(named@.take(k as int) =~= named@);
        match &record.default_export_entry {
            Some(e) => {
                exports.push(self.fact(names, e, catalog));
            },
            None => {},
        }
        assert(exports@ =~= export_facts(
            self.allow_export_names@,
            self.allow_constant_export,
            exports_of(*record),
            catalog@,
        ));

        let mut locals: Vec<Span> = Vec::new();
        let mut n: usize = 0;
        assert(catalog@.take(0) =~= Seq::<Binding>::empty());
        while n < catalog.len()
            invariant
                n <= catalog@.len(),
                locals@ == local_components(catalog@.take(n as int), exports_of(*record)),
            decreases catalog@.len() - n,
        {
            proof {
                assert(catalog@.take(n + 1).drop_last() =~= catalog@.take(n as int));
                assert(catalog@.take(n + 1).last() == catalog@[n as int]);
            }
            let b = catalog.get(n);
            if names.possible_component(b.name.as_str()) && !is_exported(record, b.name.as_str()) {
                locals.push(b.span);
            }
            n += 1;
        }
        assert(catalog@.take(n as int) =~= catalog@);
        FileFacts { stars, exports, local_components: locals }
    }

    /// Runs the rule on one file. Where the rule applies, all top-level
    /// declarations are catalogued first, then every export is classified,
    /// then the decision is made.
    pub fn run_once(
        &self,
        names: &NameHeuristic,
        record: &ModuleRecord,
        declarations: &Vec<Declaration>,
    ) -> (out: Vec<Diagnostic>)
        ensures
            out@ == report(*self, *record, declarations@),
    {
        if !self.applies(record) {
            return Vec::new();
        }
        let catalog = BindingCatalog::collect(declarations);
        let facts = self.gather(names, record, &catalog);
        facts.diagnose()
    }

    /// The verdict on one file, or `None` where the rule does not look at
    /// it.
    pub fn verdict(
        &self,
        names: &NameHeuristic,
        record: &ModuleRecord,
        declarations: &Vec<Declaration>,
    ) -> (v: Option<Verdict>)
        ensures
            v is Some <==> applies(self.check_js, *record),
            v matches Some(found) ==> found@ == verdict_with(
                *self,
                *record,
                catalog_of(declarations@),
            ),
    {
        if !self.applies(record) {
            return None;
        }
        let catalog = BindingCatalog::collect(declarations);
        let facts = self.gather(names, record, &catalog);
        Some(facts.decide())
    }
}

} // verus!
