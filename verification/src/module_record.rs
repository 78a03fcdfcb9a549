//! What is known of a module's imports and exports before any rule runs.

use crate::binding::InitShape;
use crate::span::Span;
use crate::text::str_eq;
use vstd::prelude::*;
use vstd::string::StringExecFns;

verus! {

/// One mention of a requested module.
#[derive(Clone, Copy, Debug, PartialEq, Eq, Structural)]
pub struct RequestedEntry {
    /// An import; otherwise a re-export.
    pub is_import: bool,
    pub is_type: bool,
}

/// A module that this one asks for, with every mention of it.
pub struct RequestedModule {
    pub request: String,
    pub entries: Vec<RequestedEntry>,
}

/// `export * from '...'`.
pub struct StarExportEntry {
    /// The module asked for, where it could be made out.
    pub module_request: Option<String>,
    pub span: Span,
    /// Written as `export type *`.
    pub is_type_only: bool,
}

/// How a name is exported.
#[derive(Clone, Copy, Debug, PartialEq, Eq, Structural)]
pub enum ExportKind {
    Named,
    Default,
    Star,
    TypeOnly,
}

/// One exported name.
pub struct ExportEntry {
    /// `"default"` for a default export.
    pub exported_name: String,
    /// The local binding that is exported, where there is one.
    pub local_name: Option<String>,
    pub kind: ExportKind,
    pub span: Span,
    /// The shape of the expression of a default export that names no
    /// binding.
    pub inline: Option<InitShape>,
}

/// The imports and exports of one file, as resolved before the rule runs.
/// The rule reads it and never changes it.
pub struct ModuleRecord {
    /// The file has import or export syntax.
    pub is_module: bool,
    pub path_extension: Option<String>,
    pub star_export_entries: Vec<StarExportEntry>,
    pub requested_modules: Vec<RequestedModule>,
    pub named_export_entries: Vec<ExportEntry>,
    pub default_export_entry: Option<ExportEntry>,
}

/// The module whose import puts the component framework in scope.
pub const FRAMEWORK_MODULE: &'static str = "react";

/// The named exports, then the default export.
pub open spec fn exports_of(record: ModuleRecord) -> Seq<ExportEntry> {
    match record.default_export_entry {
        Some(e) => record.named_export_entries@.push(e),
        None => record.named_export_entries@,
    }
}

/// `m` is the component framework and is imported.
pub open spec fn is_framework_import(m: RequestedModule) -> bool {
    &&& m.request@ == FRAMEWORK_MODULE@
    &&& exists|j: int| 0 <= j < m.entries@.len() && (#[trigger] m.entries@[j]).is_import
}

/// Some import of the module puts the component framework in scope.
pub open spec fn imports_framework(modules: Seq<RequestedModule>) -> bool {
    exists|i: int| 0 <= i < modules.len() && is_framework_import(#[trigger] modules[i])
}

/// Some mention of `m` re-exports types only.
pub open spec fn reexports_types(m: RequestedModule) -> bool {
    exists|j: int|
        0 <= j < m.entries@.len() && !(#[trigger] m.entries@[j]).is_import && m.entries@[j].is_type
}

/// The module asked for as `name` is among the requested modules, with a
/// mention that re-exports types only.
pub open spec fn requested_for_types(modules: Seq<RequestedModule>, name: Seq<char>) -> bool {
    exists|i: int|
        0 <= i < modules.len() && (#[trigger] modules[i]).request@ == name && reexports_types(
            modules[i],
        )
}

/// The star export provably carries types only: it is written so, and the
/// module it asks for is resolved to a re-export of types. One whose module
/// is not resolved is not.
pub open spec fn provably_type_only(star: StarExportEntry, modules: Seq<RequestedModule>) -> bool {
    &&& star.is_type_only
    &&& star.module_request matches Some(name)
    &&& requested_for_types(modules, name@)
}

/// The extension of a file written with typed JSX.
pub open spec fn is_typed_extension(ext: Option<String>) -> bool {
    ext matches Some(e) && e@ == "tsx"@
}

/// The extension of a file written with plain JSX.
pub open spec fn is_plain_extension(ext: Option<String>) -> bool {
    ext matches Some(e) && e@ == "jsx"@
}

/// The name under which a default export is exported.
pub const DEFAULT_NAME: &'static str = "default";

/// How a name exported by name is exported: as a type where it is marked
/// so, as the default where it is called `default`, else by its name.
pub open spec fn export_kind_of(exported: Seq<char>, is_type: bool) -> ExportKind {
    if is_type {
        ExportKind::TypeOnly
    } else if exported == DEFAULT_NAME@ {
        ExportKind::Default
    } else {
        ExportKind::Named
    }
}

/// `i` is where the first module asked for as `name` stands.
pub open spec fn first_request(modules: Seq<RequestedModule>, name: Seq<char>, i: int) -> bool {
    &&& 0 <= i < modules.len()
    &&& modules[i].request@ == name
    &&& forall|j: int| 0 <= j < i ==> (#[trigger] modules[j]).request@ != name
}

/// Some module is asked for as `name`.
pub open spec fn requests(modules: Seq<RequestedModule>, name: Seq<char>) -> bool {
    exists|i: int| 0 <= i < modules.len() && (#[trigger] modules[i]).request@ == name
}

/// `after` is `before` with one more mention of the module asked for as
/// `name`: added to the first module of that name, or, where there is none,
/// as a new last module with that one mention.
pub open spec fn mentioned(
    before: Seq<RequestedModule>,
    after: Seq<RequestedModule>,
    name: Seq<char>,
    entry: RequestedEntry,
) -> bool {
    if requests(before, name) {
        &&& after.len() == before.len()
        &&& forall|i: int| #[trigger]
            first_request(before, name, i) ==> {
                &&& after[i].request@ == name
                &&& after[i].entries@ == before[i].entries@.push(entry)
                &&& forall|j: int|
                    0 <= j < before.len() && j != i ==> #[trigger] after[j] == before[j]
            }
    } else {
        &&& after.len() == before.len() + 1
        &&& after.last().request@ == name
        &&& after.last().entries@ == seq![entry]
        &&& forall|j: int| 0 <= j < before.len() ==> #[trigger] after[j] == before[j]
    }
}

impl ExportEntry {
    /// The entry for a name exported by name: of the local binding `local`,
    /// or, with `None`, of a binding of another module.
    pub fn named(exported: String, local: Option<String>, is_type: bool, span: Span) -> (e:
        ExportEntry)
        ensures
            e.exported_name == exported,
            e.local_name == local,
            e.kind == export_kind_of(exported@, is_type),
            e.span == span,
            e.inline is None,
    {
        let kind = if is_type {
            ExportKind::TypeOnly
        } else if str_eq(exported.as_str(), DEFAULT_NAME) {
            ExportKind::Default
        } else {
            ExportKind::Named
        };
        ExportEntry { exported_name: exported, local_name: local, kind, span, inline: None }
    }

    /// The entry for `export default`: of the local binding `local`, or,
    /// with `None`, of an expression written in place, of shape `inline`.
    pub fn default_export(
        local: Option<String>,
        inline: Option<InitShape>,
        is_type: bool,
        span: Span,
    ) -> (e: ExportEntry)
        ensures
            e.exported_name@ == DEFAULT_NAME@,
            e.local_name == local,
            e.kind == if is_type {
                ExportKind::TypeOnly
            } else {
                ExportKind::Default
            },
            e.span == span,
            e.inline == if local is None && !is_type {
                inline
            } else {
                None
            },
    {
        let inline = if local.is_none() && !is_type {
            inline
        } else {
            None
        };
        ExportEntry {
            exported_name: String::from_str(DEFAULT_NAME),
            local_name: local,
            kind: if is_type {
                ExportKind::TypeOnly
            } else {
                ExportKind::Default
            },
            span,
            inline,
        }
    }

    /// The entry for `export * as name`: a star export under a name.
    pub fn star_as(exported: String, is_type: bool, span: Span) -> (e: ExportEntry)
        ensures
            e.exported_name == exported,
            e.local_name is None,
            e.kind == if is_type {
                ExportKind::TypeOnly
            } else {
                ExportKind::Star
            },
            e.span == span,
            e.inline is None,
    {
        ExportEntry {
            exported_name: exported,
            local_name: None,
            kind: if is_type {
                ExportKind::TypeOnly
            } else {
                ExportKind::Star
            },
            span,
            inline: None,
        }
    }
}

impl RequestedModule {
    /// Whether some mention of the module re-exports types only.
    pub fn reexports_types(&self) -> (r: bool)
        ensures
            r == reexports_types(*self),
    {
        let mut j: usize = 0;
        while j < self.entries.len()
            invariant
                j <= self.entries.len(),
                forall|k: int|
                    0 <= k < j ==> !(!(#[trigger] self.entries@[k]).is_import
                        && self.entries@[k].is_type),
            decreases self.entries.len() - j,
        {
            if !self.entries[j].is_import && self.entries[j].is_type {
                return true;
            }
            j += 1;
        }
        false
    }

    /// Whether this is the component framework, imported.
    pub fn is_framework_import(&self) -> (r: bool)
        ensures
            r == is_framework_import(*self),
    {
        if !str_eq(self.request.as_str(), FRAMEWORK_MODULE) {
            return false;
        }
        let mut j: usize = 0;
        while j < self.entries.len()
            invariant
                j <= self.entries.len(),
                self.request@ == FRAMEWORK_MODULE@,
                forall|k: int| 0 <= k < j ==> !(#[trigger] self.entries@[k]).is_import,
            decreases self.entries.len() - j,
        {
            if self.entries[j].is_import {
                return true;
            }
            j += 1;
        }
        false
    }
}

impl ModuleRecord {
    /// The record of a file without imports and exports.
    pub fn new(path_extension: Option<String>) -> (r: ModuleRecord)
        ensures
            !r.is_module,
            r.path_extension == path_extension,
            r.star_export_entries@.len() == 0,
            r.requested_modules@.len() == 0,
            r.named_export_entries@.len() == 0,
            r.default_export_entry is None,
    {
        ModuleRecord {
            is_module: false,
            path_extension,
            star_export_entries: Vec::new(),
            requested_modules: Vec::new(),
            named_export_entries: Vec::new(),
            default_export_entry: None,
        }
    }

    /// Where the first module asked for as `name` stands.
    fn find_request(&self, name: &str) -> (r: Option<usize>)
        ensures
            r is Some <==> requests(self.requested_modules@, name@),
            r matches Some(i) ==> first_request(self.requested_modules@, name@, i as int),
    {
        let mut i: usize = 0;
        while i < self.requested_modules.len()
            invariant
                i <= self.requested_modules.len(),
                forall|j: int|
                    0 <= j < i ==> (#[trigger] self.requested_modules@[j]).request@ != name@,
            decreases self.requested_modules.len() - i,
        {
            if str_eq(self.requested_modules[i].request.as_str(), name) {
                return Some(i);
            }
            i += 1;
        }
        None
    }

    /// Records one mention of the module asked for as `request`. The file
    /// has module syntax from then on.
    pub fn request(&mut self, request: String, entry: RequestedEntry)
        ensures
            final(self).is_module,
            mentioned(
                old(self).requested_modules@,
                final(self).requested_modules@,
                request@,
                entry,
            ),
            final(self).path_extension == old(self).path_extension,
            final(self).star_export_entries == old(self).star_export_entries,
            final(self).named_export_entries == old(self).named_export_entries,
            final(self).default_export_entry == old(self).default_export_entry,
    {
        let ghost before = self.requested_modules@;
        self.is_module = true;
        match self.find_request(request.as_str()) {
            Some(i) => {
                let mut module = self.requested_modules.remove(i);
                module.entries.push(entry);
                self.requested_modules.insert(i, module);
                proof {
                    let after = self.requested_modules@;
                    assert(after[i as int] == module);
                    assert forall|k: int| #[trigger]
                        first_request(before, request@, k) implies k == i by {}
                    assert forall|j: int| 0 <= j < before.len() && j != i implies #[trigger] after[j]
                        == before[j] by {}
                }
            },
            None => {
                let mut entries: Vec<RequestedEntry> = Vec::new();
                entries.push(entry);
                self.requested_modules.push(RequestedModule { request, entries });
            },
        }
    }

    /// Records `import ... from request`.
    pub fn import(&mut self, request: String, is_type: bool)
        ensures
            final(self).is_module,
            mentioned(
                old(self).requested_modules@,
                final(self).requested_modules@,
                request@,
                RequestedEntry { is_import: true, is_type },
            ),
            final(self).path_extension == old(self).path_extension,
            final(self).star_export_entries == old(self).star_export_entries,
            final(self).named_export_entries == old(self).named_export_entries,
            final(self).default_export_entry == old(self).default_export_entry,
    {
        self.request(request, RequestedEntry { is_import: true, is_type });
    }

    /// Records `export ... from request`.
    pub fn reexport(&mut self, request: String, is_type: bool)
        ensures
            final(self).is_module,
            mentioned(
                old(self).requested_modules@,
                final(self).requested_modules@,
                request@,
                RequestedEntry { is_import: false, is_type },
            ),
            final(self).path_extension == old(self).path_extension,
            final(self).star_export_entries == old(self).star_export_entries,
            final(self).named_export_entries == old(self).named_export_entries,
            final(self).default_export_entry == old(self).default_export_entry,
    {
        self.request(request, RequestedEntry { is_import: false, is_type });
    }

    /// Records `export * from request`, after its mention of the module has
    /// been recorded.
    pub fn export_star(&mut self, request: String, is_type_only: bool, span: Span)
        ensures
            final(self).is_module,
            final(self).star_export_entries@.len() == old(self).star_export_entries@.len() + 1,
            forall|j: int|
                0 <= j < old(self).star_export_entries@.len() ==> #[trigger] final(self).star_export_entries@[j] == old(self).star_export_entries@[j],
            final(self).star_export_entries@.last() == (StarExportEntry {
                module_request: Some(request),
                span,
                is_type_only,
            }),
            final(self).path_extension == old(self).path_extension,
            final(self).requested_modules == old(self).requested_modules,
            final(self).named_export_entries == old(self).named_export_entries,
            final(self).default_export_entry == old(self).default_export_entry,
    {
        self.is_module = true;
        self.star_export_entries.push(
            StarExportEntry { module_request: Some(request), span, is_type_only },
        );
    }

    /// Records one export entry: a default export takes the place of the
    /// default export recorded before, any other comes last among the named
    /// exports.
    pub fn export(&mut self, entry: ExportEntry)
        ensures
            final(self).is_module,
            entry.kind is Default ==> final(self).default_export_entry == Some(entry) && final(self).named_export_entries == old(self).named_export_entries,
            !(entry.kind is Default) ==> final(self).default_export_entry == old(self).default_export_entry && final(self).named_export_entries@ == old(self).named_export_entries@.push(entry),
            final(self).path_extension == old(self).path_extension,
            final(self).star_export_entries == old(self).star_export_entries,
            final(self).requested_modules == old(self).requested_modules,
    {
        self.is_module = true;
        match entry.kind {
            ExportKind::Default => {
                self.default_export_entry = Some(entry);
            },
            _ => {
                self.named_export_entries.push(entry);
            },
        }
    }


    /// Whether the file exports anything at all.
    pub fn has_exports(&self) -> (r: bool)
        ensures
            r == (self.star_export_entries@.len() > 0 || exports_of(*self).len() > 0),
    {
        self.star_export_entries.len() > 0 || self.named_export_entries.len() > 0
            || self.default_export_entry.is_some()
    }

    /// Whether the module asked for as `name` is resolved to a re-export of
    /// types.
    pub fn requested_for_types(&self, name: &str) -> (r: bool)
        ensures
            r == requested_for_types(self.requested_modules@, name@),
    {
        let mut i: usize = 0;
        while i < self.requested_modules.len()
            invariant
                i <= self.requested_modules.len(),
                forall|k: int|
                    0 <= k < i ==> !((#[trigger] self.requested_modules@[k]).request@ == name@
                        && reexports_types(self.requested_modules@[k])),
            decreases self.requested_modules.len() - i,
        {
            let m = &self.requested_modules[i];
            if str_eq(m.request.as_str(), name) && m.reexports_types() {
                return true;
            }
            i += 1;
        }
        false
    }

    /// Whether the star export provably carries types only.
    pub fn is_provably_type_only(&self, star: &StarExportEntry) -> (r: bool)
        ensures
            r == provably_type_only(*star, self.requested_modules@),
    {
        if !star.is_type_only {
            return false;
        }
        match &star.module_request {
            Some(name) => self.requested_for_types(name.as_str()),
            None => false,
        }
    }

    /// Whether some import puts the component framework in scope.
    pub fn imports_framework(&self) -> (r: bool)
        ensures
            r == imports_framework(self.requested_modules@),
    {
        let mut i: usize = 0;
        while i < self.requested_modules.len()
            invariant
                i <= self.requested_modules.len(),
                forall|k: int| 0 <= k < i ==> !is_framework_import(#[trigger] self.requested_modules@[k]),
            decreases self.requested_modules.len() - i,
        {
            if self.requested_modules[i].is_framework_import() {
                return true;
            }
            i += 1;
        }
        false
    }

    /// Whether the file is written in typed JSX, by its extension.
    pub fn has_typed_extension(&self) -> (r: bool)
        ensures
            r == is_typed_extension(self.path_extension),
    {
        match &self.path_extension {
            Some(e) => str_eq(e.as_str(), "tsx"),
            None => false,
        }
    }

    /// Whether the file is written in plain JSX, by its extension.
    pub fn has_plain_extension(&self) -> (r: bool)
        ensures
            r == is_plain_extension(self.path_extension),
    {
        match &self.path_extension {
            Some(e) => str_eq(e.as_str(), "jsx"),
            None => false,
        }
    }
}

} // verus!
