//! Lint rules over a plain model of a JavaScript module: which exports keep
//! fast refresh working, and where `undefined` is written for nothing.

pub mod binding;
pub mod classify;
pub mod decision;
pub mod hoc;
pub mod module_record;
pub mod name_heuristic;
pub mod no_useless_undefined;
pub mod only_export_components;
pub mod pattern;
pub mod span;
pub mod text;
