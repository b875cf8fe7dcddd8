//! Builder-method generation for struct definitions.
//!
//! Given a plain description of a struct definition — its name, generic
//! parameters, `where` predicates, attributes and fields — this library
//! computes the source text of an `impl` block holding one fluent
//! `with_<field>` constructor per selected field, as a derive macro for
//! such builders would emit it. The whole pipeline, from field selection
//! to the rendered text, is specified and verified; an unverified shell
//! can parse real syntax trees into the model and hand the result back
//! to the compiler.

pub mod generate;
pub mod model;
pub mod render;
pub mod text;
