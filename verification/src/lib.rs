//! Fuzzing entry points, synthesized from the signatures of callables.
//!
//! For a function or method, this crate derives an aggregate type with one
//! field per input, a wrapper that unpacks the aggregate and makes the call,
//! and a harness that a fuzzing engine drives. It names the target, and
//! decides how the target gets into the manifest of the fuzzing project,
//! which every generation for one project shares.
//!
//! The crate works on plain values and touches neither syntax trees nor
//! files: a caller converts a parsed signature into a
//! [`signature::Signature`], and carries out the steps that
//! [`registrar::Registrar`] and [`locate::Locator`] decide.
//!
//! * [`signature`]: the shape of a callable.
//! * [`generate`]: classification, the aggregate, the wrapper, the harness.
//! * [`render`]: the source text of the generated definitions.
//! * [`harness`]: everything for one callable, in one call.
//! * [`crate_parse`]: the project and the names of its targets;
//!   [`ident_laws`]: when target names can collide.
//! * [`manifest`]: the text of the manifest and how it is read back;
//!   [`manifest_laws`]: every target is declared once and none is lost.
//! * [`registrar`]: the steps of a registration under the lock on the file.
//! * [`locate`]: the search for the project that encloses a path.
//! * [`boilerplate`]: simpler test texts, written from the text of a
//!   signature.
//! * [`toml_value`]: strings read out of TOML, parsed by the `toml` crate.
//! * [`test_lib`]: sample targets.
//! * [`text`]: helpers on characters and strings.

pub mod boilerplate;
pub mod crate_parse;
pub mod generate;
pub mod harness;
pub mod ident_laws;
pub mod locate;
pub mod manifest;
pub mod manifest_laws;
pub mod registrar;
pub mod render;
pub mod signature;
pub mod test_lib;
pub mod text;
pub mod toml_value;
