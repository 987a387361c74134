//! Inspection and repacking rules for comic archives.
//!
//! The crate decides which archives a reader cannot open (RAR5 or solid
//! archives), from the text that an archive listing tool prints, drives a
//! cancellable directory scan as a state machine, and names the entries of a
//! repacked archive. The contracts of its functions are proved; the few
//! calls into other crates stand behind small functions whose contracts are
//! taken on trust and say so.

pub mod archive;
pub mod inspect;
pub mod listing;
pub mod repack;
pub mod scanner;
pub mod text;
