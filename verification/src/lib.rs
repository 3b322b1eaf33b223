//! Verified core of a binding to `libclang`: handles to the objects that
//! `libclang` owns, the option sets and status codes exchanged with it, and
//! the decisions the binding makes on what it reads back.

pub mod clang;
pub mod kinds;
pub mod options;
pub mod raw;
pub mod unit;

pub use clang::{Clang, ClangSlot, Index};
pub use kinds::{MemoryUsage, SaveError, Severity, SourceError};
pub use options::{BackgroundPriority, FormatOptions, ParseOptions};
pub use raw::{Nullable, RawPtr, RawSourceLocation, RawSourceRange};
pub use unit::{
    Diagnostic, File, FixIt, Location, Module, RawFixIt, SourceLocation, SourceRange,
    TranslationUnit,
};
