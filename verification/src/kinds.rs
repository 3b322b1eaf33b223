use vstd::prelude::*;

verus! {

// MemoryUsage ___________________________________

/// Indicates the usage category of a quantity of memory.
#[derive(Copy, Clone, Debug, PartialEq, Eq, Hash, Structural)]
pub enum MemoryUsage {
    /// Expressions, declarations and types.
    Ast,
    /// Various tables used by the AST.
    AstSideTables,
    /// Memory allocated with `malloc` for external AST sources.
    ExternalAstSourceMalloc,
    /// Memory allocated with `mmap` for external AST sources.
    ExternalAstSourceMMap,
    /// Cached global code completion results.
    GlobalCodeCompletionResults,
    /// Identifiers.
    Identifiers,
    /// The preprocessing record.
    PreprocessingRecord,
    /// Memory allocated with `malloc` for the preprocessor.
    Preprocessor,
    /// Header search tables.
    PreprocessorHeaderSearch,
    /// Selectors.
    Selectors,
    /// The content cache used by the source manager.
    SourceManagerContentCache,
    /// Data structures used by the source manager.
    SourceManagerDataStructures,
    /// Memory allocated with `malloc` for the source manager.
    SourceManagerMalloc,
    /// Memory allocated with `mmap` for the source manager.
    SourceManagerMMap,
}

impl MemoryUsage {
    /// The `CXTUResourceUsageKind` code that `libclang` uses for this category.
    pub open spec fn code(self) -> u32 {
        match self {
            MemoryUsage::Ast => 1,
            MemoryUsage::Identifiers => 2,
            MemoryUsage::Selectors => 3,
            MemoryUsage::GlobalCodeCompletionResults => 4,
            MemoryUsage::SourceManagerContentCache => 5,
            MemoryUsage::AstSideTables => 6,
            MemoryUsage::SourceManagerMalloc => 7,
            MemoryUsage::SourceManagerMMap => 8,
            MemoryUsage::ExternalAstSourceMalloc => 9,
            MemoryUsage::ExternalAstSourceMMap => 10,
            MemoryUsage::Preprocessor => 11,
            MemoryUsage::PreprocessingRecord => 12,
            MemoryUsage::SourceManagerDataStructures => 13,
            MemoryUsage::PreprocessorHeaderSearch => 14,
        }
    }

    /// Whether `code` is the code of some category.
    pub open spec fn is_code(code: u32) -> bool {
        1 <= code <= 14
    }

    /// The category whose code is `code`, if any.
    pub open spec fn spec_from_code(code: u32) -> Option<MemoryUsage> {
        if code == 1 { Some(MemoryUsage::Ast) }
        else if code == 2 { Some(MemoryUsage::Identifiers) }
        else if code == 3 { Some(MemoryUsage::Selectors) }
        else if code == 4 { Some(MemoryUsage::GlobalCodeCompletionResults) }
        else if code == 5 { Some(MemoryUsage::SourceManagerContentCache) }
        else if code == 6 { Some(MemoryUsage::AstSideTables) }
        else if code == 7 { Some(MemoryUsage::SourceManagerMalloc) }
        else if code == 8 { Some(MemoryUsage::SourceManagerMMap) }
        else if code == 9 { Some(MemoryUsage::ExternalAstSourceMalloc) }
        else if code == 10 { Some(MemoryUsage::ExternalAstSourceMMap) }
        else if code == 11 { Some(MemoryUsage::Preprocessor) }
        else if code == 12 { Some(MemoryUsage::PreprocessingRecord) }
        else if code == 13 { Some(MemoryUsage::SourceManagerDataStructures) }
        else if code == 14 { Some(MemoryUsage::PreprocessorHeaderSearch) }
        else { None }
    }

    /// Returns the category whose `CXTUResourceUsageKind` code is `code`, or
    /// `None` where `code` names no category.
    pub fn from_code(code: u32) -> (r: Option<MemoryUsage>)
        ensures
            r == Self::spec_from_code(code),
            r is Some <==> Self::is_code(code),
            r matches Some(u) ==> u.code() == code,
    {
        match code {
            1 => Some(MemoryUsage::Ast),
            2 => Some(MemoryUsage::Identifiers),
            3 => Some(MemoryUsage::Selectors),
            4 => Some(MemoryUsage::GlobalCodeCompletionResults),
            5 => Some(MemoryUsage::SourceManagerContentCache),
            6 => Some(MemoryUsage::AstSideTables),
            7 => Some(MemoryUsage::SourceManagerMalloc),
            8 => Some(MemoryUsage::SourceManagerMMap),
            9 => Some(MemoryUsage::ExternalAstSourceMalloc),
            10 => Some(MemoryUsage::ExternalAstSourceMMap),
            11 => Some(MemoryUsage::Preprocessor),
            12 => Some(MemoryUsage::PreprocessingRecord),
            13 => Some(MemoryUsage::SourceManagerDataStructures),
            14 => Some(MemoryUsage::PreprocessorHeaderSearch),
            _ => None,
        }
    }

    /// Returns the `CXTUResourceUsageKind` code of this category.
    pub fn to_code(self) -> (r: u32)
        ensures
            r == self.code(),
    {
        match self {
            MemoryUsage::Ast => 1,
            MemoryUsage::Identifiers => 2,
            MemoryUsage::Selectors => 3,
            MemoryUsage::GlobalCodeCompletionResults => 4,
            MemoryUsage::SourceManagerContentCache => 5,
            MemoryUsage::AstSideTables => 6,
            MemoryUsage::SourceManagerMalloc => 7,
            MemoryUsage::SourceManagerMMap => 8,
            MemoryUsage::ExternalAstSourceMalloc => 9,
            MemoryUsage::ExternalAstSourceMMap => 10,
            MemoryUsage::Preprocessor => 11,
            MemoryUsage::PreprocessingRecord => 12,
            MemoryUsage::SourceManagerDataStructures => 13,
            MemoryUsage::PreprocessorHeaderSearch => 14,
        }
    }
}

/// Each category and its code determine one another.
pub proof fn lemma_memory_usage_code_round_trip(u: MemoryUsage, code: u32)
    ensures
        MemoryUsage::spec_from_code(u.code()) == Some(u),
        MemoryUsage::is_code(code) ==> MemoryUsage::spec_from_code(code)->0.code() == code,
{
}

// SaveError _____________________________________

/// Indicates the type of error that prevented the saving of a translation unit to an AST file.
#[derive(Copy, Clone, Debug, PartialEq, Eq, Hash, Structural)]
pub enum SaveError {
    /// Errors in the translation unit prevented saving.
    Errors,
    /// An unknown error occurred.
    Unknown,
}

/// The `CXSaveError` code for a successful save.
pub const SAVE_ERROR_NONE: u32 = 0;
/// The `CXSaveError` code for an unknown error.
pub const SAVE_ERROR_UNKNOWN: u32 = 1;
/// The `CXSaveError` code for errors during translation.
pub const SAVE_ERROR_TRANSLATION_ERRORS: u32 = 2;
/// The `CXSaveError` code for an invalid translation unit.
pub const SAVE_ERROR_INVALID_TU: u32 = 3;

impl SaveError {
    /// The outcome of a save that `libclang` answered with `code`.
    pub open spec fn spec_from_code(code: u32) -> Result<(), SaveError> {
        if code == SAVE_ERROR_NONE {
            Ok(())
        } else if code == SAVE_ERROR_TRANSLATION_ERRORS || code == SAVE_ERROR_INVALID_TU {
            Err(SaveError::Errors)
        } else {
            Err(SaveError::Unknown)
        }
    }

    /// Whether `code` is one of the `CXSaveError` codes.
    pub open spec fn is_handled_code(code: u32) -> bool {
        code <= SAVE_ERROR_INVALID_TU
    }

    /// Returns the outcome of a save that `libclang` answered with the
    /// `CXSaveError` code `code`: success, errors in the translation unit
    /// (errors during translation, or an invalid translation unit), or an
    /// unknown error.
    pub fn from_code(code: u32) -> (r: Result<(), SaveError>)
        requires
            Self::is_handled_code(code),
        ensures
            r == Self::spec_from_code(code),
            r is Ok <==> code == SAVE_ERROR_NONE,
            r == Err::<(), SaveError>(SaveError::Errors) <==> (code == SAVE_ERROR_TRANSLATION_ERRORS
                || code == SAVE_ERROR_INVALID_TU),
            r == Err::<(), SaveError>(SaveError::Unknown) <==> code == SAVE_ERROR_UNKNOWN,
    {
        if code == SAVE_ERROR_NONE {
            Ok(())
        } else if code == SAVE_ERROR_TRANSLATION_ERRORS || code == SAVE_ERROR_INVALID_TU {
            Err(SaveError::Errors)
        } else {
            Err(SaveError::Unknown)
        }
    }
}

// Severity ______________________________________

/// Indicates the severity of a diagnostic.
#[derive(Copy, Clone, Debug, PartialEq, Eq, Hash, Structural)]
pub enum Severity {
    /// The diagnostic has been suppressed (e.g., by a command-line option).
    Ignored,
    /// The diagnostic is attached to the previous non-note diagnostic.
    Note,
    /// The diagnostic targets suspicious code that may or may not be wrong.
    Warning,
    /// The diagnostic targets ill-formed code.
    Error,
    /// The diagnostic targets code that is ill-formed in such a way that parser recovery is
    /// unlikely to produce any useful results.
    Fatal,
}

impl Severity {
    /// The `CXDiagnosticSeverity` code of this severity.
    pub open spec fn code(self) -> u32 {
        match self {
            Severity::Ignored => 0,
            Severity::Note => 1,
            Severity::Warning => 2,
            Severity::Error => 3,
            Severity::Fatal => 4,
        }
    }

    /// The severity whose code is `code`, if any.
    pub open spec fn spec_from_code(code: u32) -> Option<Severity> {
        if code == 0 { Some(Severity::Ignored) }
        else if code == 1 { Some(Severity::Note) }
        else if code == 2 { Some(Severity::Warning) }
        else if code == 3 { Some(Severity::Error) }
        else if code == 4 { Some(Severity::Fatal) }
        else { None }
    }

    /// Returns the severity whose `CXDiagnosticSeverity` code is `code`, or
    /// `None` where `code` names no severity.
    pub fn from_code(code: u32) -> (r: Option<Severity>)
        ensures
            r == Self::spec_from_code(code),
            r is Some <==> code <= 4,
            r matches Some(s) ==> s.code() == code,
    {
        match code {
            0 => Some(Severity::Ignored),
            1 => Some(Severity::Note),
            2 => Some(Severity::Warning),
            3 => Some(Severity::Error),
            4 => Some(Severity::Fatal),
            _ => None,
        }
    }

    /// Returns the `CXDiagnosticSeverity` code of this severity.
    pub fn to_code(self) -> (r: u32)
        ensures
            r == self.code(),
    {
        match self {
            Severity::Ignored => 0,
            Severity::Note => 1,
            Severity::Warning => 2,
            Severity::Error => 3,
            Severity::Fatal => 4,
        }
    }
}

/// Each severity and its code determine one another, and the codes follow the
/// order of the severities from `Ignored` to `Fatal`.
pub proof fn lemma_severity_code_round_trip(s: Severity, code: u32)
    ensures
        Severity::spec_from_code(s.code()) == Some(s),
        code <= 4 ==> Severity::spec_from_code(code)->0.code() == code,
        Severity::Ignored.code() < Severity::Note.code() < Severity::Warning.code()
            < Severity::Error.code() < Severity::Fatal.code(),
{
}

// SourceError ___________________________________

/// Indicates the type of error that prevented the loading of a translation unit from a source file.
#[derive(Copy, Clone, Debug, PartialEq, Eq, Hash, Structural)]
pub enum SourceError {
    /// An error occurred while deserializing an AST file.
    AstDeserialization,
    /// `libclang` crashed.
    Crash,
    /// An unknown error occurred.
    Unknown,
}

/// The `CXErrorCode` code for success.
pub const ERROR_CODE_SUCCESS: u32 = 0;
/// The `CXErrorCode` code for a generic failure.
pub const ERROR_CODE_FAILURE: u32 = 1;
/// The `CXErrorCode` code for a crash of `libclang`.
pub const ERROR_CODE_CRASHED: u32 = 2;
/// The `CXErrorCode` code for invalid arguments.
pub const ERROR_CODE_INVALID_ARGUMENTS: u32 = 3;
/// The `CXErrorCode` code for an error while reading an AST file.
pub const ERROR_CODE_AST_READ_ERROR: u32 = 4;

impl SourceError {
    /// The outcome of a parse or reparse that `libclang` answered with `code`.
    pub open spec fn spec_from_code(code: u32) -> Result<(), SourceError> {
        if code == ERROR_CODE_SUCCESS {
            Ok(())
        } else if code == ERROR_CODE_AST_READ_ERROR {
            Err(SourceError::AstDeserialization)
        } else if code == ERROR_CODE_CRASHED {
            Err(SourceError::Crash)
        } else {
            Err(SourceError::Unknown)
        }
    }

    /// Whether a parse or reparse can be answered with `code` without a panic.
    pub open spec fn is_handled_code(code: u32) -> bool {
        code == ERROR_CODE_SUCCESS || code == ERROR_CODE_FAILURE || code == ERROR_CODE_CRASHED
            || code == ERROR_CODE_AST_READ_ERROR
    }

    /// Returns the outcome of a parse or reparse that `libclang` answered with
    /// the `CXErrorCode` code `code`.
    pub fn from_code(code: u32) -> (r: Result<(), SourceError>)
        requires
            Self::is_handled_code(code),
        ensures
            r == Self::spec_from_code(code),
            r is Ok <==> code == ERROR_CODE_SUCCESS,
            r == Err::<(), SourceError>(SourceError::AstDeserialization) <==> code == ERROR_CODE_AST_READ_ERROR,
            r == Err::<(), SourceError>(SourceError::Crash) <==> code == ERROR_CODE_CRASHED,
            r == Err::<(), SourceError>(SourceError::Unknown) <==> code == ERROR_CODE_FAILURE,
    {
        if code == ERROR_CODE_SUCCESS {
            Ok(())
        } else if code == ERROR_CODE_AST_READ_ERROR {
            Err(SourceError::AstDeserialization)
        } else if code == ERROR_CODE_CRASHED {
            Err(SourceError::Crash)
        } else {
            Err(SourceError::Unknown)
        }
    }
}

} // verus!
