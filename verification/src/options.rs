use vstd::prelude::*;

verus! {

/// Whether every bit of `flag` is set in `bits`.
pub open spec fn has_flag(bits: u32, flag: u32) -> bool {
    bits & flag == flag
}

/// `bits` with the bits of `flag` set where `on` holds.
pub open spec fn with_flag(bits: u32, on: bool, flag: u32) -> u32 {
    if on {
        bits | flag
    } else {
        bits
    }
}

/// Returns whether every bit of `flag` is set in `bits`.
fn contains_flag(bits: u32, flag: u32) -> (r: bool)
    ensures
        r == has_flag(bits, flag),
{
    bits & flag == flag
}

/// Returns `bits` with the bits of `flag` set where `on` holds.
fn insert_flag_if(bits: u32, on: bool, flag: u32) -> (r: u32)
    ensures
        r == with_flag(bits, on, flag),
{
    if on {
        bits | flag
    } else {
        bits
    }
}

// FormatOptions _________________________________

/// `CXDiagnostic_DisplaySourceLocation`.
pub const DISPLAY_SOURCE_LOCATION: u32 = 0x01;
/// `CXDiagnostic_DisplayColumn`.
pub const DISPLAY_COLUMN: u32 = 0x02;
/// `CXDiagnostic_DisplaySourceRanges`.
pub const DISPLAY_SOURCE_RANGES: u32 = 0x04;
/// `CXDiagnostic_DisplayOption`.
pub const DISPLAY_OPTION: u32 = 0x08;
/// `CXDiagnostic_DisplayCategoryId`.
pub const DISPLAY_CATEGORY_ID: u32 = 0x10;
/// `CXDiagnostic_DisplayCategoryName`.
pub const DISPLAY_CATEGORY_NAME: u32 = 0x20;

/// A set of options that determines how a diagnostic is formatted.
#[derive(Copy, Clone, Debug, PartialEq, Eq, Hash, Structural)]
pub struct FormatOptions {
    /// Indicates whether the diagnostic text will be prefixed by the file and line of the
    /// source location the diagnostic indicates. This prefix may also contain column and/or
    /// source range information.
    pub display_source_location: bool,
    /// Indicates whether the column will be included in the source location prefix.
    pub display_column: bool,
    /// Indicates whether the source ranges will be included to the source location prefix.
    pub display_source_ranges: bool,
    /// Indicates whether the option associated with the diagnostic (e.g., `-Wconversion`) will
    /// be placed in brackets after the diagnostic text if there is such an option.
    pub display_option: bool,
    /// Indicates whether the category number associated with the diagnostic will be placed in
    /// brackets after the diagnostic text if there is such a category number.
    pub display_category_id: bool,
    /// Indicates whether the category name associated with the diagnostic will be placed in
    /// brackets after the diagnostic text if there is such a category name.
    pub display_category_name: bool,
}

impl FormatOptions {
    /// The options that a `CXDiagnosticDisplayOptions` bit set stands for.
    pub open spec fn spec_from_bits(bits: u32) -> FormatOptions {
        FormatOptions {
            display_source_location: has_flag(bits, DISPLAY_SOURCE_LOCATION),
            display_column: has_flag(bits, DISPLAY_COLUMN),
            display_source_ranges: has_flag(bits, DISPLAY_SOURCE_RANGES),
            display_option: has_flag(bits, DISPLAY_OPTION),
            display_category_id: has_flag(bits, DISPLAY_CATEGORY_ID),
            display_category_name: has_flag(bits, DISPLAY_CATEGORY_NAME),
        }
    }

    /// The `CXDiagnosticDisplayOptions` bit set of these options.
    pub open spec fn bits(self) -> u32 {
        with_flag(
            with_flag(
                with_flag(
                    with_flag(
                        with_flag(
                            with_flag(0, self.display_source_location, DISPLAY_SOURCE_LOCATION),
                            self.display_column,
                            DISPLAY_COLUMN,
                        ),
                        self.display_source_ranges,
                        DISPLAY_SOURCE_RANGES,
                    ),
                    self.display_option,
                    DISPLAY_OPTION,
                ),
                self.display_category_id,
                DISPLAY_CATEGORY_ID,
            ),
            self.display_category_name,
            DISPLAY_CATEGORY_NAME,
        )
    }

    /// The bits that stand for some option.
    pub open spec fn mask() -> u32 {
        0x3f
    }

    /// Returns the options that the `CXDiagnosticDisplayOptions` bit set `bits`
    /// stands for.
    pub fn from_bits(bits: u32) -> (r: FormatOptions)
        ensures
            r == Self::spec_from_bits(bits),
            r.display_source_location == (bits & 0x01 != 0),
            r.display_column == (bits & 0x02 != 0),
            r.display_source_ranges == (bits & 0x04 != 0),
            r.display_option == (bits & 0x08 != 0),
            r.display_category_id == (bits & 0x10 != 0),
            r.display_category_name == (bits & 0x20 != 0),
    {
        proof {
            lemma_format_options_flags(FormatOptions::spec_from_bits(bits), bits);
        }
        FormatOptions {
            display_source_location: contains_flag(bits, DISPLAY_SOURCE_LOCATION),
            display_column: contains_flag(bits, DISPLAY_COLUMN),
            display_source_ranges: contains_flag(bits, DISPLAY_SOURCE_RANGES),
            display_option: contains_flag(bits, DISPLAY_OPTION),
            display_category_id: contains_flag(bits, DISPLAY_CATEGORY_ID),
            display_category_name: contains_flag(bits, DISPLAY_CATEGORY_NAME),
        }
    }

    /// Returns the `CXDiagnosticDisplayOptions` bit set of these options.
    pub fn into_bits(self) -> (r: u32)
        ensures
            r == self.bits(),
            (r & 0x01 != 0) == self.display_source_location,
            (r & 0x02 != 0) == self.display_column,
            (r & 0x04 != 0) == self.display_source_ranges,
            (r & 0x08 != 0) == self.display_option,
            (r & 0x10 != 0) == self.display_category_id,
            (r & 0x20 != 0) == self.display_category_name,
            r & 0xffff_ffc0 == 0,
    {
        proof {
            lemma_format_options_flags(self, 0);
        }
        let mut flags: u32 = 0;
        flags = insert_flag_if(flags, self.display_source_location, DISPLAY_SOURCE_LOCATION);
        flags = insert_flag_if(flags, self.display_column, DISPLAY_COLUMN);
        flags = insert_flag_if(flags, self.display_source_ranges, DISPLAY_SOURCE_RANGES);
        flags = insert_flag_if(flags, self.display_option, DISPLAY_OPTION);
        flags = insert_flag_if(flags, self.display_category_id, DISPLAY_CATEGORY_ID);
        flags = insert_flag_if(flags, self.display_category_name, DISPLAY_CATEGORY_NAME);
        flags
    }
}

/// Each format option is its own `CXDiagnosticDisplayOptions` flag: source
/// location 0x01, column 0x02, source ranges 0x04, option 0x08, category id
/// 0x10 and category name 0x20, in both directions, and no other bit is set.
pub proof fn lemma_format_options_flags(options: FormatOptions, bits: u32)
    ensures
        (options.bits() & 0x01 != 0) == options.display_source_location,
        (options.bits() & 0x02 != 0) == options.display_column,
        (options.bits() & 0x04 != 0) == options.display_source_ranges,
        (options.bits() & 0x08 != 0) == options.display_option,
        (options.bits() & 0x10 != 0) == options.display_category_id,
        (options.bits() & 0x20 != 0) == options.display_category_name,
        options.bits() & 0xffff_ffc0 == 0,
        FormatOptions::spec_from_bits(bits).display_source_location == (bits & 0x01 != 0),
        FormatOptions::spec_from_bits(bits).display_column == (bits & 0x02 != 0),
        FormatOptions::spec_from_bits(bits).display_source_ranges == (bits & 0x04 != 0),
        FormatOptions::spec_from_bits(bits).display_option == (bits & 0x08 != 0),
        FormatOptions::spec_from_bits(bits).display_category_id == (bits & 0x10 != 0),
        FormatOptions::spec_from_bits(bits).display_category_name == (bits & 0x20 != 0),
{
    let (a, b, c, d, e, f) = (
        options.display_source_location,
        options.display_column,
        options.display_source_ranges,
        options.display_option,
        options.display_category_id,
        options.display_category_name,
    );
    let x = options.bits();
    let (ca, cb, cc, cd, ce, cf) = (
        DISPLAY_SOURCE_LOCATION,
        DISPLAY_COLUMN,
        DISPLAY_SOURCE_RANGES,
        DISPLAY_OPTION,
        DISPLAY_CATEGORY_ID,
        DISPLAY_CATEGORY_NAME,
    );
    assert(x == with_flag(with_flag(with_flag(with_flag(with_flag(with_flag(0, a, ca), b, cb), c, cc), d, cd), e, ce), f, cf));
    assert(ca == 1 && cb == 2 && cc == 4 && cd == 8 && ce == 0x10 && cf == 0x20);
    assert(
        (ca == 1 && cb == 2 && cc == 4 && cd == 8 && ce == 0x10 && cf == 0x20
        && x == with_flag(with_flag(with_flag(with_flag(with_flag(with_flag(0, a, ca), b, cb), c, cc), d, cd), e, ce), f, cf))
        ==> ((x & 1 != 0) == a && (x & 2 != 0) == b && (x & 4 != 0) == c && (x & 8 != 0) == d
            && (x & 0x10 != 0) == e && (x & 0x20 != 0) == f && x & 0xffff_ffc0 == 0)
    ) by (bit_vector);
    assert(
        (ca == 1 && cb == 2 && cc == 4 && cd == 8 && ce == 0x10 && cf == 0x20) ==>
        (has_flag(bits, ca) == (bits & 1 != 0) && has_flag(bits, cb) == (bits & 2 != 0)
        && has_flag(bits, cc) == (bits & 4 != 0) && has_flag(bits, cd) == (bits & 8 != 0)
        && has_flag(bits, ce) == (bits & 0x10 != 0) && has_flag(bits, cf) == (bits & 0x20 != 0))
    ) by (bit_vector);
}

/// Converting options to bits and back gives the options back, and converting
/// bits to options and back keeps exactly the bits that stand for an option.
pub proof fn lemma_format_options_round_trip(options: FormatOptions, bits: u32)
    ensures
        FormatOptions::spec_from_bits(options.bits()) == options,
        FormatOptions::spec_from_bits(bits).bits() == bits & FormatOptions::mask(),
        options.bits() & FormatOptions::mask() == options.bits(),
{
    let (a, b, c, d, e, f) = (
        options.display_source_location,
        options.display_column,
        options.display_source_ranges,
        options.display_option,
        options.display_category_id,
        options.display_category_name,
    );
    let x = options.bits();
    assert(x == with_flag(with_flag(with_flag(with_flag(with_flag(with_flag(0, a, 1), b, 2), c, 4), d, 8), e, 16), f, 32));
    assert(
        x == with_flag(with_flag(with_flag(with_flag(with_flag(with_flag(0, a, 1), b, 2), c, 4), d, 8), e, 16), f, 32)
        ==> (has_flag(x, 1) == a && has_flag(x, 2) == b && has_flag(x, 4) == c && has_flag(x, 8) == d
            && has_flag(x, 16) == e && has_flag(x, 32) == f && x & 0x3f == x)
    ) by (bit_vector);
    assert(
        with_flag(with_flag(with_flag(with_flag(with_flag(with_flag(0, has_flag(bits, 1), 1),
            has_flag(bits, 2), 2), has_flag(bits, 4), 4), has_flag(bits, 8), 8), has_flag(bits, 16), 16),
            has_flag(bits, 32), 32) == bits & 0x3f
    ) by (bit_vector);
}

// ParseOptions __________________________________

/// `CXTranslationUnit_DetailedPreprocessingRecord`.
pub const DETAILED_PREPROCESSING_RECORD: u32 = 0x01;
/// `CXTranslationUnit_Incomplete`.
pub const INCOMPLETE: u32 = 0x02;
/// `CXTranslationUnit_CacheCompletionResults`.
pub const CACHE_COMPLETION_RESULTS: u32 = 0x08;
/// `CXTranslationUnit_SkipFunctionBodies`.
pub const SKIP_FUNCTION_BODIES: u32 = 0x40;
/// `CXTranslationUnit_IncludeBriefCommentsInCodeCompletion`.
pub const INCLUDE_BRIEF_COMMENTS_IN_CODE_COMPLETION: u32 = 0x80;

/// A set of options that determines how a source file is parsed into a translation unit.
#[derive(Copy, Clone, Debug, PartialEq, Eq, Hash, Structural)]
pub struct ParseOptions {
    /// Indicates whether certain code completion results will be cached when the translation
    /// unit is reparsed.
    ///
    /// This option increases the time it takes to reparse the translation unit but improves
    /// code completion performance.
    pub cache_completion_results: bool,
    /// Indicates whether a detailed preprocessing record will be constructed which includes all
    /// macro definitions and instantiations.
    pub detailed_preprocessing_record: bool,
    /// Indicates whether brief documentation comments will be included in code completion
    /// results.
    pub include_brief_comments_in_code_completion: bool,
    /// Indicates whether the translation unit will be considered incomplete.
    ///
    /// This option suppresses certain semantic analyses and is typically used when parsing
    /// headers with the intent of creating a precompiled header.
    pub incomplete: bool,
    /// Indicates whether function and method bodies will be skipped.
    pub skip_function_bodies: bool,
}

impl ParseOptions {
    /// The options that a `CXTranslationUnit_Flags` bit set stands for.
    pub open spec fn spec_from_bits(bits: u32) -> ParseOptions {
        ParseOptions {
            cache_completion_results: has_flag(bits, CACHE_COMPLETION_RESULTS),
            detailed_preprocessing_record: has_flag(bits, DETAILED_PREPROCESSING_RECORD),
            include_brief_comments_in_code_completion: has_flag(bits, INCLUDE_BRIEF_COMMENTS_IN_CODE_COMPLETION),
            incomplete: has_flag(bits, INCOMPLETE),
            skip_function_bodies: has_flag(bits, SKIP_FUNCTION_BODIES),
        }
    }

    /// The `CXTranslationUnit_Flags` bit set of these options.
    pub open spec fn bits(self) -> u32 {
        with_flag(
            with_flag(
                with_flag(
                    with_flag(
                        with_flag(0, self.cache_completion_results, CACHE_COMPLETION_RESULTS),
                        self.detailed_preprocessing_record,
                        DETAILED_PREPROCESSING_RECORD,
                    ),
                    self.include_brief_comments_in_code_completion,
                    INCLUDE_BRIEF_COMMENTS_IN_CODE_COMPLETION,
                ),
                self.incomplete,
                INCOMPLETE,
            ),
            self.skip_function_bodies,
            SKIP_FUNCTION_BODIES,
        )
    }

    /// The bits that stand for some option.
    pub open spec fn mask() -> u32 {
        0xcb
    }

    /// Returns the options that the `CXTranslationUnit_Flags` bit set `bits`
    /// stands for.
    pub fn from_bits(bits: u32) -> (r: ParseOptions)
        ensures
            r == Self::spec_from_bits(bits),
            r.detailed_preprocessing_record == (bits & 0x01 != 0),
            r.incomplete == (bits & 0x02 != 0),
            r.cache_completion_results == (bits & 0x08 != 0),
            r.skip_function_bodies == (bits & 0x40 != 0),
            r.include_brief_comments_in_code_completion == (bits & 0x80 != 0),
    {
        proof {
            lemma_parse_options_flags(ParseOptions::spec_from_bits(bits), bits);
        }
        ParseOptions {
            cache_completion_results: contains_flag(bits, CACHE_COMPLETION_RESULTS),
            detailed_preprocessing_record: contains_flag(bits, DETAILED_PREPROCESSING_RECORD),
            include_brief_comments_in_code_completion: contains_flag(bits, INCLUDE_BRIEF_COMMENTS_IN_CODE_COMPLETION),
            incomplete: contains_flag(bits, INCOMPLETE),
            skip_function_bodies: contains_flag(bits, SKIP_FUNCTION_BODIES),
        }
    }

    /// Returns the `CXTranslationUnit_Flags` bit set of these options.
    pub fn into_bits(self) -> (r: u32)
        ensures
            r == self.bits(),
            (r & 0x01 != 0) == self.detailed_preprocessing_record,
            (r & 0x02 != 0) == self.incomplete,
            (r & 0x08 != 0) == self.cache_completion_results,
            (r & 0x40 != 0) == self.skip_function_bodies,
            (r & 0x80 != 0) == self.include_brief_comments_in_code_completion,
            r & 0xffff_ff34 == 0,
    {
        proof {
            lemma_parse_options_flags(self, 0);
        }
        let mut flags: u32 = 0;
        flags = insert_flag_if(flags, self.cache_completion_results, CACHE_COMPLETION_RESULTS);
        flags = insert_flag_if(flags, self.detailed_preprocessing_record, DETAILED_PREPROCESSING_RECORD);
        flags = insert_flag_if(flags, self.include_brief_comments_in_code_completion, INCLUDE_BRIEF_COMMENTS_IN_CODE_COMPLETION);
        flags = insert_flag_if(flags, self.incomplete, INCOMPLETE);
        flags = insert_flag_if(flags, self.skip_function_bodies, SKIP_FUNCTION_BODIES);
        flags
    }
}

impl Default for ParseOptions {
    /// No option is set.
    fn default() -> (r: ParseOptions)
        ensures
            r == ParseOptions::spec_from_bits(0),
            !r.cache_completion_results && !r.detailed_preprocessing_record
                && !r.include_brief_comments_in_code_completion && !r.incomplete
                && !r.skip_function_bodies,
    {
        proof {
            assert(has_flag(0, 1) || has_flag(0, 2) || has_flag(0, 8) || has_flag(0, 0x40) || has_flag(0, 0x80)
                ==> false) by (bit_vector);
        }
        ParseOptions {
            cache_completion_results: false,
            detailed_preprocessing_record: false,
            include_brief_comments_in_code_completion: false,
            incomplete: false,
            skip_function_bodies: false,
        }
    }
}

/// Each parse option is its own `CXTranslationUnit_Flags` flag: detailed
/// preprocessing record 0x01, incomplete 0x02, cache completion results 0x08,
/// skip function bodies 0x40 and brief comments in code completion 0x80, in
/// both directions, and no other bit is set.
pub proof fn lemma_parse_options_flags(options: ParseOptions, bits: u32)
    ensures
        (options.bits() & 0x01 != 0) == options.detailed_preprocessing_record,
        (options.bits() & 0x02 != 0) == options.incomplete,
        (options.bits() & 0x08 != 0) == options.cache_completion_results,
        (options.bits() & 0x40 != 0) == options.skip_function_bodies,
        (options.bits() & 0x80 != 0) == options.include_brief_comments_in_code_completion,
        options.bits() & 0xffff_ff34 == 0,
        ParseOptions::spec_from_bits(bits).detailed_preprocessing_record == (bits & 0x01 != 0),
        ParseOptions::spec_from_bits(bits).incomplete == (bits & 0x02 != 0),
        ParseOptions::spec_from_bits(bits).cache_completion_results == (bits & 0x08 != 0),
        ParseOptions::spec_from_bits(bits).skip_function_bodies == (bits & 0x40 != 0),
        ParseOptions::spec_from_bits(bits).include_brief_comments_in_code_completion == (bits & 0x80 != 0),
{
    let (a, b, c, d, e) = (
        options.cache_completion_results,
        options.detailed_preprocessing_record,
        options.include_brief_comments_in_code_completion,
        options.incomplete,
        options.skip_function_bodies,
    );
    let x = options.bits();
    let (ca, cb, cc, cd, ce) = (
        CACHE_COMPLETION_RESULTS,
        DETAILED_PREPROCESSING_RECORD,
        INCLUDE_BRIEF_COMMENTS_IN_CODE_COMPLETION,
        INCOMPLETE,
        SKIP_FUNCTION_BODIES,
    );
    assert(x == with_flag(with_flag(with_flag(with_flag(with_flag(0, a, ca), b, cb), c, cc), d, cd), e, ce));
    assert(ca == 8 && cb == 1 && cc == 0x80 && cd == 2 && ce == 0x40);
    assert(
        (ca == 8 && cb == 1 && cc == 0x80 && cd == 2 && ce == 0x40
        && x == with_flag(with_flag(with_flag(with_flag(with_flag(0, a, ca), b, cb), c, cc), d, cd), e, ce))
        ==> ((x & 8 != 0) == a && (x & 1 != 0) == b && (x & 0x80 != 0) == c && (x & 2 != 0) == d
            && (x & 0x40 != 0) == e && x & 0xffff_ff34 == 0)
    ) by (bit_vector);
    assert(
        (ca == 8 && cb == 1 && cc == 0x80 && cd == 2 && ce == 0x40) ==>
        (has_flag(bits, ca) == (bits & 8 != 0) && has_flag(bits, cb) == (bits & 1 != 0)
        && has_flag(bits, cc) == (bits & 0x80 != 0) && has_flag(bits, cd) == (bits & 2 != 0)
        && has_flag(bits, ce) == (bits & 0x40 != 0))
    ) by (bit_vector);
}

/// Converting options to bits and back gives the options back, and converting
/// bits to options and back keeps exactly the bits that stand for an option.
pub proof fn lemma_parse_options_round_trip(options: ParseOptions, bits: u32)
    ensures
        ParseOptions::spec_from_bits(options.bits()) == options,
        ParseOptions::spec_from_bits(bits).bits() == bits & ParseOptions::mask(),
        options.bits() & ParseOptions::mask() == options.bits(),
{
    let (a, b, c, d, e) = (
        options.cache_completion_results,
        options.detailed_preprocessing_record,
        options.include_brief_comments_in_code_completion,
        options.incomplete,
        options.skip_function_bodies,
    );
    let x = options.bits();
    assert(x == with_flag(with_flag(with_flag(with_flag(with_flag(0, a, 8), b, 1), c, 0x80), d, 2), e, 0x40));
    assert(
        x == with_flag(with_flag(with_flag(with_flag(with_flag(0, a, 8), b, 1), c, 0x80), d, 2), e, 0x40)
        ==> (has_flag(x, 8) == a && has_flag(x, 1) == b && has_flag(x, 0x80) == c && has_flag(x, 2) == d
            && has_flag(x, 0x40) == e && x & 0xcb == x)
    ) by (bit_vector);
    assert(
        with_flag(with_flag(with_flag(with_flag(with_flag(0, has_flag(bits, 8), 8),
            has_flag(bits, 1), 1), has_flag(bits, 0x80), 0x80), has_flag(bits, 2), 2),
            has_flag(bits, 0x40), 0x40) == bits & 0xcb
    ) by (bit_vector);
}

// BackgroundPriority ____________________________

/// `CXGlobalOpt_ThreadBackgroundPriorityForIndexing`.
pub const THREAD_BACKGROUND_PRIORITY_FOR_INDEXING: u32 = 0x1;
/// `CXGlobalOpt_ThreadBackgroundPriorityForEditing`.
pub const THREAD_BACKGROUND_PRIORITY_FOR_EDITING: u32 = 0x2;

/// Indicates which types of threads have background priority.
#[derive(Copy, Clone, Debug, PartialEq, Eq, Hash, Structural)]
pub struct BackgroundPriority {
    pub editing: bool,
    pub indexing: bool,
}

impl BackgroundPriority {
    /// The priorities that a `CXGlobalOptFlags` bit set stands for.
    pub open spec fn spec_from_bits(bits: u32) -> BackgroundPriority {
        BackgroundPriority {
            editing: has_flag(bits, THREAD_BACKGROUND_PRIORITY_FOR_EDITING),
            indexing: has_flag(bits, THREAD_BACKGROUND_PRIORITY_FOR_INDEXING),
        }
    }

    /// The `CXGlobalOptFlags` bit set of these priorities.
    pub open spec fn bits(self) -> u32 {
        with_flag(
            with_flag(0, self.editing, THREAD_BACKGROUND_PRIORITY_FOR_EDITING),
            self.indexing,
            THREAD_BACKGROUND_PRIORITY_FOR_INDEXING,
        )
    }

    /// The bits that stand for some priority.
    pub open spec fn mask() -> u32 {
        0x3
    }

    /// Returns the priorities that the `CXGlobalOptFlags` bit set `bits` stands
    /// for (what `Index::get_background_priority` makes of the index's options).
    pub fn from_bits(bits: u32) -> (r: BackgroundPriority)
        ensures
            r == Self::spec_from_bits(bits),
            r.indexing == (bits & 0x01 != 0),
            r.editing == (bits & 0x02 != 0),
    {
        proof {
            lemma_background_priority_flags(BackgroundPriority::spec_from_bits(bits), bits);
        }
        let editing = contains_flag(bits, THREAD_BACKGROUND_PRIORITY_FOR_EDITING);
        let indexing = contains_flag(bits, THREAD_BACKGROUND_PRIORITY_FOR_INDEXING);
        BackgroundPriority { editing: editing, indexing: indexing }
    }

    /// Returns the `CXGlobalOptFlags` bit set of these priorities (what
    /// `Index::set_background_priority` hands to the index).
    pub fn into_bits(self) -> (r: u32)
        ensures
            r == self.bits(),
            (r & 0x01 != 0) == self.indexing,
            (r & 0x02 != 0) == self.editing,
            r & 0xffff_fffc == 0,
    {
        proof {
            lemma_background_priority_flags(self, 0);
        }
        let mut flags: u32 = 0;
        flags = insert_flag_if(flags, self.editing, THREAD_BACKGROUND_PRIORITY_FOR_EDITING);
        flags = insert_flag_if(flags, self.indexing, THREAD_BACKGROUND_PRIORITY_FOR_INDEXING);
        flags
    }
}

/// Indexing threads are the `CXGlobalOptFlags` flag 0x01 and editing threads
/// the flag 0x02, in both directions, and no other bit is set.
pub proof fn lemma_background_priority_flags(priority: BackgroundPriority, bits: u32)
    ensures
        (priority.bits() & 0x01 != 0) == priority.indexing,
        (priority.bits() & 0x02 != 0) == priority.editing,
        priority.bits() & 0xffff_fffc == 0,
        BackgroundPriority::spec_from_bits(bits).indexing == (bits & 0x01 != 0),
        BackgroundPriority::spec_from_bits(bits).editing == (bits & 0x02 != 0),
{
    let (a, b) = (priority.editing, priority.indexing);
    let x = priority.bits();
    let (ca, cb) = (THREAD_BACKGROUND_PRIORITY_FOR_EDITING, THREAD_BACKGROUND_PRIORITY_FOR_INDEXING);
    assert(x == with_flag(with_flag(0, a, ca), b, cb));
    assert(ca == 2 && cb == 1);
    assert(
        (ca == 2 && cb == 1 && x == with_flag(with_flag(0, a, ca), b, cb))
        ==> ((x & 2 != 0) == a && (x & 1 != 0) == b && x & 0xffff_fffc == 0)
    ) by (bit_vector);
    assert(
        (ca == 2 && cb == 1) ==> (has_flag(bits, ca) == (bits & 2 != 0) && has_flag(bits, cb) == (bits & 1 != 0))
    ) by (bit_vector);
}

/// Converting priorities to bits and back gives the priorities back, and
/// converting bits to priorities and back keeps exactly the bits that stand for
/// a priority.
pub proof fn lemma_background_priority_round_trip(priority: BackgroundPriority, bits: u32)
    ensures
        BackgroundPriority::spec_from_bits(priority.bits()) == priority,
        BackgroundPriority::spec_from_bits(bits).bits() == bits & BackgroundPriority::mask(),
        priority.bits() & BackgroundPriority::mask() == priority.bits(),
{
    let (a, b) = (priority.editing, priority.indexing);
    let x = priority.bits();
    assert(x == with_flag(with_flag(0, a, 2), b, 1));
    assert(
        x == with_flag(with_flag(0, a, 2), b, 1)
        ==> (has_flag(x, 2) == a && has_flag(x, 1) == b && x & 3 == x)
    ) by (bit_vector);
    assert(with_flag(with_flag(0, has_flag(bits, 2), 2), has_flag(bits, 1), 1) == bits & 3) by (bit_vector);
}

} // verus!
