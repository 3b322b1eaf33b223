use clang::{
    BackgroundPriority, Clang, ClangSlot, Diagnostic, File, FixIt, FormatOptions, MemoryUsage,
    Module, Nullable, ParseOptions, RawFixIt, RawPtr, RawSourceLocation, RawSourceRange, SaveError,
    Severity, SourceError, SourceLocation, SourceRange, TranslationUnit,
};

fn ptr(addr: usize) -> RawPtr {
    RawPtr { addr: addr }
}

fn location(a: usize, b: usize, int_data: u32) -> RawSourceLocation {
    RawSourceLocation { ptr_data: (a, b), int_data: int_data }
}

fn range(a: usize, b: usize, begin: u32, end: u32) -> RawSourceRange {
    RawSourceRange { ptr_data: (a, b), begin_int_data: begin, end_int_data: end }
}

// Clang _________________________________________

#[test]
fn clang_only_one_instance_at_a_time() {
    let mut slot = ClangSlot::new();
    assert!(slot.available());
    let first = Clang::new(&mut slot);
    assert!(first.is_ok());
    assert!(!slot.available());
    assert!(Clang::new(&mut slot).is_err());
    assert!(Clang::new(&mut slot).is_err());
    first.unwrap().release(&mut slot);
    assert!(slot.available());
    let second = Clang::new(&mut slot);
    assert!(second.is_ok());
    assert!(Clang::new(&mut slot).is_err());
}

#[test]
fn clang_release_frees_the_slot() {
    let mut slot = ClangSlot::new();
    let clang = Clang::new(&mut slot).unwrap();
    clang.release(&mut slot);
    assert!(slot.available());
}

// Codes _________________________________________

#[test]
fn memory_usage_codes() {
    let all = [
        (1, MemoryUsage::Ast),
        (2, MemoryUsage::Identifiers),
        (3, MemoryUsage::Selectors),
        (4, MemoryUsage::GlobalCodeCompletionResults),
        (5, MemoryUsage::SourceManagerContentCache),
        (6, MemoryUsage::AstSideTables),
        (7, MemoryUsage::SourceManagerMalloc),
        (8, MemoryUsage::SourceManagerMMap),
        (9, MemoryUsage::ExternalAstSourceMalloc),
        (10, MemoryUsage::ExternalAstSourceMMap),
        (11, MemoryUsage::Preprocessor),
        (12, MemoryUsage::PreprocessingRecord),
        (13, MemoryUsage::SourceManagerDataStructures),
        (14, MemoryUsage::PreprocessorHeaderSearch),
    ];
    for (code, usage) in all.iter() {
        assert_eq!(MemoryUsage::from_code(*code), Some(*usage));
        assert_eq!(usage.to_code(), *code);
    }
    assert_eq!(MemoryUsage::from_code(0), None);
    assert_eq!(MemoryUsage::from_code(15), None);
    assert_eq!(MemoryUsage::from_code(u32::MAX), None);
}

#[test]
fn severity_codes() {
    assert_eq!(Severity::from_code(0), Some(Severity::Ignored));
    assert_eq!(Severity::from_code(1), Some(Severity::Note));
    assert_eq!(Severity::from_code(2), Some(Severity::Warning));
    assert_eq!(Severity::from_code(3), Some(Severity::Error));
    assert_eq!(Severity::from_code(4), Some(Severity::Fatal));
    assert_eq!(Severity::from_code(5), None);
    assert_eq!(Severity::Fatal.to_code(), 4);
    assert_eq!(Severity::Ignored.to_code(), 0);
    for code in 0..5 {
        assert_eq!(Severity::from_code(code).unwrap().to_code(), code);
    }
}

#[test]
fn save_error_codes() {
    assert_eq!(SaveError::from_code(0), Ok(()));
    assert_eq!(SaveError::from_code(1), Err(SaveError::Unknown));
    assert_eq!(SaveError::from_code(2), Err(SaveError::Errors));
    assert_eq!(SaveError::from_code(3), Err(SaveError::Errors));
}

#[test]
fn source_error_codes() {
    assert_eq!(SourceError::from_code(0), Ok(()));
    assert_eq!(SourceError::from_code(1), Err(SourceError::Unknown));
    assert_eq!(SourceError::from_code(2), Err(SourceError::Crash));
    assert_eq!(SourceError::from_code(4), Err(SourceError::AstDeserialization));
}

// Options _______________________________________

#[test]
fn format_options_from_bits() {
    let all = FormatOptions::from_bits(0x3f);
    assert!(all.display_source_location && all.display_column && all.display_source_ranges);
    assert!(all.display_option && all.display_category_id && all.display_category_name);
    let some = FormatOptions::from_bits(0x05);
    assert_eq!(
        some,
        FormatOptions {
            display_source_location: true,
            display_column: false,
            display_source_ranges: true,
            display_option: false,
            display_category_id: false,
            display_category_name: false,
        }
    );
    assert_eq!(FormatOptions::from_bits(0x40), FormatOptions::from_bits(0));
}

#[test]
fn format_options_into_bits() {
    let options = FormatOptions {
        display_source_location: true,
        display_column: true,
        display_source_ranges: false,
        display_option: true,
        display_category_id: false,
        display_category_name: true,
    };
    assert_eq!(options.into_bits(), 0x01 | 0x02 | 0x08 | 0x20);
    assert_eq!(FormatOptions::from_bits(options.into_bits()), options);
    assert_eq!(FormatOptions::from_bits(0xffff_ffff).into_bits(), 0x3f);
    assert_eq!(FormatOptions::from_bits(0x1c7).into_bits(), 0x07);
}

#[test]
fn parse_options_default_and_bits() {
    let none = ParseOptions::default();
    assert_eq!(none.into_bits(), 0);
    assert_eq!(none, ParseOptions::from_bits(0));
    let some = ParseOptions::from_bits(0x41);
    assert!(some.detailed_preprocessing_record && some.skip_function_bodies);
    assert!(!some.incomplete && !some.cache_completion_results);
    assert!(!some.include_brief_comments_in_code_completion);
    let incomplete = ParseOptions { incomplete: true, ..ParseOptions::default() };
    assert_eq!(incomplete.into_bits(), 0x02);
    let everything = ParseOptions::from_bits(0xffff_ffff);
    assert_eq!(everything.into_bits(), 0xcb);
    assert_eq!(ParseOptions::from_bits(everything.into_bits()), everything);
}

#[test]
fn background_priority_bits() {
    assert_eq!(
        BackgroundPriority::from_bits(0x1),
        BackgroundPriority { editing: false, indexing: true }
    );
    assert_eq!(
        BackgroundPriority::from_bits(0x2),
        BackgroundPriority { editing: true, indexing: false }
    );
    assert_eq!(
        BackgroundPriority::from_bits(0x3),
        BackgroundPriority { editing: true, indexing: true }
    );
    assert_eq!(BackgroundPriority { editing: true, indexing: false }.into_bits(), 0x2);
    assert_eq!(BackgroundPriority { editing: false, indexing: false }.into_bits(), 0x0);
    let both = BackgroundPriority { editing: true, indexing: true };
    assert_eq!(BackgroundPriority::from_bits(both.into_bits()), both);
    assert_eq!(BackgroundPriority::from_bits(0xfc), BackgroundPriority::from_bits(0));
}

// Handles _______________________________________

#[test]
fn nullable_map() {
    assert!(ptr(0).is_null());
    assert!(!ptr(8).is_null());
    assert_eq!(ptr(0).map(|p| p.addr + 1), None);
    assert_eq!(ptr(8).map(|p| p.addr + 1), Some(9));
}

#[test]
fn translation_unit_from_ast() {
    assert!(TranslationUnit::from_ast(ptr(0)).is_err());
    let tu = TranslationUnit::from_ast(ptr(0x40)).unwrap();
    assert_eq!(tu.as_ptr(), ptr(0x40));
}

#[test]
fn translation_unit_from_source() {
    assert_eq!(TranslationUnit::from_source(0, ptr(0x10)).unwrap().as_ptr(), ptr(0x10));
    assert_eq!(TranslationUnit::from_source(1, ptr(0x10)).err(), Some(SourceError::Unknown));
    assert_eq!(TranslationUnit::from_source(2, ptr(0x10)).err(), Some(SourceError::Crash));
    assert_eq!(
        TranslationUnit::from_source(4, ptr(0x10)).err(),
        Some(SourceError::AstDeserialization)
    );
}

#[test]
fn translation_unit_reparse_and_save() {
    let tu = TranslationUnit::from_ptr(ptr(0x20));
    assert_eq!(tu.save(0), Ok(()));
    assert_eq!(tu.save(2), Err(SaveError::Errors));
    assert_eq!(tu.save(3), Err(SaveError::Errors));
    assert_eq!(tu.save(1), Err(SaveError::Unknown));
    let tu = tu.reparse(0).unwrap();
    assert_eq!(tu.as_ptr(), ptr(0x20));
    assert_eq!(tu.reparse(2).err(), Some(SourceError::Crash));
    let tu = TranslationUnit::from_ptr(ptr(0x20));
    assert_eq!(tu.reparse(4).err(), Some(SourceError::AstDeserialization));
}

#[test]
fn translation_unit_get_diagnostics() {
    let tu = TranslationUnit::from_ptr(ptr(1));
    let diagnostics = tu.get_diagnostics(3, |i| ptr(100 + i as usize));
    assert_eq!(diagnostics.len(), 3);
    for (i, d) in diagnostics.iter().enumerate() {
        assert_eq!(d.as_ptr(), ptr(100 + i));
        assert_eq!(d.translation_unit().as_ptr(), ptr(1));
    }
    assert!(tu.get_diagnostics(0, |_| ptr(7)).is_empty());
}

#[test]
fn translation_unit_get_file() {
    let tu = TranslationUnit::from_ptr(ptr(1));
    assert!(tu.get_file(ptr(0)).is_none());
    let file = tu.get_file(ptr(0x55)).unwrap();
    assert_eq!(file.as_ptr(), ptr(0x55));
    assert_eq!(file.translation_unit().as_ptr(), ptr(1));
}

#[test]
fn translation_unit_get_memory_usage() {
    let tu = TranslationUnit::from_ptr(ptr(1));
    let usage = tu.get_memory_usage(&[(1, 10), (2, 20), (1, 30), (14, 5)]);
    assert_eq!(
        usage,
        vec![
            (MemoryUsage::Ast, 30),
            (MemoryUsage::Identifiers, 20),
            (MemoryUsage::PreprocessorHeaderSearch, 5),
        ]
    );
    assert!(tu.get_memory_usage(&[]).is_empty());
}

#[test]
fn diagnostic_get_ranges() {
    let tu = TranslationUnit::from_ptr(ptr(1));
    let diagnostic = Diagnostic::from_ptr(ptr(2), &tu);
    let ranges = diagnostic.get_ranges(2, |i| range(3, 4, i, i + 10));
    assert_eq!(ranges.len(), 2);
    assert_eq!(ranges[0].as_raw(), range(3, 4, 0, 10));
    assert_eq!(ranges[1].as_raw(), range(3, 4, 1, 11));
    assert_eq!(ranges[1].translation_unit().as_ptr(), ptr(1));
}

#[test]
fn diagnostic_get_fix_its() {
    let tu = TranslationUnit::from_ptr(ptr(1));
    let diagnostic = Diagnostic::from_ptr(ptr(2), &tu);
    let reports = vec![
        (String::new(), range(4, 6, 1, 4)),
        (String::from("x"), range(4, 6, 7, 7)),
        (String::from("yz"), range(4, 6, 8, 9)),
        (String::new(), range(4, 6, 3, 3)),
        (String::from("w"), range(5, 5, 2, 8)),
        (String::from("v"), range(5, 7, 2, 2)),
    ];
    let fix_its = diagnostic.get_fix_its(6, |i| {
        let (text, range) = reports[i as usize].clone();
        RawFixIt { text: text, range: range }
    });
    assert_eq!(fix_its.len(), 6);
    match &fix_its[0] {
        FixIt::Deletion(r) => assert_eq!(r.as_raw(), range(4, 6, 1, 4)),
        _ => panic!("expected a deletion"),
    }
    match &fix_its[1] {
        FixIt::Insertion(l, text) => {
            assert_eq!(l.as_raw(), location(4, 6, 7));
            assert_eq!(text, "x");
        }
        _ => panic!("expected an insertion"),
    }
    match &fix_its[2] {
        FixIt::Replacement(r, text) => {
            assert_eq!(r.as_raw(), range(4, 6, 8, 9));
            assert_eq!(text, "yz");
        }
        _ => panic!("expected a replacement"),
    }
    match &fix_its[3] {
        FixIt::Deletion(r) => assert_eq!(r.as_raw(), range(4, 6, 3, 3)),
        _ => panic!("expected a deletion"),
    }
    // A tagged range starts and ends at its two pointers alone.
    match &fix_its[4] {
        FixIt::Insertion(l, text) => {
            assert_eq!(l.as_raw(), location(5, 0, 0));
            assert_eq!(text, "w");
        }
        _ => panic!("expected an insertion"),
    }
    match &fix_its[5] {
        FixIt::Replacement(r, text) => {
            assert_eq!(r.as_raw(), range(5, 7, 2, 2));
            assert_eq!(text, "v");
        }
        _ => panic!("expected a replacement"),
    }
}

#[test]
fn fix_it_from_raw() {
    let tu = TranslationUnit::from_ptr(ptr(1));
    let insertion = FixIt::from_raw(RawFixIt { text: String::from("a"), range: range(2, 2, 3, 3) }, &tu);
    assert!(insertion == FixIt::Insertion(SourceLocation::from_raw(location(2, 2, 3), &tu), String::from("a")));
    let replacement = FixIt::from_raw(RawFixIt { text: String::from("a"), range: range(2, 2, 3, 9) }, &tu);
    assert!(replacement == FixIt::Replacement(SourceRange::from_raw(range(2, 2, 3, 9), &tu), String::from("a")));
}

#[test]
fn source_range_start_and_end() {
    let tu = TranslationUnit::from_ptr(ptr(1));
    let plain = SourceRange::from_raw(range(8, 10, 3, 9), &tu);
    assert_eq!(plain.get_start().as_raw(), location(8, 10, 3));
    assert_eq!(plain.get_end().as_raw(), location(8, 10, 9));
    assert_eq!(plain.get_start().translation_unit().as_ptr(), ptr(1));
    let tagged = SourceRange::from_raw(range(9, 12, 3, 9), &tu);
    assert_eq!(tagged.get_start().as_raw(), location(9, 0, 0));
    assert_eq!(tagged.get_end().as_raw(), location(12, 0, 0));
}

#[test]
fn source_range_equality_matches_start_and_end() {
    let tu = TranslationUnit::from_ptr(ptr(1));
    let ranges = [range(2, 4, 1, 5), range(2, 4, 1, 6), range(2, 6, 1, 5), range(2, 4, 0, 5)];
    for a in ranges.iter() {
        for b in ranges.iter() {
            let x = SourceRange::from_raw(*a, &tu);
            let y = SourceRange::from_raw(*b, &tu);
            assert_eq!(x == y, x.get_start() == y.get_start() && x.get_end() == y.get_end());
        }
    }
}

#[test]
fn file_get_location() {
    let tu = TranslationUnit::from_ptr(ptr(1));
    let file = File::from_ptr(ptr(3), &tu);
    let location = file.get_location(4, 7, |line, column| RawSourceLocation {
        ptr_data: (3, 0),
        int_data: line * 100 + column,
    });
    assert_eq!(location.as_raw().int_data, 407);
    assert_eq!(location.translation_unit().as_ptr(), ptr(1));
}

#[test]
fn module_get_top_level_headers_and_parent() {
    let tu = TranslationUnit::from_ptr(ptr(1));
    let module = Module::from_ptr(ptr(9), &tu);
    let headers = module.get_top_level_headers(3, |i| ptr(20 + 2 * i as usize));
    let addresses: Vec<usize> = headers.iter().map(|h| h.as_ptr().addr).collect();
    assert_eq!(addresses, vec![20, 22, 24]);
    assert!(module.get_parent(ptr(0)).is_none());
    assert_eq!(module.get_parent(ptr(11)).unwrap().as_ptr(), ptr(11));
}

#[test]
fn file_get_module() {
    let tu = TranslationUnit::from_ptr(ptr(1));
    let file = File::from_ptr(ptr(3), &tu);
    assert!(file.get_module(ptr(0)).is_none());
    let module = file.get_module(ptr(4)).unwrap();
    assert_eq!(module.as_ptr(), ptr(4));
    assert_eq!(module.translation_unit().as_ptr(), ptr(1));
}

#[test]
fn location_and_range_equality() {
    let tu = TranslationUnit::from_ptr(ptr(1));
    let other = TranslationUnit::from_ptr(ptr(2));
    let a = SourceLocation::from_raw(location(1, 2, 3), &tu);
    let b = SourceLocation::from_raw(location(1, 2, 3), &other);
    let c = SourceLocation::from_raw(location(1, 2, 4), &tu);
    let d = SourceLocation::from_raw(location(0, 2, 3), &tu);
    assert!(a == b);
    assert!(a != c);
    assert!(a != d);
    let x = SourceRange::from_raw(range(1, 2, 3, 4), &tu);
    let y = SourceRange::from_raw(range(1, 2, 3, 4), &other);
    let z = SourceRange::from_raw(range(1, 2, 3, 5), &tu);
    assert!(x == y);
    assert!(x != z);
    assert!(x != SourceRange::from_raw(range(1, 9, 3, 4), &tu));
}
