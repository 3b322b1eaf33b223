use std::marker::PhantomData;
use vstd::prelude::*;
use vstd::std_specs::cmp::PartialEqSpecImpl;

use crate::clang::Index;
use crate::kinds::{MemoryUsage, SaveError, SourceError};
use crate::raw::{
    is_tagged_range, range_end, range_start, same_location, same_range, Nullable, RawPtr,
    RawSourceLocation, RawSourceRange,
};

verus! {

// TranslationUnit _______________________________

/// A preprocessed and parsed source file.
pub struct TranslationUnit<'i> {
    ptr: RawPtr,
    _marker: PhantomData<&'i Index<'i>>,
}

impl<'i> TranslationUnit<'i> {
    /// The `CXTranslationUnit` this translation unit wraps.
    pub closed spec fn spec_ptr(&self) -> RawPtr {
        self.ptr
    }

    //- Constructors -----------------------------

    /// Wraps a `CXTranslationUnit` that `libclang` created.
    pub fn from_ptr(ptr: RawPtr) -> (r: TranslationUnit<'i>)
        ensures
            r.spec_ptr() == ptr,
    {
        TranslationUnit { ptr: ptr, _marker: PhantomData }
    }

    /// Returns the `CXTranslationUnit` this translation unit wraps.
    pub fn as_ptr(&self) -> (r: RawPtr)
        ensures
            r == self.spec_ptr(),
    {
        self.ptr
    }
}

// Diagnostic ____________________________________

/// A message from the compiler about an issue with a source file.
#[derive(Copy, Clone)]
pub struct Diagnostic<'tu> {
    ptr: RawPtr,
    tu: &'tu TranslationUnit<'tu>,
}

impl<'tu> Diagnostic<'tu> {
    /// The `CXDiagnostic` this diagnostic wraps.
    pub closed spec fn spec_ptr(&self) -> RawPtr {
        self.ptr
    }

    /// The translation unit this diagnostic belongs to.
    pub closed spec fn spec_tu(&self) -> &'tu TranslationUnit<'tu> {
        self.tu
    }

    //- Constructors -----------------------------

    /// Wraps a `CXDiagnostic` of the translation unit `tu`.
    pub fn from_ptr(ptr: RawPtr, tu: &'tu TranslationUnit<'tu>) -> (r: Diagnostic<'tu>)
        ensures
            r.spec_ptr() == ptr,
            r.spec_tu() == tu,
    {
        Diagnostic { ptr: ptr, tu: tu }
    }

    //- Accessors --------------------------------

    /// Returns the `CXDiagnostic` this diagnostic wraps.
    pub fn as_ptr(&self) -> (r: RawPtr)
        ensures
            r == self.spec_ptr(),
    {
        self.ptr
    }

    /// Returns the translation unit this diagnostic belongs to.
    pub fn translation_unit(&self) -> (r: &'tu TranslationUnit<'tu>)
        ensures
            r == self.spec_tu(),
    {
        self.tu
    }
}

// File __________________________________________

/// A source file.
#[derive(Copy, Clone)]
pub struct File<'tu> {
    ptr: RawPtr,
    tu: &'tu TranslationUnit<'tu>,
}

impl<'tu> File<'tu> {
    /// The `CXFile` this file wraps.
    pub closed spec fn spec_ptr(&self) -> RawPtr {
        self.ptr
    }

    /// The translation unit this file belongs to.
    pub closed spec fn spec_tu(&self) -> &'tu TranslationUnit<'tu> {
        self.tu
    }

    //- Constructors -----------------------------

    /// Wraps a `CXFile` of the translation unit `tu`.
    pub fn from_ptr(ptr: RawPtr, tu: &'tu TranslationUnit<'tu>) -> (r: File<'tu>)
        ensures
            r.spec_ptr() == ptr,
            r.spec_tu() == tu,
    {
        File { ptr: ptr, tu: tu }
    }

    //- Accessors --------------------------------

    /// Returns the `CXFile` this file wraps.
    pub fn as_ptr(&self) -> (r: RawPtr)
        ensures
            r == self.spec_ptr(),
    {
        self.ptr
    }

    /// Returns the translation unit this file belongs to.
    pub fn translation_unit(&self) -> (r: &'tu TranslationUnit<'tu>)
        ensures
            r == self.spec_tu(),
    {
        self.tu
    }
}

// Module ________________________________________

/// A collection of headers.
#[derive(Copy, Clone)]
pub struct Module<'tu> {
    ptr: RawPtr,
    tu: &'tu TranslationUnit<'tu>,
}

impl<'tu> Module<'tu> {
    /// The `CXModule` this module wraps.
    pub closed spec fn spec_ptr(&self) -> RawPtr {
        self.ptr
    }

    /// The translation unit this module belongs to.
    pub closed spec fn spec_tu(&self) -> &'tu TranslationUnit<'tu> {
        self.tu
    }

    //- Constructors -----------------------------

    /// Wraps a `CXModule` of the translation unit `tu`.
    pub fn from_ptr(ptr: RawPtr, tu: &'tu TranslationUnit<'tu>) -> (r: Module<'tu>)
        ensures
            r.spec_ptr() == ptr,
            r.spec_tu() == tu,
    {
        Module { ptr: ptr, tu: tu }
    }

    //- Accessors --------------------------------

    /// Returns the `CXModule` this module wraps.
    pub fn as_ptr(&self) -> (r: RawPtr)
        ensures
            r == self.spec_ptr(),
    {
        self.ptr
    }

    /// Returns the translation unit this module belongs to.
    pub fn translation_unit(&self) -> (r: &'tu TranslationUnit<'tu>)
        ensures
            r == self.spec_tu(),
    {
        self.tu
    }
}

// SourceLocation ________________________________

/// The file, line, column, and character offset of a source location.
#[derive(Copy, Clone)]
pub struct Location<'tu> {
    pub file: File<'tu>,
    pub line: u32,
    pub column: u32,
    pub offset: u32,
}

/// A location in a source file.
#[derive(Copy, Clone)]
pub struct SourceLocation<'tu> {
    raw: RawSourceLocation,
    tu: &'tu TranslationUnit<'tu>,
}

impl<'tu> SourceLocation<'tu> {
    /// The `CXSourceLocation` this location wraps.
    pub closed spec fn spec_raw(&self) -> RawSourceLocation {
        self.raw
    }

    /// The translation unit this location belongs to.
    pub closed spec fn spec_tu(&self) -> &'tu TranslationUnit<'tu> {
        self.tu
    }

    //- Constructors -----------------------------

    /// Wraps a `CXSourceLocation` of the translation unit `tu`.
    pub fn from_raw(raw: RawSourceLocation, tu: &'tu TranslationUnit<'tu>) -> (r: SourceLocation<'tu>)
        ensures
            r.spec_raw() == raw,
            r.spec_tu() == tu,
    {
        SourceLocation { raw: raw, tu: tu }
    }

    //- Accessors --------------------------------

    /// Returns the `CXSourceLocation` this location wraps.
    pub fn as_raw(&self) -> (r: RawSourceLocation)
        ensures
            r == self.spec_raw(),
    {
        self.raw
    }

    /// Returns the translation unit this location belongs to.
    pub fn translation_unit(&self) -> (r: &'tu TranslationUnit<'tu>)
        ensures
            r == self.spec_tu(),
    {
        self.tu
    }
}

impl<'tu> PartialEq for SourceLocation<'tu> {
    fn eq(&self, other: &SourceLocation<'tu>) -> (r: bool) {
        self.raw.equals(&other.raw)
    }
}

impl<'tu> PartialEqSpecImpl for SourceLocation<'tu> {
    open spec fn obeys_eq_spec() -> bool {
        true
    }

    /// Two locations are equal where `clang_equalLocations` says so.
    open spec fn eq_spec(&self, other: &SourceLocation<'tu>) -> bool {
        same_location(self.spec_raw(), other.spec_raw())
    }
}

impl<'tu> Eq for SourceLocation<'tu> {}

// SourceRange ___________________________________

/// A half-open range in a source file.
#[derive(Copy, Clone)]
pub struct SourceRange<'tu> {
    raw: RawSourceRange,
    tu: &'tu TranslationUnit<'tu>,
}

impl<'tu> SourceRange<'tu> {
    /// The `CXSourceRange` this range wraps.
    pub closed spec fn spec_raw(&self) -> RawSourceRange {
        self.raw
    }

    /// The translation unit this range belongs to.
    pub closed spec fn spec_tu(&self) -> &'tu TranslationUnit<'tu> {
        self.tu
    }

    //- Constructors -----------------------------

    /// Wraps a `CXSourceRange` of the translation unit `tu`.
    pub fn from_raw(raw: RawSourceRange, tu: &'tu TranslationUnit<'tu>) -> (r: SourceRange<'tu>)
        ensures
            r.spec_raw() == raw,
            r.spec_tu() == tu,
    {
        SourceRange { raw: raw, tu: tu }
    }

    //- Accessors --------------------------------

    /// Returns the exclusive end of this source range.
    pub fn get_end(&self) -> (r: SourceLocation<'tu>)
        ensures
            r.spec_raw() == range_end(self.spec_raw()),
            r.spec_tu() == self.spec_tu(),
    {
        SourceLocation::from_raw(self.raw.end(), self.tu)
    }

    /// Returns the inclusive start of this source range.
    pub fn get_start(&self) -> (r: SourceLocation<'tu>)
        ensures
            r.spec_raw() == range_start(self.spec_raw()),
            r.spec_tu() == self.spec_tu(),
    {
        SourceLocation::from_raw(self.raw.start(), self.tu)
    }

    /// Returns the `CXSourceRange` this range wraps.
    pub fn as_raw(&self) -> (r: RawSourceRange)
        ensures
            r == self.spec_raw(),
    {
        self.raw
    }

    /// Returns the translation unit this range belongs to.
    pub fn translation_unit(&self) -> (r: &'tu TranslationUnit<'tu>)
        ensures
            r == self.spec_tu(),
    {
        self.tu
    }
}

impl<'tu> PartialEq for SourceRange<'tu> {
    fn eq(&self, other: &SourceRange<'tu>) -> (r: bool) {
        self.raw.equals(&other.raw)
    }
}

impl<'tu> PartialEqSpecImpl for SourceRange<'tu> {
    open spec fn obeys_eq_spec() -> bool {
        true
    }

    /// Two ranges are equal where `clang_equalRanges` says so.
    open spec fn eq_spec(&self, other: &SourceRange<'tu>) -> bool {
        same_range(self.spec_raw(), other.spec_raw())
    }
}

impl<'tu> Eq for SourceRange<'tu> {}

/// Equality of source locations, as `clang_equalLocations` decides it, and of
/// source ranges, as `clang_equalRanges` decides it, is an equivalence that
/// looks at the data `libclang` handed out and not at the translation unit.
pub proof fn lemma_equality_is_equivalence<'tu>(
    a: SourceLocation<'tu>,
    b: SourceLocation<'tu>,
    c: SourceLocation<'tu>,
    x: SourceRange<'tu>,
    y: SourceRange<'tu>,
    z: SourceRange<'tu>,
)
    ensures
        same_location(a.spec_raw(), a.spec_raw()),
        same_location(a.spec_raw(), b.spec_raw()) == same_location(b.spec_raw(), a.spec_raw()),
        same_location(a.spec_raw(), b.spec_raw()) && same_location(b.spec_raw(), c.spec_raw())
            ==> same_location(a.spec_raw(), c.spec_raw()),
        same_location(a.spec_raw(), b.spec_raw()) <==> a.spec_raw() == b.spec_raw(),
        same_range(x.spec_raw(), x.spec_raw()),
        same_range(x.spec_raw(), y.spec_raw()) == same_range(y.spec_raw(), x.spec_raw()),
        same_range(x.spec_raw(), y.spec_raw()) && same_range(y.spec_raw(), z.spec_raw())
            ==> same_range(x.spec_raw(), z.spec_raw()),
        same_range(x.spec_raw(), y.spec_raw()) <==> x.spec_raw() == y.spec_raw(),
{
}

/// Two source ranges whose first pointers are untagged are equal exactly when
/// their starts are equal and their ends are equal.
pub proof fn lemma_range_equality_by_start_and_end<'tu>(x: SourceRange<'tu>, y: SourceRange<'tu>)
    requires
        !is_tagged_range(x.spec_raw()),
        !is_tagged_range(y.spec_raw()),
    ensures
        same_range(x.spec_raw(), y.spec_raw()) <==> (same_location(range_start(x.spec_raw()), range_start(y.spec_raw()))
            && same_location(range_end(x.spec_raw()), range_end(y.spec_raw()))),
{
    crate::raw::lemma_range_equality_by_bounds(x.spec_raw(), y.spec_raw());
}

// FixIt _________________________________________

/// A suggested fix for an issue with a source file.
#[derive(Clone, PartialEq, Eq)]
pub enum FixIt<'tu> {
    /// Delete a segment of the source file.
    Deletion(SourceRange<'tu>),
    /// Insert a string into the source file.
    Insertion(SourceLocation<'tu>, String),
    /// Replace a segment of the source file with a string.
    Replacement(SourceRange<'tu>, String),
}

/// What `libclang` reports of one fix-it of a diagnostic: its replacement
/// text and the range it replaces.
pub struct RawFixIt {
    pub text: String,
    pub range: RawSourceRange,
}

/// Whether `fix_it`, of the translation unit `tu`, is the fix-it that `raw`
/// reports: an empty text deletes the range, a range that starts where it ends
/// receives the text as an insertion at its start, and any other range is
/// replaced by the text.
pub open spec fn is_fix_it_of<'tu>(fix_it: FixIt<'tu>, raw: RawFixIt, tu: &'tu TranslationUnit<'tu>) -> bool {
    if raw.text@.len() == 0 {
        &&& fix_it matches FixIt::Deletion(range)
        &&& range.spec_raw() == raw.range
        &&& range.spec_tu() == tu
    } else if same_location(range_start(raw.range), range_end(raw.range)) {
        &&& fix_it matches FixIt::Insertion(location, text)
        &&& location.spec_raw() == range_start(raw.range)
        &&& location.spec_tu() == tu
        &&& text@ == raw.text@
    } else {
        &&& fix_it matches FixIt::Replacement(range, text)
        &&& range.spec_raw() == raw.range
        &&& range.spec_tu() == tu
        &&& text@ == raw.text@
    }
}

/// What a reported fix-it is, whatever it holds: an empty text always deletes
/// its range; a nonempty text is inserted whole at the start of a range that
/// starts where it ends, and replaces any other range whole. The translation
/// unit is always the one the fix-it was reported for.
pub proof fn lemma_fix_it_kinds<'tu>(raw: RawFixIt)
    ensures
        forall|f: FixIt<'tu>, tu: &'tu TranslationUnit<'tu>|
            #[trigger] is_fix_it_of(f, raw, tu) ==> {
                &&& raw.text@.len() == 0 ==> (f matches FixIt::Deletion(range) && range.spec_raw() == raw.range
                    && range.spec_tu() == tu)
                &&& raw.text@.len() != 0 && same_location(range_start(raw.range), range_end(raw.range)) ==> (
                f matches FixIt::Insertion(location, text) && location.spec_raw() == range_start(raw.range)
                    && location.spec_tu() == tu && text@ == raw.text@)
                &&& raw.text@.len() != 0 && !same_location(range_start(raw.range), range_end(raw.range)) ==> (
                f matches FixIt::Replacement(range, text) && range.spec_raw() == raw.range
                    && range.spec_tu() == tu && text@ == raw.text@)
            },
{
}

/// Whether `fix_it` is what `report` can report for the fix-it numbered `i`
/// of a diagnostic of the translation unit `tu`.
pub open spec fn reports_fix_it<'tu, F: Fn(u32) -> RawFixIt>(
    report: F,
    i: u32,
    fix_it: FixIt<'tu>,
    tu: &'tu TranslationUnit<'tu>,
) -> bool {
    exists|raw: RawFixIt| report.ensures((i,), raw) && #[trigger] is_fix_it_of(fix_it, raw, tu)
}

impl<'tu> FixIt<'tu> {
    /// Returns the fix-it of the translation unit `tu` that `raw` reports.
    pub fn from_raw(raw: RawFixIt, tu: &'tu TranslationUnit<'tu>) -> (r: FixIt<'tu>)
        ensures
            is_fix_it_of(r, raw, tu),
            raw.text@.len() == 0 ==> (r matches FixIt::Deletion(range) && range.spec_raw() == raw.range),
            raw.text@.len() != 0 && same_location(range_start(raw.range), range_end(raw.range)) ==> (
            r matches FixIt::Insertion(location, text) && location.spec_raw() == range_start(raw.range)
                && text@ == raw.text@),
            raw.text@.len() != 0 && !same_location(range_start(raw.range), range_end(raw.range)) ==> (
            r matches FixIt::Replacement(range, text) && range.spec_raw() == raw.range && text@
                == raw.text@),
    {
        proof {
            lemma_fix_it_kinds(raw);
        }
        let RawFixIt { text, range } = raw;
        let range = SourceRange::from_raw(range, tu);
        if text.as_str().is_empty() {
            FixIt::Deletion(range)
        } else if range.get_start() == range.get_end() {
            FixIt::Insertion(range.get_start(), text)
        } else {
            FixIt::Replacement(range, text)
        }
    }
}

impl<'tu> Diagnostic<'tu> {
    /// Returns the fix-its for this diagnostic: for each `i` below `count`,
    /// the fix-it that `fix_it(i)` reports, in that order.
    pub fn get_fix_its<F: Fn(u32) -> RawFixIt>(&self, count: u32, fix_it: F) -> (r: Vec<FixIt<'tu>>)
        requires
            forall|i: u32| i < count ==> fix_it.requires((i,)),
        ensures
            r.len() == count,
            forall|i: int| 0 <= i < count ==> #[trigger] reports_fix_it(fix_it, i as u32, r[i], self.spec_tu()),
    {
        let mut r: Vec<FixIt<'tu>> = Vec::new();
        let mut i: u32 = 0;
        while i < count
            invariant
                i <= count,
                r.len() == i,
                forall|k: u32| k < count ==> fix_it.requires((k,)),
                forall|j: int| 0 <= j < i ==> #[trigger] reports_fix_it(fix_it, j as u32, r[j], self.spec_tu()),
            decreases count - i,
        {
            let raw = fix_it(i);
            let ghost reported = raw;
            let next = FixIt::from_raw(raw, self.tu);
            let ghost before = r@;
            r.push(next);
            proof {
                assert(is_fix_it_of(r[i as int], reported, self.spec_tu()));
                assert forall|j: int| 0 <= j < i + 1 implies #[trigger] reports_fix_it(fix_it, j as u32, r[j], self.spec_tu()) by {
                    if j < i {
                        assert(r[j] == before[j]);
                        assert(reports_fix_it(fix_it, j as u32, before[j], self.spec_tu()));
                    }
                }
            }
            i = i + 1;
        }
        r
    }

    /// Returns the source ranges of this diagnostic: for each `i` below
    /// `count`, the range that `range(i)` reports, in that order.
    pub fn get_ranges<F: Fn(u32) -> RawSourceRange>(&self, count: u32, range: F) -> (r: Vec<SourceRange<'tu>>)
        requires
            forall|i: u32| i < count ==> range.requires((i,)),
        ensures
            r.len() == count,
            forall|i: int|
                #![trigger r[i]]
                0 <= i < count ==> range.ensures((i as u32,), r[i].spec_raw()) && r[i].spec_tu() == self.spec_tu(),
    {
        let mut r: Vec<SourceRange<'tu>> = Vec::new();
        let mut i: u32 = 0;
        while i < count
            invariant
                i <= count,
                r.len() == i,
                forall|k: u32| k < count ==> range.requires((k,)),
                forall|j: int|
                    #![trigger r[j]]
                    0 <= j < i ==> range.ensures((j as u32,), r[j].spec_raw()) && r[j].spec_tu() == self.spec_tu(),
            decreases count - i,
        {
            let raw = range(i);
            r.push(SourceRange::from_raw(raw, self.tu));
            i = i + 1;
        }
        r
    }
}

impl<'tu> File<'tu> {
    /// Returns the source location at the supplied line and column in this
    /// file: the location that `locate(line, column)` reports.
    ///
    /// # Panics
    ///
    /// * `line` or `column` is `0` (ruled out here by `requires`)
    pub fn get_location<F: FnOnce(u32, u32) -> RawSourceLocation>(
        &self,
        line: u32,
        column: u32,
        locate: F,
    ) -> (r: SourceLocation<'tu>)
        requires
            line != 0,
            column != 0,
            locate.requires((line, column)),
        ensures
            locate.ensures((line, column), r.spec_raw()),
            r.spec_tu() == self.spec_tu(),
    {
        let raw = locate(line, column);
        SourceLocation::from_raw(raw, self.tu)
    }

    /// Returns the module containing this file, if any: the module that `ptr`
    /// points to, or `None` where `ptr` is null.
    pub fn get_module(&self, ptr: RawPtr) -> (r: Option<Module<'tu>>)
        ensures
            r is None <==> ptr.spec_is_null(),
            r matches Some(m) ==> m.spec_ptr() == ptr && m.spec_tu() == self.spec_tu(),
    {
        let tu = self.tu;
        ptr.map(|m: RawPtr| -> (r: Module<'tu>)
            ensures
                r.spec_ptr() == m && r.spec_tu() == tu,
            { Module::from_ptr(m, tu) })
    }
}

impl<'tu> Module<'tu> {
    /// Returns the parent of this module, if any: the module that `ptr` points
    /// to, or `None` where `ptr` is null.
    pub fn get_parent(&self, ptr: RawPtr) -> (r: Option<Module<'tu>>)
        ensures
            r is None <==> ptr.spec_is_null(),
            r matches Some(m) ==> m.spec_ptr() == ptr && m.spec_tu() == self.spec_tu(),
    {
        let tu = self.tu;
        ptr.map(|p: RawPtr| -> (r: Module<'tu>)
            ensures
                r.spec_ptr() == p && r.spec_tu() == tu,
            { Module::from_ptr(p, tu) })
    }

    /// Returns the top-level headers in this module: for each `i` below
    /// `count`, the file that `header(i)` points to, in that order.
    pub fn get_top_level_headers<F: Fn(u32) -> RawPtr>(&self, count: u32, header: F) -> (r: Vec<File<'tu>>)
        requires
            forall|i: u32| i < count ==> header.requires((i,)),
        ensures
            r.len() == count,
            forall|i: int|
                #![trigger r[i]]
                0 <= i < count ==> header.ensures((i as u32,), r[i].spec_ptr()) && r[i].spec_tu() == self.spec_tu(),
    {
        let mut r: Vec<File<'tu>> = Vec::new();
        let mut i: u32 = 0;
        while i < count
            invariant
                i <= count,
                r.len() == i,
                forall|k: u32| k < count ==> header.requires((k,)),
                forall|j: int|
                    #![trigger r[j]]
                    0 <= j < i ==> header.ensures((j as u32,), r[j].spec_ptr()) && r[j].spec_tu() == self.spec_tu(),
            decreases count - i,
        {
            let ptr = header(i);
            r.push(File::from_ptr(ptr, self.tu));
            i = i + 1;
        }
        r
    }
}

impl<'i> TranslationUnit<'i> {
    /// Constructs a new `TranslationUnit` from an AST file, out of the
    /// `CXTranslationUnit` that `libclang` created for it.
    ///
    /// # Failures
    ///
    /// * an unknown error occurs (`ptr` is null)
    pub fn from_ast(ptr: RawPtr) -> (r: Result<TranslationUnit<'i>, ()>)
        ensures
            r is Err <==> ptr.spec_is_null(),
            r matches Ok(tu) ==> tu.spec_ptr() == ptr,
    {
        let unit = ptr.map(|p: RawPtr| -> (r: TranslationUnit<'i>)
            ensures
                r.spec_ptr() == p,
            { TranslationUnit::from_ptr(p) });
        unit.ok_or(())
    }

    /// Constructs a new `TranslationUnit` from a source file, out of the
    /// `CXErrorCode` `code` that `libclang` answered and the
    /// `CXTranslationUnit` `ptr` that it created.
    ///
    /// # Failures
    ///
    /// * an error occurs while deserializing an AST file
    /// * `libclang` crashes
    /// * an unknown error occurs
    pub fn from_source(code: u32, ptr: RawPtr) -> (r: Result<TranslationUnit<'i>, SourceError>)
        requires
            SourceError::is_handled_code(code),
        ensures
            r is Ok <==> SourceError::spec_from_code(code) is Ok,
            r matches Ok(tu) ==> tu.spec_ptr() == ptr,
            r matches Err(e) ==> SourceError::spec_from_code(code) == Err::<(), SourceError>(e),
    {
        match SourceError::from_code(code) {
            Ok(()) => Ok(TranslationUnit::from_ptr(ptr)),
            Err(e) => Err(e),
        }
    }

    /// Returns the diagnostics for this translation unit: for each `i` below
    /// `count`, the diagnostic that `diagnostic(i)` points to, in that order.
    pub fn get_diagnostics<F: Fn(u32) -> RawPtr>(&'i self, count: u32, diagnostic: F) -> (r: Vec<Diagnostic<'i>>)
        requires
            forall|i: u32| i < count ==> diagnostic.requires((i,)),
        ensures
            r.len() == count,
            forall|i: int|
                #![trigger r[i]]
                0 <= i < count ==> diagnostic.ensures((i as u32,), r[i].spec_ptr()) && r[i].spec_tu() == self,
    {
        let mut r: Vec<Diagnostic<'i>> = Vec::new();
        let mut i: u32 = 0;
        while i < count
            invariant
                i <= count,
                r.len() == i,
                forall|k: u32| k < count ==> diagnostic.requires((k,)),
                forall|j: int|
                    #![trigger r[j]]
                    0 <= j < i ==> diagnostic.ensures((j as u32,), r[j].spec_ptr()) && r[j].spec_tu() == self,
            decreases count - i,
        {
            let ptr = diagnostic(i);
            r.push(Diagnostic::from_ptr(ptr, self));
            i = i + 1;
        }
        r
    }

    /// Returns the file at the supplied path in this translation unit, if any:
    /// the file that `ptr` points to, or `None` where `ptr` is null.
    pub fn get_file(&'i self, ptr: RawPtr) -> (r: Option<File<'i>>)
        ensures
            r is None <==> ptr.spec_is_null(),
            r matches Some(f) ==> f.spec_ptr() == ptr && f.spec_tu() == self,
    {
        ptr.map(|f: RawPtr| -> (r: File<'i>)
            ensures
                r.spec_ptr() == f && r.spec_tu() == self,
            { File::from_ptr(f, self) })
    }

    /// Returns the outcome of saving this translation unit to an AST file, out
    /// of the `CXSaveError` code `code` that `libclang` answered.
    ///
    /// # Failures
    ///
    /// * errors in the translation unit prevent saving
    /// * an unknown error occurs
    pub fn save(&self, code: u32) -> (r: Result<(), SaveError>)
        requires
            SaveError::is_handled_code(code),
        ensures
            r == SaveError::spec_from_code(code),
    {
        SaveError::from_code(code)
    }

    //- Consumers --------------------------------

    /// Consumes this translation unit and returns it reparsed, out of the
    /// `CXErrorCode` code `code` that `libclang` answered to the reparse.
    ///
    /// # Failures
    ///
    /// * an error occurs while deserializing an AST file
    /// * `libclang` crashes
    /// * an unknown error occurs
    pub fn reparse(self, code: u32) -> (r: Result<TranslationUnit<'i>, SourceError>)
        requires
            SourceError::is_handled_code(code),
        ensures
            r is Ok <==> SourceError::spec_from_code(code) is Ok,
            r matches Ok(tu) ==> tu.spec_ptr() == self.spec_ptr(),
            r matches Err(e) ==> SourceError::spec_from_code(code) == Err::<(), SourceError>(e),
    {
        match SourceError::from_code(code) {
            Ok(()) => Ok(self),
            Err(e) => Err(e),
        }
    }
}

// Memory usage __________________________________

/// Whether every entry of a `CXTUResourceUsage` report names a category.
pub open spec fn all_usage_kinds_known(entries: Seq<(u32, u64)>) -> bool {
    forall|i: int| 0 <= i < entries.len() ==> MemoryUsage::is_code(#[trigger] entries[i].0)
}

/// The memory usage that the entries of a `CXTUResourceUsage` report stand
/// for: each category with the amount of its last entry.
pub open spec fn usage_of_entries(entries: Seq<(u32, u64)>) -> Map<MemoryUsage, usize>
    decreases entries.len(),
{
    if entries.len() == 0 {
        Map::empty()
    } else {
        let last = entries.last();
        usage_of_entries(entries.drop_last()).insert(MemoryUsage::spec_from_code(last.0)->0, last.1 as usize)
    }
}

/// The map that a list of pairs stands for, a later pair winning over an
/// earlier one of the same category.
pub open spec fn usage_of_pairs(pairs: Seq<(MemoryUsage, usize)>) -> Map<MemoryUsage, usize>
    decreases pairs.len(),
{
    if pairs.len() == 0 {
        Map::empty()
    } else {
        let last = pairs.last();
        usage_of_pairs(pairs.drop_last()).insert(last.0, last.1)
    }
}

/// Whether no category occurs twice in a list of pairs.
pub open spec fn distinct_usages(pairs: Seq<(MemoryUsage, usize)>) -> bool {
    forall|i: int, j: int| 0 <= i < j < pairs.len() ==> #[trigger] pairs[i].0 != #[trigger] pairs[j].0
}

/// Replacing the amount of a category that occurs once in a list of pairs
/// updates the map it stands for at that category.
proof fn lemma_usage_of_pairs_update(pairs: Seq<(MemoryUsage, usize)>, j: int, amount: usize)
    requires
        distinct_usages(pairs),
        0 <= j < pairs.len(),
    ensures
        usage_of_pairs(pairs.update(j, (pairs[j].0, amount)))
            == usage_of_pairs(pairs).insert(pairs[j].0, amount),
    decreases pairs.len(),
{
    let updated = pairs.update(j, (pairs[j].0, amount));
    let rest = pairs.drop_last();
    if j == pairs.len() - 1 {
        assert(updated.drop_last() =~= rest);
        assert(usage_of_pairs(updated) =~= usage_of_pairs(pairs).insert(pairs[j].0, amount));
    } else {
        assert(updated.drop_last() =~= rest.update(j, (rest[j].0, amount)));
        assert(distinct_usages(rest));
        lemma_usage_of_pairs_update(rest, j, amount);
        assert(pairs[j].0 != pairs.last().0);
        assert(usage_of_pairs(updated) =~= usage_of_pairs(pairs).insert(pairs[j].0, amount));
    }
}

/// A known code reads back as a category exactly when it is that category's
/// code.
proof fn lemma_code_names_category(code: u32, k: MemoryUsage)
    requires
        MemoryUsage::is_code(code),
    ensures
        (MemoryUsage::spec_from_code(code)->0 == k) <==> code == k.code(),
{
    crate::kinds::lemma_memory_usage_code_round_trip(k, code);
}

/// A report names a category exactly when one of its entries carries that
/// category's code, and then the category's amount is that of the last such
/// entry.
#[verifier::rlimit(60)]
pub proof fn lemma_usage_of_entries(entries: Seq<(u32, u64)>, k: MemoryUsage)
    requires
        all_usage_kinds_known(entries),
    ensures
        usage_of_entries(entries).dom().contains(k)
            <==> exists|j: int| 0 <= j < entries.len() && #[trigger] entries[j].0 == k.code(),
        forall|j: int|
            0 <= j < entries.len() && #[trigger] entries[j].0 == k.code()
                && (forall|l: int| j < l < entries.len() ==> entries[l].0 != k.code())
                ==> usage_of_entries(entries)[k] == entries[j].1 as usize,
    decreases entries.len(),
{
    if entries.len() > 0 {
        let n = entries.len() - 1;
        let rest = entries.drop_last();
        assert(all_usage_kinds_known(rest)) by {
            assert forall|i: int| 0 <= i < rest.len() implies MemoryUsage::is_code(#[trigger] rest[i].0) by {
                assert(rest[i] == entries[i]);
            }
        }
        lemma_usage_of_entries(rest, k);
        assert(MemoryUsage::is_code(entries[n].0));
        lemma_code_names_category(entries[n].0, k);
        if entries[n].0 == k.code() {
            assert forall|j: int|
                0 <= j < entries.len() && #[trigger] entries[j].0 == k.code()
                    && (forall|l: int| j < l < entries.len() ==> entries[l].0 != k.code())
                    implies usage_of_entries(entries)[k] == entries[j].1 as usize by {
                if j < n {
                    assert(entries[n].0 == k.code());
                }
            }
        } else {
            if exists|j: int| 0 <= j < entries.len() && #[trigger] entries[j].0 == k.code() {
                let j = choose|j: int| 0 <= j < entries.len() && #[trigger] entries[j].0 == k.code();
                assert(rest[j].0 == k.code());
            }
            if exists|j: int| 0 <= j < rest.len() && #[trigger] rest[j].0 == k.code() {
                let j = choose|j: int| 0 <= j < rest.len() && #[trigger] rest[j].0 == k.code();
                assert(entries[j].0 == k.code());
            }
            assert forall|j: int|
                0 <= j < entries.len() && #[trigger] entries[j].0 == k.code()
                    && (forall|l: int| j < l < entries.len() ==> entries[l].0 != k.code())
                    implies usage_of_entries(entries)[k] == entries[j].1 as usize by {
                assert(rest[j].0 == k.code());
                assert forall|l: int| j < l < rest.len() implies rest[l].0 != k.code() by {
                    assert(rest[l] == entries[l]);
                }
            }
        }
    }
}

/// In a list of pairs where no category occurs twice, each pair's category is
/// mapped to that pair's amount, and only the listed categories are mapped.
pub proof fn lemma_usage_of_pairs(pairs: Seq<(MemoryUsage, usize)>, k: MemoryUsage)
    requires
        distinct_usages(pairs),
    ensures
        usage_of_pairs(pairs).dom().contains(k)
            <==> exists|i: int| 0 <= i < pairs.len() && #[trigger] pairs[i].0 == k,
        forall|i: int| 0 <= i < pairs.len() && #[trigger] pairs[i].0 == k ==> usage_of_pairs(pairs)[k] == pairs[i].1,
    decreases pairs.len(),
{
    if pairs.len() > 0 {
        let n = pairs.len() - 1;
        let rest = pairs.drop_last();
        assert(distinct_usages(rest)) by {
            assert forall|i: int, j: int| 0 <= i < j < rest.len() implies #[trigger] rest[i].0 != #[trigger] rest[j].0 by {
                assert(rest[i] == pairs[i] && rest[j] == pairs[j]);
            }
        }
        lemma_usage_of_pairs(rest, k);
        if pairs[n].0 == k {
            assert forall|i: int| 0 <= i < pairs.len() && #[trigger] pairs[i].0 == k implies usage_of_pairs(pairs)[k] == pairs[i].1 by {
                if i < n {
                    assert(pairs[i].0 != pairs[n].0);
                }
            }
        } else {
            if exists|i: int| 0 <= i < pairs.len() && #[trigger] pairs[i].0 == k {
                let i = choose|i: int| 0 <= i < pairs.len() && #[trigger] pairs[i].0 == k;
                assert(rest[i].0 == k);
            }
            if exists|i: int| 0 <= i < rest.len() && #[trigger] rest[i].0 == k {
                let i = choose|i: int| 0 <= i < rest.len() && #[trigger] rest[i].0 == k;
                assert(pairs[i].0 == k);
            }
            assert forall|i: int| 0 <= i < pairs.len() && #[trigger] pairs[i].0 == k implies usage_of_pairs(pairs)[k] == pairs[i].1 by {
                assert(rest[i].0 == k);
            }
        }
    }
}

impl<'i> TranslationUnit<'i> {
    /// Returns the memory usage of this translation unit, out of the entries
    /// of the `CXTUResourceUsage` report that `libclang` made for it: each
    /// category that an entry names, once, with the amount of its last entry.
    pub fn get_memory_usage(&self, entries: &[(u32, u64)]) -> (r: Vec<(MemoryUsage, usize)>)
        requires
            all_usage_kinds_known(entries@),
        ensures
            distinct_usages(r@),
            usage_of_pairs(r@) == usage_of_entries(entries@),
            forall|k: MemoryUsage|
                #![trigger k.code()]
                (exists|i: int| 0 <= i < r.len() && #[trigger] r@[i].0 == k)
                    <==> (exists|j: int| 0 <= j < entries.len() && #[trigger] entries@[j].0 == k.code()),
            forall|i: int, j: int|
                0 <= i < r.len() && 0 <= j < entries.len() && #[trigger] entries@[j].0 == (#[trigger] r@[i]).0.code()
                    && (forall|l: int| j < l < entries.len() ==> entries@[l].0 != r@[i].0.code())
                    ==> r@[i].1 == entries@[j].1 as usize,
    {
        let mut r: Vec<(MemoryUsage, usize)> = Vec::new();
        let mut i: usize = 0;
        while i < entries.len()
            invariant
                i <= entries.len(),
                all_usage_kinds_known(entries@),
                distinct_usages(r@),
                usage_of_pairs(r@) == usage_of_entries(entries@.take(i as int)),
            decreases entries.len() - i,
        {
            let (code, amount) = entries[i];
            assert(MemoryUsage::is_code(entries@[i as int].0));
            let kind = MemoryUsage::from_code(code).unwrap();
            let amount = amount as usize;
            assert(entries@.take(i as int + 1).drop_last() =~= entries@.take(i as int));
            let mut j: usize = 0;
            while j < r.len() && r[j].0 != kind
                invariant
                    j <= r.len(),
                    forall|k: int| 0 <= k < j ==> #[trigger] r@[k].0 != kind,
                decreases r.len() - j,
            {
                j = j + 1;
            }
            if j < r.len() {
                let ghost before = r@;
                proof {
                    lemma_usage_of_pairs_update(before, j as int, amount);
                }
                r.set(j, (kind, amount));
                assert(r@ =~= before.update(j as int, (before[j as int].0, amount)));
            } else {
                let ghost before = r@;
                r.push((kind, amount));
                assert(r@.drop_last() =~= before);
            }
            i = i + 1;
        }
        assert(entries@.take(entries.len() as int) =~= entries@);
        proof {
            assert forall|k: MemoryUsage|
                #![trigger k.code()]
                (exists|i: int| 0 <= i < r.len() && #[trigger] r@[i].0 == k)
                    <==> (exists|j: int| 0 <= j < entries.len() && #[trigger] entries@[j].0 == k.code()) by {
                lemma_usage_of_entries(entries@, k);
                lemma_usage_of_pairs(r@, k);
            }
            assert forall|i: int, j: int|
                0 <= i < r.len() && 0 <= j < entries.len() && #[trigger] entries@[j].0 == (#[trigger] r@[i]).0.code()
                    && (forall|l: int| j < l < entries.len() ==> entries@[l].0 != r@[i].0.code())
                    implies r@[i].1 == entries@[j].1 as usize by {
                lemma_usage_of_entries(entries@, r@[i].0);
                lemma_usage_of_pairs(r@, r@[i].0);
            }
        }
        r
    }
}

} // verus!
