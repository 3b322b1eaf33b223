use vstd::prelude::*;

verus! {

/// A type which may be null.
pub trait Nullable<T>: Sized {
    /// The value held, or `None` where this is null.
    spec fn nullable_value(&self) -> Option<T>;

    /// Applies `f` to the value held, or returns `None` where this is null.
    fn map<U, F: FnOnce(T) -> U>(self, f: F) -> (r: Option<U>)
        requires
            self.nullable_value() is Some ==> f.requires((self.nullable_value()->0,)),
        ensures
            self.nullable_value() is None ==> r is None,
            self.nullable_value() matches Some(t) ==> (r matches Some(u) && f.ensures((t,), u)),
    ;
}

/// The address of an object that `libclang` owns; the address zero stands for
/// a null pointer.
#[derive(Copy, Clone, Debug, PartialEq, Eq, Structural)]
pub struct RawPtr {
    pub addr: usize,
}

impl RawPtr {
    /// Whether this is the null pointer.
    pub open spec fn spec_is_null(self) -> bool {
        self.addr == 0
    }

    /// Returns whether this is the null pointer.
    pub fn is_null(&self) -> (r: bool)
        ensures
            r == self.spec_is_null(),
    {
        self.addr == 0
    }
}

impl Nullable<RawPtr> for RawPtr {
    open spec fn nullable_value(&self) -> Option<RawPtr> {
        if self.spec_is_null() {
            None
        } else {
            Some(*self)
        }
    }

    fn map<U, F: FnOnce(RawPtr) -> U>(self, f: F) -> (r: Option<U>) {
        if self.addr == 0 {
            None
        } else {
            Some(f(self))
        }
    }
}

/// A source location as `libclang` hands it out (`CXSourceLocation`), with its
/// pointers held as addresses.
#[derive(Copy, Clone, Debug, PartialEq, Eq)]
pub struct RawSourceLocation {
    pub ptr_data: (usize, usize),
    pub int_data: u32,
}

/// A source range as `libclang` hands it out (`CXSourceRange`), with its
/// pointers held as addresses.
#[derive(Copy, Clone, Debug, PartialEq, Eq)]
pub struct RawSourceRange {
    pub ptr_data: (usize, usize),
    pub begin_int_data: u32,
    pub end_int_data: u32,
}

/// What `clang_equalLocations` answers for two locations: whether they hold
/// the same data.
pub open spec fn same_location(a: RawSourceLocation, b: RawSourceLocation) -> bool {
    &&& a.ptr_data.0 == b.ptr_data.0
    &&& a.ptr_data.1 == b.ptr_data.1
    &&& a.int_data == b.int_data
}

/// What `clang_equalRanges` answers for two ranges: whether they hold the same
/// data.
pub open spec fn same_range(a: RawSourceRange, b: RawSourceRange) -> bool {
    &&& a.ptr_data.0 == b.ptr_data.0
    &&& a.ptr_data.1 == b.ptr_data.1
    &&& a.begin_int_data == b.begin_int_data
    &&& a.end_int_data == b.end_int_data
}

/// Whether the first pointer of a range is tagged (its low bit set), as
/// `libclang` marks the ranges of diagnostics loaded from a file.
pub open spec fn is_tagged_range(r: RawSourceRange) -> bool {
    r.ptr_data.0 & 1 == 1
}

/// The start of a range, as `clang_getRangeStart` computes it: a tagged range
/// starts at its first pointer alone; any other range starts at its pointers
/// with its begin data.
pub open spec fn range_start(r: RawSourceRange) -> RawSourceLocation {
    if is_tagged_range(r) {
        RawSourceLocation { ptr_data: (r.ptr_data.0, 0), int_data: 0 }
    } else {
        RawSourceLocation { ptr_data: r.ptr_data, int_data: r.begin_int_data }
    }
}

/// The end of a range, as `clang_getRangeEnd` computes it: a tagged range
/// ends at its second pointer alone; any other range ends at its pointers
/// with its end data.
pub open spec fn range_end(r: RawSourceRange) -> RawSourceLocation {
    if is_tagged_range(r) {
        RawSourceLocation { ptr_data: (r.ptr_data.1, 0), int_data: 0 }
    } else {
        RawSourceLocation { ptr_data: r.ptr_data, int_data: r.end_int_data }
    }
}

/// Two untagged ranges are the same range exactly when they start at the same
/// location and end at the same location.
pub proof fn lemma_range_equality_by_bounds(a: RawSourceRange, b: RawSourceRange)
    requires
        !is_tagged_range(a),
        !is_tagged_range(b),
    ensures
        same_range(a, b) <==> (same_location(range_start(a), range_start(b)) && same_location(
            range_end(a),
            range_end(b),
        )),
{
}

impl RawSourceLocation {
    /// Returns whether `self` and `other` are the same location, as
    /// `clang_equalLocations` compares them.
    pub fn equals(&self, other: &RawSourceLocation) -> (r: bool)
        ensures
            r == same_location(*self, *other),
            r == (*self == *other),
    {
        self.ptr_data.0 == other.ptr_data.0 && self.ptr_data.1 == other.ptr_data.1
            && self.int_data == other.int_data
    }
}

impl RawSourceRange {
    /// Returns the start of this range, as `clang_getRangeStart` computes it.
    pub fn start(&self) -> (r: RawSourceLocation)
        ensures
            r == range_start(*self),
            self.ptr_data.0 & 1 != 1 ==> r.ptr_data == self.ptr_data && r.int_data == self.begin_int_data,
            self.ptr_data.0 & 1 == 1 ==> r.ptr_data == (self.ptr_data.0, 0usize) && r.int_data == 0,
    {
        if self.ptr_data.0 & 1 == 1 {
            RawSourceLocation { ptr_data: (self.ptr_data.0, 0), int_data: 0 }
        } else {
            RawSourceLocation { ptr_data: self.ptr_data, int_data: self.begin_int_data }
        }
    }

    /// Returns the end of this range, as `clang_getRangeEnd` computes it.
    pub fn end(&self) -> (r: RawSourceLocation)
        ensures
            r == range_end(*self),
            self.ptr_data.0 & 1 != 1 ==> r.ptr_data == self.ptr_data && r.int_data == self.end_int_data,
            self.ptr_data.0 & 1 == 1 ==> r.ptr_data == (self.ptr_data.1, 0usize) && r.int_data == 0,
    {
        if self.ptr_data.0 & 1 == 1 {
            RawSourceLocation { ptr_data: (self.ptr_data.1, 0), int_data: 0 }
        } else {
            RawSourceLocation { ptr_data: self.ptr_data, int_data: self.end_int_data }
        }
    }

    /// Returns whether `self` and `other` are the same range, as
    /// `clang_equalRanges` compares them.
    pub fn equals(&self, other: &RawSourceRange) -> (r: bool)
        ensures
            r == same_range(*self, *other),
            r == (*self == *other),
    {
        self.ptr_data.0 == other.ptr_data.0 && self.ptr_data.1 == other.ptr_data.1
            && self.begin_int_data == other.begin_int_data && self.end_int_data == other.end_int_data
    }
}

} // verus!
