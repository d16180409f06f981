//! A region of guest memory, given by an offset and a length that were
//! validated when the region was made.

use crate::error::HolochainError;
use crate::memory::{MemoryBits, MemoryInt, MEMORY_INT_MAX};
use vstd::prelude::*;
use vstd::std_specs::convert::FromSpecImpl;

verus! {

/// Where a region starts, counted in bytes from the start of guest memory.
#[derive(Copy, Clone, Debug)]
pub struct Offset(MemoryInt);

/// How many bytes a region holds.
#[derive(Copy, Clone, Debug)]
pub struct Length(MemoryInt);

impl View for Offset {
    type V = MemoryInt;

    closed spec fn view(&self) -> MemoryInt {
        self.0
    }
}

impl View for Length {
    type V = MemoryInt;

    closed spec fn view(&self) -> MemoryInt {
        self.0
    }
}

impl From<Offset> for MemoryInt {
    fn from(offset: Offset) -> (i: MemoryInt)
        ensures
            i == offset@,
    {
        offset.0
    }
}

impl FromSpecImpl<Offset> for MemoryInt {
    open spec fn obeys_from_spec() -> bool {
        true
    }

    open spec fn from_spec(offset: Offset) -> MemoryInt {
        offset@
    }
}

impl From<Offset> for MemoryBits {
    fn from(offset: Offset) -> (i: MemoryBits)
        ensures
            i == offset@,
    {
        offset.0 as MemoryBits
    }
}

impl FromSpecImpl<Offset> for MemoryBits {
    open spec fn obeys_from_spec() -> bool {
        true
    }

    open spec fn from_spec(offset: Offset) -> MemoryBits {
        offset@ as MemoryBits
    }
}

impl From<MemoryInt> for Offset {
    fn from(i: MemoryInt) -> (offset: Offset)
        ensures
            offset@ == i,
    {
        Offset(i)
    }
}

impl FromSpecImpl<MemoryInt> for Offset {
    open spec fn obeys_from_spec() -> bool {
        true
    }

    closed spec fn from_spec(i: MemoryInt) -> Offset {
        Offset(i)
    }
}

impl From<Length> for MemoryInt {
    fn from(length: Length) -> (i: MemoryInt)
        ensures
            i == length@,
    {
        length.0
    }
}

impl FromSpecImpl<Length> for MemoryInt {
    open spec fn obeys_from_spec() -> bool {
        true
    }

    open spec fn from_spec(length: Length) -> MemoryInt {
        length@
    }
}

impl From<Length> for MemoryBits {
    fn from(length: Length) -> (i: MemoryBits)
        ensures
            i == length@,
    {
        length.0 as MemoryBits
    }
}

impl FromSpecImpl<Length> for MemoryBits {
    open spec fn obeys_from_spec() -> bool {
        true
    }

    open spec fn from_spec(length: Length) -> MemoryBits {
        length@ as MemoryBits
    }
}

impl From<MemoryInt> for Length {
    fn from(i: MemoryInt) -> (length: Length)
        ensures
            length@ == i,
    {
        Length(i)
    }
}

impl FromSpecImpl<MemoryInt> for Length {
    open spec fn obeys_from_spec() -> bool {
        true
    }

    closed spec fn from_spec(i: MemoryInt) -> Length {
        Length(i)
    }
}

impl From<Length> for usize {
    /// Returns the length as a count of bytes.
    fn from(length: Length) -> (i: usize)
        ensures
            i == length@,
    {
        length.0 as usize
    }
}

impl FromSpecImpl<Length> for usize {
    open spec fn obeys_from_spec() -> bool {
        true
    }

    open spec fn from_spec(length: Length) -> usize {
        length@ as usize
    }
}

/// Why a region of guest memory was refused.
#[derive(Debug, Clone, Copy, PartialEq, Eq, Structural)]
pub enum AllocationError {
    /// The region is too large, or reaches past the end of guest memory.
    OutOfBounds,
    /// The region holds no byte.
    ZeroLength,
    /// The region does not lie at the top of the stack.
    BadStackAlignment,
    /// The data could not be turned into bytes before a region was taken
    /// for it.
    Serialization,
}

impl AllocationError {
    /// The sentence that describes this error.
    pub open spec fn spec_description(self) -> Seq<char> {
        match self {
            AllocationError::OutOfBounds => "Allocation out of bounds"@,
            AllocationError::ZeroLength => "Allocation is zero length"@,
            AllocationError::BadStackAlignment => "Allocation is not aligned with stack"@,
            AllocationError::Serialization => "Allocation could not serialize data"@,
        }
    }
}

impl From<AllocationError> for String {
    /// Returns the sentence that describes `allocation_error`.
    fn from(allocation_error: AllocationError) -> (description: String)
        ensures
            description@ == allocation_error.spec_description(),
    {
        match allocation_error {
            AllocationError::OutOfBounds => "Allocation out of bounds".to_owned(),
            AllocationError::ZeroLength => "Allocation is zero length".to_owned(),
            AllocationError::BadStackAlignment => "Allocation is not aligned with stack".to_owned(),
            AllocationError::Serialization => "Allocation could not serialize data".to_owned(),
        }
    }
}

/// A `String` is spoken of by its characters, so the contract of `from`
/// states them, and `from_spec` is left open.
impl FromSpecImpl<AllocationError> for String {
    open spec fn obeys_from_spec() -> bool {
        false
    }

    open spec fn from_spec(allocation_error: AllocationError) -> String {
        arbitrary()
    }
}

impl From<AllocationError> for HolochainError {
    /// Returns the generic fault that carries the description of
    /// `allocation_error`.
    fn from(allocation_error: AllocationError) -> (error: HolochainError)
        ensures
            error.is_generic(allocation_error.spec_description()),
    {
        HolochainError::ErrorGeneric(String::from(allocation_error))
    }
}

/// The fault holds a `String`, so the contract of `from` states its
/// characters, and `from_spec` is left open.
impl FromSpecImpl<AllocationError> for HolochainError {
    open spec fn obeys_from_spec() -> bool {
        false
    }

    open spec fn from_spec(allocation_error: AllocationError) -> HolochainError {
        arbitrary()
    }
}

/// A region of guest memory that holds at least one byte and ends no later
/// than guest memory does.
#[derive(Copy, Clone, Debug)]
pub struct WasmAllocation {
    offset: Offset,
    length: Length,
}

/// A region, or the reason why it was refused.
pub type AllocationResult = Result<WasmAllocation, AllocationError>;

impl WasmAllocation {
    /// Where the region starts.
    pub closed spec fn spec_offset(self) -> Offset {
        self.offset
    }

    /// How many bytes the region holds.
    pub closed spec fn spec_length(self) -> Length {
        self.length
    }

    /// The length is not zero, and offset and length together do not exceed
    /// the largest `MemoryInt`.
    #[verifier::type_invariant]
    pub open spec fn wf(self) -> bool {
        &&& self.spec_length()@ != 0
        &&& self.spec_offset()@ + self.spec_length()@ <= MEMORY_INT_MAX
    }

    /// Why a region of `length` bytes at `offset` is refused, if it is.
    /// A region that reaches too far is out of bounds, whatever its length;
    /// one that does not and holds no byte has zero length.
    pub open spec fn spec_refusal(offset: MemoryInt, length: MemoryInt) -> Option<
        AllocationError,
    > {
        if offset + length > MEMORY_INT_MAX {
            Some(AllocationError::OutOfBounds)
        } else if length == 0 {
            Some(AllocationError::ZeroLength)
        } else {
            None
        }
    }

    /// Returns the largest value that the sum of an offset and a length may
    /// have.
    pub fn max() -> (max: MemoryBits)
        ensures
            max == MEMORY_INT_MAX,
    {
        MEMORY_INT_MAX
    }

    /// Returns the region of `length` bytes at `offset`, or the reason why
    /// there is no such region. The sum of the two is taken in `MemoryBits`,
    /// where it cannot overflow.
    pub fn new(offset: Offset, length: Length) -> (allocation: AllocationResult)
        ensures
            match WasmAllocation::spec_refusal(offset@, length@) {
                Some(reason) => allocation == Err::<WasmAllocation, AllocationError>(reason),
                None => allocation is Ok && allocation->Ok_0.spec_offset() == offset
                    && allocation->Ok_0.spec_length() == length,
            },
            allocation == Err::<WasmAllocation, AllocationError>(AllocationError::OutOfBounds)
                <==> offset@ + length@ > MEMORY_INT_MAX,
            allocation == Err::<WasmAllocation, AllocationError>(AllocationError::ZeroLength)
                <==> length@ == 0,
            allocation is Ok <==> length@ != 0 && offset@ + length@ <= MEMORY_INT_MAX,
            allocation is Ok ==> allocation->Ok_0.wf(),
    {
        if (MemoryBits::from(offset) + MemoryBits::from(length)) > WasmAllocation::max() {
            Err(AllocationError::OutOfBounds)
        } else if MemoryInt::from(length) == 0 {
            Err(AllocationError::ZeroLength)
        } else {
            Ok(WasmAllocation { offset, length })
        }
    }

    /// Returns where the region starts.
    #[verifier::when_used_as_spec(spec_offset)]
    pub fn offset(self) -> (offset: Offset)
        ensures
            offset == self.spec_offset(),
    {
        self.offset
    }

    /// Returns how many bytes the region holds.
    #[verifier::when_used_as_spec(spec_length)]
    pub fn length(self) -> (length: Length)
        ensures
            length == self.spec_length(),
    {
        self.length
    }

    /// A region is refused as out of bounds exactly when its offset and
    /// its length together exceed the largest `MemoryInt`.
    pub proof fn lemma_out_of_bounds_iff_sum_exceeds_max(offset: MemoryInt, length: MemoryInt)
        ensures
            WasmAllocation::spec_refusal(offset, length) == Some(AllocationError::OutOfBounds)
                <==> offset + length > MEMORY_INT_MAX,
    {
    }

    /// A region without a byte is refused for its zero length, wherever it
    /// starts.
    pub proof fn lemma_zero_length_is_refused(offset: MemoryInt)
        ensures
            WasmAllocation::spec_refusal(offset, 0) == Some(AllocationError::ZeroLength),
    {
    }

    /// A region is made exactly when it holds a byte and ends no later than
    /// guest memory does. Making a region never fails for the alignment of
    /// the stack or for data that could not be turned into bytes: those
    /// two errors belong to the users of a region.
    pub proof fn lemma_accepted_iff_well_formed(offset: MemoryInt, length: MemoryInt)
        ensures
            WasmAllocation::spec_refusal(offset, length) is None <==> length != 0 && offset
                + length <= MEMORY_INT_MAX,
            WasmAllocation::spec_refusal(offset, length) != Some(
                AllocationError::BadStackAlignment,
            ),
            WasmAllocation::spec_refusal(offset, length) != Some(AllocationError::Serialization),
    {
    }

    /// Two regions with the same offset and the same length are the same
    /// region.
    pub proof fn lemma_equal_by_parts(self, other: WasmAllocation)
        requires
            self.spec_offset()@ == other.spec_offset()@,
            self.spec_length()@ == other.spec_length()@,
        ensures
            self == other,
    {
    }
}

} // verus!
