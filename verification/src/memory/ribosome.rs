//! Regions of guest memory as words that a guest call returns.

use crate::bits_n_pieces::{
    lemma_merge_of_split, lemma_split_of_merge, spec_u32_high_bits, spec_u32_low_bits,
    spec_u32_merge_bits, u32_merge_bits, u32_split_bits,
};
use crate::error::ribosome_error::{
    RibosomeEncodedAllocation, RibosomeEncodingBits, RibosomeReturnCode,
};
use crate::memory::allocation::{
    AllocationError, AllocationResult, Length, Offset, WasmAllocation,
};
use crate::memory::MemoryInt;
use vstd::prelude::*;
use vstd::std_specs::convert::{FromSpecImpl, TryFromSpecImpl};

verus! {

impl WasmAllocation {
    /// The word that packs this region: the offset in the upper half, the
    /// length in the lower half.
    pub open spec fn spec_encode(self) -> RibosomeEncodingBits {
        spec_u32_merge_bits(self.spec_offset()@, self.spec_length()@)
    }

    /// The word of a region has the region's length, which is not zero, in
    /// its lower half and the region's offset in its upper half. So it
    /// decodes to an allocation, never to an error code or to success, and
    /// a region can be made from its halves again.
    pub proof fn lemma_encoding_is_an_allocation(self)
        requires
            self.wf(),
        ensures
            spec_u32_low_bits(self.spec_encode()) == self.spec_length()@,
            spec_u32_low_bits(self.spec_encode()) != 0,
            spec_u32_high_bits(self.spec_encode()) == self.spec_offset()@,
            RibosomeReturnCode::spec_decode(self.spec_encode()) !is Failure,
            RibosomeReturnCode::spec_decode(self.spec_encode()) == RibosomeReturnCode::Allocation(
                RibosomeEncodedAllocation::spec_from_bits(self.spec_encode()),
            ),
            WasmAllocation::spec_refusal(
                spec_u32_high_bits(self.spec_encode()),
                spec_u32_low_bits(self.spec_encode()),
            ) is None,
    {
        lemma_split_of_merge(self.spec_offset()@, self.spec_length()@);
    }
}

impl From<WasmAllocation> for RibosomeEncodedAllocation {
    /// Returns the word that packs `wasm_allocation`. A return code that
    /// carries it decodes as an allocation.
    fn from(wasm_allocation: WasmAllocation) -> (encoded: RibosomeEncodedAllocation)
        ensures
            encoded@ == wasm_allocation.spec_encode(),
            spec_u32_high_bits(encoded@) == wasm_allocation.spec_offset()@,
            spec_u32_low_bits(encoded@) == wasm_allocation.spec_length()@,
            RibosomeReturnCode::spec_decode(encoded@) == RibosomeReturnCode::Allocation(encoded),
    {
        proof {
            use_type_invariant(&wasm_allocation);
            wasm_allocation.lemma_encoding_is_an_allocation();
        }
        let offset: MemoryInt = MemoryInt::from(wasm_allocation.offset());
        let length: MemoryInt = MemoryInt::from(wasm_allocation.length());
        RibosomeEncodedAllocation::from_bits(u32_merge_bits(offset, length))
    }
}

impl FromSpecImpl<WasmAllocation> for RibosomeEncodedAllocation {
    open spec fn obeys_from_spec() -> bool {
        true
    }

    open spec fn from_spec(wasm_allocation: WasmAllocation) -> RibosomeEncodedAllocation {
        RibosomeEncodedAllocation::spec_from_bits(wasm_allocation.spec_encode())
    }
}

impl TryFrom<RibosomeEncodedAllocation> for WasmAllocation {
    type Error = AllocationError;

    /// Returns the region that `ribosome_memory_allocation` packs: its
    /// upper half as the offset, its lower half as the length. The two are
    /// held to what every region is held to, so a word whose halves
    /// together exceed the largest `MemoryInt` is refused as out of bounds.
    /// The length of an encoded allocation is never zero.
    fn try_from(ribosome_memory_allocation: RibosomeEncodedAllocation) -> (allocation:
        AllocationResult)
        ensures
            match WasmAllocation::spec_refusal(
                spec_u32_high_bits(ribosome_memory_allocation@),
                spec_u32_low_bits(ribosome_memory_allocation@),
            ) {
                Some(reason) => allocation == Err::<WasmAllocation, AllocationError>(reason),
                None => allocation is Ok && allocation->Ok_0.spec_offset()@ == spec_u32_high_bits(
                    ribosome_memory_allocation@,
                ) && allocation->Ok_0.spec_length()@ == spec_u32_low_bits(
                    ribosome_memory_allocation@,
                ) && allocation->Ok_0.spec_encode() == ribosome_memory_allocation@,
            },
            allocation != Err::<WasmAllocation, AllocationError>(AllocationError::ZeroLength),
    {
        proof {
            use_type_invariant(&ribosome_memory_allocation);
            lemma_merge_of_split(ribosome_memory_allocation@);
        }
        let (offset, length) = u32_split_bits(
            RibosomeEncodingBits::from(ribosome_memory_allocation),
        );
        WasmAllocation::new(Offset::from(offset), Length::from(length))
    }
}

/// A region is spoken of by its offset and its length, so the contract of
/// `try_from` states the result by them, and `try_from_spec` is left open.
impl TryFromSpecImpl<RibosomeEncodedAllocation> for WasmAllocation {
    open spec fn obeys_try_from_spec() -> bool {
        false
    }

    open spec fn try_from_spec(ribosome_memory_allocation: RibosomeEncodedAllocation) -> Result<
        WasmAllocation,
        AllocationError,
    > {
        arbitrary()
    }
}

} // verus!
