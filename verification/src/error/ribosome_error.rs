//! Return codes of guest calls and the 32-bit word that carries them.

use crate::bits_n_pieces::{
    lemma_merge_of_split, spec_u32_high_bits, spec_u32_low_bits, spec_u32_merge_bits,
    u32_merge_bits, u32_split_bits,
};
use crate::error::HolochainError;
use crate::text::{
    decimal_digits, digit_char, is_digit_char, lemma_decimal_digits_are_digits, str_eq,
    u32_to_decimal,
};
use std::str::FromStr;
use vstd::pervasive::unreached;
use vstd::prelude::*;
use vstd::std_specs::convert::FromSpecImpl;

verus! {

/// The integer that carries a return code between guest and host.
pub type RibosomeEncodingBits = u32;

/// The integer that the guest's call slot holds.
pub type RibosomeRuntimeBits = i32;

/// The integer that numbers an error code: the upper half of an encoding.
pub type RibosomeCodeBits = u16;

/// The error that a guest call can report.
#[derive(Clone, Copy, Debug, PartialEq, Eq, Hash, Structural)]
pub enum RibosomeErrorCode {
    Unspecified,
    ArgumentDeserializationFailed,
    OutOfMemory,
    ReceivedWrongActionResult,
    CallbackFailed,
    RecursiveCallForbidden,
    ResponseSerializationFailed,
    NotAnAllocation,
    ZeroSizedAllocation,
    UnknownEntryType,
}

impl RibosomeErrorCode {
    /// The number of this code, from 1 to 10.
    pub open spec fn spec_code_int(self) -> RibosomeCodeBits {
        match self {
            RibosomeErrorCode::Unspecified => 1,
            RibosomeErrorCode::ArgumentDeserializationFailed => 2,
            RibosomeErrorCode::OutOfMemory => 3,
            RibosomeErrorCode::ReceivedWrongActionResult => 4,
            RibosomeErrorCode::CallbackFailed => 5,
            RibosomeErrorCode::RecursiveCallForbidden => 6,
            RibosomeErrorCode::ResponseSerializationFailed => 7,
            RibosomeErrorCode::NotAnAllocation => 8,
            RibosomeErrorCode::ZeroSizedAllocation => 9,
            RibosomeErrorCode::UnknownEntryType => 10,
        }
    }

    /// The code that a number stands for. A number that no code has stands
    /// for `Unspecified`.
    pub open spec fn spec_from_code_int(code: RibosomeCodeBits) -> RibosomeErrorCode {
        if code == 2 {
            RibosomeErrorCode::ArgumentDeserializationFailed
        } else if code == 3 {
            RibosomeErrorCode::OutOfMemory
        } else if code == 4 {
            RibosomeErrorCode::ReceivedWrongActionResult
        } else if code == 5 {
            RibosomeErrorCode::CallbackFailed
        } else if code == 6 {
            RibosomeErrorCode::RecursiveCallForbidden
        } else if code == 7 {
            RibosomeErrorCode::ResponseSerializationFailed
        } else if code == 8 {
            RibosomeErrorCode::NotAnAllocation
        } else if code == 9 {
            RibosomeErrorCode::ZeroSizedAllocation
        } else if code == 10 {
            RibosomeErrorCode::UnknownEntryType
        } else {
            RibosomeErrorCode::Unspecified
        }
    }

    /// The word that carries this code: its number in the upper half, zero
    /// in the lower half.
    pub open spec fn spec_encode(self) -> RibosomeEncodingBits {
        spec_u32_merge_bits(self.spec_code_int(), 0)
    }

    /// Returns the number of this code.
    pub fn code_int(&self) -> (code: RibosomeCodeBits)
        ensures
            code == self.spec_code_int(),
    {
        match self {
            RibosomeErrorCode::Unspecified => 1,
            RibosomeErrorCode::ArgumentDeserializationFailed => 2,
            RibosomeErrorCode::OutOfMemory => 3,
            RibosomeErrorCode::ReceivedWrongActionResult => 4,
            RibosomeErrorCode::CallbackFailed => 5,
            RibosomeErrorCode::RecursiveCallForbidden => 6,
            RibosomeErrorCode::ResponseSerializationFailed => 7,
            RibosomeErrorCode::NotAnAllocation => 8,
            RibosomeErrorCode::ZeroSizedAllocation => 9,
            RibosomeErrorCode::UnknownEntryType => 10,
        }
    }

    /// Returns the code that `code` numbers, and `Unspecified` for a number
    /// above 10. Zero numbers no code and may not be passed: a caller that
    /// passes it all the same is stopped by a panic.
    pub fn from_code_int(code: RibosomeCodeBits) -> (error_code: RibosomeErrorCode)
        requires
            code != 0,
        ensures
            error_code == RibosomeErrorCode::spec_from_code_int(code),
            code <= 10 ==> error_code.spec_code_int() == code,
            code > 10 ==> error_code == RibosomeErrorCode::Unspecified,
    {
        match code {
            0 => unreached(),
            2 => RibosomeErrorCode::ArgumentDeserializationFailed,
            3 => RibosomeErrorCode::OutOfMemory,
            4 => RibosomeErrorCode::ReceivedWrongActionResult,
            5 => RibosomeErrorCode::CallbackFailed,
            6 => RibosomeErrorCode::RecursiveCallForbidden,
            7 => RibosomeErrorCode::ResponseSerializationFailed,
            8 => RibosomeErrorCode::NotAnAllocation,
            9 => RibosomeErrorCode::ZeroSizedAllocation,
            10 => RibosomeErrorCode::UnknownEntryType,
            _ => RibosomeErrorCode::Unspecified,
        }
    }

    /// Returns the error code of a failure. Only a failure has one: success
    /// and allocations may not be passed, and a caller that passes one all
    /// the same is stopped by a panic.
    pub fn from_return_code(ret_code: RibosomeReturnCode) -> (error_code: RibosomeErrorCode)
        requires
            ret_code is Failure,
        ensures
            ret_code == RibosomeReturnCode::Failure(error_code),
    {
        match ret_code {
            RibosomeReturnCode::Failure(rib_err) => rib_err,
            _ => unreached(),
        }
    }

    /// The code that reports a fault of the host. A code that a guest
    /// reported stands for itself. A fault in turning values into text is
    /// an argument that could not be read, a refused system entry is an
    /// unknown entry type, and what is missing or was refused by a callback
    /// is a failed callback. Every other fault is unspecified.
    pub open spec fn spec_from_error(error: HolochainError) -> RibosomeErrorCode {
        match error {
            HolochainError::Ribosome(e) => e,
            HolochainError::SerializationError(_) => {
                RibosomeErrorCode::ArgumentDeserializationFailed
            },
            HolochainError::InvalidOperationOnSysEntry => RibosomeErrorCode::UnknownEntryType,
            HolochainError::NotImplemented
            | HolochainError::ValidationFailed(_)
            | HolochainError::RibosomeFailed(_) => RibosomeErrorCode::CallbackFailed,
            HolochainError::ErrorGeneric(_)
            | HolochainError::LoggingError
            | HolochainError::DnaMissing
            | HolochainError::Dna(_)
            | HolochainError::IoError(_)
            | HolochainError::CapabilityCheckFailed
            | HolochainError::ConfigError(_)
            | HolochainError::Timeout => RibosomeErrorCode::Unspecified,
        }
    }

    /// The fixed label of this code, as people read it.
    pub open spec fn spec_label(self) -> Seq<char> {
        match self {
            RibosomeErrorCode::Unspecified => "Unspecified"@,
            RibosomeErrorCode::ArgumentDeserializationFailed => "Argument deserialization failed"@,
            RibosomeErrorCode::OutOfMemory => "Out of memory"@,
            RibosomeErrorCode::ReceivedWrongActionResult => "Received wrong action result"@,
            RibosomeErrorCode::CallbackFailed => "Callback failed"@,
            RibosomeErrorCode::RecursiveCallForbidden => "Recursive call forbidden"@,
            RibosomeErrorCode::ResponseSerializationFailed => "Response serialization failed"@,
            RibosomeErrorCode::NotAnAllocation => "Not an allocation"@,
            RibosomeErrorCode::ZeroSizedAllocation => "Zero-sized allocation"@,
            RibosomeErrorCode::UnknownEntryType => "Unknown entry type"@,
        }
    }

    /// The code that has `text` as its label, if any has.
    pub open spec fn spec_from_label(text: Seq<char>) -> Option<RibosomeErrorCode> {
        if text == "Unspecified"@ {
            Some(RibosomeErrorCode::Unspecified)
        } else if text == "Argument deserialization failed"@ {
            Some(RibosomeErrorCode::ArgumentDeserializationFailed)
        } else if text == "Out of memory"@ {
            Some(RibosomeErrorCode::OutOfMemory)
        } else if text == "Received wrong action result"@ {
            Some(RibosomeErrorCode::ReceivedWrongActionResult)
        } else if text == "Callback failed"@ {
            Some(RibosomeErrorCode::CallbackFailed)
        } else if text == "Recursive call forbidden"@ {
            Some(RibosomeErrorCode::RecursiveCallForbidden)
        } else if text == "Response serialization failed"@ {
            Some(RibosomeErrorCode::ResponseSerializationFailed)
        } else if text == "Not an allocation"@ {
            Some(RibosomeErrorCode::NotAnAllocation)
        } else if text == "Zero-sized allocation"@ {
            Some(RibosomeErrorCode::ZeroSizedAllocation)
        } else if text == "Unknown entry type"@ {
            Some(RibosomeErrorCode::UnknownEntryType)
        } else {
            None
        }
    }

    /// The description of the fault that parsing reports for a text that is
    /// no label.
    pub open spec fn spec_unknown_label_description() -> Seq<char> {
        "Unknown RibosomeErrorCode"@
    }

    /// Returns the label of this code.
    pub fn as_str(&self) -> (label: &str)
        ensures
            label@ == self.spec_label(),
    {
        match self {
            RibosomeErrorCode::Unspecified => "Unspecified",
            RibosomeErrorCode::ArgumentDeserializationFailed => "Argument deserialization failed",
            RibosomeErrorCode::OutOfMemory => "Out of memory",
            RibosomeErrorCode::ReceivedWrongActionResult => "Received wrong action result",
            RibosomeErrorCode::CallbackFailed => "Callback failed",
            RibosomeErrorCode::RecursiveCallForbidden => "Recursive call forbidden",
            RibosomeErrorCode::ResponseSerializationFailed => "Response serialization failed",
            RibosomeErrorCode::NotAnAllocation => "Not an allocation",
            RibosomeErrorCode::ZeroSizedAllocation => "Zero-sized allocation",
            RibosomeErrorCode::UnknownEntryType => "Unknown entry type",
        }
    }

    /// Returns the label of this code as an owned string.
    pub fn to_string(&self) -> (label: String)
        ensures
            label@ == self.spec_label(),
    {
        self.as_str().to_owned()
    }
}

impl FromStr for RibosomeErrorCode {
    type Err = HolochainError;

    /// Returns the code that has `s` as its label. A text that is the label
    /// of no code is refused with a generic fault.
    fn from_str(s: &str) -> (parsed: Result<RibosomeErrorCode, HolochainError>)
        ensures
            match RibosomeErrorCode::spec_from_label(s@) {
                Some(code) => parsed == Ok::<RibosomeErrorCode, HolochainError>(code),
                None => parsed is Err && parsed->Err_0.is_generic(
                    RibosomeErrorCode::spec_unknown_label_description(),
                ),
            },
    {
        if str_eq(s, "Unspecified") {
            Ok(RibosomeErrorCode::Unspecified)
        } else if str_eq(s, "Argument deserialization failed") {
            Ok(RibosomeErrorCode::ArgumentDeserializationFailed)
        } else if str_eq(s, "Out of memory") {
            Ok(RibosomeErrorCode::OutOfMemory)
        } else if str_eq(s, "Received wrong action result") {
            Ok(RibosomeErrorCode::ReceivedWrongActionResult)
        } else if str_eq(s, "Callback failed") {
            Ok(RibosomeErrorCode::CallbackFailed)
        } else if str_eq(s, "Recursive call forbidden") {
            Ok(RibosomeErrorCode::RecursiveCallForbidden)
        } else if str_eq(s, "Response serialization failed") {
            Ok(RibosomeErrorCode::ResponseSerializationFailed)
        } else if str_eq(s, "Not an allocation") {
            Ok(RibosomeErrorCode::NotAnAllocation)
        } else if str_eq(s, "Zero-sized allocation") {
            Ok(RibosomeErrorCode::ZeroSizedAllocation)
        } else if str_eq(s, "Unknown entry type") {
            Ok(RibosomeErrorCode::UnknownEntryType)
        } else {
            Err(HolochainError::ErrorGeneric("Unknown RibosomeErrorCode".to_owned()))
        }
    }
}

impl From<HolochainError> for RibosomeErrorCode {
    /// Returns the code that reports `error` to the caller of a guest. The
    /// code that a guest reported is kept; of the other faults, several
    /// share one code.
    fn from(error: HolochainError) -> (code: RibosomeErrorCode)
        ensures
            code == RibosomeErrorCode::spec_from_error(error),
    {
        match error {
            HolochainError::ErrorGeneric(_) => RibosomeErrorCode::Unspecified,
            HolochainError::NotImplemented => RibosomeErrorCode::CallbackFailed,
            HolochainError::LoggingError => RibosomeErrorCode::Unspecified,
            HolochainError::DnaMissing => RibosomeErrorCode::Unspecified,
            HolochainError::Dna(_) => RibosomeErrorCode::Unspecified,
            HolochainError::IoError(_) => RibosomeErrorCode::Unspecified,
            HolochainError::SerializationError(_) => {
                RibosomeErrorCode::ArgumentDeserializationFailed
            },
            HolochainError::InvalidOperationOnSysEntry => RibosomeErrorCode::UnknownEntryType,
            HolochainError::CapabilityCheckFailed => RibosomeErrorCode::Unspecified,
            HolochainError::ValidationFailed(_) => RibosomeErrorCode::CallbackFailed,
            HolochainError::Ribosome(e) => e,
            HolochainError::RibosomeFailed(_) => RibosomeErrorCode::CallbackFailed,
            HolochainError::ConfigError(_) => RibosomeErrorCode::Unspecified,
            HolochainError::Timeout => RibosomeErrorCode::Unspecified,
        }
    }
}

impl FromSpecImpl<HolochainError> for RibosomeErrorCode {
    open spec fn obeys_from_spec() -> bool {
        true
    }

    open spec fn from_spec(error: HolochainError) -> RibosomeErrorCode {
        RibosomeErrorCode::spec_from_error(error)
    }
}

impl From<RibosomeErrorCode> for String {
    /// Returns the label of `ribosome_error_code`.
    fn from(ribosome_error_code: RibosomeErrorCode) -> (label: String)
        ensures
            label@ == ribosome_error_code.spec_label(),
    {
        ribosome_error_code.to_string()
    }
}

/// A `String` is spoken of by its characters, so the contract of `from`
/// states them, and `from_spec` is left open.
impl FromSpecImpl<RibosomeErrorCode> for String {
    open spec fn obeys_from_spec() -> bool {
        false
    }

    open spec fn from_spec(ribosome_error_code: RibosomeErrorCode) -> String {
        arbitrary()
    }
}

impl From<RibosomeErrorCode> for RibosomeEncodingBits {
    /// Returns the word that carries `code`.
    fn from(code: RibosomeErrorCode) -> (bits: RibosomeEncodingBits)
        ensures
            bits == code.spec_encode(),
    {
        u32_merge_bits(code.code_int(), 0)
    }
}

impl FromSpecImpl<RibosomeErrorCode> for RibosomeEncodingBits {
    open spec fn obeys_from_spec() -> bool {
        true
    }

    open spec fn from_spec(code: RibosomeErrorCode) -> RibosomeEncodingBits {
        code.spec_encode()
    }
}

impl RibosomeErrorCode {
    /// The number of a code lies between 1 and 10, and stands for that code.
    pub proof fn lemma_code_int_round_trip(self)
        ensures
            1 <= self.spec_code_int() <= 10,
            RibosomeErrorCode::spec_from_code_int(self.spec_code_int()) == self,
    {
    }

    /// A number between 1 and 10 stands for the code that has that number.
    pub proof fn lemma_from_code_int_round_trip(code: RibosomeCodeBits)
        requires
            1 <= code <= 10,
        ensures
            RibosomeErrorCode::spec_from_code_int(code).spec_code_int() == code,
    {
    }

    /// The word of a code is its number times 65536: not zero, with the
    /// number in the upper half and zero in the lower half.
    pub proof fn lemma_encode_halves(self)
        ensures
            self.spec_encode() == self.spec_code_int() * 0x1_0000,
            self.spec_encode() != 0,
            spec_u32_high_bits(self.spec_encode()) == self.spec_code_int(),
            spec_u32_low_bits(self.spec_encode()) == 0,
    {
    }

    /// The label of a code is the label of no other code: reading a code's
    /// label gives the code back.
    pub proof fn lemma_label_round_trip(self)
        ensures
            RibosomeErrorCode::spec_from_label(self.spec_label()) == Some(self),
    {
        reveal_strlit("Unspecified");
        reveal_strlit("Argument deserialization failed");
        reveal_strlit("Out of memory");
        reveal_strlit("Received wrong action result");
        reveal_strlit("Callback failed");
        reveal_strlit("Recursive call forbidden");
        reveal_strlit("Response serialization failed");
        reveal_strlit("Not an allocation");
        reveal_strlit("Zero-sized allocation");
        reveal_strlit("Unknown entry type");
        // The ten labels have ten different lengths.
        assert("Unspecified"@.len() == 11);
        assert("Argument deserialization failed"@.len() == 31);
        assert("Out of memory"@.len() == 13);
        assert("Received wrong action result"@.len() == 28);
        assert("Callback failed"@.len() == 15);
        assert("Recursive call forbidden"@.len() == 24);
        assert("Response serialization failed"@.len() == 29);
        assert("Not an allocation"@.len() == 17);
        assert("Zero-sized allocation"@.len() == 21);
        assert("Unknown entry type"@.len() == 18);
    }

    /// A text that names a code is the label of that code.
    pub proof fn lemma_from_label_gives_label(text: Seq<char>)
        requires
            RibosomeErrorCode::spec_from_label(text) is Some,
        ensures
            RibosomeErrorCode::spec_from_label(text)->Some_0.spec_label() == text,
    {
    }

    /// No label starts with a digit, and none is `Success`.
    pub proof fn lemma_label_is_no_numeral(self)
        ensures
            self.spec_label().len() > 0,
            !is_digit_char(self.spec_label()[0]),
            self.spec_label() != "Success"@,
    {
        reveal_strlit("Success");
        reveal_strlit("Unspecified");
        reveal_strlit("Argument deserialization failed");
        reveal_strlit("Out of memory");
        reveal_strlit("Received wrong action result");
        reveal_strlit("Callback failed");
        reveal_strlit("Recursive call forbidden");
        reveal_strlit("Response serialization failed");
        reveal_strlit("Not an allocation");
        reveal_strlit("Zero-sized allocation");
        reveal_strlit("Unknown entry type");
        let first = self.spec_label()[0];
        assert forall|d: nat| d < 10 implies first != #[trigger] digit_char(d) by {}
    }
}

/// A word that packs the offset and the length of a region of guest memory:
/// the offset in the upper half, the length in the lower half. The length
/// is never zero, which tells such a word from one that carries an error
/// code.
#[derive(Clone, Copy, Debug, PartialEq, Eq, Structural)]
pub struct RibosomeEncodedAllocation(RibosomeEncodingBits);

impl View for RibosomeEncodedAllocation {
    type V = RibosomeEncodingBits;

    closed spec fn view(&self) -> RibosomeEncodingBits {
        self.0
    }
}

impl RibosomeEncodedAllocation {
    /// The lower half of the word, where the length stands, is not zero.
    #[verifier::type_invariant]
    pub open spec fn wf(self) -> bool {
        spec_u32_low_bits(self@) != 0
    }

    /// The value whose word is `bits`.
    pub closed spec fn spec_from_bits(bits: RibosomeEncodingBits) -> RibosomeEncodedAllocation {
        RibosomeEncodedAllocation(bits)
    }

    /// The word of the value made from `bits` is `bits`.
    pub proof fn lemma_view_of_bits(bits: RibosomeEncodingBits)
        ensures
            RibosomeEncodedAllocation::spec_from_bits(bits)@ == bits,
    {
    }

    /// A value is the one made from its word: two values with the same word
    /// are the same value.
    pub proof fn lemma_bits_of_view(self)
        ensures
            RibosomeEncodedAllocation::spec_from_bits(self@) == self,
    {
    }

    /// Wraps a word whose lower half is not zero.
    pub(crate) fn from_bits(bits: RibosomeEncodingBits) -> (allocation: RibosomeEncodedAllocation)
        requires
            spec_u32_low_bits(bits) != 0,
        ensures
            allocation == RibosomeEncodedAllocation::spec_from_bits(bits),
            allocation@ == bits,
    {
        RibosomeEncodedAllocation(bits)
    }

    /// Returns the word in decimal.
    pub fn to_string(&self) -> (text: String)
        ensures
            text@ == decimal_digits(self@ as nat),
    {
        u32_to_decimal(self.0)
    }
}

impl From<RibosomeEncodedAllocation> for RibosomeEncodingBits {
    /// Returns the word of `ribosome_memory_allocation`. Its lower half is
    /// not zero.
    fn from(ribosome_memory_allocation: RibosomeEncodedAllocation) -> (bits: RibosomeEncodingBits)
        ensures
            bits == ribosome_memory_allocation@,
            spec_u32_low_bits(bits) != 0,
    {
        proof {
            use_type_invariant(&ribosome_memory_allocation);
        }
        ribosome_memory_allocation.0
    }
}

impl FromSpecImpl<RibosomeEncodedAllocation> for RibosomeEncodingBits {
    open spec fn obeys_from_spec() -> bool {
        true
    }

    open spec fn from_spec(
        ribosome_memory_allocation: RibosomeEncodedAllocation,
    ) -> RibosomeEncodingBits {
        ribosome_memory_allocation@
    }
}

/// The outcome of a guest call: success without a result, the region of
/// guest memory that holds the result, or an error code.
#[derive(Clone, Copy, Debug, PartialEq, Eq, Structural)]
pub enum RibosomeReturnCode {
    Success,
    Allocation(RibosomeEncodedAllocation),
    Failure(RibosomeErrorCode),
}

impl RibosomeReturnCode {
    /// An allocation that the code carries has a length that is not zero.
    pub open spec fn wf(self) -> bool {
        self matches RibosomeReturnCode::Allocation(allocation) ==> allocation.wf()
    }

    /// The word that carries this code: zero for success, the word of the
    /// allocation, or the word of the error code.
    pub open spec fn spec_encode(self) -> RibosomeEncodingBits {
        match self {
            RibosomeReturnCode::Success => 0,
            RibosomeReturnCode::Allocation(allocation) => allocation@,
            RibosomeReturnCode::Failure(code) => code.spec_encode(),
        }
    }

    /// The code that a word carries. Zero is success. A word with zero in
    /// its lower half carries the error code that its upper half numbers.
    /// Every other word is an allocation.
    pub open spec fn spec_decode(i: RibosomeEncodingBits) -> RibosomeReturnCode {
        if i == 0 {
            RibosomeReturnCode::Success
        } else if spec_u32_low_bits(i) == 0 {
            RibosomeReturnCode::Failure(
                RibosomeErrorCode::spec_from_code_int(spec_u32_high_bits(i)),
            )
        } else {
            RibosomeReturnCode::Allocation(RibosomeEncodedAllocation::spec_from_bits(i))
        }
    }

    /// The word that the guest's call slot holds for this code: the bits of
    /// `spec_encode` read as a signed number.
    pub open spec fn spec_encode_runtime(self) -> RibosomeRuntimeBits {
        let bits = self.spec_encode();
        if bits < 0x8000_0000 {
            bits as RibosomeRuntimeBits
        } else {
            (bits - 0x1_0000_0000) as RibosomeRuntimeBits
        }
    }

    /// The text of this code: `Success`, the allocation's word in decimal,
    /// or the label of the error code.
    pub open spec fn spec_text(self) -> Seq<char> {
        match self {
            RibosomeReturnCode::Success => "Success"@,
            RibosomeReturnCode::Allocation(allocation) => decimal_digits(allocation@ as nat),
            RibosomeReturnCode::Failure(code) => code.spec_label(),
        }
    }

    /// The code that `text` names, if it names one: success, or the error
    /// code that has `text` as its label. No text names an allocation.
    pub open spec fn spec_from_text(text: Seq<char>) -> Option<RibosomeReturnCode> {
        if text == "Success"@ {
            Some(RibosomeReturnCode::Success)
        } else {
            match RibosomeErrorCode::spec_from_label(text) {
                Some(code) => Some(RibosomeReturnCode::Failure(code)),
                None => None,
            }
        }
    }

    /// Returns the failure that reports `err_code`.
    pub fn from_error(err_code: RibosomeErrorCode) -> (code: RibosomeReturnCode)
        ensures
            code == RibosomeReturnCode::Failure(err_code),
    {
        RibosomeReturnCode::Failure(err_code)
    }

    /// Returns the allocation that this code carries. Success carries none
    /// and is refused as a zero-sized allocation; a failure is refused with
    /// its own error code.
    pub fn allocation_or_err(&self) -> (allocation: Result<
        RibosomeEncodedAllocation,
        HolochainError,
    >)
        ensures
            allocation == match *self {
                RibosomeReturnCode::Allocation(ribosome_allocation) => Ok::<
                    RibosomeEncodedAllocation,
                    HolochainError,
                >(ribosome_allocation),
                RibosomeReturnCode::Success => Err::<RibosomeEncodedAllocation, HolochainError>(
                    HolochainError::Ribosome(RibosomeErrorCode::ZeroSizedAllocation),
                ),
                RibosomeReturnCode::Failure(err_code) => Err::<
                    RibosomeEncodedAllocation,
                    HolochainError,
                >(HolochainError::Ribosome(err_code)),
            },
    {
        match self {
            RibosomeReturnCode::Allocation(ribosome_allocation) => Ok(*ribosome_allocation),
            RibosomeReturnCode::Success => Err(
                HolochainError::Ribosome(RibosomeErrorCode::ZeroSizedAllocation),
            ),
            RibosomeReturnCode::Failure(err_code) => Err(HolochainError::Ribosome(*err_code)),
        }
    }

    /// Returns the text of this code.
    pub fn to_string(&self) -> (text: String)
        ensures
            text@ == self.spec_text(),
    {
        match self {
            RibosomeReturnCode::Success => "Success".to_owned(),
            RibosomeReturnCode::Allocation(allocation) => allocation.to_string(),
            RibosomeReturnCode::Failure(code) => code.to_string(),
        }
    }
}

impl From<RibosomeReturnCode> for RibosomeEncodingBits {
    /// Returns the word that carries `ribosome_return_code`. Decoding that
    /// word gives the code back.
    fn from(ribosome_return_code: RibosomeReturnCode) -> (bits: RibosomeEncodingBits)
        ensures
            bits == ribosome_return_code.spec_encode(),
            RibosomeReturnCode::spec_decode(bits) == ribosome_return_code,
            bits == 0 <==> ribosome_return_code is Success,
    {
        proof {
            if let RibosomeReturnCode::Allocation(allocation) = ribosome_return_code {
                use_type_invariant(&allocation);
            }
            RibosomeReturnCode::lemma_decode_of_encode(ribosome_return_code);
        }
        match ribosome_return_code {
            RibosomeReturnCode::Success => 0,
            RibosomeReturnCode::Allocation(allocation) => RibosomeEncodingBits::from(allocation),
            RibosomeReturnCode::Failure(code) => RibosomeEncodingBits::from(code),
        }
    }
}

impl FromSpecImpl<RibosomeReturnCode> for RibosomeEncodingBits {
    open spec fn obeys_from_spec() -> bool {
        true
    }

    open spec fn from_spec(ribosome_return_code: RibosomeReturnCode) -> RibosomeEncodingBits {
        ribosome_return_code.spec_encode()
    }
}

impl From<RibosomeReturnCode> for RibosomeRuntimeBits {
    /// Returns the word that carries `ribosome_return_code`, as the guest's
    /// call slot holds it: the same bits, read as a signed number.
    fn from(ribosome_return_code: RibosomeReturnCode) -> (bits: RibosomeRuntimeBits)
        ensures
            bits == ribosome_return_code.spec_encode_runtime(),
    {
        let encoded: RibosomeEncodingBits = RibosomeEncodingBits::from(ribosome_return_code);
        assert(encoded < 0x8000_0000 ==> (encoded as i32) == encoded) by (bit_vector);
        assert(encoded >= 0x8000_0000 ==> (encoded as i32) == encoded - 0x1_0000_0000)
            by (bit_vector);
        #[verifier::truncate]
        (encoded as RibosomeRuntimeBits)
    }
}

impl FromSpecImpl<RibosomeReturnCode> for RibosomeRuntimeBits {
    open spec fn obeys_from_spec() -> bool {
        true
    }

    open spec fn from_spec(ribosome_return_code: RibosomeReturnCode) -> RibosomeRuntimeBits {
        ribosome_return_code.spec_encode_runtime()
    }
}

impl From<HolochainError> for RibosomeReturnCode {
    /// Returns the failure that reports `error`.
    fn from(error: HolochainError) -> (code: RibosomeReturnCode)
        ensures
            code == RibosomeReturnCode::Failure(RibosomeErrorCode::spec_from_error(error)),
    {
        RibosomeReturnCode::Failure(RibosomeErrorCode::from(error))
    }
}

impl FromSpecImpl<HolochainError> for RibosomeReturnCode {
    open spec fn obeys_from_spec() -> bool {
        true
    }

    open spec fn from_spec(error: HolochainError) -> RibosomeReturnCode {
        RibosomeReturnCode::Failure(RibosomeErrorCode::spec_from_error(error))
    }
}

impl FromStr for RibosomeReturnCode {
    type Err = HolochainError;

    /// Returns the code that `s` names: success for `Success`, else the
    /// failure whose error code has `s` as its label. Any other text is
    /// refused with a generic fault.
    fn from_str(s: &str) -> (parsed: Result<RibosomeReturnCode, HolochainError>)
        ensures
            match RibosomeReturnCode::spec_from_text(s@) {
                Some(code) => parsed == Ok::<RibosomeReturnCode, HolochainError>(code),
                None => parsed is Err && parsed->Err_0.is_generic(
                    RibosomeErrorCode::spec_unknown_label_description(),
                ),
            },
    {
        if str_eq(s, "Success") {
            Ok(RibosomeReturnCode::Success)
        } else {
            match RibosomeErrorCode::from_str(s) {
                Ok(code) => Ok(RibosomeReturnCode::Failure(code)),
                Err(error) => Err(error),
            }
        }
    }
}

impl From<RibosomeEncodingBits> for RibosomeReturnCode {
    /// Returns the code that the word `i` carries. Every word carries one:
    /// zero is success, a word with zero in its lower half is a failure,
    /// and every other word is an allocation that holds the word.
    fn from(i: RibosomeEncodingBits) -> (code: RibosomeReturnCode)
        ensures
            code == RibosomeReturnCode::spec_decode(i),
            code.wf(),
            code is Success <==> i == 0,
            code is Failure <==> i != 0 && spec_u32_low_bits(i) == 0,
            code is Allocation <==> spec_u32_low_bits(i) != 0,
            code is Allocation ==> code->Allocation_0@ == i,
    {
        if i == 0 {
            RibosomeReturnCode::Success
        } else {
            let (code_int, maybe_allocation_length) = u32_split_bits(i);
            if maybe_allocation_length == 0 {
                RibosomeReturnCode::Failure(RibosomeErrorCode::from_code_int(code_int))
            } else {
                RibosomeReturnCode::Allocation(RibosomeEncodedAllocation::from_bits(i))
            }
        }
    }
}

impl FromSpecImpl<RibosomeEncodingBits> for RibosomeReturnCode {
    open spec fn obeys_from_spec() -> bool {
        true
    }

    open spec fn from_spec(i: RibosomeEncodingBits) -> RibosomeReturnCode {
        RibosomeReturnCode::spec_decode(i)
    }
}

impl RibosomeReturnCode {
    /// Decoding the word of a code gives the code back, for every code
    /// whose allocation, if it carries one, has a length that is not zero.
    pub proof fn lemma_decode_of_encode(code: RibosomeReturnCode)
        requires
            code.wf(),
        ensures
            RibosomeReturnCode::spec_decode(code.spec_encode()) == code,
    {
        if let RibosomeReturnCode::Failure(error_code) = code {
            RibosomeReturnCode::lemma_failure_round_trip(error_code);
        }
    }

    /// Decoding the word of an error code gives the failure with that code.
    pub proof fn lemma_failure_round_trip(code: RibosomeErrorCode)
        ensures
            RibosomeReturnCode::spec_decode(RibosomeReturnCode::Failure(code).spec_encode())
                == RibosomeReturnCode::Failure(code),
    {
        code.lemma_encode_halves();
        code.lemma_code_int_round_trip();
    }

    /// A word with zero in its lower half and a number above 10 in its
    /// upper half decodes to the unspecified failure.
    pub proof fn lemma_unknown_code_is_unspecified(i: RibosomeEncodingBits)
        requires
            spec_u32_low_bits(i) == 0,
            spec_u32_high_bits(i) > 10,
        ensures
            RibosomeReturnCode::spec_decode(i) == RibosomeReturnCode::Failure(
                RibosomeErrorCode::Unspecified,
            ),
    {
    }

    /// Zero decodes to success, and success encodes to zero.
    pub proof fn lemma_success_is_zero()
        ensures
            RibosomeReturnCode::spec_decode(0) == RibosomeReturnCode::Success,
            RibosomeReturnCode::Success.spec_encode() == 0,
    {
    }

    /// The word in the guest's call slot holds the same bits as the word
    /// that carries the code: read as an unsigned number again, it is that
    /// word.
    pub proof fn lemma_runtime_bits_are_the_same_bits(code: RibosomeReturnCode)
        ensures
            code.spec_encode_runtime() as RibosomeEncodingBits == code.spec_encode(),
    {
        let bits = code.spec_encode();
        let signed = code.spec_encode_runtime();
        assert(signed as u32 == bits) by (bit_vector)
            requires
                bits < 0x8000_0000 ==> signed == bits,
                bits >= 0x8000_0000 ==> signed == bits - 0x1_0000_0000,
        ;
    }

    /// Reading the text of success or of a failure gives the code back.
    pub proof fn lemma_text_round_trip(code: RibosomeReturnCode)
        requires
            code !is Allocation,
        ensures
            RibosomeReturnCode::spec_from_text(code.spec_text()) == Some(code),
    {
        reveal_strlit("Success");
        if let RibosomeReturnCode::Failure(error_code) = code {
            error_code.lemma_label_round_trip();
            error_code.lemma_label_is_no_numeral();
        }
    }

    /// The text of an allocation is a numeral, which names no code: an
    /// allocation cannot be read back from its text.
    pub proof fn lemma_allocation_text_names_no_code(allocation: RibosomeEncodedAllocation)
        ensures
            RibosomeReturnCode::spec_from_text(
                RibosomeReturnCode::Allocation(allocation).spec_text(),
            ) is None,
    {
        let text = decimal_digits(allocation@ as nat);
        lemma_decimal_digits_are_digits(allocation@ as nat);
        reveal_strlit("Success");
        assert("Success"@[0] == 'S');
        match RibosomeErrorCode::spec_from_label(text) {
            Some(error_code) => {
                RibosomeErrorCode::lemma_from_label_gives_label(text);
                error_code.lemma_label_is_no_numeral();
            },
            None => {},
        }
    }

    /// Every word decodes to a code whose allocation, if it carries one,
    /// has a length that is not zero.
    pub proof fn lemma_decode_wf(i: RibosomeEncodingBits)
        ensures
            RibosomeReturnCode::spec_decode(i).wf(),
    {
    }

    /// Encoding the code that a word carries gives the word back, unless
    /// the word has zero in its lower half and a number above 10 in its
    /// upper half: such a word carries the unspecified failure, whose word
    /// has 1 in its upper half.
    pub proof fn lemma_encode_of_decode(i: RibosomeEncodingBits)
        requires
            spec_u32_low_bits(i) != 0 || spec_u32_high_bits(i) <= 10,
        ensures
            RibosomeReturnCode::spec_decode(i).spec_encode() == i,
    {
        lemma_merge_of_split(i);
        if i != 0 && spec_u32_low_bits(i) == 0 {
            RibosomeErrorCode::lemma_from_code_int_round_trip(spec_u32_high_bits(i));
        }
    }
}

} // verus!
