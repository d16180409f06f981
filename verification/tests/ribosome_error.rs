use ribosome_encoding::error::ribosome_error::{
    RibosomeEncodedAllocation, RibosomeEncodingBits, RibosomeErrorCode, RibosomeReturnCode,
    RibosomeRuntimeBits,
};
use ribosome_encoding::error::HolochainError;
use ribosome_encoding::memory::allocation::{Length, Offset, WasmAllocation};
use std::str::FromStr;

const ALL_CODES: [RibosomeErrorCode; 10] = [
    RibosomeErrorCode::Unspecified,
    RibosomeErrorCode::ArgumentDeserializationFailed,
    RibosomeErrorCode::OutOfMemory,
    RibosomeErrorCode::ReceivedWrongActionResult,
    RibosomeErrorCode::CallbackFailed,
    RibosomeErrorCode::RecursiveCallForbidden,
    RibosomeErrorCode::ResponseSerializationFailed,
    RibosomeErrorCode::NotAnAllocation,
    RibosomeErrorCode::ZeroSizedAllocation,
    RibosomeErrorCode::UnknownEntryType,
];

const ALL_LABELS: [&str; 10] = [
    "Unspecified",
    "Argument deserialization failed",
    "Out of memory",
    "Received wrong action result",
    "Callback failed",
    "Recursive call forbidden",
    "Response serialization failed",
    "Not an allocation",
    "Zero-sized allocation",
    "Unknown entry type",
];

fn allocation(offset: u16, length: u16) -> RibosomeEncodedAllocation {
    match WasmAllocation::new(Offset::from(offset), Length::from(length)) {
        Ok(region) => RibosomeEncodedAllocation::from(region),
        Err(reason) => panic!("no region of {} bytes at {}: {:?}", length, offset, reason),
    }
}

#[test]
fn ribosome_return_code_round_trip() {
    let offset = (RibosomeEncodingBits::from(RibosomeErrorCode::OutOfMemory) >> 16) as u16;
    let oom = RibosomeReturnCode::from(RibosomeEncodingBits::from(offset) << 16);
    assert_eq!(RibosomeReturnCode::Failure(RibosomeErrorCode::OutOfMemory), oom);
    assert_eq!(RibosomeErrorCode::OutOfMemory.to_string(), oom.to_string());
}

#[test]
fn ribosome_error_code_round_trip() {
    let oom = RibosomeErrorCode::from_code_int(
        (RibosomeEncodingBits::from(RibosomeErrorCode::OutOfMemory) >> 16) as u16,
    );
    assert_eq!(RibosomeErrorCode::OutOfMemory, oom);
    assert_eq!(RibosomeErrorCode::OutOfMemory.to_string(), oom.to_string());
}

#[test]
fn error_conversion() {
    for code in 1..=10 {
        let mut err = RibosomeErrorCode::from_code_int(code);

        let err_str = err.as_str().to_owned();

        err = err_str.parse().expect("unable to parse error");

        let inner_code = RibosomeReturnCode::from_error(err);

        let _one_int: i32 = inner_code.clone().into();
        let _another_int: u32 = inner_code.clone().into();
    }
}

#[test]
#[should_panic]
fn code_zero() {
    RibosomeErrorCode::from_code_int(0);
}

#[test]
fn error_codes_have_their_wire_values() {
    let expected: [u32; 10] = [
        0x0001_0000,
        0x0002_0000,
        0x0003_0000,
        0x0004_0000,
        0x0005_0000,
        0x0006_0000,
        0x0007_0000,
        0x0008_0000,
        0x0009_0000,
        0x000a_0000,
    ];
    for (code, bits) in ALL_CODES.iter().zip(expected.iter()) {
        assert_eq!(RibosomeEncodingBits::from(*code), *bits);
        assert_eq!(RibosomeEncodingBits::from(RibosomeReturnCode::Failure(*code)), *bits);
    }
    assert_eq!(RibosomeEncodingBits::from(RibosomeErrorCode::OutOfMemory), 196_608);
}

#[test]
fn error_codes_are_numbered_from_one_to_ten() {
    for (index, code) in ALL_CODES.iter().enumerate() {
        let number = index as u16 + 1;
        assert_eq!(code.code_int(), number);
        assert_eq!(RibosomeErrorCode::from_code_int(number), *code);
    }
}

#[test]
fn failure_survives_encoding_and_decoding() {
    for code in ALL_CODES.iter() {
        let failure = RibosomeReturnCode::Failure(*code);
        let bits = RibosomeEncodingBits::from(failure);
        assert_eq!(RibosomeReturnCode::from(bits), failure);
        assert_eq!(bits & 0xffff, 0);
        assert_ne!(bits, 0);
    }
}

#[test]
fn success_is_the_zero_word() {
    assert_eq!(RibosomeReturnCode::from(0), RibosomeReturnCode::Success);
    assert_eq!(RibosomeEncodingBits::from(RibosomeReturnCode::Success), 0);
    assert_eq!(RibosomeRuntimeBits::from(RibosomeReturnCode::Success), 0);
}

#[test]
fn unknown_code_decodes_as_unspecified() {
    let unspecified = RibosomeReturnCode::Failure(RibosomeErrorCode::Unspecified);
    assert_eq!(RibosomeReturnCode::from(11 << 16), unspecified);
    assert_eq!(RibosomeReturnCode::from(200 << 16), unspecified);
    assert_eq!(RibosomeReturnCode::from(0xffff_0000), unspecified);
    assert_eq!(RibosomeErrorCode::from_code_int(11), RibosomeErrorCode::Unspecified);
    assert_eq!(RibosomeErrorCode::from_code_int(u16::MAX), RibosomeErrorCode::Unspecified);
    assert_eq!(RibosomeErrorCode::from_code_int(1), RibosomeErrorCode::Unspecified);
}

#[test]
fn unknown_code_does_not_encode_back_to_its_word() {
    let word: u32 = 11 << 16;
    let decoded = RibosomeReturnCode::from(word);
    assert_eq!(RibosomeEncodingBits::from(decoded), 1 << 16);
}

#[test]
fn word_with_a_length_decodes_as_an_allocation() {
    for word in [1u32, 0x0001_0001, 0x0003_0001, 0x0064_0032, 0xffff_ffff, 0x0000_ffff] {
        let decoded = RibosomeReturnCode::from(word);
        match decoded {
            RibosomeReturnCode::Allocation(encoded) => {
                assert_eq!(RibosomeEncodingBits::from(encoded), word);
            },
            other => panic!("{} decoded as {:?}", word, other),
        }
        assert_eq!(RibosomeEncodingBits::from(decoded), word);
    }
}

#[test]
fn known_words_survive_decoding_and_encoding() {
    let mut words: Vec<u32> = vec![0, 1, 2, 0xffff, 0x0001_0001, 0x7fff_ffff, 0x8000_0001];
    for number in 0..=10u32 {
        words.push(number << 16);
    }
    for word in words {
        assert_eq!(RibosomeEncodingBits::from(RibosomeReturnCode::from(word)), word);
    }
}

#[test]
fn runtime_bits_are_the_same_bits_signed() {
    let failure = RibosomeReturnCode::Failure(RibosomeErrorCode::UnknownEntryType);
    assert_eq!(RibosomeRuntimeBits::from(failure), 655_360);
    let low = RibosomeReturnCode::Allocation(allocation(100, 50));
    assert_eq!(RibosomeRuntimeBits::from(low), 6_553_650);
    let high = RibosomeReturnCode::Allocation(allocation(0x8000, 1));
    assert_eq!(RibosomeEncodingBits::from(high), 0x8000_0001);
    assert_eq!(RibosomeRuntimeBits::from(high), -2_147_483_647);
    assert_eq!(RibosomeRuntimeBits::from(high) as u32, 0x8000_0001);
}

#[test]
fn labels_are_fixed() {
    for (code, label) in ALL_CODES.iter().zip(ALL_LABELS.iter()) {
        assert_eq!(code.as_str(), *label);
        assert_eq!(code.to_string(), label.to_string());
        assert_eq!(String::from(*code), label.to_string());
    }
}

#[test]
fn label_parses_back_to_its_code() {
    for (code, label) in ALL_CODES.iter().zip(ALL_LABELS.iter()) {
        assert_eq!(RibosomeErrorCode::from_str(label), Ok(*code));
        assert_eq!(RibosomeErrorCode::from_str(code.as_str()), Ok(*code));
        assert_eq!(
            RibosomeReturnCode::from_str(label),
            Ok(RibosomeReturnCode::Failure(*code))
        );
    }
}

#[test]
fn unknown_label_is_refused() {
    let refusal = HolochainError::ErrorGeneric("Unknown RibosomeErrorCode".to_string());
    for text in ["", "Success", "out of memory", "Out of memory ", "Out of memor", "3", "196608"] {
        assert_eq!(RibosomeErrorCode::from_str(text), Err(refusal.clone()));
    }
    for text in ["", "success", "Success ", "6553650", "Fail", "Unspecifie\u{301}d"] {
        assert_eq!(RibosomeReturnCode::from_str(text), Err(refusal.clone()));
    }
}

#[test]
fn return_code_text() {
    assert_eq!(RibosomeReturnCode::Success.to_string(), "Success");
    assert_eq!(
        RibosomeReturnCode::Failure(RibosomeErrorCode::CallbackFailed).to_string(),
        "Callback failed"
    );
    assert_eq!(RibosomeReturnCode::Allocation(allocation(100, 50)).to_string(), "6553650");
    assert_eq!(allocation(0, 1).to_string(), "1");
    assert_eq!(allocation(1, 1).to_string(), "65537");
    assert_eq!(allocation(0xfffe, 1).to_string(), 0xfffe_0001u32.to_string());
}

#[test]
fn return_code_text_parses_back() {
    assert_eq!(RibosomeReturnCode::from_str("Success"), Ok(RibosomeReturnCode::Success));
    for code in ALL_CODES.iter() {
        let failure = RibosomeReturnCode::Failure(*code);
        assert_eq!(RibosomeReturnCode::from_str(&failure.to_string()), Ok(failure));
    }
    let region = RibosomeReturnCode::Allocation(allocation(7, 9));
    assert!(RibosomeReturnCode::from_str(&region.to_string()).is_err());
}

#[test]
fn allocation_or_err_tells_the_three_cases_apart() {
    let encoded = allocation(100, 50);
    assert_eq!(RibosomeReturnCode::Allocation(encoded).allocation_or_err(), Ok(encoded));
    assert_eq!(
        RibosomeReturnCode::Success.allocation_or_err(),
        Err(HolochainError::Ribosome(RibosomeErrorCode::ZeroSizedAllocation))
    );
    for code in ALL_CODES.iter() {
        assert_eq!(
            RibosomeReturnCode::Failure(*code).allocation_or_err(),
            Err(HolochainError::Ribosome(*code))
        );
    }
}

#[test]
fn from_return_code_takes_the_code_out_of_a_failure() {
    for code in ALL_CODES.iter() {
        assert_eq!(
            RibosomeErrorCode::from_return_code(RibosomeReturnCode::from_error(*code)),
            *code
        );
    }
}

#[test]
fn host_errors_map_to_codes() {
    let text = || "why".to_string();
    let cases = vec![
        (HolochainError::ErrorGeneric(text()), RibosomeErrorCode::Unspecified),
        (HolochainError::NotImplemented, RibosomeErrorCode::CallbackFailed),
        (HolochainError::LoggingError, RibosomeErrorCode::Unspecified),
        (HolochainError::DnaMissing, RibosomeErrorCode::Unspecified),
        (HolochainError::Dna(text()), RibosomeErrorCode::Unspecified),
        (HolochainError::IoError(text()), RibosomeErrorCode::Unspecified),
        (
            HolochainError::SerializationError(text()),
            RibosomeErrorCode::ArgumentDeserializationFailed,
        ),
        (HolochainError::InvalidOperationOnSysEntry, RibosomeErrorCode::UnknownEntryType),
        (HolochainError::CapabilityCheckFailed, RibosomeErrorCode::Unspecified),
        (HolochainError::ValidationFailed(text()), RibosomeErrorCode::CallbackFailed),
        (HolochainError::RibosomeFailed(text()), RibosomeErrorCode::CallbackFailed),
        (HolochainError::ConfigError(text()), RibosomeErrorCode::Unspecified),
        (HolochainError::Timeout, RibosomeErrorCode::Unspecified),
    ];
    for (error, code) in cases {
        assert_eq!(RibosomeErrorCode::from(error.clone()), code);
        assert_eq!(RibosomeReturnCode::from(error), RibosomeReturnCode::Failure(code));
    }
    for code in ALL_CODES.iter() {
        assert_eq!(RibosomeErrorCode::from(HolochainError::Ribosome(*code)), *code);
    }
}

#[test]
fn host_error_clone_is_equal() {
    let errors = vec![
        HolochainError::ErrorGeneric("a".to_string()),
        HolochainError::NotImplemented,
        HolochainError::Dna("b".to_string()),
        HolochainError::Ribosome(RibosomeErrorCode::OutOfMemory),
        HolochainError::Timeout,
    ];
    for error in errors {
        assert_eq!(error.clone(), error);
    }
}
