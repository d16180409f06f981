use ribosome_encoding::bits_n_pieces::{
    u32_high_bits, u32_low_bits, u32_merge_bits, u32_split_bits,
};
use ribosome_encoding::text::{str_eq, u32_to_decimal};

#[test]
fn word_splits_into_its_halves() {
    assert_eq!(u32_split_bits(0), (0, 0));
    assert_eq!(u32_split_bits(0x0003_0000), (3, 0));
    assert_eq!(u32_split_bits(0x0064_0032), (100, 50));
    assert_eq!(u32_split_bits(0xffff_ffff), (0xffff, 0xffff));
    assert_eq!(
        u32_split_bits(0b1010101010101010_0101010101010101),
        (0b1010101010101010, 0b0101010101010101)
    );
    assert_eq!(u32_high_bits(0x1234_5678), 0x1234);
    assert_eq!(u32_low_bits(0x1234_5678), 0x5678);
}

#[test]
fn halves_merge_into_their_word() {
    assert_eq!(u32_merge_bits(0, 0), 0);
    assert_eq!(u32_merge_bits(3, 0), 196_608);
    assert_eq!(u32_merge_bits(100, 50), 6_553_650);
    assert_eq!(u32_merge_bits(0xffff, 0xffff), u32::MAX);
    assert_eq!(u32_merge_bits(0x1234, 0x5678), 0x1234_5678);
}

#[test]
fn split_and_merge_undo_one_another() {
    for word in [0u32, 1, 0xffff, 0x1_0000, 0x1_0001, 0x8000_0000, 0xdead_beef, u32::MAX] {
        let (high, low) = u32_split_bits(word);
        assert_eq!(u32_merge_bits(high, low), word);
    }
    for (high, low) in [(0u16, 0u16), (1, 0), (0, 1), (10, 0), (0xffff, 1), (0x8000, 0x8000)] {
        assert_eq!(u32_split_bits(u32_merge_bits(high, low)), (high, low));
    }
}

#[test]
fn str_eq_compares_every_character() {
    assert!(str_eq("", ""));
    assert!(str_eq("Out of memory", "Out of memory"));
    assert!(!str_eq("Out of memory", "Out of memorY"));
    assert!(!str_eq("Out of memory", "Out of memor"));
    assert!(!str_eq("", "a"));
    assert!(!str_eq("a", ""));
    assert!(str_eq("z\u{fc}rich", "z\u{fc}rich"));
    assert!(!str_eq("z\u{fc}rich", "zurich"));
    assert!(!str_eq("e\u{301}", "\u{e9}"));
}

#[test]
fn u32_to_decimal_writes_what_std_writes() {
    let numbers = [
        0u32, 1, 9, 10, 11, 99, 100, 101, 65_535, 65_536, 65_537, 196_608, 6_553_650,
        1_000_000_000, 2_147_483_647, 2_147_483_648, 4_294_967_294, u32::MAX,
    ];
    for n in numbers {
        assert_eq!(u32_to_decimal(n), n.to_string());
    }
    assert_eq!(u32_to_decimal(0), "0");
    assert_eq!(u32_to_decimal(4_294_967_295), "4294967295");
    assert_eq!(u32_to_decimal(1_000), "1000");
}
