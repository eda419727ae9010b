use gas_escalator::u256::U256;

#[test]
fn small_numbers_sit_in_the_lowest_word() {
    assert_eq!(U256::from(7u32), U256 { w0: 7, w1: 0, w2: 0, w3: 0 });
    assert_eq!(U256::from(u32::MAX), U256 { w0: 0xffff_ffff, w1: 0, w2: 0, w3: 0 });
    assert_eq!(U256::from(u64::MAX), U256 { w0: u64::MAX, w1: 0, w2: 0, w3: 0 });
    assert_eq!(U256::from(5u32), U256::from(5u64));
}

#[test]
fn words_agree_with_the_outside_integer() {
    let values: [u64; 4] = [0, 1, 240_900, u64::MAX];
    for value in values {
        assert_eq!(U256::from(value).to_words(), ethers_core::types::U256::from(value).0);
    }
    let large = ethers_core::types::U256::MAX - ethers_core::types::U256::from(12_345u64);
    let ours = U256::from_words(large.0);
    assert_eq!(ours, U256 { w0: u64::MAX - 12_345, w1: u64::MAX, w2: u64::MAX, w3: u64::MAX });
    assert_eq!(ethers_core::types::U256(ours.to_words()), large);
}

#[test]
fn words_round_trip() {
    let words: [u64; 4] = [1, 2, 3, 4];
    let number = U256::from_words(words);
    assert_eq!(number, U256 { w0: 1, w1: 2, w2: 3, w3: 4 });
    assert_eq!(number.to_words(), words);
}

#[test]
fn narrowing_to_u32() {
    assert_eq!(U256::from(0u32).as_u32(), 0);
    assert_eq!(U256::from(200u32).as_u32(), 200);
    assert_eq!(U256::from(u32::MAX).as_u32(), u32::MAX);
    assert_eq!(U256::from(u32::MAX).checked_as_u32(), Some(u32::MAX));
    assert_eq!(U256::from(1u64 << 32).checked_as_u32(), None);
    assert_eq!(U256 { w0: 1, w1: 1, w2: 0, w3: 0 }.checked_as_u32(), None);
    assert_eq!(U256 { w0: 1, w1: 0, w2: 1, w3: 0 }.checked_as_u32(), None);
    assert_eq!(U256 { w0: 1, w1: 0, w2: 0, w3: 1 }.checked_as_u32(), None);
}

#[test]
fn order_goes_by_the_highest_word_that_differs() {
    let low = U256 { w0: u64::MAX, w1: u64::MAX, w2: u64::MAX, w3: 0 };
    let high = U256 { w0: 0, w1: 0, w2: 0, w3: 1 };
    assert!(low.lt(&high));
    assert!(!high.lt(&low));
    assert!(!low.lt(&low));
    assert!(U256 { w0: 9, w1: 1, w2: 5, w3: 5 }.lt(&U256 { w0: 0, w1: 2, w2: 5, w3: 5 }));
    assert!(U256 { w0: 9, w1: 7, w2: 4, w3: 5 }.lt(&U256 { w0: 0, w1: 0, w2: 5, w3: 5 }));
    assert!(U256 { w0: 1, w1: 7, w2: 4, w3: 5 }.lt(&U256 { w0: 2, w1: 7, w2: 4, w3: 5 }));
    assert!(!U256 { w0: 2, w1: 7, w2: 4, w3: 5 }.lt(&U256 { w0: 1, w1: 7, w2: 4, w3: 5 }));
}

#[test]
fn max_picks_the_larger_number() {
    let low = U256 { w0: u64::MAX, w1: 0, w2: 0, w3: 0 };
    let high = U256 { w0: 0, w1: 1, w2: 0, w3: 0 };
    assert_eq!(low.max(high), high);
    assert_eq!(high.max(low), high);
    assert_eq!(high.max(high), high);
    assert_eq!(
        ethers_core::types::U256(low.max(high).to_words()),
        ethers_core::types::U256(low.to_words()).max(ethers_core::types::U256(high.to_words()))
    );
}

#[test]
fn order_agrees_with_the_outside_integer() {
    let samples: [[u64; 4]; 6] = [
        [0, 0, 0, 0],
        [u64::MAX, 0, 0, 0],
        [0, 1, 0, 0],
        [5, 0, 9, 0],
        [4, 1, 9, 0],
        [0, 0, 0, u64::MAX],
    ];
    for a in samples {
        for b in samples {
            let ours = U256::from_words(a).lt(&U256::from_words(b));
            let theirs = ethers_core::types::U256(a) < ethers_core::types::U256(b);
            assert_eq!(ours, theirs);
        }
    }
}

#[test]
fn narrowing_agrees_with_the_outside_integer() {
    let samples: [[u64; 4]; 5] = [
        [0, 0, 0, 0],
        [0xffff_ffff, 0, 0, 0],
        [0x1_0000_0000, 0, 0, 0],
        [7, 1, 0, 0],
        [7, 0, 0, 1],
    ];
    for words in samples {
        let ours = U256::from_words(words).checked_as_u32();
        let theirs = u32::try_from(ethers_core::types::U256(words)).ok();
        assert_eq!(ours, theirs);
    }
}
