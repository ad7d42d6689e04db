use referral::cli::{listing_step, ListingStep};
use referral::referral_code::{code_line, map_to_referral_code, ReferralCodeGenerationError, MAX_ID};
use referral::words::{ADJECTIVES, ANIMALS, COLORS};
use std::collections::HashSet;

#[test]
fn all_codes_are_unique() {
    let total = (MAX_ID as usize) + 1;
    let mut codes = HashSet::with_capacity(total);

    for id in 0..=MAX_ID {
        let code = map_to_referral_code(id).expect("valid id");
        assert!(codes.insert(code), "duplicate code for id {}", id);
    }

    assert_eq!(codes.len(), total);
}

#[test]
fn code_of_first_id_uses_the_offsets() {
    // id 0: every digit is 0, so the positions are the offsets 17, 29 and 41.
    let expected = format!("{}-{}-{}", ADJECTIVES[17], COLORS[29], ANIMALS[41]);
    assert_eq!(map_to_referral_code(0).unwrap(), expected);
    assert_eq!(expected, "crisp-darkolivegreen-chimpanzee");
}

#[test]
fn code_of_a_mixed_id() {
    // id = 5 + 90 * (3 + 147 * 2): digits 5, 3, 2.
    let id = 5 + 90 * (3 + 147 * 2);
    let a = (5 + 17) % 90;
    let c = (3 + 5 * 37 + 29) % 147;
    let n = (2 + 3 * 83 + 5 * 97 + 41) % 223;
    let expected = format!("{}-{}-{}", ADJECTIVES[a], COLORS[c], ANIMALS[n]);
    assert_eq!(map_to_referral_code(id).unwrap(), expected);
}

#[test]
fn largest_id_has_a_code_and_the_next_does_not() {
    assert!(map_to_referral_code(MAX_ID).is_ok());
    assert_eq!(
        map_to_referral_code(MAX_ID + 1),
        Err(ReferralCodeGenerationError::IdTooLarge(MAX_ID + 1))
    );
    assert_eq!(
        map_to_referral_code(u32::MAX),
        Err(ReferralCodeGenerationError::IdTooLarge(u32::MAX))
    );
}

#[test]
fn max_id_is_the_number_of_word_combinations_less_one() {
    assert_eq!(MAX_ID as usize, ADJECTIVES.len() * COLORS.len() * ANIMALS.len() - 1);
}

#[test]
fn error_message_names_the_id() {
    assert_eq!(
        ReferralCodeGenerationError::IdTooLarge(2950290).message(),
        "id too large: 2950290"
    );
    assert_eq!(ReferralCodeGenerationError::IdTooLarge(0).message(), "id too large: 0");
}

#[test]
fn code_line_lists_id_and_code() {
    let code = map_to_referral_code(42).unwrap();
    assert_eq!(code_line(42).unwrap(), format!("42 {}", code));
    assert_eq!(
        code_line(MAX_ID + 1),
        Err(ReferralCodeGenerationError::IdTooLarge(MAX_ID + 1))
    );
}

#[test]
fn neighbouring_ids_have_different_codes() {
    let a = map_to_referral_code(0).unwrap();
    let b = map_to_referral_code(1).unwrap();
    let c = map_to_referral_code(90).unwrap();
    assert_ne!(a, b);
    assert_ne!(a, c);
    assert_ne!(b, c);
}

#[test]
fn codes_have_three_parts() {
    for id in [0u32, 7, 12345, MAX_ID] {
        let code = map_to_referral_code(id).unwrap();
        let parts: Vec<&str> = code.split('-').collect();
        assert_eq!(parts.len(), 3);
        assert!(ADJECTIVES.contains(&parts[0]));
        assert!(COLORS.contains(&parts[1]));
        assert!(ANIMALS.contains(&parts[2]));
    }
}

#[test]
fn word_tables_are_sorted_and_distinct() {
    for table in [&ADJECTIVES[..], &COLORS[..], &ANIMALS[..]] {
        for pair in table.windows(2) {
            assert!(pair[0] < pair[1]);
        }
        for word in table {
            assert!(!word.is_empty());
            assert!(!word.contains('-'));
        }
    }
}

#[test]
fn word_combinations_have_identifiers() {
    // Undo the offsets: the identifier whose code has the words at (i, j, k).
    let id_of = |i: i64, j: i64, k: i64| -> u32 {
        let a = (i - 17).rem_euclid(90);
        let c = (j - a * 37 - 29).rem_euclid(147);
        let n = (k - c * 83 - a * 97 - 41).rem_euclid(223);
        (a + 90 * (c + 147 * n)) as u32
    };
    for (i, j, k) in [(0, 0, 0), (89, 146, 222), (17, 29, 41), (3, 100, 7)] {
        let id = id_of(i, j, k);
        assert!(id <= MAX_ID);
        let expected = format!(
            "{}-{}-{}",
            ADJECTIVES[i as usize], COLORS[j as usize], ANIMALS[k as usize]
        );
        assert_eq!(map_to_referral_code(id).unwrap(), expected);
    }
    assert_eq!(id_of(17, 29, 41), 0);
}

#[test]
fn listing_steps_through_the_range() {
    match listing_step(4, 6) {
        ListingStep::Line { text, next } => {
            assert_eq!(text, code_line(4).unwrap());
            assert_eq!(next, Some(5));
        }
        ListingStep::Failed(err) => panic!("unexpected {:?}", err),
    }
    match listing_step(6, 6) {
        ListingStep::Line { next, .. } => assert_eq!(next, None),
        ListingStep::Failed(err) => panic!("unexpected {:?}", err),
    }
    match listing_step(MAX_ID + 1, MAX_ID + 5) {
        ListingStep::Failed(err) => {
            assert_eq!(err, ReferralCodeGenerationError::IdTooLarge(MAX_ID + 1))
        }
        ListingStep::Line { .. } => panic!("expected a failure"),
    }
}
