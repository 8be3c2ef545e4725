use pgp_relay::ident::{
    id_char_matches, is_alphanumeric_str, is_msg_id, is_token_str, new_submission_id, new_token,
    ID_LENGTH, TOKEN_LENGTH,
};
use pgp_relay::text::is_letter_or_digit;
use std::collections::HashSet;

#[test]
fn token_length_is_thirty() {
    assert_eq!(TOKEN_LENGTH, 30);
    assert_eq!(ID_LENGTH, 36);
}

#[test]
fn tokens_are_thirty_letters_and_digits() {
    let mut seen: HashSet<char> = HashSet::new();
    for _ in 0..1000 {
        let token = new_token();
        assert_eq!(token.chars().count(), 30);
        assert_eq!(token.len(), 30);
        assert!(token.chars().all(|c| c.is_ascii_alphanumeric()));
        assert!(is_token_str(&token));
        seen.extend(token.chars());
    }
    assert_eq!(seen.len(), 62);
}

#[test]
fn tokens_differ() {
    let mut seen: HashSet<String> = HashSet::new();
    for _ in 0..1000 {
        assert!(seen.insert(new_token()));
    }
}

#[test]
fn identifiers_are_canonical() {
    let mut seen: HashSet<String> = HashSet::new();
    for _ in 0..1000 {
        let id = new_submission_id();
        assert_eq!(id.len(), 36);
        assert!(is_msg_id(&id));
        let parsed = uuid::Uuid::parse_str(&id).unwrap();
        assert_eq!(parsed.get_version_num(), 4);
        assert_eq!(parsed.to_string(), id);
        assert!(seen.insert(id));
    }
}

#[test]
fn canonical_identifier_is_accepted() {
    assert!(is_msg_id("67e55044-10b1-426f-9247-bb680e5fe0c8"));
    assert!(is_msg_id("00000000-0000-4000-8000-000000000000"));
    assert!(is_msg_id("ffffffff-ffff-4fff-bfff-ffffffffffff"));
    assert!(is_msg_id("01234567-89ab-4cde-a012-3456789abcde"));
}

#[test]
fn malformed_identifier_is_rejected() {
    let bad = [
        "",
        "67e55044-10b1-426f-9247-bb680e5fe0c",
        "67e55044-10b1-426f-9247-bb680e5fe0c8a",
        "67E55044-10B1-426F-9247-BB680E5FE0C8",
        "67e55044-10b1-326f-9247-bb680e5fe0c8",
        "67e55044-10b1-426f-7247-bb680e5fe0c8",
        "67e55044-10b1-426f-c247-bb680e5fe0c8",
        "67e5504410b1-426f-9247-bb680e5fe0c8-",
        "67e55044_10b1_426f_9247_bb680e5fe0c8",
        "67e55044-10b1-426f-9247-bb680e5fe0cg",
        "67e55044-10b1-426f-9247-bb680e5fe0c8\n",
        "../../../../../../../../../etc/passwd",
    ];
    for id in bad {
        assert!(!is_msg_id(id));
    }
}

#[test]
fn identifier_positions_have_their_characters() {
    for i in [8usize, 13, 18, 23] {
        assert!(id_char_matches(i, '-'));
        assert!(!id_char_matches(i, 'a'));
    }
    assert!(id_char_matches(14, '4'));
    assert!(!id_char_matches(14, '5'));
    for c in ['8', '9', 'a', 'b'] {
        assert!(id_char_matches(19, c));
    }
    for c in ['7', 'c', '0', 'f', 'A'] {
        assert!(!id_char_matches(19, c));
    }
    assert!(id_char_matches(0, 'f'));
    assert!(id_char_matches(35, '0'));
    assert!(!id_char_matches(0, 'g'));
    assert!(!id_char_matches(0, 'F'));
    assert!(!id_char_matches(0, '-'));
}

#[test]
fn token_of_thirty_letters_and_digits_is_accepted() {
    assert!(is_token_str("abcdefghijklmnopqrstuvwxyzABCD"));
    assert!(is_token_str("012345678901234567890123456789"));
}

#[test]
fn token_of_other_length_is_rejected() {
    assert!(!is_token_str(""));
    assert!(!is_token_str("abcdefghijklmnopqrstuvwxyzABC"));
    assert!(!is_token_str("abcdefghijklmnopqrstuvwxyzABCDE"));
}

#[test]
fn token_with_other_characters_is_rejected() {
    assert!(!is_token_str("abcdefghijklmnopqrstuvwxyzABC-"));
    assert!(!is_token_str("abcdefghijklmnopqrstuvwxyzABC\n"));
    assert!(!is_token_str("abcdefghijklmnopqrstuvwxyzABC\u{e9}"));
    assert!(!is_token_str("abcdefghijklmnop/rstuvwxyzABCD"));
}

#[test]
fn alphanumeric_text_needs_one_character() {
    assert!(!is_alphanumeric_str(""));
    assert!(is_alphanumeric_str("a"));
    assert!(is_alphanumeric_str("Zz09"));
    assert!(!is_alphanumeric_str("a b"));
    assert!(!is_alphanumeric_str("a\n"));
}

#[test]
fn letters_and_digits_are_the_sixty_two() {
    let count = (0u32..0x400).filter_map(char::from_u32).filter(|c| is_letter_or_digit(*c)).count();
    assert_eq!(count, 62);
    assert!(is_letter_or_digit('a') && is_letter_or_digit('Z') && is_letter_or_digit('5'));
    assert!(!is_letter_or_digit('\u{e9}'));
}
