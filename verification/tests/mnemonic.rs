use hd_keys::mnemonic::{entropy_size, generate_mnemonic, mnemonic_from_entropy, seed_from_mnemonic};

const ABANDON_12: &str = "abandon abandon abandon abandon abandon abandon abandon abandon abandon abandon abandon about";

fn hex(text: &str) -> Vec<u8> {
    (0..text.len() / 2).map(|i| u8::from_str_radix(&text[2 * i..2 * i + 2], 16).unwrap()).collect()
}

#[test]
fn entropy_size_of_12_and_24() {
    assert_eq!(entropy_size("12"), Some(16));
    assert_eq!(entropy_size("24"), Some(32));
}

#[test]
fn entropy_size_of_anything_else() {
    for text in ["", "1", "2", "14", "22", "18", "012", "12 ", " 12", "124", "twelve", "１２"] {
        assert_eq!(entropy_size(text), None);
    }
}

#[test]
fn phrase_of_zero_entropy() {
    assert_eq!(mnemonic_from_entropy(&[0u8; 16]), Some(ABANDON_12.to_string()));
    let long = mnemonic_from_entropy(&[0u8; 32]).unwrap();
    let words: Vec<&str> = long.split(' ').collect();
    assert_eq!(words.len(), 24);
    assert_eq!(words[23], "art");
    assert!(words[..23].iter().all(|w| *w == "abandon"));
}

#[test]
fn phrase_of_full_entropy() {
    assert_eq!(
        mnemonic_from_entropy(&[0xff; 16]),
        Some("zoo zoo zoo zoo zoo zoo zoo zoo zoo zoo zoo wrong".to_string())
    );
}

#[test]
fn phrase_needs_an_allowed_length() {
    for len in [0usize, 1, 4, 12, 15, 17, 31, 33, 36, 64] {
        assert_eq!(mnemonic_from_entropy(&vec![0u8; len]), None);
    }
    for (len, words) in [(16usize, 12usize), (20, 15), (24, 18), (28, 21), (32, 24)] {
        let phrase = mnemonic_from_entropy(&vec![3u8; len]).unwrap();
        assert_eq!(phrase.split(' ').count(), words);
    }
}

#[test]
fn generated_phrase_has_the_asked_word_count() {
    let short = generate_mnemonic("12").unwrap();
    assert_eq!(short.split(' ').count(), 12);
    let long = generate_mnemonic("24").unwrap();
    assert_eq!(long.split(' ').count(), 24);
    assert!(seed_from_mnemonic(&short).is_some());
    assert!(seed_from_mnemonic(&long).is_some());
}

#[test]
fn generated_phrases_differ() {
    assert_ne!(generate_mnemonic("24"), generate_mnemonic("24"));
    assert_ne!(generate_mnemonic("24").unwrap(), mnemonic_from_entropy(&[0u8; 32]).unwrap());
}

#[test]
fn generate_refuses_other_word_counts() {
    for text in ["", "15", "18", "21", "0", "12\n"] {
        assert_eq!(generate_mnemonic(text), None);
    }
}

#[test]
fn seed_of_the_reference_phrase() {
    let want = hex("5eb00bbddcf069084889a8ab9155568165f5c453ccb85e70811aaed6f6da5fc19a5ac40b389cd370d086206dec8aa6c43daea6690f20ad3d8d48b2d2ce9e38e4");
    assert_eq!(seed_from_mnemonic(ABANDON_12).unwrap().to_vec(), want);
}

#[test]
fn seed_refuses_a_bad_phrase() {
    assert_eq!(seed_from_mnemonic(""), None);
    assert_eq!(seed_from_mnemonic("abandon"), None);
    // Twelve known words whose checksum does not fit.
    let wrong = "abandon abandon abandon abandon abandon abandon abandon abandon abandon abandon abandon abandon";
    assert_eq!(seed_from_mnemonic(wrong), None);
    let unknown = "abandon abandon abandon abandon abandon abandon abandon abandon abandon abandon abandon abouts";
    assert_eq!(seed_from_mnemonic(unknown), None);
}
