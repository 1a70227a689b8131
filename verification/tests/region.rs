use rust_stemmer::region::{
    ends_with_cvc, ends_with_double_consonant, has_vowel, is_consonant, measure,
};

fn chars(word: &str) -> Vec<char> {
    word.chars().collect()
}

#[test]
fn vowels_are_not_consonants() {
    let word = chars("aeiou");
    for i in 0..word.len() {
        assert!(!is_consonant(&word, i));
    }
}

#[test]
fn other_letters_are_consonants() {
    let word = chars("bcdfgxz-7B");
    for i in 0..word.len() {
        assert!(is_consonant(&word, i));
    }
}

#[test]
fn y_is_a_consonant_at_the_start_and_after_a_vowel() {
    assert!(is_consonant(&chars("yes"), 0));
    assert!(is_consonant(&chars("toy"), 2));
    assert!(is_consonant(&chars("say"), 2));
}

#[test]
fn y_is_a_vowel_after_a_consonant() {
    assert!(!is_consonant(&chars("syzygy"), 1));
    assert!(!is_consonant(&chars("syzygy"), 3));
    assert!(!is_consonant(&chars("syzygy"), 5));
    assert!(!is_consonant(&chars("happy"), 4));
}

#[test]
fn a_run_of_y_alternates() {
    let word = chars("yyyy");
    assert!(is_consonant(&word, 0));
    assert!(!is_consonant(&word, 1));
    assert!(is_consonant(&word, 2));
    assert!(!is_consonant(&word, 3));
}

#[test]
fn upper_case_vowels_are_consonants_to_the_classifier() {
    assert!(is_consonant(&chars("A"), 0));
    assert!(!has_vowel(&chars("TREE")));
}

#[test]
fn measure_zero() {
    for word in ["", "tr", "ee", "tree", "y", "by"] {
        assert_eq!(measure(&chars(word)), 0, "measure of {}", word);
    }
}

#[test]
fn measure_one() {
    for word in ["trouble", "oats", "trees", "ivy"] {
        assert_eq!(measure(&chars(word)), 1, "measure of {}", word);
    }
}

#[test]
fn measure_two() {
    for word in ["troubles", "private", "oaten", "orrery"] {
        assert_eq!(measure(&chars(word)), 2, "measure of {}", word);
    }
}

#[test]
fn measure_of_longer_words() {
    assert_eq!(measure(&chars("general")), 3);
    assert_eq!(measure(&chars("relational")), 4);
}

#[test]
fn has_vowel_finds_a_vowel() {
    assert!(has_vowel(&chars("plaster")));
    assert!(has_vowel(&chars("sky")));
    assert!(has_vowel(&chars("a")));
}

#[test]
fn has_vowel_finds_none() {
    assert!(!has_vowel(&chars("")));
    assert!(!has_vowel(&chars("bl")));
    assert!(!has_vowel(&chars("y")));
    assert!(!has_vowel(&chars("str")));
}

#[test]
fn double_consonant_endings() {
    assert!(ends_with_double_consonant(&chars("hopp")));
    assert!(ends_with_double_consonant(&chars("fall")));
    assert!(ends_with_double_consonant(&chars("tt")));
    assert!(!ends_with_double_consonant(&chars("hop")));
    assert!(!ends_with_double_consonant(&chars("see")));
    assert!(!ends_with_double_consonant(&chars("t")));
    assert!(!ends_with_double_consonant(&chars("")));
}

#[test]
fn cvc_endings() {
    assert!(ends_with_cvc(&chars("hop")));
    assert!(ends_with_cvc(&chars("fil")));
    assert!(ends_with_cvc(&chars("wil")));
    assert!(ends_with_cvc(&chars("troubl")) == false);
}

#[test]
fn cvc_leaves_out_w_x_and_y() {
    assert!(!ends_with_cvc(&chars("snow")));
    assert!(!ends_with_cvc(&chars("box")));
    assert!(!ends_with_cvc(&chars("tray")));
}

#[test]
fn cvc_needs_three_letters() {
    assert!(!ends_with_cvc(&chars("")));
    assert!(!ends_with_cvc(&chars("t")));
    assert!(!ends_with_cvc(&chars("at")));
    assert!(!ends_with_cvc(&chars("fail")));
}
