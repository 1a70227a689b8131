use rust_stemmer::text::{chars_of, fold, fold_char, string_of};
use rust_stemmer::{fail_open, stem, stem_with, Config, Language, Stemmer};

fn expect_stems(pairs: &[(&str, &str)]) {
    for (word, expected) in pairs {
        assert_eq!(stem(word), *expected, "stem of {}", word);
    }
}

const CORPUS: [&str; 40] = [
    "", "a", "is", "as", "run", "running", "runs", "caresses", "ponies", "agreed", "plastered",
    "relational", "conditional", "sensational", "generalization", "happy", "sky", "play",
    "hopping", "hoping", "filing", "feed", "sing", "controlling", "rolling", "university",
    "electricity", "possibly", "oscillators", "agreement", "ies", "sss", "eed", "yyy", "ABLE",
    "Nationalization", "e-mails", "na\u{ef}ves", "\u{130}stanbullu", "1990s",
];

#[test]
fn stem_caresses() {
    assert_eq!(stem("caresses"), "caress");
}

#[test]
fn stem_ponies() {
    assert_eq!(stem("ponies"), "poni");
}

#[test]
fn stem_plastered() {
    assert_eq!(stem("plastered"), "plaster");
}

#[test]
fn stem_relational() {
    assert_eq!(stem("relational"), "relat");
}

#[test]
fn stem_conditional() {
    assert_eq!(stem("conditional"), "condit");
}

#[test]
fn stem_sensational() {
    assert_eq!(stem("sensational"), "sensat");
}

#[test]
fn stem_agreed_loses_its_final_e_in_the_last_step() {
    assert_eq!(stem("agreed"), "agre");
}

#[test]
fn stem_generalization_loses_al_in_step_4() {
    assert_eq!(stem("generalization"), "gener");
}

#[test]
fn stems_of_common_words() {
    expect_stems(&[
        ("running", "run"),
        ("runs", "run"),
        ("hopping", "hop"),
        ("hoping", "hope"),
        ("filing", "file"),
        ("falling", "fall"),
        ("feed", "feed"),
        ("sing", "sing"),
        ("happy", "happi"),
        ("sky", "sky"),
        ("cats", "cat"),
        ("controlling", "control"),
        ("rolling", "roll"),
        ("university", "univers"),
        ("electricity", "electr"),
        ("possibly", "possibl"),
        ("generously", "gener"),
        ("oscillators", "oscil"),
        ("agreement", "agreement"),
        ("connection", "connect"),
        ("connected", "connect"),
        ("connecting", "connect"),
    ]);
}

#[test]
fn a_final_y_after_a_vowel_stays() {
    expect_stems(&[("play", "play"), ("say", "say"), ("enjoy", "enjoy")]);
}

#[test]
fn known_stable_stems_stay() {
    for word in ["run", "caress", "poni", "plaster", "relat", "condit", "sensat", "gener", "hop"] {
        assert_eq!(stem(word), word);
        assert_eq!(stem(&stem(word)), stem(word));
    }
}

#[test]
fn stemming_twice_can_go_further() {
    assert_eq!(stem("agreed"), "agre");
    assert_eq!(stem("agre"), "agr");
    assert_eq!(stem("agr"), "agr");
    assert_ne!(stem(&stem("agreed")), stem("agreed"));
}

#[test]
fn the_stem_is_never_longer_than_the_word() {
    for word in CORPUS {
        let stemmed = stem(word);
        assert!(stemmed.chars().count() <= word.chars().count(), "stem of {}", word);
        assert!(stemmed.len() <= word.len(), "stem of {}", word);
        let kept = stem_with(word, Config { language: Language::English, lowercase_fold: false });
        assert!(kept.chars().count() <= word.chars().count(), "stem of {}", word);
    }
}

#[test]
fn the_stem_of_a_word_is_empty_only_for_the_empty_word() {
    for word in CORPUS {
        assert_eq!(stem(word).is_empty(), word.is_empty(), "stem of {}", word);
    }
    for word in ["sss", "ies", "eed", "ing", "ion", "ate", "ses", "lll"] {
        assert!(!stem(word).is_empty(), "stem of {}", word);
    }
}

#[test]
fn with_the_fold_a_longer_word_comes_out_without_capitals() {
    for word in CORPUS {
        if word.chars().count() > 2 {
            assert!(!stem(word).chars().any(|c| c.is_ascii_uppercase()), "stem of {}", word);
        }
    }
}

#[test]
fn words_of_at_most_two_characters_come_back() {
    for word in ["", "a", "s", "y", "as", "is", "ed", "ss", "by", "AS", "Ab", "\u{e9}", "\u{e9}s", "7s"] {
        assert_eq!(stem(word), word);
        assert_eq!(
            stem_with(word, Config { language: Language::English, lowercase_fold: false }),
            word
        );
    }
}

#[test]
fn three_characters_are_stemmed() {
    expect_stems(&[("ass", "ass"), ("ies", "i"), ("ats", "at"), ("sss", "sss"), ("eed", "eed"), ("bed", "bed")]);
}

#[test]
fn the_fold_gives_lower_case() {
    expect_stems(&[("RUNNING", "run"), ("Caresses", "caress"), ("GeneraliZation", "gener")]);
}

#[test]
fn without_the_fold_case_is_kept_and_matters() {
    let config = Config { language: Language::English, lowercase_fold: false };
    assert_eq!(stem_with("RUNNING", config), "RUNNING");
    assert_eq!(stem_with("Running", config), "Run");
    assert_eq!(stem_with("running", config), "run");
    assert_eq!(stem_with("hopING", config), "hopING");
}

#[test]
fn other_characters_pass_through() {
    expect_stems(&[
        ("1990s", "1990"),
        ("e-mails", "e-mail"),
        ("na\u{ef}ves", "na\u{ef}v"),
        ("\u{130}stanbullu", "\u{130}stanbullu"),
        ("...", "..."),
        ("caf\u{e9}s", "caf\u{e9}"),
    ]);
}

#[test]
fn the_default_configuration_is_english_with_the_fold() {
    let config = Config::default();
    assert_eq!(config.language, Language::English);
    assert!(config.lowercase_fold);
    assert_eq!(stem_with("RELATIONAL", config), stem("RELATIONAL"));
}

#[test]
fn an_engine_keeps_its_configuration() {
    let config = Config { language: Language::English, lowercase_fold: false };
    let engine = Stemmer::new(config);
    assert_eq!(engine.config(), config);
    assert_eq!(engine.stem("Relational"), "Relat");
    assert_eq!(Stemmer::new(Config::default()).stem("Relational"), "relat");
}

#[test]
fn one_engine_serves_many_calls_in_any_order() {
    let engine = Stemmer::new(Config::default());
    let first: Vec<String> = CORPUS.iter().map(|word| engine.stem(word)).collect();
    let second: Vec<String> = CORPUS.iter().rev().map(|word| engine.stem(word)).collect();
    for (i, word) in CORPUS.iter().enumerate() {
        assert_eq!(first[i], stem(word));
        assert_eq!(second[CORPUS.len() - 1 - i], first[i]);
    }
}

#[test]
fn fail_open_gives_the_stem_on_success() {
    let outcome: Result<String, ()> = Ok(stem("ponies"));
    assert_eq!(fail_open("ponies", outcome), "poni");
}

#[test]
fn fail_open_gives_the_word_back_on_failure() {
    let outcome: Result<String, &str> = Err("engine failed");
    assert_eq!(fail_open("ponies", outcome), "ponies");
    let outcome: Result<String, ()> = Err(());
    assert_eq!(fail_open("", outcome), "");
}

#[test]
fn fold_char_folds_ascii_capitals_only() {
    assert_eq!(fold_char('A'), 'a');
    assert_eq!(fold_char('M'), 'm');
    assert_eq!(fold_char('Z'), 'z');
    assert_eq!(fold_char('a'), 'a');
    assert_eq!(fold_char('@'), '@');
    assert_eq!(fold_char('['), '[');
    assert_eq!(fold_char('7'), '7');
    assert_eq!(fold_char('\u{c9}'), '\u{c9}');
    assert_eq!(fold_char('\u{130}'), '\u{130}');
}

#[test]
fn fold_folds_every_character() {
    let mut form: Vec<char> = "HeLLo W\u{d6}RLD 42".chars().collect();
    fold(&mut form);
    let folded: String = form.iter().collect();
    assert_eq!(folded, "hello w\u{d6}rld 42");
}

#[test]
fn chars_and_strings_convert_both_ways() {
    assert_eq!(chars_of("na\u{ef}ve"), vec!['n', 'a', '\u{ef}', 'v', 'e']);
    assert_eq!(chars_of(""), Vec::<char>::new());
    assert_eq!(string_of(&['a', 'b', '\u{e9}']), "ab\u{e9}");
    assert_eq!(string_of(&[]), "");
    assert_eq!(string_of(&chars_of("stemmer")), "stemmer");
}
