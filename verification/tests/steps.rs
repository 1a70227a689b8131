use rust_stemmer::rules::{apply_rules, ends_with, meets, Condition, Rule};
use rust_stemmer::steps::{
    run_steps, step_1a, step_1b, step_1c, step_2, step_3, step_4, step_5a, step_5b, tidy,
};
use rust_stemmer::table::{Language, RuleTable};

fn chars(word: &str) -> Vec<char> {
    word.chars().collect()
}

fn text(form: &[char]) -> String {
    form.iter().collect()
}

fn with_table(step: fn(&RuleTable, &mut Vec<char>), pairs: &[(&str, &str)]) {
    let table = RuleTable::english();
    for (word, expected) in pairs {
        let mut form = chars(word);
        step(&table, &mut form);
        assert_eq!(text(&form), *expected, "from {}", word);
    }
}

fn without_table(step: fn(&mut Vec<char>), pairs: &[(&str, &str)]) {
    for (word, expected) in pairs {
        let mut form = chars(word);
        step(&mut form);
        assert_eq!(text(&form), *expected, "from {}", word);
    }
}

#[test]
fn ends_with_looks_at_the_tail() {
    assert!(ends_with(&chars("caresses"), &chars("sses")));
    assert!(ends_with(&chars("sses"), &chars("sses")));
    assert!(ends_with(&chars("cat"), &chars("")));
    assert!(!ends_with(&chars("ses"), &chars("sses")));
    assert!(!ends_with(&chars("caressed"), &chars("sses")));
    assert!(!ends_with(&chars(""), &chars("s")));
}

#[test]
fn conditions_are_asked_of_the_stem() {
    assert!(meets(Condition::Always, &chars("")));
    assert!(meets(Condition::MeasureAbove(0), &chars("agr")));
    assert!(!meets(Condition::MeasureAbove(0), &chars("f")));
    assert!(meets(Condition::MeasureAbove(1), &chars("gener")));
    assert!(!meets(Condition::MeasureAbove(1), &chars("rel")));
    assert!(meets(Condition::HasVowel, &chars("plaster")));
    assert!(!meets(Condition::HasVowel, &chars("bl")));
    assert!(meets(Condition::AfterSOrT(1), &chars("adopt")));
    assert!(meets(Condition::AfterSOrT(1), &chars("confus")));
    assert!(!meets(Condition::AfterSOrT(1), &chars("opin")));
    assert!(!meets(Condition::AfterSOrT(1), &chars("nat")));
    assert!(!meets(Condition::AfterSOrT(1), &chars("")));
}

#[test]
fn the_first_matching_suffix_decides() {
    let rules = vec![
        Rule::new("ement", "", Condition::MeasureAbove(1)),
        Rule::new("ment", "", Condition::MeasureAbove(1)),
        Rule::new("ent", "", Condition::MeasureAbove(1)),
    ];
    let mut form = chars("agreement");
    assert_eq!(apply_rules(&rules, &mut form), None);
    assert_eq!(text(&form), "agreement");
    let mut form = chars("replacement");
    assert_eq!(apply_rules(&rules, &mut form), Some(0));
    assert_eq!(text(&form), "replac");
    let mut form = chars("adjustment");
    assert_eq!(apply_rules(&rules, &mut form), Some(1));
    assert_eq!(text(&form), "adjust");
    let mut form = chars("dependent");
    assert_eq!(apply_rules(&rules, &mut form), Some(2));
    assert_eq!(text(&form), "depend");
    let mut form = chars("depend");
    assert_eq!(apply_rules(&rules, &mut form), None);
    assert_eq!(text(&form), "depend");
}

#[test]
fn an_empty_rule_list_changes_nothing() {
    let mut form = chars("word");
    assert_eq!(apply_rules(&[], &mut form), None);
    assert_eq!(text(&form), "word");
}

#[test]
fn the_table_of_a_language_is_the_english_one() {
    let table = RuleTable::for_language(Language::English);
    assert_eq!(table.step_1a_rules().len(), 4);
    assert_eq!(table.step_1b_rules().len(), 3);
    assert_eq!(table.restore_rules().len(), 3);
    assert_eq!(table.step_2_rules().len(), 21);
    assert_eq!(table.step_3_rules().len(), 7);
    assert_eq!(table.step_4_rules().len(), 19);
}

#[test]
fn rules_can_be_read() {
    let table = RuleTable::english();
    let rule = &table.step_2_rules()[0];
    assert_eq!(text(rule.suffix()), "ational");
    assert_eq!(text(rule.replacement()), "ate");
    assert_eq!(rule.condition(), Condition::MeasureAbove(0));
    let rule = &table.step_4_rules()[11];
    assert_eq!(text(rule.suffix()), "ion");
    assert_eq!(text(rule.replacement()), "");
    assert_eq!(rule.condition(), Condition::AfterSOrT(1));
    let rule = &table.step_1b_rules()[1];
    assert_eq!(text(rule.suffix()), "ed");
    assert_eq!(rule.condition(), Condition::HasVowel);
    let rule = &table.step_1a_rules()[3];
    assert_eq!(text(rule.suffix()), "s");
    assert_eq!(rule.condition(), Condition::Always);
}

#[test]
fn in_every_list_the_longer_suffix_stands_first() {
    let table = RuleTable::english();
    let lists = [
        table.step_1a_rules(),
        table.step_1b_rules(),
        table.restore_rules(),
        table.step_2_rules(),
        table.step_3_rules(),
        table.step_4_rules(),
    ];
    for rules in lists {
        for k in 0..rules.len() {
            for j in 0..k {
                assert!(!ends_with(rules[k].suffix(), rules[j].suffix()));
            }
        }
    }
}

#[test]
fn step_1a_rewrites_plurals() {
    with_table(
        step_1a,
        &[
            ("caresses", "caress"),
            ("ponies", "poni"),
            ("ties", "ti"),
            ("caress", "caress"),
            ("cats", "cat"),
            ("cat", "cat"),
        ],
    );
}

#[test]
fn step_1b_rewrites_verb_forms() {
    with_table(
        step_1b,
        &[
            ("feed", "feed"),
            ("agreed", "agree"),
            ("plastered", "plaster"),
            ("bled", "bled"),
            ("motoring", "motor"),
            ("sing", "sing"),
        ],
    );
}

#[test]
fn step_1b_tidies_the_stem() {
    with_table(
        step_1b,
        &[
            ("conflated", "conflate"),
            ("troubled", "trouble"),
            ("sized", "size"),
            ("hopping", "hop"),
            ("tanned", "tan"),
            ("falling", "fall"),
            ("hissing", "hiss"),
            ("fizzed", "fizz"),
            ("failing", "fail"),
            ("filing", "file"),
        ],
    );
}

#[test]
fn tidy_alone() {
    with_table(
        tidy,
        &[
            ("conflat", "conflate"),
            ("troubl", "trouble"),
            ("siz", "size"),
            ("hopp", "hop"),
            ("fall", "fall"),
            ("fil", "file"),
            ("fail", "fail"),
            ("", ""),
        ],
    );
}

#[test]
fn step_1c_turns_a_final_y() {
    without_table(step_1c, &[("happy", "happi"), ("sky", "sky"), ("apology", "apologi")]);
}

#[test]
fn step_1c_keeps_y_after_a_vowel() {
    without_table(step_1c, &[("play", "play"), ("enjoy", "enjoy"), ("y", "y"), ("by", "by")]);
}

#[test]
fn step_2_maps_double_suffixes() {
    with_table(
        step_2,
        &[
            ("relational", "relate"),
            ("conditional", "condition"),
            ("rational", "rational"),
            ("valenci", "valence"),
            ("hesitanci", "hesitance"),
            ("digitizer", "digitize"),
            ("conformabli", "conformable"),
            ("radicalli", "radical"),
            ("differentli", "different"),
            ("vileli", "vile"),
            ("analogousli", "analogous"),
            ("vietnamization", "vietnamize"),
            ("predication", "predicate"),
            ("operator", "operate"),
            ("feudalism", "feudal"),
            ("decisiveness", "decisive"),
            ("hopefulness", "hopeful"),
            ("callousness", "callous"),
            ("formaliti", "formal"),
            ("sensitiviti", "sensitive"),
            ("sensibiliti", "sensible"),
        ],
    );
}

#[test]
fn step_2_knows_bli_and_logi() {
    with_table(
        step_2,
        &[("possibli", "possible"), ("archaeologi", "archaeolog"), ("biologi", "biologi")],
    );
}

#[test]
fn step_3_rewrites() {
    with_table(
        step_3,
        &[
            ("triplicate", "triplic"),
            ("formative", "form"),
            ("formalize", "formal"),
            ("electriciti", "electric"),
            ("electrical", "electric"),
            ("hopeful", "hope"),
            ("goodness", "good"),
        ],
    );
}

#[test]
fn step_4_strikes_suffixes() {
    with_table(
        step_4,
        &[
            ("revival", "reviv"),
            ("allowance", "allow"),
            ("inference", "infer"),
            ("airliner", "airlin"),
            ("gyroscopic", "gyroscop"),
            ("adjustable", "adjust"),
            ("defensible", "defens"),
            ("irritant", "irrit"),
            ("replacement", "replac"),
            ("adjustment", "adjust"),
            ("dependent", "depend"),
            ("adoption", "adopt"),
            ("homologou", "homolog"),
            ("communism", "commun"),
            ("activate", "activ"),
            ("angulariti", "angular"),
            ("homologous", "homolog"),
            ("effective", "effect"),
            ("bowdlerize", "bowdler"),
        ],
    );
}

#[test]
fn step_4_strikes_ion_only_after_s_or_t() {
    with_table(step_4, &[("adoption", "adopt"), ("confusion", "confus"), ("opinion", "opinion")]);
}

#[test]
fn step_4_asks_for_a_measure_above_one() {
    with_table(step_4, &[("relate", "relate"), ("general", "gener"), ("agreement", "agreement")]);
}

#[test]
fn step_5a_strikes_a_final_e() {
    without_table(step_5a, &[("probate", "probat"), ("rate", "rate"), ("cease", "ceas")]);
}

#[test]
fn step_5b_strikes_one_l() {
    without_table(step_5b, &[("controll", "control"), ("roll", "roll")]);
}

#[test]
fn run_steps_chains_the_steps() {
    with_table(
        run_steps,
        &[("generalization", "gener"), ("oscillators", "oscil"), ("", ""), ("s", "")],
    );
}

#[test]
fn generalization_step_by_step() {
    let table = RuleTable::english();
    let mut form = chars("generalization");
    step_1a(&table, &mut form);
    step_1b(&table, &mut form);
    step_1c(&mut form);
    assert_eq!(text(&form), "generalization");
    step_2(&table, &mut form);
    assert_eq!(text(&form), "generalize");
    step_3(&table, &mut form);
    assert_eq!(text(&form), "general");
    step_4(&table, &mut form);
    assert_eq!(text(&form), "gener");
    step_5a(&mut form);
    step_5b(&mut form);
    assert_eq!(text(&form), "gener");
}

#[test]
fn agreed_step_by_step() {
    let table = RuleTable::english();
    let mut form = chars("agreed");
    step_1a(&table, &mut form);
    step_1b(&table, &mut form);
    assert_eq!(text(&form), "agree");
    step_1c(&mut form);
    step_2(&table, &mut form);
    step_3(&table, &mut form);
    step_4(&table, &mut form);
    assert_eq!(text(&form), "agree");
    step_5a(&mut form);
    assert_eq!(text(&form), "agre");
    step_5b(&mut form);
    assert_eq!(text(&form), "agre");
}
