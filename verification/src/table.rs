//! The rule table: the rule lists of the steps that are driven by rules,
//! and the table of the one language there is, English.
use crate::rules::{rule_of, specs_of, Condition, Rule, RuleSpec};
use vstd::prelude::*;

verus! {

/// A rule table as a mathematical value: one ordered rule list for each
/// step that is driven by rules.
pub struct RuleTableSpec {
    pub step_1a: Seq<RuleSpec>,
    pub step_1b: Seq<RuleSpec>,
    pub restore: Seq<RuleSpec>,
    pub step_2: Seq<RuleSpec>,
    pub step_3: Seq<RuleSpec>,
    pub step_4: Seq<RuleSpec>,
}

/// A rule table. It is built once and only read afterwards.
pub struct RuleTable {
    step_1a: Vec<Rule>,
    step_1b: Vec<Rule>,
    restore: Vec<Rule>,
    step_2: Vec<Rule>,
    step_3: Vec<Rule>,
    step_4: Vec<Rule>,
}

impl View for RuleTable {
    type V = RuleTableSpec;

    closed spec fn view(&self) -> RuleTableSpec {
        RuleTableSpec {
            step_1a: specs_of(self.step_1a@),
            step_1b: specs_of(self.step_1b@),
            restore: specs_of(self.restore@),
            step_2: specs_of(self.step_2@),
            step_3: specs_of(self.step_3@),
            step_4: specs_of(self.step_4@),
        }
    }
}

/// Step 1a, plurals: `sses` to `ss`, `ies` to `i`, `ss` kept, a single `s`
/// struck.
pub open spec fn english_step_1a() -> Seq<RuleSpec> {
    seq![
        rule_of("sses"@, "ss"@, Condition::Always),
        rule_of("ies"@, "i"@, Condition::Always),
        rule_of("ss"@, "ss"@, Condition::Always),
        rule_of("s"@, ""@, Condition::Always),
    ]
}

/// Step 1b, verb forms: `eed` to `ee` after a stem of measure above 0; `ed`
/// and `ing` struck after a stem that holds a vowel.
pub open spec fn english_step_1b() -> Seq<RuleSpec> {
    seq![
        rule_of("eed"@, "ee"@, Condition::MeasureAbove(0)),
        rule_of("ed"@, ""@, Condition::HasVowel),
        rule_of("ing"@, ""@, Condition::HasVowel),
    ]
}

/// The endings that get their `e` back once step 1b has struck `ed` or
/// `ing`.
pub open spec fn english_restore() -> Seq<RuleSpec> {
    seq![
        rule_of("at"@, "ate"@, Condition::Always),
        rule_of("bl"@, "ble"@, Condition::Always),
        rule_of("iz"@, "ize"@, Condition::Always),
    ]
}

/// Step 2, double suffixes to single ones, each after a stem of measure
/// above 0.
pub open spec fn english_step_2() -> Seq<RuleSpec> {
    seq![
        rule_of("ational"@, "ate"@, Condition::MeasureAbove(0)),
        rule_of("tional"@, "tion"@, Condition::MeasureAbove(0)),
        rule_of("enci"@, "ence"@, Condition::MeasureAbove(0)),
        rule_of("anci"@, "ance"@, Condition::MeasureAbove(0)),
        rule_of("izer"@, "ize"@, Condition::MeasureAbove(0)),
        rule_of("bli"@, "ble"@, Condition::MeasureAbove(0)),
        rule_of("alli"@, "al"@, Condition::MeasureAbove(0)),
        rule_of("entli"@, "ent"@, Condition::MeasureAbove(0)),
        rule_of("eli"@, "e"@, Condition::MeasureAbove(0)),
        rule_of("ousli"@, "ous"@, Condition::MeasureAbove(0)),
        rule_of("ization"@, "ize"@, Condition::MeasureAbove(0)),
        rule_of("ation"@, "ate"@, Condition::MeasureAbove(0)),
        rule_of("ator"@, "ate"@, Condition::MeasureAbove(0)),
        rule_of("alism"@, "al"@, Condition::MeasureAbove(0)),
        rule_of("iveness"@, "ive"@, Condition::MeasureAbove(0)),
        rule_of("fulness"@, "ful"@, Condition::MeasureAbove(0)),
        rule_of("ousness"@, "ous"@, Condition::MeasureAbove(0)),
        rule_of("aliti"@, "al"@, Condition::MeasureAbove(0)),
        rule_of("iviti"@, "ive"@, Condition::MeasureAbove(0)),
        rule_of("biliti"@, "ble"@, Condition::MeasureAbove(0)),
        rule_of("logi"@, "log"@, Condition::MeasureAbove(0)),
    ]
}

/// Step 3, each rule after a stem of measure above 0.
pub open spec fn english_step_3() -> Seq<RuleSpec> {
    seq![
        rule_of("icate"@, "ic"@, Condition::MeasureAbove(0)),
        rule_of("ative"@, ""@, Condition::MeasureAbove(0)),
        rule_of("alize"@, "al"@, Condition::MeasureAbove(0)),
        rule_of("iciti"@, "ic"@, Condition::MeasureAbove(0)),
        rule_of("ical"@, "ic"@, Condition::MeasureAbove(0)),
        rule_of("ful"@, ""@, Condition::MeasureAbove(0)),
        rule_of("ness"@, ""@, Condition::MeasureAbove(0)),
    ]
}

/// Step 4, suffixes struck after a stem of measure above 1; `ion` only
/// where that stem ends in `s` or `t`.
pub open spec fn english_step_4() -> Seq<RuleSpec> {
    seq![
        rule_of("al"@, ""@, Condition::MeasureAbove(1)),
        rule_of("ance"@, ""@, Condition::MeasureAbove(1)),
        rule_of("ence"@, ""@, Condition::MeasureAbove(1)),
        rule_of("er"@, ""@, Condition::MeasureAbove(1)),
        rule_of("ic"@, ""@, Condition::MeasureAbove(1)),
        rule_of("able"@, ""@, Condition::MeasureAbove(1)),
        rule_of("ible"@, ""@, Condition::MeasureAbove(1)),
        rule_of("ant"@, ""@, Condition::MeasureAbove(1)),
        rule_of("ement"@, ""@, Condition::MeasureAbove(1)),
        rule_of("ment"@, ""@, Condition::MeasureAbove(1)),
        rule_of("ent"@, ""@, Condition::MeasureAbove(1)),
        rule_of("ion"@, ""@, Condition::AfterSOrT(1)),
        rule_of("ou"@, ""@, Condition::MeasureAbove(1)),
        rule_of("ism"@, ""@, Condition::MeasureAbove(1)),
        rule_of("ate"@, ""@, Condition::MeasureAbove(1)),
        rule_of("iti"@, ""@, Condition::MeasureAbove(1)),
        rule_of("ous"@, ""@, Condition::MeasureAbove(1)),
        rule_of("ive"@, ""@, Condition::MeasureAbove(1)),
        rule_of("ize"@, ""@, Condition::MeasureAbove(1)),
    ]
}

/// The languages that have a rule table.
#[derive(Clone, Copy, Debug, PartialEq, Eq, Structural)]
pub enum Language {
    /// English, with the classical rule set.
    English,
}

/// The rule table of a language.
pub open spec fn table_for(language: Language) -> RuleTableSpec {
    match language {
        Language::English => english_table(),
    }
}

/// The English rule table.
pub open spec fn english_table() -> RuleTableSpec {
    RuleTableSpec {
        step_1a: english_step_1a(),
        step_1b: english_step_1b(),
        restore: english_restore(),
        step_2: english_step_2(),
        step_3: english_step_3(),
        step_4: english_step_4(),
    }
}

/// How the suffixes and replacements of the English table are spelled.
pub proof fn lemma_english_spelling()
    ensures
        "sses"@ == seq!['s', 's', 'e', 's'],
        "ss"@ == seq!['s', 's'],
        "ies"@ == seq!['i', 'e', 's'],
        "i"@ == seq!['i'],
        "s"@ == seq!['s'],
        ""@ == Seq::<char>::empty(),
        "eed"@ == seq!['e', 'e', 'd'],
        "ee"@ == seq!['e', 'e'],
        "ed"@ == seq!['e', 'd'],
        "ing"@ == seq!['i', 'n', 'g'],
        "at"@ == seq!['a', 't'],
        "ate"@ == seq!['a', 't', 'e'],
        "bl"@ == seq!['b', 'l'],
        "ble"@ == seq!['b', 'l', 'e'],
        "iz"@ == seq!['i', 'z'],
        "ize"@ == seq!['i', 'z', 'e'],
        "ational"@ == seq!['a', 't', 'i', 'o', 'n', 'a', 'l'],
        "tional"@ == seq!['t', 'i', 'o', 'n', 'a', 'l'],
        "tion"@ == seq!['t', 'i', 'o', 'n'],
        "enci"@ == seq!['e', 'n', 'c', 'i'],
        "ence"@ == seq!['e', 'n', 'c', 'e'],
        "anci"@ == seq!['a', 'n', 'c', 'i'],
        "ance"@ == seq!['a', 'n', 'c', 'e'],
        "izer"@ == seq!['i', 'z', 'e', 'r'],
        "bli"@ == seq!['b', 'l', 'i'],
        "alli"@ == seq!['a', 'l', 'l', 'i'],
        "al"@ == seq!['a', 'l'],
        "entli"@ == seq!['e', 'n', 't', 'l', 'i'],
        "ent"@ == seq!['e', 'n', 't'],
        "eli"@ == seq!['e', 'l', 'i'],
        "e"@ == seq!['e'],
        "ousli"@ == seq!['o', 'u', 's', 'l', 'i'],
        "ous"@ == seq!['o', 'u', 's'],
        "ization"@ == seq!['i', 'z', 'a', 't', 'i', 'o', 'n'],
        "ation"@ == seq!['a', 't', 'i', 'o', 'n'],
        "ator"@ == seq!['a', 't', 'o', 'r'],
        "alism"@ == seq!['a', 'l', 'i', 's', 'm'],
        "iveness"@ == seq!['i', 'v', 'e', 'n', 'e', 's', 's'],
        "ive"@ == seq!['i', 'v', 'e'],
        "fulness"@ == seq!['f', 'u', 'l', 'n', 'e', 's', 's'],
        "ful"@ == seq!['f', 'u', 'l'],
        "ousness"@ == seq!['o', 'u', 's', 'n', 'e', 's', 's'],
        "aliti"@ == seq!['a', 'l', 'i', 't', 'i'],
        "iviti"@ == seq!['i', 'v', 'i', 't', 'i'],
        "biliti"@ == seq!['b', 'i', 'l', 'i', 't', 'i'],
        "logi"@ == seq!['l', 'o', 'g', 'i'],
        "log"@ == seq!['l', 'o', 'g'],
        "icate"@ == seq!['i', 'c', 'a', 't', 'e'],
        "ic"@ == seq!['i', 'c'],
        "ative"@ == seq!['a', 't', 'i', 'v', 'e'],
        "alize"@ == seq!['a', 'l', 'i', 'z', 'e'],
        "iciti"@ == seq!['i', 'c', 'i', 't', 'i'],
        "ical"@ == seq!['i', 'c', 'a', 'l'],
        "ness"@ == seq!['n', 'e', 's', 's'],
        "er"@ == seq!['e', 'r'],
        "able"@ == seq!['a', 'b', 'l', 'e'],
        "ible"@ == seq!['i', 'b', 'l', 'e'],
        "ant"@ == seq!['a', 'n', 't'],
        "ement"@ == seq!['e', 'm', 'e', 'n', 't'],
        "ment"@ == seq!['m', 'e', 'n', 't'],
        "ion"@ == seq!['i', 'o', 'n'],
        "ou"@ == seq!['o', 'u'],
        "ism"@ == seq!['i', 's', 'm'],
        "iti"@ == seq!['i', 't', 'i'],
{
    reveal_strlit("sses");
    assert("sses"@ =~= seq!['s', 's', 'e', 's']);
    reveal_strlit("ss");
    assert("ss"@ =~= seq!['s', 's']);
    reveal_strlit("ies");
    assert("ies"@ =~= seq!['i', 'e', 's']);
    reveal_strlit("i");
    assert("i"@ =~= seq!['i']);
    reveal_strlit("s");
    assert("s"@ =~= seq!['s']);
    reveal_strlit("");
    assert(""@ =~= Seq::<char>::empty());
    reveal_strlit("eed");
    assert("eed"@ =~= seq!['e', 'e', 'd']);
    reveal_strlit("ee");
    assert("ee"@ =~= seq!['e', 'e']);
    reveal_strlit("ed");
    assert("ed"@ =~= seq!['e', 'd']);
    reveal_strlit("ing");
    assert("ing"@ =~= seq!['i', 'n', 'g']);
    reveal_strlit("at");
    assert("at"@ =~= seq!['a', 't']);
    reveal_strlit("ate");
    assert("ate"@ =~= seq!['a', 't', 'e']);
    reveal_strlit("bl");
    assert("bl"@ =~= seq!['b', 'l']);
    reveal_strlit("ble");
    assert("ble"@ =~= seq!['b', 'l', 'e']);
    reveal_strlit("iz");
    assert("iz"@ =~= seq!['i', 'z']);
    reveal_strlit("ize");
    assert("ize"@ =~= seq!['i', 'z', 'e']);
    reveal_strlit("ational");
    assert("ational"@ =~= seq!['a', 't', 'i', 'o', 'n', 'a', 'l']);
    reveal_strlit("tional");
    assert("tional"@ =~= seq!['t', 'i', 'o', 'n', 'a', 'l']);
    reveal_strlit("tion");
    assert("tion"@ =~= seq!['t', 'i', 'o', 'n']);
    reveal_strlit("enci");
    assert("enci"@ =~= seq!['e', 'n', 'c', 'i']);
    reveal_strlit("ence");
    assert("ence"@ =~= seq!['e', 'n', 'c', 'e']);
    reveal_strlit("anci");
    assert("anci"@ =~= seq!['a', 'n', 'c', 'i']);
    reveal_strlit("ance");
    assert("ance"@ =~= seq!['a', 'n', 'c', 'e']);
    reveal_strlit("izer");
    assert("izer"@ =~= seq!['i', 'z', 'e', 'r']);
    reveal_strlit("bli");
    assert("bli"@ =~= seq!['b', 'l', 'i']);
    reveal_strlit("alli");
    assert("alli"@ =~= seq!['a', 'l', 'l', 'i']);
    reveal_strlit("al");
    assert("al"@ =~= seq!['a', 'l']);
    reveal_strlit("entli");
    assert("entli"@ =~= seq!['e', 'n', 't', 'l', 'i']);
    reveal_strlit("ent");
    assert("ent"@ =~= seq!['e', 'n', 't']);
    reveal_strlit("eli");
    assert("eli"@ =~= seq!['e', 'l', 'i']);
    reveal_strlit("e");
    assert("e"@ =~= seq!['e']);
    reveal_strlit("ousli");
    assert("ousli"@ =~= seq!['o', 'u', 's', 'l', 'i']);
    reveal_strlit("ous");
    assert("ous"@ =~= seq!['o', 'u', 's']);
    reveal_strlit("ization");
    assert("ization"@ =~= seq!['i', 'z', 'a', 't', 'i', 'o', 'n']);
    reveal_strlit("ation");
    assert("ation"@ =~= seq!['a', 't', 'i', 'o', 'n']);
    reveal_strlit("ator");
    assert("ator"@ =~= seq!['a', 't', 'o', 'r']);
    reveal_strlit("alism");
    assert("alism"@ =~= seq!['a', 'l', 'i', 's', 'm']);
    reveal_strlit("iveness");
    assert("iveness"@ =~= seq!['i', 'v', 'e', 'n', 'e', 's', 's']);
    reveal_strlit("ive");
    assert("ive"@ =~= seq!['i', 'v', 'e']);
    reveal_strlit("fulness");
    assert("fulness"@ =~= seq!['f', 'u', 'l', 'n', 'e', 's', 's']);
    reveal_strlit("ful");
    assert("ful"@ =~= seq!['f', 'u', 'l']);
    reveal_strlit("ousness");
    assert("ousness"@ =~= seq!['o', 'u', 's', 'n', 'e', 's', 's']);
    reveal_strlit("aliti");
    assert("aliti"@ =~= seq!['a', 'l', 'i', 't', 'i']);
    reveal_strlit("iviti");
    assert("iviti"@ =~= seq!['i', 'v', 'i', 't', 'i']);
    reveal_strlit("biliti");
    assert("biliti"@ =~= seq!['b', 'i', 'l', 'i', 't', 'i']);
    reveal_strlit("logi");
    assert("logi"@ =~= seq!['l', 'o', 'g', 'i']);
    reveal_strlit("log");
    assert("log"@ =~= seq!['l', 'o', 'g']);
    reveal_strlit("icate");
    assert("icate"@ =~= seq!['i', 'c', 'a', 't', 'e']);
    reveal_strlit("ic");
    assert("ic"@ =~= seq!['i', 'c']);
    reveal_strlit("ative");
    assert("ative"@ =~= seq!['a', 't', 'i', 'v', 'e']);
    reveal_strlit("alize");
    assert("alize"@ =~= seq!['a', 'l', 'i', 'z', 'e']);
    reveal_strlit("iciti");
    assert("iciti"@ =~= seq!['i', 'c', 'i', 't', 'i']);
    reveal_strlit("ical");
    assert("ical"@ =~= seq!['i', 'c', 'a', 'l']);
    reveal_strlit("ness");
    assert("ness"@ =~= seq!['n', 'e', 's', 's']);
    reveal_strlit("er");
    assert("er"@ =~= seq!['e', 'r']);
    reveal_strlit("able");
    assert("able"@ =~= seq!['a', 'b', 'l', 'e']);
    reveal_strlit("ible");
    assert("ible"@ =~= seq!['i', 'b', 'l', 'e']);
    reveal_strlit("ant");
    assert("ant"@ =~= seq!['a', 'n', 't']);
    reveal_strlit("ement");
    assert("ement"@ =~= seq!['e', 'm', 'e', 'n', 't']);
    reveal_strlit("ment");
    assert("ment"@ =~= seq!['m', 'e', 'n', 't']);
    reveal_strlit("ion");
    assert("ion"@ =~= seq!['i', 'o', 'n']);
    reveal_strlit("ou");
    assert("ou"@ =~= seq!['o', 'u']);
    reveal_strlit("ism");
    assert("ism"@ =~= seq!['i', 's', 'm']);
    reveal_strlit("iti");
    assert("iti"@ =~= seq!['i', 't', 'i']);
}

fn build_step_1a() -> (rules: Vec<Rule>)
    ensures
        specs_of(rules@) == english_step_1a(),
{
    let mut rules: Vec<Rule> = Vec::new();
    rules.push(Rule::new("sses", "ss", Condition::Always));
    rules.push(Rule::new("ies", "i", Condition::Always));
    rules.push(Rule::new("ss", "ss", Condition::Always));
    rules.push(Rule::new("s", "", Condition::Always));
    assert(specs_of(rules@) =~= english_step_1a());
    rules
}

fn build_step_1b() -> (rules: Vec<Rule>)
    ensures
        specs_of(rules@) == english_step_1b(),
{
    let mut rules: Vec<Rule> = Vec::new();
    rules.push(Rule::new("eed", "ee", Condition::MeasureAbove(0)));
    rules.push(Rule::new("ed", "", Condition::HasVowel));
    rules.push(Rule::new("ing", "", Condition::HasVowel));
    assert(specs_of(rules@) =~= english_step_1b());
    rules
}

fn build_restore() -> (rules: Vec<Rule>)
    ensures
        specs_of(rules@) == english_restore(),
{
    let mut rules: Vec<Rule> = Vec::new();
    rules.push(Rule::new("at", "ate", Condition::Always));
    rules.push(Rule::new("bl", "ble", Condition::Always));
    rules.push(Rule::new("iz", "ize", Condition::Always));
    assert(specs_of(rules@) =~= english_restore());
    rules
}

fn build_step_2() -> (rules: Vec<Rule>)
    ensures
        specs_of(rules@) == english_step_2(),
{
    let mut rules: Vec<Rule> = Vec::new();
    rules.push(Rule::new("ational", "ate", Condition::MeasureAbove(0)));
    rules.push(Rule::new("tional", "tion", Condition::MeasureAbove(0)));
    rules.push(Rule::new("enci", "ence", Condition::MeasureAbove(0)));
    rules.push(Rule::new("anci", "ance", Condition::MeasureAbove(0)));
    rules.push(Rule::new("izer", "ize", Condition::MeasureAbove(0)));
    rules.push(Rule::new("bli", "ble", Condition::MeasureAbove(0)));
    rules.push(Rule::new("alli", "al", Condition::MeasureAbove(0)));
    rules.push(Rule::new("entli", "ent", Condition::MeasureAbove(0)));
    rules.push(Rule::new("eli", "e", Condition::MeasureAbove(0)));
    rules.push(Rule::new("ousli", "ous", Condition::MeasureAbove(0)));
    rules.push(Rule::new("ization", "ize", Condition::MeasureAbove(0)));
    rules.push(Rule::new("ation", "ate", Condition::MeasureAbove(0)));
    rules.push(Rule::new("ator", "ate", Condition::MeasureAbove(0)));
    rules.push(Rule::new("alism", "al", Condition::MeasureAbove(0)));
    rules.push(Rule::new("iveness", "ive", Condition::MeasureAbove(0)));
    rules.push(Rule::new("fulness", "ful", Condition::MeasureAbove(0)));
    rules.push(Rule::new("ousness", "ous", Condition::MeasureAbove(0)));
    rules.push(Rule::new("aliti", "al", Condition::MeasureAbove(0)));
    rules.push(Rule::new("iviti", "ive", Condition::MeasureAbove(0)));
    rules.push(Rule::new("biliti", "ble", Condition::MeasureAbove(0)));
    rules.push(Rule::new("logi", "log", Condition::MeasureAbove(0)));
    assert(specs_of(rules@) =~= english_step_2());
    rules
}

fn build_step_3() -> (rules: Vec<Rule>)
    ensures
        specs_of(rules@) == english_step_3(),
{
    let mut rules: Vec<Rule> = Vec::new();
    rules.push(Rule::new("icate", "ic", Condition::MeasureAbove(0)));
    rules.push(Rule::new("ative", "", Condition::MeasureAbove(0)));
    rules.push(Rule::new("alize", "al", Condition::MeasureAbove(0)));
    rules.push(Rule::new("iciti", "ic", Condition::MeasureAbove(0)));
    rules.push(Rule::new("ical", "ic", Condition::MeasureAbove(0)));
    rules.push(Rule::new("ful", "", Condition::MeasureAbove(0)));
    rules.push(Rule::new("ness", "", Condition::MeasureAbove(0)));
    assert(specs_of(rules@) =~= english_step_3());
    rules
}

fn build_step_4() -> (rules: Vec<Rule>)
    ensures
        specs_of(rules@) == english_step_4(),
{
    let mut rules: Vec<Rule> = Vec::new();
    rules.push(Rule::new("al", "", Condition::MeasureAbove(1)));
    rules.push(Rule::new("ance", "", Condition::MeasureAbove(1)));
    rules.push(Rule::new("ence", "", Condition::MeasureAbove(1)));
    rules.push(Rule::new("er", "", Condition::MeasureAbove(1)));
    rules.push(Rule::new("ic", "", Condition::MeasureAbove(1)));
    rules.push(Rule::new("able", "", Condition::MeasureAbove(1)));
    rules.push(Rule::new("ible", "", Condition::MeasureAbove(1)));
    rules.push(Rule::new("ant", "", Condition::MeasureAbove(1)));
    rules.push(Rule::new("ement", "", Condition::MeasureAbove(1)));
    rules.push(Rule::new("ment", "", Condition::MeasureAbove(1)));
    rules.push(Rule::new("ent", "", Condition::MeasureAbove(1)));
    rules.push(Rule::new("ion", "", Condition::AfterSOrT(1)));
    rules.push(Rule::new("ou", "", Condition::MeasureAbove(1)));
    rules.push(Rule::new("ism", "", Condition::MeasureAbove(1)));
    rules.push(Rule::new("ate", "", Condition::MeasureAbove(1)));
    rules.push(Rule::new("iti", "", Condition::MeasureAbove(1)));
    rules.push(Rule::new("ous", "", Condition::MeasureAbove(1)));
    rules.push(Rule::new("ive", "", Condition::MeasureAbove(1)));
    rules.push(Rule::new("ize", "", Condition::MeasureAbove(1)));
    assert(specs_of(rules@) =~= english_step_4());
    rules
}

impl RuleTable {
    /// Builds the English rule table.
    pub fn english() -> (table: RuleTable)
        ensures
            table@ == english_table(),
    {
        RuleTable {
            step_1a: build_step_1a(),
            step_1b: build_step_1b(),
            restore: build_restore(),
            step_2: build_step_2(),
            step_3: build_step_3(),
            step_4: build_step_4(),
        }
    }

    /// Builds the rule table of `language`.
    pub fn for_language(language: Language) -> (table: RuleTable)
        ensures
            table@ == table_for(language),
    {
        match language {
            Language::English => RuleTable::english(),
        }
    }

    /// The rules of step 1a, in order.
    pub fn step_1a_rules(&self) -> (rules: &[Rule])
        ensures
            specs_of(rules@) == self@.step_1a,
    {
        self.step_1a.as_slice()
    }

    /// The rules of step 1b, in order.
    pub fn step_1b_rules(&self) -> (rules: &[Rule])
        ensures
            specs_of(rules@) == self@.step_1b,
    {
        self.step_1b.as_slice()
    }

    /// The rules of the tidying after step 1b, in order.
    pub fn restore_rules(&self) -> (rules: &[Rule])
        ensures
            specs_of(rules@) == self@.restore,
    {
        self.restore.as_slice()
    }

    /// The rules of step 2, in order.
    pub fn step_2_rules(&self) -> (rules: &[Rule])
        ensures
            specs_of(rules@) == self@.step_2,
    {
        self.step_2.as_slice()
    }

    /// The rules of step 3, in order.
    pub fn step_3_rules(&self) -> (rules: &[Rule])
        ensures
            specs_of(rules@) == self@.step_3,
    {
        self.step_3.as_slice()
    }

    /// The rules of step 4, in order.
    pub fn step_4_rules(&self) -> (rules: &[Rule])
        ensures
            specs_of(rules@) == self@.step_4,
    {
        self.step_4.as_slice()
    }
}

} // verus!
