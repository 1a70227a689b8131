//! Suffix rules: a suffix to look for, what to put in its place, and the
//! condition that the stem before the suffix has to meet.
use crate::region::{contains_vowel, has_vowel, measure, measure_of};
use crate::text::chars_of;
use vstd::prelude::*;
use vstd::slice::slice_subrange;

verus! {

/// What a rule asks of the stem, that is of the word without the suffix.
#[derive(Clone, Copy, Debug, PartialEq, Eq, Structural)]
pub enum Condition {
    /// Nothing is asked.
    Always,
    /// The measure of the stem is greater than the bound.
    MeasureAbove(usize),
    /// The stem holds a vowel.
    HasVowel,
    /// The stem ends in `s` or `t` and its measure is greater than the bound.
    AfterSOrT(usize),
}

/// A rule as a mathematical value.
pub struct RuleSpec {
    pub suffix: Seq<char>,
    pub replacement: Seq<char>,
    pub condition: Condition,
}

/// A suffix rule.
pub struct Rule {
    suffix: Vec<char>,
    replacement: Vec<char>,
    condition: Condition,
}

impl View for Rule {
    type V = RuleSpec;

    closed spec fn view(&self) -> RuleSpec {
        RuleSpec {
            suffix: self.suffix@,
            replacement: self.replacement@,
            condition: self.condition,
        }
    }
}

/// The rule with the given suffix, replacement and condition.
pub open spec fn rule_of(suffix: Seq<char>, replacement: Seq<char>, condition: Condition) -> RuleSpec {
    RuleSpec { suffix, replacement, condition }
}

impl Rule {
    /// Makes the rule that puts `replacement` in the place of `suffix` where
    /// the stem meets `condition`.
    pub fn new(suffix: &str, replacement: &str, condition: Condition) -> (rule: Rule)
        ensures
            rule@ == rule_of(suffix@, replacement@, condition),
    {
        Rule { suffix: chars_of(suffix), replacement: chars_of(replacement), condition }
    }

    /// The suffix that the rule looks for.
    pub fn suffix(&self) -> (suffix: &[char])
        ensures
            suffix@ == self@.suffix,
    {
        self.suffix.as_slice()
    }

    /// What the rule puts in the place of the suffix.
    pub fn replacement(&self) -> (replacement: &[char])
        ensures
            replacement@ == self@.replacement,
    {
        self.replacement.as_slice()
    }

    /// What the rule asks of the stem.
    pub fn condition(&self) -> (condition: Condition)
        ensures
            condition == self@.condition,
    {
        self.condition
    }
}

/// The rules of a list as mathematical values, in the list's order.
pub open spec fn specs_of(rules: Seq<Rule>) -> Seq<RuleSpec> {
    rules.map_values(|rule: Rule| rule@)
}

/// Whether `word` ends with `suffix`.
pub open spec fn has_suffix(word: Seq<char>, suffix: Seq<char>) -> bool {
    &&& suffix.len() <= word.len()
    &&& word.subrange(word.len() - suffix.len(), word.len() as int) == suffix
}

/// The word without its last `n` letters.
pub open spec fn without_last(word: Seq<char>, n: nat) -> Seq<char> {
    word.subrange(0, word.len() - n)
}

/// Whether `stem` meets `condition`.
pub open spec fn holds(condition: Condition, stem: Seq<char>) -> bool {
    match condition {
        Condition::Always => true,
        Condition::MeasureAbove(bound) => measure_of(stem) > bound,
        Condition::HasVowel => contains_vowel(stem),
        Condition::AfterSOrT(bound) => {
            &&& stem.len() >= 1
            &&& (stem.last() == 's' || stem.last() == 't')
            &&& measure_of(stem) > bound
        },
    }
}

/// The index of the first rule from `from` on whose suffix `word` ends with.
pub open spec fn first_match(rules: Seq<RuleSpec>, word: Seq<char>, from: int) -> Option<int>
    decreases rules.len() - from,
{
    if from < 0 || from >= rules.len() {
        None
    } else if has_suffix(word, rules[from].suffix) {
        Some(from)
    } else {
        first_match(rules, word, from + 1)
    }
}

/// The index of the rule that rewrites `word`, if one does. The first rule
/// whose suffix matches is the only one considered: it fires if the stem
/// before the suffix meets its condition, and no later rule is tried.
pub open spec fn firing_rule(rules: Seq<RuleSpec>, word: Seq<char>) -> Option<int> {
    match first_match(rules, word, 0) {
        Some(k) => if holds(rules[k].condition, without_last(word, rules[k].suffix.len())) {
            Some(k)
        } else {
            None
        },
        None => None,
    }
}

/// What the rule list makes of `word`: where a rule fires, the stem with the
/// rule's replacement; else the word as it is.
pub open spec fn rewritten(rules: Seq<RuleSpec>, word: Seq<char>) -> Seq<char> {
    match firing_rule(rules, word) {
        Some(k) => without_last(word, rules[k].suffix.len()) + rules[k].replacement,
        None => word,
    }
}

/// Tells whether `word` ends with `suffix`.
pub fn ends_with(word: &[char], suffix: &[char]) -> (found: bool)
    ensures
        found == has_suffix(word@, suffix@),
{
    let n = word.len();
    let k = suffix.len();
    if k > n {
        return false;
    }
    let start = n - k;
    let ghost tail = word@.subrange(start as int, n as int);
    let mut i: usize = 0;
    while i < k
        invariant
            i <= k,
            k == suffix@.len(),
            n == word@.len(),
            start == n - k,
            tail == word@.subrange(start as int, n as int),
            forall|j: int| 0 <= j < i ==> tail[j] == suffix@[j],
        decreases k - i,
    {
        if word[start + i] != suffix[i] {
            assert(tail[i as int] != suffix@[i as int]);
            return false;
        }
        i = i + 1;
    }
    assert(tail =~= suffix@);
    true
}

/// Tells whether `stem` meets `condition`.
pub fn meets(condition: Condition, stem: &[char]) -> (met: bool)
    ensures
        met == holds(condition, stem@),
{
    match condition {
        Condition::Always => true,
        Condition::MeasureAbove(bound) => measure(stem) > bound,
        Condition::HasVowel => has_vowel(stem),
        Condition::AfterSOrT(bound) => {
            let n = stem.len();
            n >= 1 && (stem[n - 1] == 's' || stem[n - 1] == 't') && measure(stem) > bound
        },
    }
}

/// Applies a rule list to the word in `form`, in place, and tells which
/// rule fired.
pub fn apply_rules(rules: &[Rule], form: &mut Vec<char>) -> (fired: Option<usize>)
    ensures
        final(form)@ == rewritten(specs_of(rules@), old(form)@),
        match fired {
            Some(k) => firing_rule(specs_of(rules@), old(form)@) == Some(k as int),
            None => firing_rule(specs_of(rules@), old(form)@) is None,
        },
{
    let ghost specs = specs_of(rules@);
    let mut i: usize = 0;
    while i < rules.len()
        invariant
            i <= rules@.len(),
            specs == specs_of(rules@),
            form@ == old(form)@,
            first_match(specs, form@, 0) == first_match(specs, form@, i as int),
        decreases rules@.len() - i,
    {
        let rule = &rules[i];
        assert(specs[i as int] == rule@);
        if ends_with(form.as_slice(), rule.suffix.as_slice()) {
            let keep = form.len() - rule.suffix.len();
            if !meets(rule.condition, slice_subrange(form.as_slice(), 0, keep)) {
                return None;
            }
            form.truncate(keep);
            let mut j: usize = 0;
            while j < rule.replacement.len()
                invariant
                    j <= rule.replacement@.len(),
                    form@ == without_last(old(form)@, rule.suffix@.len())
                        + rule.replacement@.subrange(0, j as int),
                decreases rule.replacement@.len() - j,
            {
                form.push(rule.replacement[j]);
                j = j + 1;
            }
            assert(rule.replacement@.subrange(0, j as int) =~= rule.replacement@);
            return Some(i);
        }
        i = i + 1;
    }
    None
}

} // verus!
