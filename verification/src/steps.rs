//! The steps of the pipeline. Each looks at the word as the step before
//! left it and rewrites its tail at most once.
use crate::region::{
    consonant_at, contains_vowel, ends_cvc, ends_double_consonant, ends_with_cvc,
    ends_with_double_consonant, has_vowel, is_consonant, measure, measure_of,
};
use crate::rules::{apply_rules, firing_rule, rewritten};
use crate::table::{RuleTable, RuleTableSpec};
use vstd::prelude::*;
use vstd::slice::slice_subrange;

verus! {

/// The word after step 1a.
pub open spec fn after_step_1a(table: RuleTableSpec, word: Seq<char>) -> Seq<char> {
    rewritten(table.step_1a, word)
}

/// The stem that step 1b leaves, tidied: an ending of the table's restore
/// list gets its `e` back; else a doubled consonant other than `l`, `s`
/// or `z` loses one letter; else a stem of measure 1 that ends consonant,
/// vowel, consonant gets an `e`.
pub open spec fn tidied(table: RuleTableSpec, stem: Seq<char>) -> Seq<char> {
    if firing_rule(table.restore, stem) is Some {
        rewritten(table.restore, stem)
    } else if ends_double_consonant(stem) && stem.last() != 'l' && stem.last() != 's'
        && stem.last() != 'z' {
        stem.drop_last()
    } else if measure_of(stem) == 1 && ends_cvc(stem) {
        stem.push('e')
    } else {
        stem
    }
}

/// The word after step 1b. Where the first rule of the list fires, its
/// result stands; where a later one fires, the stem it leaves is tidied.
pub open spec fn after_step_1b(table: RuleTableSpec, word: Seq<char>) -> Seq<char> {
    match firing_rule(table.step_1b, word) {
        Some(k) => if k == 0 {
            rewritten(table.step_1b, word)
        } else {
            tidied(table, rewritten(table.step_1b, word))
        },
        None => word,
    }
}

/// The word after step 1c: a final `y` becomes `i` where the letter before
/// it is a consonant and the stem without the `y` holds a vowel.
pub open spec fn after_step_1c(word: Seq<char>) -> Seq<char> {
    let stem = word.drop_last();
    if word.len() >= 2 && word.last() == 'y' && consonant_at(stem, stem.len() - 1)
        && contains_vowel(stem) {
        stem.push('i')
    } else {
        word
    }
}

/// The word after step 2.
pub open spec fn after_step_2(table: RuleTableSpec, word: Seq<char>) -> Seq<char> {
    rewritten(table.step_2, word)
}

/// The word after step 3.
pub open spec fn after_step_3(table: RuleTableSpec, word: Seq<char>) -> Seq<char> {
    rewritten(table.step_3, word)
}

/// The word after step 4.
pub open spec fn after_step_4(table: RuleTableSpec, word: Seq<char>) -> Seq<char> {
    rewritten(table.step_4, word)
}

/// The word after step 5a: a final `e` is struck where the stem before it
/// has a measure above 1, or has measure 1 and does not end consonant,
/// vowel, consonant.
pub open spec fn after_step_5a(word: Seq<char>) -> Seq<char> {
    let stem = word.drop_last();
    if word.len() >= 1 && word.last() == 'e' && (measure_of(stem) > 1 || (measure_of(stem) == 1
        && !ends_cvc(stem))) {
        stem
    } else {
        word
    }
}

/// The word after step 5b: of a final `ll` one `l` is struck where the
/// measure of the word is above 1.
pub open spec fn after_step_5b(word: Seq<char>) -> Seq<char> {
    if word.len() >= 2 && word[word.len() - 1] == 'l' && word[word.len() - 2] == 'l'
        && measure_of(word) > 1 {
        word.drop_last()
    } else {
        word
    }
}

/// The word after all the steps, in their fixed order.
pub open spec fn after_all_steps(table: RuleTableSpec, word: Seq<char>) -> Seq<char> {
    let w1 = after_step_1c(after_step_1b(table, after_step_1a(table, word)));
    let w4 = after_step_4(table, after_step_3(table, after_step_2(table, w1)));
    after_step_5b(after_step_5a(w4))
}

/// Step 1a, plurals.
pub fn step_1a(table: &RuleTable, form: &mut Vec<char>)
    ensures
        final(form)@ == after_step_1a(table@, old(form)@),
{
    let _ = apply_rules(table.step_1a_rules(), form);
}

/// Tidies the stem that step 1b has left in `form`.
pub fn tidy(table: &RuleTable, form: &mut Vec<char>)
    ensures
        final(form)@ == tidied(table@, old(form)@),
{
    if apply_rules(table.restore_rules(), form).is_some() {
        return ;
    }
    let n = form.len();
    if ends_with_double_consonant(form.as_slice()) && form[n - 1] != 'l' && form[n - 1] != 's'
        && form[n - 1] != 'z' {
        form.pop();
    } else if measure(form.as_slice()) == 1 && ends_with_cvc(form.as_slice()) {
        form.push('e');
    }
}

/// Step 1b, verb forms.
pub fn step_1b(table: &RuleTable, form: &mut Vec<char>)
    ensures
        final(form)@ == after_step_1b(table@, old(form)@),
{
    match apply_rules(table.step_1b_rules(), form) {
        Some(k) => {
            if k > 0 {
                tidy(table, form);
            }
        },
        None => {},
    }
}

/// Step 1c, a final `y`.
pub fn step_1c(form: &mut Vec<char>)
    ensures
        final(form)@ == after_step_1c(old(form)@),
{
    let n = form.len();
    if n >= 2 && form[n - 1] == 'y' {
        let stem = slice_subrange(form.as_slice(), 0, n - 1);
        if is_consonant(stem, n - 2) && has_vowel(stem) {
            form.set(n - 1, 'i');
            assert(form@ =~= old(form)@.drop_last().push('i'));
        }
    }
}

/// Step 2.
pub fn step_2(table: &RuleTable, form: &mut Vec<char>)
    ensures
        final(form)@ == after_step_2(table@, old(form)@),
{
    let _ = apply_rules(table.step_2_rules(), form);
}

/// Step 3.
pub fn step_3(table: &RuleTable, form: &mut Vec<char>)
    ensures
        final(form)@ == after_step_3(table@, old(form)@),
{
    let _ = apply_rules(table.step_3_rules(), form);
}

/// Step 4.
pub fn step_4(table: &RuleTable, form: &mut Vec<char>)
    ensures
        final(form)@ == after_step_4(table@, old(form)@),
{
    let _ = apply_rules(table.step_4_rules(), form);
}

/// Step 5a, a final `e`.
pub fn step_5a(form: &mut Vec<char>)
    ensures
        final(form)@ == after_step_5a(old(form)@),
{
    let n = form.len();
    if n >= 1 && form[n - 1] == 'e' {
        let stem = slice_subrange(form.as_slice(), 0, n - 1);
        let m = measure(stem);
        if m > 1 || (m == 1 && !ends_with_cvc(stem)) {
            form.pop();
        }
    }
}

/// Step 5b, a final `ll`.
pub fn step_5b(form: &mut Vec<char>)
    ensures
        final(form)@ == after_step_5b(old(form)@),
{
    let n = form.len();
    if n >= 2 && form[n - 1] == 'l' && form[n - 2] == 'l' && measure(form.as_slice()) > 1 {
        form.pop();
    }
}

/// Runs all the steps on the word in `form`, in their fixed order.
pub fn run_steps(table: &RuleTable, form: &mut Vec<char>)
    ensures
        final(form)@ == after_all_steps(table@, old(form)@),
{
    step_1a(table, form);
    step_1b(table, form);
    step_1c(form);
    step_2(table, form);
    step_3(table, form);
    step_4(table, form);
    step_5a(form);
    step_5b(form);
}

} // verus!
