//! What holds of every word: the stem is never longer than the word and
//! empty only where the word is, and a word of at most two characters is
//! its own stem. And what holds of the rule lists: the first match is the
//! longest match.
use crate::engine::{stem_of, Config};
use crate::region::lemma_vc_count_bound;
use crate::rules::{
    first_match, firing_rule, has_suffix, holds, rewritten, without_last, Condition, RuleSpec,
};
use crate::steps::{
    after_all_steps, after_step_1a, after_step_1b, after_step_1c, after_step_2, after_step_3,
    after_step_4, after_step_5a, after_step_5b,
};
use crate::table::{
    english_restore, english_step_1a, english_step_1b, english_step_2, english_step_3,
    english_step_4, english_table, lemma_english_spelling, table_for, RuleTableSpec,
};
use crate::text::folded;
use vstd::prelude::*;

verus! {

/// Whether no rule of the list puts more letters back than its suffix has.
pub open spec fn shrinking(rules: Seq<RuleSpec>) -> bool {
    forall|k: int|
        0 <= k < rules.len() ==> (#[trigger] rules[k]).replacement.len() <= rules[k].suffix.len()
}

/// Whether no step can make a word longer with this table: every list of
/// a step shrinks; in step 1b each rule after the first strikes at least
/// one letter more than it puts back; a restore rule puts back at most one
/// letter more than it strikes.
pub open spec fn never_lengthens(table: RuleTableSpec) -> bool {
    &&& shrinking(table.step_1a)
    &&& shrinking(table.step_2)
    &&& shrinking(table.step_3)
    &&& shrinking(table.step_4)
    &&& shrinking(table.step_1b)
    &&& forall|k: int|
        1 <= k < table.step_1b.len() ==> (#[trigger] table.step_1b[k]).replacement.len()
            < table.step_1b[k].suffix.len()
    &&& forall|k: int|
        0 <= k < table.restore.len() ==> (#[trigger] table.restore[k]).replacement.len()
            <= table.restore[k].suffix.len() + 1
}

/// The rule that `first_match` finds is one of the list from `from` on, and
/// the word ends with its suffix.
pub proof fn lemma_first_match(rules: Seq<RuleSpec>, word: Seq<char>, from: int)
    requires
        0 <= from,
    ensures
        first_match(rules, word, from) matches Some(k) ==> from <= k < rules.len() && has_suffix(
            word,
            rules[k].suffix,
        ),
    decreases rules.len() - from,
{
    if from < rules.len() && !has_suffix(word, rules[from].suffix) {
        lemma_first_match(rules, word, from + 1);
    }
}

/// A rule list adds to the length of a word no more than its firing rule's
/// replacement has over its suffix.
pub proof fn lemma_rewritten_length(rules: Seq<RuleSpec>, word: Seq<char>)
    ensures
        match firing_rule(rules, word) {
            Some(k) => 0 <= k < rules.len() && rules[k].suffix.len() <= word.len() && rewritten(
                rules,
                word,
            ).len() == word.len() - rules[k].suffix.len() + rules[k].replacement.len(),
            None => rewritten(rules, word) == word,
        },
{
    lemma_first_match(rules, word, 0);
}

/// With a table that never lengthens, no word comes out of the steps longer
/// than it went in.
pub proof fn lemma_steps_never_lengthen(table: RuleTableSpec, word: Seq<char>)
    requires
        never_lengthens(table),
    ensures
        after_all_steps(table, word).len() <= word.len(),
{
    let w1a = after_step_1a(table, word);
    lemma_rewritten_length(table.step_1a, word);
    let w1b = after_step_1b(table, w1a);
    lemma_rewritten_length(table.step_1b, w1a);
    lemma_rewritten_length(table.restore, rewritten(table.step_1b, w1a));
    assert(w1b.len() <= w1a.len());
    let w1c = after_step_1c(w1b);
    let w2 = after_step_2(table, w1c);
    lemma_rewritten_length(table.step_2, w1c);
    let w3 = after_step_3(table, w2);
    lemma_rewritten_length(table.step_3, w2);
    let w4 = after_step_4(table, w3);
    lemma_rewritten_length(table.step_4, w3);
    let w5a = after_step_5a(w4);
    let w5b = after_step_5b(w5a);
}

/// The English table never lengthens a word.
pub proof fn lemma_english_never_lengthens()
    ensures
        never_lengthens(english_table()),
{
    lemma_english_spelling();
    assert(shrinking(english_step_1a()));
    assert(shrinking(english_step_1b()));
    assert(shrinking(english_step_2()));
    assert(shrinking(english_step_3()));
    assert(shrinking(english_step_4()));
}

/// Whether no suffix of the list ends with the suffix of a rule that
/// stands before it: where two suffixes could both match a word, the
/// longer one stands first.
pub open spec fn longest_first(rules: Seq<RuleSpec>) -> bool {
    forall|j: int, k: int|
        0 <= j < k < rules.len() ==> !has_suffix(
            (#[trigger] rules[k]).suffix,
            (#[trigger] rules[j]).suffix,
        )
}

/// Where a word ends with the suffix of rule `j`, some rule up to `j` is
/// the first match.
pub proof fn lemma_first_match_exists(rules: Seq<RuleSpec>, word: Seq<char>, from: int, j: int)
    requires
        0 <= from <= j < rules.len(),
        has_suffix(word, rules[j].suffix),
    ensures
        first_match(rules, word, from) matches Some(k) && from <= k <= j && has_suffix(
            word,
            rules[k].suffix,
        ),
    decreases j - from,
{
    if !has_suffix(word, rules[from].suffix) {
        lemma_first_match_exists(rules, word, from + 1, j);
    }
}

/// In a list with the longest suffixes first, the first match is the
/// longest match: every other rule whose suffix the word ends with has a
/// shorter suffix than the rule that is chosen.
pub proof fn lemma_first_match_is_longest(rules: Seq<RuleSpec>, word: Seq<char>, j: int)
    requires
        longest_first(rules),
        0 <= j < rules.len(),
        has_suffix(word, rules[j].suffix),
    ensures
        first_match(rules, word, 0) matches Some(k) && (k == j || rules[j].suffix.len()
            < rules[k].suffix.len()),
{
    lemma_first_match_exists(rules, word, 0, j);
    let k = first_match(rules, word, 0).unwrap();
    if k != j && rules[j].suffix.len() >= rules[k].suffix.len() {
        let long = rules[j].suffix;
        let short = rules[k].suffix;
        assert(long.subrange(long.len() - short.len(), long.len() as int) =~= short);
        assert(has_suffix(long, short));
    }
}

/// Every rule list of the English table has its longest suffixes first.
pub proof fn lemma_english_longest_first()
    ensures
        longest_first(english_step_1a()),
        longest_first(english_step_1b()),
        longest_first(english_restore()),
        longest_first(english_step_2()),
        longest_first(english_step_3()),
        longest_first(english_step_4()),
{
    lemma_english_spelling();
}

/// A stem that meets a condition other than `Always` holds a letter.
pub proof fn lemma_condition_needs_a_letter(condition: Condition, stem: Seq<char>)
    requires
        condition != Condition::Always,
        holds(condition, stem),
    ensures
        stem.len() >= 1,
{
    lemma_vc_count_bound(stem, stem.len() as int);
}

/// Whether every rule of the list either asks something of the stem or
/// puts a letter back.
pub open spec fn keeps_a_letter(rules: Seq<RuleSpec>) -> bool {
    forall|k: int|
        0 <= k < rules.len() ==> (#[trigger] rules[k]).condition != Condition::Always
            || rules[k].replacement.len() >= 1
}

/// A list whose rules keep a letter makes no word empty.
pub proof fn lemma_rewritten_not_empty(rules: Seq<RuleSpec>, word: Seq<char>)
    requires
        keeps_a_letter(rules),
        word.len() >= 1,
    ensures
        rewritten(rules, word).len() >= 1,
{
    lemma_rewritten_length(rules, word);
    match firing_rule(rules, word) {
        Some(k) => {
            if rules[k].condition != Condition::Always {
                lemma_condition_needs_a_letter(
                    rules[k].condition,
                    without_last(word, rules[k].suffix.len()),
                );
            }
        },
        None => {},
    }
}

/// With the English table, a word of two characters or more does not come
/// out of the steps empty.
pub proof fn lemma_english_steps_keep_a_letter(word: Seq<char>)
    requires
        word.len() >= 2,
    ensures
        after_all_steps(english_table(), word).len() >= 1,
{
    let table = english_table();
    lemma_english_spelling();
    let w1a = after_step_1a(table, word);
    lemma_rewritten_length(table.step_1a, word);
    assert(w1a.len() >= 1);
    let w1b = after_step_1b(table, w1a);
    assert(keeps_a_letter(table.step_1b));
    lemma_rewritten_not_empty(table.step_1b, w1a);
    assert(keeps_a_letter(table.restore));
    lemma_rewritten_not_empty(table.restore, rewritten(table.step_1b, w1a));
    assert(w1b.len() >= 1);
    let w1c = after_step_1c(w1b);
    assert(w1c.len() >= 1);
    let w2 = after_step_2(table, w1c);
    assert(keeps_a_letter(table.step_2));
    lemma_rewritten_not_empty(table.step_2, w1c);
    let w3 = after_step_3(table, w2);
    assert(keeps_a_letter(table.step_3));
    lemma_rewritten_not_empty(table.step_3, w2);
    let w4 = after_step_4(table, w3);
    assert(keeps_a_letter(table.step_4));
    lemma_rewritten_not_empty(table.step_4, w3);
    let w5a = after_step_5a(w4);
    lemma_vc_count_bound(w4.drop_last(), w4.len() - 1);
    assert(w5a.len() >= 1);
    let w5b = after_step_5b(w5a);
    assert(w5b.len() >= 1);
}

/// The stem of a word that is not empty is not empty.
pub proof fn lemma_stem_not_empty(config: Config, word: Seq<char>)
    requires
        word.len() >= 1,
    ensures
        stem_of(config, word).len() >= 1,
{
    if word.len() > 2 {
        lemma_english_steps_keep_a_letter(word);
        lemma_english_steps_keep_a_letter(folded(word));
    }
}

/// Whether no character of `word` is an upper-case ASCII letter.
pub open spec fn without_capitals(word: Seq<char>) -> bool {
    forall|i: int| 0 <= i < word.len() ==> !('A' <= #[trigger] word[i] && word[i] <= 'Z')
}

/// Whether no replacement of the list holds an upper-case ASCII letter.
pub open spec fn replaces_without_capitals(rules: Seq<RuleSpec>) -> bool {
    forall|k: int| 0 <= k < rules.len() ==> without_capitals((#[trigger] rules[k]).replacement)
}

/// A folded word holds no upper-case ASCII letter.
pub proof fn lemma_folded_without_capitals(word: Seq<char>)
    ensures
        without_capitals(folded(word)),
{
}

/// A list whose replacements hold no capitals brings none into a word.
pub proof fn lemma_rewritten_without_capitals(rules: Seq<RuleSpec>, word: Seq<char>)
    requires
        replaces_without_capitals(rules),
        without_capitals(word),
    ensures
        without_capitals(rewritten(rules, word)),
{
    lemma_rewritten_length(rules, word);
}

/// With the English table, the steps bring no upper-case ASCII letter into
/// a word that has none.
pub proof fn lemma_english_steps_without_capitals(word: Seq<char>)
    requires
        without_capitals(word),
    ensures
        without_capitals(after_all_steps(english_table(), word)),
{
    let table = english_table();
    lemma_english_spelling();
    assert(replaces_without_capitals(table.step_1a));
    assert(replaces_without_capitals(table.step_1b));
    assert(replaces_without_capitals(table.restore));
    assert(replaces_without_capitals(table.step_2));
    assert(replaces_without_capitals(table.step_3));
    assert(replaces_without_capitals(table.step_4));
    let w1a = after_step_1a(table, word);
    lemma_rewritten_without_capitals(table.step_1a, word);
    let w1b = after_step_1b(table, w1a);
    lemma_rewritten_without_capitals(table.step_1b, w1a);
    lemma_rewritten_without_capitals(table.restore, rewritten(table.step_1b, w1a));
    assert(without_capitals(w1b));
    let w1c = after_step_1c(w1b);
    assert(without_capitals(w1c));
    let w2 = after_step_2(table, w1c);
    lemma_rewritten_without_capitals(table.step_2, w1c);
    let w3 = after_step_3(table, w2);
    lemma_rewritten_without_capitals(table.step_3, w2);
    let w4 = after_step_4(table, w3);
    lemma_rewritten_without_capitals(table.step_4, w3);
    let w5a = after_step_5a(w4);
    assert(without_capitals(w5a));
}

/// With the fold, the stem of a word of more than two characters holds no
/// upper-case ASCII letter.
pub proof fn lemma_folded_stem_without_capitals(config: Config, word: Seq<char>)
    requires
        config.lowercase_fold,
        word.len() > 2,
    ensures
        without_capitals(stem_of(config, word)),
{
    lemma_folded_without_capitals(word);
    lemma_english_steps_without_capitals(folded(word));
}

/// Whether `form` is `word` with only its tail edited: the two agree on
/// all of `form` but its last `tail` characters at most.
pub open spec fn edits_tail(word: Seq<char>, form: Seq<char>, tail: nat) -> bool {
    exists|p: int|
        0 <= p <= form.len() && p <= word.len() && form.len() - p <= tail && #[trigger] form.subrange(
            0,
            p,
        ) == word.subrange(0, p)
}

/// Whether a rule list, run on a form with at most `before` edited
/// characters at its end, leaves at most `after` of them: each replacement
/// has at most `after` characters, and what a rule strikes makes up for
/// what it adds beyond that.
pub open spec fn tail_within(rules: Seq<RuleSpec>, before: nat, after: nat) -> bool {
    forall|k: int|
        0 <= k < rules.len() ==> (#[trigger] rules[k]).replacement.len() <= after && before
            + rules[k].replacement.len() <= after + rules[k].suffix.len()
}

/// A rule list edits only the tail of a form.
pub proof fn lemma_rewritten_edits_tail(
    rules: Seq<RuleSpec>,
    word: Seq<char>,
    form: Seq<char>,
    before: nat,
    after: nat,
)
    requires
        edits_tail(word, form, before),
        tail_within(rules, before, after),
        before <= after,
    ensures
        edits_tail(word, rewritten(rules, form), after),
{
    lemma_rewritten_length(rules, form);
    let p = choose|p: int|
        0 <= p <= form.len() && p <= word.len() && form.len() - p <= before && #[trigger] form.subrange(
            0,
            p,
        ) == word.subrange(0, p);
    let result = rewritten(rules, form);
    match firing_rule(rules, form) {
        Some(k) => {
            let kept = form.len() - rules[k].suffix.len();
            let q = if p <= kept {
                p
            } else {
                kept
            };
            assert(result.subrange(0, q) =~= form.subrange(0, p).subrange(0, q));
            assert(word.subrange(0, q) =~= word.subrange(0, p).subrange(0, q));
            assert(result.subrange(0, q) == word.subrange(0, q));
        },
        None => {
            assert(result.subrange(0, p) == word.subrange(0, p));
        },
    }
}

/// With the English table, the steps edit only the tail of a word: the
/// result agrees with the word on all but its last four characters at most.
pub proof fn lemma_english_steps_edit_tail(word: Seq<char>)
    ensures
        edits_tail(word, after_all_steps(english_table(), word), 4),
{
    let table = english_table();
    lemma_english_spelling();
    assert(word.subrange(0, word.len() as int) == word.subrange(0, word.len() as int));
    assert(edits_tail(word, word, 0));
    let w1a = after_step_1a(table, word);
    assert(tail_within(table.step_1a, 0, 2));
    lemma_rewritten_edits_tail(table.step_1a, word, word, 0, 2);
    let w1b = after_step_1b(table, w1a);
    assert(edits_tail(word, w1b, 3)) by {
        lemma_rewritten_length(table.step_1b, w1a);
        let struck = rewritten(table.step_1b, w1a);
        match firing_rule(table.step_1b, w1a) {
            Some(k) => {
                if k == 0 {
                    assert(tail_within(table.step_1b, 2, 3));
                    lemma_rewritten_edits_tail(table.step_1b, word, w1a, 2, 3);
                } else {
                    lemma_strike_edits_tail(word, w1a, table.step_1b[k].suffix.len(), 2);
                    assert(struck =~= without_last(w1a, table.step_1b[k].suffix.len()));
                    assert(edits_tail(word, struck, 0));
                    lemma_rewritten_length(table.restore, struck);
                    assert(tail_within(table.restore, 0, 3));
                    lemma_rewritten_edits_tail(table.restore, word, struck, 0, 3);
                    lemma_strike_edits_tail(word, struck, 1, 0);
                    lemma_push_edits_tail(word, struck, 'e', 0);
                }
            },
            None => {},
        }
    }
    let w1c = after_step_1c(w1b);
    assert(edits_tail(word, w1c, 3)) by {
        if w1c != w1b {
            lemma_strike_edits_tail(word, w1b, 1, 3);
            lemma_push_edits_tail(word, w1b.drop_last(), 'i', 2);
        }
    }
    let w2 = after_step_2(table, w1c);
    assert(tail_within(table.step_2, 3, 4));
    lemma_rewritten_edits_tail(table.step_2, word, w1c, 3, 4);
    let w3 = after_step_3(table, w2);
    assert(tail_within(table.step_3, 4, 4));
    lemma_rewritten_edits_tail(table.step_3, word, w2, 4, 4);
    let w4 = after_step_4(table, w3);
    assert(tail_within(table.step_4, 4, 4));
    lemma_rewritten_edits_tail(table.step_4, word, w3, 4, 4);
    let w5a = after_step_5a(w4);
    if w5a != w4 {
        lemma_strike_edits_tail(word, w4, 1, 4);
    }
    let w5b = after_step_5b(w5a);
    if w5b != w5a {
        lemma_strike_edits_tail(word, w5a, 1, 4);
    }
}

/// Striking the last `n` characters of a form leaves that many fewer
/// edited characters at its end.
pub proof fn lemma_strike_edits_tail(word: Seq<char>, form: Seq<char>, n: nat, tail: nat)
    requires
        edits_tail(word, form, tail),
        n <= form.len(),
    ensures
        edits_tail(word, without_last(form, n), if tail >= n {
            (tail - n) as nat
        } else {
            0
        }),
{
    let p = choose|p: int|
        0 <= p <= form.len() && p <= word.len() && form.len() - p <= tail && #[trigger] form.subrange(
            0,
            p,
        ) == word.subrange(0, p);
    let kept = form.len() - n;
    let q = if p <= kept {
        p
    } else {
        kept
    };
    let result = without_last(form, n);
    assert(result.subrange(0, q) =~= form.subrange(0, p).subrange(0, q));
    assert(word.subrange(0, q) =~= word.subrange(0, p).subrange(0, q));
    assert(result.subrange(0, q) == word.subrange(0, q));
}

/// One more character at the end of a form is one more edited character.
pub proof fn lemma_push_edits_tail(word: Seq<char>, form: Seq<char>, c: char, tail: nat)
    requires
        edits_tail(word, form, tail),
    ensures
        edits_tail(word, form.push(c), tail + 1),
{
    let p = choose|p: int|
        0 <= p <= form.len() && p <= word.len() && form.len() - p <= tail && #[trigger] form.subrange(
            0,
            p,
        ) == word.subrange(0, p);
    assert(form.push(c).subrange(0, p) =~= form.subrange(0, p));
}

/// Stemming edits only the tail of a word. The stem agrees with the word,
/// folded where the configuration says so and the word has more than two
/// characters, on all but the last four characters of the stem at most.
pub proof fn lemma_stem_edits_tail(config: Config, word: Seq<char>)
    ensures
        edits_tail(
            if config.lowercase_fold && word.len() > 2 {
                folded(word)
            } else {
                word
            },
            stem_of(config, word),
            4,
        ),
{
    if word.len() > 2 {
        lemma_english_steps_edit_tail(word);
        lemma_english_steps_edit_tail(folded(word));
    } else {
        assert(word.subrange(0, word.len() as int) == word.subrange(0, word.len() as int));
    }
}

/// The stem of a word has at most as many characters as the word.
pub proof fn lemma_stem_not_longer(config: Config, word: Seq<char>)
    ensures
        stem_of(config, word).len() <= word.len(),
{
    lemma_english_never_lengthens();
    lemma_steps_never_lengthen(table_for(config.language), word);
    lemma_steps_never_lengthen(table_for(config.language), folded(word));
}

/// A word of at most two characters is its own stem.
pub proof fn lemma_short_word_is_its_stem(config: Config, word: Seq<char>)
    requires
        word.len() <= 2,
    ensures
        stem_of(config, word) == word,
{
}

} // verus!
