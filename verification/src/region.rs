//! The region classifier: which letters of a word are consonants, how many
//! vowel-consonant sequences a word holds, and how a word ends.
use vstd::prelude::*;

verus! {

/// The five letters that are vowels wherever they stand. Only lower-case
/// letters count: the classifier is case-sensitive.
pub open spec fn is_vowel_letter(c: char) -> bool {
    c == 'a' || c == 'e' || c == 'i' || c == 'o' || c == 'u'
}

/// Whether the letter at index `i` of `word` is a consonant.
///
/// A letter other than `a e i o u y` is a consonant. `y` is a consonant at
/// the start of the word and after a vowel; after a consonant it is a vowel.
/// Outside the word nothing is a consonant.
pub open spec fn consonant_at(word: Seq<char>, i: int) -> bool
    decreases i,
{
    if i < 0 || i >= word.len() {
        false
    } else if is_vowel_letter(word[i]) {
        false
    } else if word[i] == 'y' {
        i == 0 || !consonant_at(word, i - 1)
    } else {
        true
    }
}

/// Whether the letter at index `i` of `word` is a vowel.
pub open spec fn vowel_at(word: Seq<char>, i: int) -> bool {
    0 <= i < word.len() && !consonant_at(word, i)
}

/// The number of places among the first `n` letters of `word` where a
/// consonant directly follows a vowel.
pub open spec fn vc_count(word: Seq<char>, n: int) -> nat
    decreases n,
{
    if n <= 1 {
        0
    } else if vowel_at(word, n - 2) && consonant_at(word, n - 1) {
        vc_count(word, n - 1) + 1
    } else {
        vc_count(word, n - 1)
    }
}

/// The measure of a word: written as `[C](VC)^m[V]`, with `C` a run of
/// consonants and `V` a run of vowels, the word has measure `m`.
pub open spec fn measure_of(word: Seq<char>) -> nat {
    vc_count(word, word.len() as int)
}

/// Whether some letter of `word` is a vowel.
pub open spec fn contains_vowel(word: Seq<char>) -> bool {
    exists|i: int| vowel_at(word, i)
}

/// Whether `word` ends in the same consonant twice.
pub open spec fn ends_double_consonant(word: Seq<char>) -> bool {
    &&& word.len() >= 2
    &&& word[word.len() - 1] == word[word.len() - 2]
    &&& consonant_at(word, word.len() - 1)
}

/// Whether the last three letters of `word` are consonant, vowel, consonant,
/// the last of them not `w`, `x` or `y`.
pub open spec fn ends_cvc(word: Seq<char>) -> bool {
    &&& word.len() >= 3
    &&& consonant_at(word, word.len() - 3)
    &&& vowel_at(word, word.len() - 2)
    &&& consonant_at(word, word.len() - 1)
    &&& word[word.len() - 1] != 'w'
    &&& word[word.len() - 1] != 'x'
    &&& word[word.len() - 1] != 'y'
}

/// Tells whether the letter at index `i` of `word` is a consonant.
pub fn is_consonant(word: &[char], i: usize) -> (consonant: bool)
    requires
        i < word@.len(),
    ensures
        consonant == consonant_at(word@, i as int),
    decreases i,
{
    let c = word[i];
    if c == 'a' || c == 'e' || c == 'i' || c == 'o' || c == 'u' {
        false
    } else if c == 'y' {
        i == 0 || !is_consonant(word, i - 1)
    } else {
        true
    }
}

/// The measure of a word is at most half its length, rounded down.
pub proof fn lemma_vc_count_bound(word: Seq<char>, n: int)
    requires
        0 <= n <= word.len(),
    ensures
        2 * vc_count(word, n) <= n,
        n >= 1 && vowel_at(word, n - 1) ==> 2 * vc_count(word, n) <= n - 1,
    decreases n,
{
    if n > 1 {
        lemma_vc_count_bound(word, n - 1);
    }
}

/// Computes the measure of `word` in one pass over its letters.
pub fn measure(word: &[char]) -> (m: usize)
    ensures
        m == measure_of(word@),
{
    let mut m: usize = 0;
    let mut previous: bool = true;
    let mut i: usize = 0;
    while i < word.len()
        invariant
            i <= word@.len(),
            m == vc_count(word@, i as int),
            m <= i,
            i > 0 ==> previous == consonant_at(word@, i - 1),
        decreases word@.len() - i,
    {
        let c = word[i];
        let current = if c == 'a' || c == 'e' || c == 'i' || c == 'o' || c == 'u' {
            false
        } else if c == 'y' {
            i == 0 || !previous
        } else {
            true
        };
        if i > 0 && !previous && current {
            m = m + 1;
        }
        previous = current;
        i = i + 1;
    }
    m
}

/// Tells whether `word` holds a vowel.
pub fn has_vowel(word: &[char]) -> (found: bool)
    ensures
        found == contains_vowel(word@),
{
    let mut i: usize = 0;
    while i < word.len()
        invariant
            i <= word@.len(),
            forall|j: int| 0 <= j < i ==> consonant_at(word@, j),
        decreases word@.len() - i,
    {
        let c = word[i];
        if c == 'a' || c == 'e' || c == 'i' || c == 'o' || c == 'u' || (c == 'y' && i > 0) {
            assert(i > 0 ==> consonant_at(word@, i - 1));
            assert(vowel_at(word@, i as int));
            return true;
        }
        i = i + 1;
    }
    false
}

/// Tells whether `word` ends in a doubled consonant.
pub fn ends_with_double_consonant(word: &[char]) -> (double: bool)
    ensures
        double == ends_double_consonant(word@),
{
    let n = word.len();
    n >= 2 && word[n - 1] == word[n - 2] && is_consonant(word, n - 1)
}

/// Tells whether `word` ends consonant, vowel, consonant, the last of them
/// not `w`, `x` or `y`.
pub fn ends_with_cvc(word: &[char]) -> (cvc: bool)
    ensures
        cvc == ends_cvc(word@),
{
    let n = word.len();
    if n < 3 {
        return false;
    }
    let last = word[n - 1];
    is_consonant(word, n - 3) && !is_consonant(word, n - 2) && is_consonant(word, n - 1)
        && last != 'w' && last != 'x' && last != 'y'
}

} // verus!
