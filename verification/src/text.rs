//! Words as text: from a string to its characters and back, and the fold of
//! upper-case ASCII letters to lower case.
use vstd::prelude::*;

verus! {

/// The lower-case form of an upper-case ASCII letter; any other character
/// as it is.
pub open spec fn folded_char(c: char) -> char {
    if 'A' <= c && c <= 'Z' {
        ((c as u8 + 32) as u8) as char
    } else {
        c
    }
}

/// The word with each of its characters folded.
pub open spec fn folded(word: Seq<char>) -> Seq<char> {
    word.map_values(|c: char| folded_char(c))
}

/// Folds one character.
pub fn fold_char(c: char) -> (lower: char)
    ensures
        lower == folded_char(c),
{
    if 'A' <= c && c <= 'Z' {
        ((c as u8) + 32) as char
    } else {
        c
    }
}

/// Folds the word in `form`, in place.
pub fn fold(form: &mut Vec<char>)
    ensures
        final(form)@ == folded(old(form)@),
{
    let mut i: usize = 0;
    while i < form.len()
        invariant
            i <= form@.len(),
            form@.len() == old(form)@.len(),
            forall|j: int| 0 <= j < i ==> form@[j] == folded_char(old(form)@[j]),
            forall|j: int| i <= j < form@.len() ==> form@[j] == old(form)@[j],
        decreases form@.len() - i,
    {
        let c = fold_char(form[i]);
        form.set(i, c);
        i = i + 1;
    }
    assert(form@ =~= folded(old(form)@));
}

/// The characters of `text`, in order.
pub fn chars_of(text: &str) -> (chars: Vec<char>)
    ensures
        chars@ == text@,
{
    let mut chars: Vec<char> = Vec::new();
    for c in it: text.chars()
        invariant
            it.seq() == text@,
            chars@ == it.seq().subrange(0, it.index()),
    {
        chars.push(c);
        assert(chars@ =~= it.seq().subrange(0, it.index() + 1));
    }
    assert(chars@ =~= text@);
    chars
}

/// `String::push` of the standard library: the string afterwards is the
/// string before with `c` as one more character at its end. Verus takes
/// this from the documentation of `push`; nothing here proves it.
#[verifier::external_body]
fn push_char(text: &mut String, c: char)
    ensures
        final(text)@ == old(text)@.push(c),
{
    text.push(c);
}

/// The string made of `chars`, in order.
pub fn string_of(chars: &[char]) -> (text: String)
    ensures
        text@ == chars@,
{
    let mut text = String::new();
    let mut i: usize = 0;
    while i < chars.len()
        invariant
            i <= chars@.len(),
            text@ == chars@.subrange(0, i as int),
        decreases chars@.len() - i,
    {
        push_char(&mut text, chars[i]);
        i = i + 1;
        assert(text@ =~= chars@.subrange(0, i as int));
    }
    assert(text@ =~= chars@);
    text
}

} // verus!
