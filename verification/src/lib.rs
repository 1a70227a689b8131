//! A Porter-family suffix-stripping stemmer for English words.
//!
//! A word is a sequence of characters. The engine classifies its letters as
//! vowels and consonants, measures the stem that stands before a suffix, and
//! runs a fixed pipeline of rule steps, each of which rewrites the tail of the
//! word at most once. Stemming is a pure function of the word and the
//! configuration: it keeps no state between calls.
use vstd::prelude::*;

pub mod engine;
pub mod laws;
pub mod region;
pub mod rules;
pub mod steps;
pub mod table;
pub mod text;

pub use engine::{default_config, stem_of, Config, Stemmer};
pub use table::Language;

verus! {

/// Stems `word` under `config`.
pub fn stem_with(word: &str, config: Config) -> (stem: String)
    ensures
        stem@ == stem_of(config, word@),
        stem@.len() <= word@.len(),
        word@.len() >= 1 ==> stem@.len() >= 1,
        word@.len() <= 2 ==> stem@ == word@,
{
    Stemmer::new(config).stem(word)
}

/// Stems `word` as an English word, with the fold to lower case.
pub fn stem(word: &str) -> (stem: String)
    ensures
        stem@ == stem_of(default_config(), word@),
        stem@.len() <= word@.len(),
        word@.len() >= 1 ==> stem@.len() >= 1,
        word@.len() <= 2 ==> stem@ == word@,
{
    stem_with(word, Config::default())
}

/// The answer at the boundary to a host: the stem where the engine gave
/// one, and the word as it came where the engine failed in any way. No
/// failure reaches the caller.
pub fn fail_open<E>(word: &str, outcome: Result<String, E>) -> (answer: String)
    ensures
        match outcome {
            Ok(stem) => answer@ == stem@,
            Err(_) => answer@ == word@,
        },
{
    match outcome {
        Ok(stem) => stem,
        Err(_) => word.to_owned(),
    }
}

} // verus!
