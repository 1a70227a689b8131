//! The engine: its configuration, what the stem of a word is, and the
//! stemmer that holds the rule table of its language.
use crate::laws::{lemma_stem_not_empty, lemma_stem_not_longer};
use crate::steps::{after_all_steps, run_steps};
use crate::table::{table_for, Language, RuleTable};
use crate::text::{chars_of, fold, folded, string_of};
use vstd::prelude::*;

verus! {

/// What the engine is set up with.
#[derive(Clone, Copy, Debug, PartialEq, Eq, Structural)]
pub struct Config {
    /// The language whose rule table is used.
    pub language: Language,
    /// Whether upper-case ASCII letters are folded to lower case before the
    /// steps run; the stem is then returned in lower case.
    pub lowercase_fold: bool,
}

/// The configuration used where none is given: English, with the fold.
pub open spec fn default_config() -> Config {
    Config { language: Language::English, lowercase_fold: true }
}

impl Default for Config {
    fn default() -> (config: Config)
        ensures
            config == default_config(),
    {
        Config { language: Language::English, lowercase_fold: true }
    }
}

/// The stem of `word` under `config`.
///
/// A word of at most two characters is its own stem, as it stands. A longer
/// word is folded where the configuration says so and then goes through the
/// steps with the rule table of the language.
pub open spec fn stem_of(config: Config, word: Seq<char>) -> Seq<char> {
    if word.len() <= 2 {
        word
    } else if config.lowercase_fold {
        after_all_steps(table_for(config.language), folded(word))
    } else {
        after_all_steps(table_for(config.language), word)
    }
}

/// A stemming engine: a configuration and the rule table of its language.
/// Once built it is only read, so one engine serves any number of calls.
pub struct Stemmer {
    config: Config,
    table: RuleTable,
}

impl View for Stemmer {
    type V = Config;

    closed spec fn view(&self) -> Config {
        self.config
    }
}

impl Stemmer {
    #[verifier::type_invariant]
    spec fn holds_table_of_language(self) -> bool {
        self.table@ == table_for(self.config.language)
    }

    /// Builds the engine for `config`.
    pub fn new(config: Config) -> (stemmer: Stemmer)
        ensures
            stemmer@ == config,
    {
        Stemmer { config, table: RuleTable::for_language(config.language) }
    }

    /// The configuration the engine was built for.
    pub fn config(&self) -> (config: Config)
        ensures
            config == self@,
    {
        self.config
    }

    /// Stems `word`. The stem is never longer than the word and empty only
    /// where the word is, and a word of at most two characters comes back
    /// as it is.
    pub fn stem(&self, word: &str) -> (stem: String)
        ensures
            stem@ == stem_of(self@, word@),
            stem@.len() <= word@.len(),
            word@.len() >= 1 ==> stem@.len() >= 1,
            word@.len() <= 2 ==> stem@ == word@,
    {
        proof {
            use_type_invariant(self);
            lemma_stem_not_longer(self@, word@);
            if word@.len() >= 1 {
                lemma_stem_not_empty(self@, word@);
            }
        }
        let mut form = chars_of(word);
        if form.len() <= 2 {
            return string_of(form.as_slice());
        }
        if self.config.lowercase_fold {
            fold(&mut form);
        }
        run_steps(&self.table, &mut form);
        string_of(form.as_slice())
    }
}

} // verus!
