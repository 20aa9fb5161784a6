//! The pattern that a lobby name has to match.

use regex::Regex;
use vstd::prelude::*;

verus! {

/// `regex::Regex`, a compiled regular expression. Nothing inside it is visible here.
#[verifier::external_type_specification]
#[verifier::external_body]
pub struct ExRegex(regex::Regex);

/// What `regex::Regex::is_match` returns for a compiled expression and a text.
pub uninterp spec fn regex_matches(regex: Regex, text: Seq<char>) -> bool;

/// Whether `regex::Regex::new` finds no syntax error in a pattern.
pub uninterp spec fn pattern_is_valid(pattern: Seq<char>) -> bool;

/// Whether the expression that `regex::Regex::new` compiles from a pattern matches a text.
pub uninterp spec fn pattern_matches(pattern: Seq<char>, text: Seq<char>) -> bool;

/// `regex::Regex::is_match`: whether the expression matches anywhere in `haystack`. The answer
/// depends on the expression and on the text alone.
pub assume_specification[ regex::Regex::is_match ](regex: &Regex, haystack: &str) -> (found: bool)
    ensures
        found == regex_matches(*regex, haystack@),
;

/// Why a pattern could not be compiled.
#[derive(Debug, Clone, Copy, PartialEq, Eq, Structural)]
pub enum PatternError {
    /// The pattern is not a regular expression.
    Syntax,
    /// The pattern is a regular expression whose compiled form exceeds the size limit.
    TooBig,
}

/// `regex::Regex::new`: fails with `Syntax` exactly where the pattern has a syntax error, and
/// what it compiles matches the texts that the pattern matches.
///
/// Which valid patterns are too big is left unsaid: the limit is one of bytes in memory, and the
/// size of the compiled form differs between machines.
#[verifier::external_body]
fn compile(pattern: &str) -> (compiled: Result<Regex, PatternError>)
    ensures
        (compiled is Err && compiled->Err_0 == PatternError::Syntax) == !pattern_is_valid(pattern@),
        compiled matches Ok(regex) ==> forall|text: Seq<char>| #[trigger]
            regex_matches(regex, text) == pattern_matches(pattern@, text),
{
    match Regex::new(pattern) {
        Ok(regex) => Ok(regex),
        Err(regex::Error::CompiledTooBig(_)) => Err(PatternError::TooBig),
        Err(_) => Err(PatternError::Syntax),
    }
}

/// The rule for lobby names, compiled once for each connection.
pub struct LobbyRegex {
    regex: Regex,
}

impl LobbyRegex {
    /// Whether the rule admits `name`.
    pub closed spec fn admits(self, name: Seq<char>) -> bool {
        regex_matches(self.regex, name)
    }

    /// Compiles the rule that admits the names that `pattern` matches.
    pub fn new(pattern: &str) -> (rule: Result<Self, PatternError>)
        ensures
            (rule is Err && rule->Err_0 == PatternError::Syntax) == !pattern_is_valid(pattern@),
            rule matches Ok(rule) ==> forall|name: Seq<char>| #[trigger]
                rule.admits(name) == pattern_matches(pattern@, name),
    {
        match compile(pattern) {
            Ok(regex) => Ok(LobbyRegex { regex }),
            Err(error) => Err(error),
        }
    }

    /// Tests `name` against the rule.
    pub fn is_match(&self, name: &str) -> (admitted: bool)
        ensures
            admitted == self.admits(name@),
    {
        self.regex.is_match(name)
    }
}

} // verus!
