//! A command to be called as a pre- or post-operation hook.
//!
//! A [`CommandInput`] wraps an ordered sequence of strings: the program name
//! followed by its arguments.  The sequence is either completely empty (the
//! hook is disabled) or starts with the executable.  It can be built from a
//! structured sequence of tokens or by splitting a single string under POSIX
//! shell quoting rules.

use crate::strings::clone_string_vec;
use vstd::prelude::*;

verus! {

/// Error for a command string with malformed quoting.
#[derive(Clone, Copy, Debug, PartialEq, Eq, Structural)]
pub enum CommandParseError {
    /// The string ends inside a quoted word.
    UnmatchedQuote,
}

/// The token sequence that `shell_words::split` produces for a string, or
/// `None` where splitting fails on malformed quoting.
pub uninterp spec fn shell_split(s: Seq<char>) -> Option<Seq<Seq<char>>>;

/// Relies on `shell_words::split`: POSIX shell word splitting (quote removal,
/// escaping, comments), failing exactly on an unmatched quote.  The result
/// depends on the characters of the string alone; the one error value is
/// mapped to the library's own error.
#[verifier::external_body]
fn split_shell(s: &str) -> (r: Result<Vec<String>, CommandParseError>)
    ensures
        r matches Ok(v) ==> shell_split(s@) == Some(v.deep_view()),
        r is Err ==> shell_split(s@) is None,
        r is Err ==> s@.len() > 0,
{
    match shell_words::split(s) {
        Ok(v) => Ok(v),
        Err(_) => Err(CommandParseError::UnmatchedQuote),
    }
}

/// The warning recorded when a hook labelled `info` runs but exits unsuccessfully.
pub open spec fn spec_hook_warning(info: Seq<char>) -> Seq<char> {
    "running command "@ + info + " was not successful"@
}

/// An external command with its arguments, as configured for a hook.
#[derive(Debug)]
pub struct CommandInput {
    tokens: Vec<String>,
}

impl View for CommandInput {
    type V = Seq<Seq<char>>;

    closed spec fn view(&self) -> Seq<Seq<char>> {
        self.tokens.deep_view()
    }
}

impl Default for CommandInput {
    /// An unset command: no executable, no arguments.
    fn default() -> (r: Self)
        ensures
            r@ == Seq::<Seq<char>>::empty(),
    {
        CommandInput { tokens: Vec::new() }
    }
}

impl CommandInput {
    /// Structured construction: the given tokens, first one the executable.
    pub fn from_tokens(tokens: Vec<String>) -> (r: Self)
        ensures
            r@ == tokens.deep_view(),
    {
        CommandInput { tokens }
    }

    /// Construction by POSIX shell word splitting of a single string.
    pub fn from_str(s: &str) -> (r: Result<Self, CommandParseError>)
        ensures
            r is Ok <==> shell_split(s@) is Some,
            r matches Ok(c) ==> shell_split(s@) == Some(c@),
    {
        match split_shell(s) {
            Ok(tokens) => Ok(CommandInput { tokens }),
            Err(e) => Err(e),
        }
    }

    /// True iff a command is configured at all.
    pub fn is_set(&self) -> (r: bool)
        ensures
            r == (self@.len() > 0),
    {
        self.tokens.len() > 0
    }

    /// The executable: the first token.  Callers must check `is_set` first.
    pub fn command(&self) -> (r: &str)
        requires
            self@.len() > 0,
        ensures
            r@ == self@[0],
    {
        self.tokens[0].as_str()
    }

    /// The arguments: every token after the executable.
    pub fn args(&self) -> (r: Vec<String>)
        requires
            self@.len() > 0,
        ensures
            r.deep_view() == self@.skip(1),
    {
        let mut out: Vec<String> = Vec::new();
        let mut i: usize = 1;
        while i < self.tokens.len()
            invariant
                1 <= i <= self.tokens.len(),
                out.deep_view() =~= self@.subrange(1, i as int),
            decreases self.tokens.len() - i,
        {
            let ghost pre = out.deep_view();
            out.push(self.tokens[i].clone());
            proof {
                assert(out.deep_view() =~= pre.push(self@[i as int]));
            }
            i = i + 1;
        }
        proof {
            assert(out.deep_view() =~= self@.skip(1));
        }
        out
    }

    /// A copy of this command, value for value.
    pub fn duplicate(&self) -> (r: Self)
        ensures
            r@ == self@,
    {
        CommandInput { tokens: clone_string_vec(&self.tokens) }
    }

    /// The tokens as one sequence, for callers that hand the hook on.
    pub fn tokens(&self) -> (r: &Vec<String>)
        ensures
            r.deep_view() == self@,
    {
        &self.tokens
    }

    /// Hook merging: an already-set command is never cleared by a later one;
    /// an unset one takes whatever the incoming profile configured.
    pub fn merge_keep_set(&mut self, other: CommandInput)
        ensures
            final(self)@ == if old(self)@.len() == 0 {
                other@
            } else {
                old(self)@
            },
    {
        if self.tokens.len() == 0 {
            self.tokens = other.tokens;
        }
    }

    /// What running the hook concludes from how the spawned process ended:
    /// a non-zero exit is downgraded to a warning message, never a failure.
    pub fn run_warning(&self, info: &str, exit_success: bool) -> (r: Option<String>)
        ensures
            r is Some <==> !exit_success,
            r matches Some(m) ==> m@ == spec_hook_warning(info@),
    {
        if exit_success {
            None
        } else {
            let msg = String::from_str("running command ").concat(info).concat(
                " was not successful",
            );
            Some(msg)
        }
    }
}

} // verus!
