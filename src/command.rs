//! The commands a TCP client can send.
use vstd::prelude::*;

verus! {

/// A recognised client command.
#[derive(Debug, Clone, Copy, PartialEq, Eq, Structural)]
pub enum Comando {
    /// One or more `1`: the cached reading, if it is recent enough.
    Uno,
    /// One or more `W`: a fresh reading, asking the scale when needed.
    W,
}

/// Unicode's White_Space property: what `\s` matches in a Unicode regex and
/// what `char::is_whitespace` accepts.
pub open spec fn is_white_space(c: char) -> bool {
    let u = c as u32;
    ||| 0x09 <= u <= 0x0D
    ||| u == 0x20
    ||| u == 0x85
    ||| u == 0xA0
    ||| u == 0x1680
    ||| 0x2000 <= u <= 0x200A
    ||| u == 0x2028
    ||| u == 0x2029
    ||| u == 0x202F
    ||| u == 0x205F
    ||| u == 0x3000
}

/// The first `k` chars of `s` are `lead`, at least one, and the rest white space.
pub open spec fn run_ends_at(lead: char, s: Seq<char>, k: int) -> bool {
    &&& 1 <= k <= s.len()
    &&& forall|i: int| 0 <= i < k ==> s[i] == lead
    &&& forall|i: int| k <= i < s.len() ==> is_white_space(#[trigger] s[i])
}

/// `s` is one or more `lead` followed by white space only.
pub open spec fn run_then_space(lead: char, s: Seq<char>) -> bool {
    exists|k: int| run_ends_at(lead, s, k)
}

/// The command that a line of text stands for.
pub open spec fn command_of(s: Seq<char>) -> Option<Comando> {
    if run_then_space('1', s) {
        Some(Comando::Uno)
    } else if run_then_space('W', s) {
        Some(Comando::W)
    } else {
        None
    }
}

/// The pattern `^C+\s*$` for a literal character `C`.
pub open spec fn run_pattern(lead: char) -> Seq<char> {
    seq!['^', lead, '+', '\\', 's', '*', '$']
}

/// Relies on `regex::Regex::new` and `regex::Regex::is_match`: `^1+\s*$` and
/// `^W+\s*$` compile, and match exactly the texts that are one or more of the
/// literal followed only by white space (`\s` is Unicode's White_Space; `$`
/// outside multi-line mode is the end of the text).
#[verifier::external_body]
fn full_match(pattern: &str, text: &str) -> (r: bool)
    requires
        pattern@ == run_pattern('1') || pattern@ == run_pattern('W'),
    ensures
        r == run_then_space(pattern@[1], text@),
{
    match regex::Regex::new(pattern) {
        Ok(re) => re.is_match(text),
        Err(_) => false,
    }
}

impl Comando {
    /// The command that `input` spells, if any.
    pub fn parse(input: &str) -> (r: Option<Comando>)
        ensures
            r == command_of(input@),
    {
        let uno = "^1+\\s*$";
        let w = "^W+\\s*$";
        proof {
            reveal_strlit("^1+\\s*$");
            reveal_strlit("^W+\\s*$");
            assert(uno@ =~= run_pattern('1'));
            assert(w@ =~= run_pattern('W'));
        }
        if full_match(uno, input) {
            Some(Comando::Uno)
        } else if full_match(w, input) {
            Some(Comando::W)
        } else {
            None
        }
    }
}

} // verus!
