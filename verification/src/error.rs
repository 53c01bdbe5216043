//! The terminal failure and its text.

use crate::config::MAX_ATTEMPTS;
use vstd::prelude::*;
use vstd::string::*;

verus! {

/// The character that writes the digit `d`, for `d` below ten.
pub open spec fn digit(d: nat) -> char
    recommends
        d < 10,
{
    seq!['0', '1', '2', '3', '4', '5', '6', '7', '8', '9'][d as int]
}

/// The decimal numeral of `n`, most significant digit first, without leading
/// zeros (zero itself is written `0`).
pub open spec fn decimal(n: nat) -> Seq<char>
    decreases n,
{
    if n < 10 {
        seq![digit(n)]
    } else {
        decimal(n / 10).push(digit(n % 10))
    }
}

/// The text of the terminal failure for `endpoint` after `attempts` attempts.
pub open spec fn failure_text(endpoint: Seq<char>, attempts: nat) -> Seq<char> {
    "Failed to connect to "@ + endpoint + " after "@ + decimal(attempts) + " attempts"@
}

fn push_digit(text: &mut String, d: usize)
    requires
        d < 10,
    ensures
        final(text)@ == old(text)@.push(digit(d as nat)),
{
    let glyph = match d {
        0 => "0",
        1 => "1",
        2 => "2",
        3 => "3",
        4 => "4",
        5 => "5",
        6 => "6",
        7 => "7",
        8 => "8",
        _ => "9",
    };
    proof {
        reveal_strlit("0");
        reveal_strlit("1");
        reveal_strlit("2");
        reveal_strlit("3");
        reveal_strlit("4");
        reveal_strlit("5");
        reveal_strlit("6");
        reveal_strlit("7");
        reveal_strlit("8");
        reveal_strlit("9");
        assert(glyph@ =~= seq![digit(d as nat)]);
        assert(text@ + glyph@ =~= text@.push(digit(d as nat)));
    }
    text.append(glyph);
}

fn push_decimal(text: &mut String, n: usize)
    ensures
        final(text)@ == old(text)@ + decimal(n as nat),
    decreases n,
{
    if n >= 10 {
        push_decimal(text, n / 10);
    }
    push_digit(text, n % 10);
    proof {
        if n >= 10 {
            assert(old(text)@ + decimal(n as nat) =~= (old(text)@ + decimal((n / 10) as nat)).push(
                digit((n % 10) as nat),
            ));
        } else {
            assert(old(text)@ + decimal(n as nat) =~= old(text)@.push(digit(n as nat)));
        }
    }
}

/// The failure that ends a bootstrap whose every attempt failed: which
/// endpoint could not be reached, and after how many attempts. The causes
/// of the single failures are not kept.
#[derive(Debug, PartialEq, Eq)]
pub struct TerminalError {
    pub endpoint: String,
    pub attempts: usize,
}

/// A [`TerminalError`] as contracts see it: the same, with the endpoint as a
/// sequence of characters.
pub struct TerminalErrorView {
    pub endpoint: Seq<char>,
    pub attempts: usize,
}

impl View for TerminalError {
    type V = TerminalErrorView;

    open spec fn view(&self) -> TerminalErrorView {
        TerminalErrorView { endpoint: self.endpoint@, attempts: self.attempts }
    }
}

impl TerminalError {
    /// The failure for `endpoint` after `attempts` attempts.
    pub fn new(endpoint: &str, attempts: usize) -> (error: TerminalError)
        ensures
            error@ == (TerminalErrorView { endpoint: endpoint@, attempts }),
    {
        TerminalError { endpoint: String::from_str(endpoint), attempts }
    }

    /// What the caller is told: `Failed to connect to <endpoint> after <attempts> attempts`.
    pub fn message(&self) -> (text: String)
        ensures
            text@ == failure_text(self@.endpoint, self@.attempts as nat),
    {
        let mut text = String::from_str("Failed to connect to ");
        text.append(self.endpoint.as_str());
        text.append(" after ");
        push_decimal(&mut text, self.attempts);
        text.append(" attempts");
        text
    }
}

/// With the default budget the text ends in `after 10 attempts`.
pub proof fn failure_text_with_default_budget(endpoint: Seq<char>)
    ensures
        failure_text(endpoint, MAX_ATTEMPTS as nat) == "Failed to connect to "@ + endpoint
            + " after 10 attempts"@,
{
    reveal_strlit(" after ");
    reveal_strlit(" attempts");
    reveal_strlit(" after 10 attempts");
    reveal_with_fuel(decimal, 2);
    assert(decimal(10) =~= seq!['1', '0']);
    assert(" after "@ + decimal(10) + " attempts"@ =~= " after 10 attempts"@);
    assert(failure_text(endpoint, 10) =~= "Failed to connect to "@ + endpoint + (" after "@
        + decimal(10) + " attempts"@));
}

} // verus!
