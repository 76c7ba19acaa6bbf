//! The menu grammar: one line of input names one of the tool's actions.

use vstd::prelude::*;
use vstd::string::StrSliceExecFns;

verus! {

/// What a line typed at the menu prompt asks for.
#[derive(Clone, Copy, Debug, PartialEq, Eq, Structural)]
pub enum MenuChoice {
    /// "1": request the target period.
    SetCustom,
    /// "2": measure the achieved sleep time.
    Measure,
    /// "3": close the tool.
    Exit,
    /// "4": go back to the default period.
    Reset,
    /// Anything else.
    Invalid,
}

/// The characters with the Unicode White_Space property.
pub open spec fn is_white_space(c: char) -> bool {
    let u = c as u32;
    (0x9 <= u && u <= 0xd) || u == 0x20 || u == 0x85 || u == 0xa0 || u == 0x1680 || (0x2000 <= u
        && u <= 0x200a) || u == 0x2028 || u == 0x2029 || u == 0x202f || u == 0x205f || u == 0x3000
}

/// `s` without its leading white space.
pub open spec fn trim_start(s: Seq<char>) -> Seq<char>
    decreases s.len(),
{
    if s.len() > 0 && is_white_space(s[0]) {
        trim_start(s.drop_first())
    } else {
        s
    }
}

/// `s` without its trailing white space.
pub open spec fn trim_end(s: Seq<char>) -> Seq<char>
    decreases s.len(),
{
    if s.len() > 0 && is_white_space(s.last()) {
        trim_end(s.drop_last())
    } else {
        s
    }
}

/// `s` without white space at either end.
pub open spec fn trimmed(s: Seq<char>) -> Seq<char> {
    trim_end(trim_start(s))
}

/// The action that the characters `s` name once white space at both ends is
/// set aside.
pub open spec fn choice_of(s: Seq<char>) -> MenuChoice {
    let t = trimmed(s);
    if t.len() != 1 {
        MenuChoice::Invalid
    } else if t[0] == '1' {
        MenuChoice::SetCustom
    } else if t[0] == '2' {
        MenuChoice::Measure
    } else if t[0] == '3' {
        MenuChoice::Exit
    } else if t[0] == '4' {
        MenuChoice::Reset
    } else {
        MenuChoice::Invalid
    }
}

/// Relies on str::trim: the slice without leading and trailing characters
/// that have the Unicode White_Space property.
#[verifier::external_body]
fn trim_line(s: &str) -> (r: &str)
    ensures
        r@ == trimmed(s@),
{
    s.trim()
}

/// Reads one line typed at the menu prompt.
pub fn parse_choice(input: &str) -> (r: MenuChoice)
    ensures
        r == choice_of(input@),
{
    let t = trim_line(input);
    if t.unicode_len() != 1 {
        return MenuChoice::Invalid;
    }
    let c = t.get_char(0);
    if c == '1' {
        MenuChoice::SetCustom
    } else if c == '2' {
        MenuChoice::Measure
    } else if c == '3' {
        MenuChoice::Exit
    } else if c == '4' {
        MenuChoice::Reset
    } else {
        MenuChoice::Invalid
    }
}

} // verus!
