//! The textual form shared by both angle types.
use core::fmt::Display;
use vstd::prelude::*;
use vstd::string::to_string_from_display_ensures;

verus! {

/// The rendering of an angle whose payload prints as `number`: that text
/// between one pair of round brackets. No unit suffix is added, so the
/// reader has to know the unit from elsewhere.
pub open spec fn parenthesized(number: Seq<char>) -> Seq<char> {
    seq!['('] + number + seq![')']
}

/// `text` is a rendering of an angle that carries `payload`: some text that
/// the payload's own `Display` may produce, between round brackets.
pub open spec fn renders<N: Display>(payload: &N, text: Seq<char>) -> bool {
    exists|number: String| #[trigger]
        to_string_from_display_ensures::<N>(payload, number) && text == parenthesized(number@)
}

/// Puts `number` between round brackets.
pub fn parenthesize(number: &str) -> (text: String)
    ensures
        text@ == parenthesized(number@),
{
    let mut text = String::from_str("(");
    text.append(number);
    text.append(")");
    proof {
        reveal_strlit("(");
        reveal_strlit(")");
    }
    text
}

/// Renders an angle from its payload alone; both units print alike.
pub(crate) fn render<N: Display>(payload: &N) -> (text: String)
    ensures
        renders(payload, text@),
{
    let number = payload.to_string();
    parenthesize(number.as_str())
}

} // verus!
