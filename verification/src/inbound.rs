//! Decimals in structured data: one canonical outbound form, and an inbound
//! side that takes a decimal from a text, a number or an integer.
//!
//! The functions here decide what each inbound shape becomes. Reading the
//! shapes off a data format, and turning a floating-point number into its
//! default decimal text, is the caller's part.
use vstd::prelude::*;
use crate::error::Error;
use crate::primitive::{of_i64, of_u64, text_of};
use crate::pure_decimal::Decimal;

verus! {

/// The shapes in which a structured input may hold a decimal.
#[derive(Debug)]
pub enum Inbound {
    /// A string.
    Text(String),
    /// A floating-point number, given as its default decimal text.
    Float(String),
    /// A signed integer.
    Signed(i64),
    /// An unsigned integer.
    Unsigned(u64),
    /// Anything else: a boolean, a list, a map, nothing.
    Other,
}

/// `r` is what reading `text` as a decimal gives: the parsed value, or an
/// [`Error::InvalidValue`] that holds `text` where parsing fails for any
/// reason.
pub open spec fn text_outcome(r: Result<Decimal, Error>, text: Seq<char>) -> bool {
    match r {
        Ok(d) => Decimal::parse_result(text) == Ok::<u128, Error>(d@) && d.wf(),
        Err(e) => {
            &&& Decimal::parse_result(text) is Err
            &&& e matches Error::InvalidValue(t) && t@ == text
        },
    }
}

/// `r` is what `input` decodes to.
pub open spec fn decoded(r: Result<Decimal, Error>, input: Inbound) -> bool {
    match input {
        Inbound::Text(s) => text_outcome(r, s@),
        Inbound::Float(s) => text_outcome(r, s@),
        Inbound::Signed(v) => r matches Ok(d) && d@ == of_i64(v) && d.wf(),
        Inbound::Unsigned(v) => r matches Ok(d) && d@ == of_u64(v) && d.wf(),
        Inbound::Other => r == Err::<Decimal, Error>(Error::UnexpectedType),
    }
}

/// Decoding the outbound form of a value reads its canonical text as
/// [`Decimal::from_str`] does: both succeed or both fail, and where they
/// succeed they hold the same bit pattern.
pub proof fn lemma_decoding_the_encoded(
    value: Decimal,
    decoded: Result<Decimal, Error>,
    parsed: Result<Decimal, Error>,
)
    requires
        text_outcome(decoded, text_of(value@)),
        Decimal::agrees(parsed, Decimal::parse_result(text_of(value@))),
    ensures
        decoded is Ok <==> parsed is Ok,
        decoded matches Ok(d) ==> parsed matches Ok(p) && d@ == p@,
{
}

/// An integer always decodes, whatever its sign and size.
pub proof fn lemma_integers_always_decode(input: Inbound, r: Result<Decimal, Error>)
    requires
        input is Signed || input is Unsigned,
        decoded(r, input),
    ensures
        r is Ok,
{
}

/// What an inbound value has to be.
pub fn expecting() -> (r: &'static str)
    ensures
        r@ == "a Decimal value"@,
{
    "a Decimal value"
}

/// The outbound form of a value: always its canonical text, never a number.
pub fn serialize(value: &Decimal) -> (r: String)
    ensures
        r@ == text_of(value@),
{
    value.to_string()
}

/// Decodes a string.
pub fn visit_str(s: &str) -> (r: Result<Decimal, Error>)
    ensures
        text_outcome(r, s@),
{
    match Decimal::from_str(s) {
        Ok(d) => Ok(d),
        Err(_) => Err(Error::InvalidValue(s.to_owned())),
    }
}

/// Decodes a floating-point number from its default decimal text: the
/// digits that a reader of the number expects, not its binary expansion.
pub fn visit_f64(text: &str) -> (r: Result<Decimal, Error>)
    ensures
        text_outcome(r, text@),
{
    visit_str(text)
}

/// Decodes a signed integer, exactly.
pub fn visit_i64(value: i64) -> (r: Result<Decimal, Error>)
    ensures
        r matches Ok(d) && d@ == of_i64(value) && d.wf(),
{
    Ok(Decimal::from_i64(value))
}

/// Decodes an unsigned integer, exactly.
pub fn visit_u64(value: u64) -> (r: Result<Decimal, Error>)
    ensures
        r matches Ok(d) && d@ == of_u64(value) && d.wf(),
{
    Ok(Decimal::from_u64(value))
}

/// Decodes an inbound value of any shape; a shape that cannot hold a decimal
/// gives [`Error::UnexpectedType`].
pub fn deserialize(input: &Inbound) -> (r: Result<Decimal, Error>)
    ensures
        decoded(r, *input),
{
    match input {
        Inbound::Text(s) => visit_str(s.as_str()),
        Inbound::Float(s) => visit_f64(s.as_str()),
        Inbound::Signed(v) => visit_i64(*v),
        Inbound::Unsigned(v) => visit_u64(*v),
        Inbound::Other => Err(Error::UnexpectedType),
    }
}

} // verus!
