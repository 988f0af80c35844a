//! The model of an enum that the server may extend.
//!
//! Such an enum has a closed set of named variants, each with its literal, one
//! variant for the absent value, and one that keeps any other string as it came.
//! On the wire every value is a string; this module says which value a string
//! stands for and which string a value is written as.

use vstd::prelude::*;

verus! {

/// What a value of an extensible enum stands for.
pub enum WireValue {
    /// One of the enum's named variants, by its literal.
    Known(Seq<char>),
    /// The absent value, written as the empty string.
    Empty,
    /// A string that the enum has no variant for, kept verbatim.
    Unknown(Seq<char>),
}

/// The value that the string `s` stands for in an enum with the given literals.
pub open spec fn decode(literals: Set<Seq<char>>, s: Seq<char>) -> WireValue {
    if s.len() == 0 {
        WireValue::Empty
    } else if literals.contains(s) {
        WireValue::Known(s)
    } else {
        WireValue::Unknown(s)
    }
}

/// The string that a value is written as.
pub open spec fn encode(v: WireValue) -> Seq<char> {
    match v {
        WireValue::Known(literal) => literal,
        WireValue::Empty => Seq::empty(),
        WireValue::Unknown(s) => s,
    }
}

/// Whether `v` is the value that decoding produces for its own string: a known
/// value carries one of the literals, and an unknown one carries a string that
/// is neither empty nor a literal.
pub open spec fn canonical(literals: Set<Seq<char>>, v: WireValue) -> bool {
    match v {
        WireValue::Known(literal) => literal.len() > 0 && literals.contains(literal),
        WireValue::Empty => true,
        WireValue::Unknown(s) => s.len() > 0 && !literals.contains(s),
    }
}

/// Decoding any string and encoding the result gives the string back.
pub proof fn lemma_decode_then_encode(literals: Set<Seq<char>>, s: Seq<char>)
    ensures
        encode(decode(literals, s)) == s,
{
    if s.len() == 0 {
        assert(s =~= Seq::<char>::empty());
    }
}

/// A literal of the enum decodes to its named variant, which encodes to the
/// literal again.
pub proof fn lemma_literal_round_trip(literals: Set<Seq<char>>, literal: Seq<char>)
    requires
        literals.contains(literal),
        literal.len() > 0,
    ensures
        decode(literals, literal) == WireValue::Known(literal),
        encode(decode(literals, literal)) == literal,
{
}

/// A string that the enum does not know is kept: it decodes to the catch-all
/// value, which encodes to the same string.
pub proof fn lemma_unknown_round_trip(literals: Set<Seq<char>>, s: Seq<char>)
    requires
        !literals.contains(s),
        s.len() > 0,
    ensures
        decode(literals, s) == WireValue::Unknown(s),
        encode(decode(literals, s)) == s,
{
}

/// Decoding always produces a canonical value.
pub proof fn lemma_decode_is_canonical(literals: Set<Seq<char>>, s: Seq<char>)
    ensures
        canonical(literals, decode(literals, s)),
{
}

/// Encoding a canonical value and decoding the string gives the value back.
pub proof fn lemma_encode_then_decode(literals: Set<Seq<char>>, v: WireValue)
    requires
        canonical(literals, v),
    ensures
        decode(literals, encode(v)) == v,
{
}

} // verus!
