//! The set of flags that goes with a parse request.

use vstd::prelude::*;

verus! {

/// The bit that asks for local files to be parsed.
pub const LOCAL: u32 = 0b0000_0001;

/// The bit that asks for network media to be parsed as well.
pub const NETWORK: u32 = 0b0000_0010;

/// The bit that asks for art to be fetched from local files.
pub const FETCH_LOCAL: u32 = 0b0000_0100;

/// The bit that asks for art to be fetched from the network.
pub const FETCH_NETWORK: u32 = 0b0000_1000;

/// Every bit that belongs to a flag: the four flags put together.
pub const ALL: u32 = 0b0000_1111;

/// Whether `bits` holds no bit but those of the flags.
pub open spec fn known_bits(bits: u32) -> bool {
    bits & !ALL == 0
}

/// A set of parse flags, kept as the bits that the native layer is given.
#[derive(Debug, Clone, Copy, PartialEq, Eq, Structural, Hash)]
pub struct ParseFlags {
    bits: u32,
}

impl View for ParseFlags {
    type V = u32;

    closed spec fn view(&self) -> u32 {
        self.bits
    }
}

impl ParseFlags {
    /// No set holds a bit that belongs to no flag.
    #[verifier::type_invariant]
    closed spec fn well_formed(self) -> bool {
        known_bits(self.bits)
    }

    /// The set with no flag in it.
    pub fn empty() -> (flags: ParseFlags)
        ensures
            flags@ == 0,
    {
        proof {
            flags_stay_known(0, 0);
        }
        ParseFlags { bits: 0 }
    }

    /// The set with every flag in it.
    pub fn all() -> (flags: ParseFlags)
        ensures
            flags@ == ALL,
    {
        proof {
            flags_stay_known(0, 0);
        }
        ParseFlags { bits: ALL }
    }

    /// The set that holds the flag for local parsing alone.
    pub fn local() -> (flags: ParseFlags)
        ensures
            flags@ == LOCAL,
    {
        proof {
            flags_stay_known(0, 0);
        }
        ParseFlags { bits: LOCAL }
    }

    /// The set that holds the flag for network parsing alone.
    pub fn network() -> (flags: ParseFlags)
        ensures
            flags@ == NETWORK,
    {
        proof {
            flags_stay_known(0, 0);
        }
        ParseFlags { bits: NETWORK }
    }

    /// The set that holds the flag for fetching local art alone.
    pub fn fetch_local() -> (flags: ParseFlags)
        ensures
            flags@ == FETCH_LOCAL,
    {
        proof {
            flags_stay_known(0, 0);
        }
        ParseFlags { bits: FETCH_LOCAL }
    }

    /// The set that holds the flag for fetching art from the network alone.
    pub fn fetch_network() -> (flags: ParseFlags)
        ensures
            flags@ == FETCH_NETWORK,
    {
        proof {
            flags_stay_known(0, 0);
        }
        ParseFlags { bits: FETCH_NETWORK }
    }

    /// The set that `bits` stands for, if every bit of it belongs to a flag.
    pub fn from_bits(bits: u32) -> (flags: Option<ParseFlags>)
        ensures
            match flags {
                Some(set) => known_bits(bits) && set@ == bits,
                None => !known_bits(bits),
            },
    {
        if bits & !ALL == 0 {
            Some(ParseFlags { bits })
        } else {
            None
        }
    }

    /// The set that `bits` stands for once the bits of no flag are dropped.
    pub fn from_bits_truncate(bits: u32) -> (flags: ParseFlags)
        ensures
            flags@ == bits & ALL,
    {
        proof {
            flags_stay_known(bits, 0);
        }
        ParseFlags { bits: bits & ALL }
    }

    /// The bits of the set, as the native layer takes them. Each of them
    /// belongs to a flag.
    pub fn bits(&self) -> (bits: u32)
        ensures
            bits == self@,
            known_bits(bits),
    {
        proof {
            use_type_invariant(self);
        }
        self.bits
    }

    /// Whether the set holds no flag.
    pub fn is_empty(&self) -> (empty: bool)
        ensures
            empty == (self@ == 0),
    {
        self.bits == 0
    }

    /// Whether every flag of `other` is in the set.
    pub fn contains(&self, other: ParseFlags) -> (inside: bool)
        ensures
            inside == (self@ & other@ == other@),
    {
        self.bits & other.bits == other.bits
    }

    /// The set of the flags that are in either set.
    pub fn union(self, other: ParseFlags) -> (flags: ParseFlags)
        ensures
            flags@ == self@ | other@,
    {
        proof {
            use_type_invariant(self);
            use_type_invariant(other);
            flags_stay_known(self.bits, other.bits);
        }
        ParseFlags { bits: self.bits | other.bits }
    }
}

/// Sets put together from flags and from each other never hold a bit that
/// belongs to no flag.
pub proof fn flags_stay_known(a: u32, b: u32)
    ensures
        known_bits(0),
        known_bits(LOCAL),
        known_bits(NETWORK),
        known_bits(FETCH_LOCAL),
        known_bits(FETCH_NETWORK),
        known_bits(ALL),
        known_bits(a & ALL),
        known_bits(a) && known_bits(b) ==> known_bits(a | b),
{
    assert(0u32 & !0b1111u32 == 0) by (bit_vector);
    assert(1u32 & !0b1111u32 == 0) by (bit_vector);
    assert(2u32 & !0b1111u32 == 0) by (bit_vector);
    assert(4u32 & !0b1111u32 == 0) by (bit_vector);
    assert(8u32 & !0b1111u32 == 0) by (bit_vector);
    assert(0b1111u32 & !0b1111u32 == 0) by (bit_vector);
    assert((a & 0b1111u32) & !0b1111u32 == 0) by (bit_vector);
    assert(a & !0b1111u32 == 0 && b & !0b1111u32 == 0 ==> (a | b) & !0b1111u32 == 0)
        by (bit_vector);
}

/// Each of the four flags has a bit of its own: no two flags are the same
/// word, no two share a bit, and together they are every bit of a flag.
pub proof fn flags_are_distinct()
    ensures
        LOCAL != NETWORK,
        LOCAL != FETCH_LOCAL,
        LOCAL != FETCH_NETWORK,
        NETWORK != FETCH_LOCAL,
        NETWORK != FETCH_NETWORK,
        FETCH_LOCAL != FETCH_NETWORK,
        LOCAL != 0 && NETWORK != 0 && FETCH_LOCAL != 0 && FETCH_NETWORK != 0,
        LOCAL & NETWORK == 0,
        LOCAL & FETCH_LOCAL == 0,
        LOCAL & FETCH_NETWORK == 0,
        NETWORK & FETCH_LOCAL == 0,
        NETWORK & FETCH_NETWORK == 0,
        FETCH_LOCAL & FETCH_NETWORK == 0,
        LOCAL | NETWORK | FETCH_LOCAL | FETCH_NETWORK == ALL,
{
    assert(1u32 & 2u32 == 0) by (bit_vector);
    assert(1u32 & 4u32 == 0) by (bit_vector);
    assert(1u32 & 8u32 == 0) by (bit_vector);
    assert(2u32 & 4u32 == 0) by (bit_vector);
    assert(2u32 & 8u32 == 0) by (bit_vector);
    assert(4u32 & 8u32 == 0) by (bit_vector);
    assert(1u32 | 2u32 | 4u32 | 8u32 == 0b1111u32) by (bit_vector);
}

/// The flags of a set can be read back from its word: the word is made of
/// exactly the flags whose bit it holds, so two sets with the same flags are
/// the same word and two sets that differ in a flag are different words.
pub proof fn flags_are_recoverable(a: u32, b: u32)
    requires
        known_bits(a),
        known_bits(b),
    ensures
        a == (a & LOCAL) | (a & NETWORK) | (a & FETCH_LOCAL) | (a & FETCH_NETWORK),
        (a & LOCAL == b & LOCAL && a & NETWORK == b & NETWORK && a & FETCH_LOCAL == b
            & FETCH_LOCAL && a & FETCH_NETWORK == b & FETCH_NETWORK) ==> a == b,
{
    assert(a & !0b1111u32 == 0 ==> a == (a & 1u32) | (a & 2u32) | (a & 4u32) | (a & 8u32))
        by (bit_vector);
    assert(b & !0b1111u32 == 0 ==> b == (b & 1u32) | (b & 2u32) | (b & 4u32) | (b & 8u32))
        by (bit_vector);
}

} // verus!
