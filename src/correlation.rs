//! Correlation ids: one fresh random UUID per request-response cycle, used to
//! tie the client-visible error body to the server-side log record.
use vstd::prelude::*;
use vstd::string::*;

verus! {

/// The sixteen lower-case hexadecimal digits, in order.
pub open spec fn hex_alphabet() -> Seq<char> {
    "0123456789abcdef"@
}

/// The `i`-th four-bit group of `v`, counted from the most significant one.
pub open spec fn nibble(v: u128, i: nat) -> u8 {
    ((v >> ((124 - 4 * i) as u128)) & 15u128) as u8
}

/// The 32 lower-case hexadecimal digits of `v`, most significant first.
pub open spec fn hex_digits(v: u128) -> Seq<char> {
    Seq::new(32, |i: int| hex_alphabet()[nibble(v, i as nat) as int])
}

/// The hyphenated text form of a UUID: groups of 8, 4, 4, 4 and 12 digits.
pub open spec fn hyphenated(v: u128) -> Seq<char> {
    let d = hex_digits(v);
    d.subrange(0, 8) + "-"@ + d.subrange(8, 12) + "-"@ + d.subrange(12, 16) + "-"@
        + d.subrange(16, 20) + "-"@ + d.subrange(20, 32)
}

/// Whether `v` has the version and variant bits of a random (version 4) UUID.
pub open spec fn is_random_uuid(v: u128) -> bool {
    (v >> 76u128) & 15u128 == 4u128 && (v >> 62u128) & 3u128 == 2u128
}

/// The correlation id of one request, held as the 128 bits of a UUID.
#[derive(Debug, Clone, Copy, PartialEq, Eq, Structural)]
pub struct CorrelationId {
    pub value: u128,
}

/// Relies on uuid::Uuid::new_v4 and Uuid::as_u128: a random UUID whose version
/// nibble is 4 and whose variant bits are 0b10.
#[verifier::external_body]
fn random_uuid_bits() -> (r: u128)
    ensures
        is_random_uuid(r),
{
    uuid::Uuid::new_v4().as_u128()
}

impl CorrelationId {
    /// A freshly drawn random correlation id.
    pub fn new_v4() -> (r: CorrelationId)
        ensures
            is_random_uuid(r.value),
    {
        CorrelationId { value: random_uuid_bits() }
    }

    /// The hyphenated lower-case text form of this id.
    pub fn to_hyphenated(&self) -> (r: String)
        ensures
            r@ == hyphenated(self.value),
            r@.len() == 36,
    {
        let mut s = String::new();
        append_hex_digits(&mut s, self.value, 0, 8);
        s.append("-");
        append_hex_digits(&mut s, self.value, 8, 12);
        s.append("-");
        append_hex_digits(&mut s, self.value, 12, 16);
        s.append("-");
        append_hex_digits(&mut s, self.value, 16, 20);
        s.append("-");
        append_hex_digits(&mut s, self.value, 20, 32);
        proof {
            reveal_strlit("-");
            assert(s@ =~= hyphenated(self.value));
        }
        s
    }
}

/// The hexadecimal digit of a value below 16.
fn hex_digit(d: u8) -> (r: &'static str)
    requires
        d < 16,
    ensures
        r@ =~= seq![hex_alphabet()[d as int]],
{
    let alphabet = "0123456789abcdef";
    proof {
        reveal_strlit("0123456789abcdef");
    }
    alphabet.substring_ascii(d as usize, d as usize + 1)
}

/// Appends the digits of `v` at positions `from` up to `to` to `s`.
fn append_hex_digits(s: &mut String, v: u128, from: usize, to: usize)
    requires
        from <= to <= 32,
    ensures
        final(s)@ == old(s)@ + hex_digits(v).subrange(from as int, to as int),
{
    let mut i: usize = from;
    while i < to
        invariant
            from <= i <= to <= 32,
            s@ == old(s)@ + hex_digits(v).subrange(from as int, i as int),
        decreases to - i,
    {
        let shift: u128 = (124 - 4 * i) as u128;
        let masked: u128 = (v >> shift) & 15u128;
        assert(masked < 16) by (bit_vector)
            requires
                masked == (v >> shift) & 15u128,
        ;
        let d: u8 = masked as u8;
        assert(d == nibble(v, i as nat));
        s.append(hex_digit(d));
        assert(hex_digits(v).subrange(from as int, i + 1) =~= hex_digits(v).subrange(
            from as int,
            i as int,
        ).push(hex_digits(v)[i as int]));
        i = i + 1;
    }
}

} // verus!
