//! Identifiers of VMs and workers: UUIDs, held as 128-bit numbers.
use vstd::prelude::*;

verus! {

/// The character of a hexadecimal digit below sixteen.
pub open spec fn hex_digit(d: u128) -> char {
    if d < 10 {
        (48 + d) as char
    } else {
        (87 + d) as char
    }
}

/// Which of the 32 hexadecimal digits of a UUID stands at a position of its text.
pub open spec fn digit_at(i: int) -> int {
    if i < 8 {
        i
    } else if i < 13 {
        i - 1
    } else if i < 18 {
        i - 2
    } else if i < 23 {
        i - 3
    } else {
        i - 4
    }
}

/// The hyphenated text of a UUID: 32 lower-case hexadecimal digits in groups of 8, 4, 4, 4
/// and 12, the most significant first.
pub open spec fn hyphenated(id: u128) -> Seq<char> {
    Seq::new(
        36,
        |i: int|
            if i == 8 || i == 13 || i == 18 || i == 23 {
                '-'
            } else {
                hex_digit((id >> ((4 * (31 - digit_at(i))) as u128)) & 0xf)
            },
    )
}

/// Whether `id` is a random UUID: version 4, RFC 9562 variant.
pub open spec fn is_random_id(id: u128) -> bool {
    (id >> 76) & 0xf == 4 && (id >> 62) & 3 == 2
}

/// What `uuid::Uuid::parse_str` makes of a text: the UUID that it writes, if it writes one.
pub uninterp spec fn uuid_of(text: Seq<char>) -> Option<u128>;

/// `uuid::Uuid::new_v4` draws a random UUID. Its version and variant bits are fixed; the
/// others are the operating system's randomness, of which nothing is said. It panics where
/// the system yields no randomness.
#[verifier::external_body]
pub(crate) fn random_id() -> (r: u128)
    ensures
        is_random_id(r),
{
    uuid::Uuid::new_v4().as_u128()
}

/// `uuid::Uuid`'s `Display` writes the hyphenated text.
#[verifier::external_body]
pub(crate) fn id_text(id: u128) -> (r: String)
    ensures
        r@ == hyphenated(id),
{
    uuid::Uuid::from_u128(id).to_string()
}

/// `uuid::Uuid::parse_str` reads a UUID in any of its text forms, or fails; the result
/// depends on the text alone. It reads the hyphenated text of a UUID as that UUID.
#[verifier::external_body]
pub(crate) fn parse_id(text: &str) -> (r: Option<u128>)
    ensures
        r == uuid_of(text@),
        forall|id: u128| text@ == #[trigger] hyphenated(id) ==> r == Some(id),
{
    uuid::Uuid::parse_str(text).ok().map(|u| u.as_u128())
}

/// A hexadecimal digit is told from every other by its character.
proof fn same_nibble(a: u128, b: u128)
    requires
        a < 16,
        b < 16,
    ensures
        hex_digit(a) == hex_digit(b) ==> a == b,
{
}

/// A masked part of a number is below sixteen.
proof fn nibble_bound(a: u128, s: u128)
    ensures
        (a >> s) & 0xf < 16,
{
    assert((a >> s) & 0xf < 16) by (bit_vector);
}

/// Different ids are written differently.
pub proof fn ids_told_apart(a: u128, b: u128)
    requires
        a != b,
    ensures
        hyphenated(a) != hyphenated(b),
{
    if hyphenated(a) == hyphenated(b) {
        same_text_same_id(a, b);
    }
}

/// Ids that are written the same are the same.
proof fn same_text_same_id(a: u128, b: u128)
    requires
        hyphenated(a) == hyphenated(b),
    ensures
        a == b,
{
    let x = hyphenated(a);
    let y = hyphenated(b);
    assert(x[0] == y[0]);
    assert(x[1] == y[1]);
    assert(x[2] == y[2]);
    assert(x[3] == y[3]);
    assert(x[4] == y[4]);
    assert(x[5] == y[5]);
    assert(x[6] == y[6]);
    assert(x[7] == y[7]);
    assert(x[9] == y[9]);
    assert(x[10] == y[10]);
    assert(x[11] == y[11]);
    assert(x[12] == y[12]);
    assert(x[14] == y[14]);
    assert(x[15] == y[15]);
    assert(x[16] == y[16]);
    assert(x[17] == y[17]);
    assert(x[19] == y[19]);
    assert(x[20] == y[20]);
    assert(x[21] == y[21]);
    assert(x[22] == y[22]);
    assert(x[24] == y[24]);
    assert(x[25] == y[25]);
    assert(x[26] == y[26]);
    assert(x[27] == y[27]);
    assert(x[28] == y[28]);
    assert(x[29] == y[29]);
    assert(x[30] == y[30]);
    assert(x[31] == y[31]);
    assert(x[32] == y[32]);
    assert(x[33] == y[33]);
    assert(x[34] == y[34]);
    assert(x[35] == y[35]);
    assert forall|s: u128| #[trigger] ((a >> s) & 0xf) < 16 by {
        nibble_bound(a, s);
    }
    assert forall|s: u128| #[trigger] ((b >> s) & 0xf) < 16 by {
        nibble_bound(b, s);
    }
    same_nibble((a >> 124u128) & 0xf, (b >> 124u128) & 0xf);
    same_nibble((a >> 120u128) & 0xf, (b >> 120u128) & 0xf);
    same_nibble((a >> 116u128) & 0xf, (b >> 116u128) & 0xf);
    same_nibble((a >> 112u128) & 0xf, (b >> 112u128) & 0xf);
    same_nibble((a >> 108u128) & 0xf, (b >> 108u128) & 0xf);
    same_nibble((a >> 104u128) & 0xf, (b >> 104u128) & 0xf);
    same_nibble((a >> 100u128) & 0xf, (b >> 100u128) & 0xf);
    same_nibble((a >> 96u128) & 0xf, (b >> 96u128) & 0xf);
    same_nibble((a >> 92u128) & 0xf, (b >> 92u128) & 0xf);
    same_nibble((a >> 88u128) & 0xf, (b >> 88u128) & 0xf);
    same_nibble((a >> 84u128) & 0xf, (b >> 84u128) & 0xf);
    same_nibble((a >> 80u128) & 0xf, (b >> 80u128) & 0xf);
    same_nibble((a >> 76u128) & 0xf, (b >> 76u128) & 0xf);
    same_nibble((a >> 72u128) & 0xf, (b >> 72u128) & 0xf);
    same_nibble((a >> 68u128) & 0xf, (b >> 68u128) & 0xf);
    same_nibble((a >> 64u128) & 0xf, (b >> 64u128) & 0xf);
    same_nibble((a >> 60u128) & 0xf, (b >> 60u128) & 0xf);
    same_nibble((a >> 56u128) & 0xf, (b >> 56u128) & 0xf);
    same_nibble((a >> 52u128) & 0xf, (b >> 52u128) & 0xf);
    same_nibble((a >> 48u128) & 0xf, (b >> 48u128) & 0xf);
    same_nibble((a >> 44u128) & 0xf, (b >> 44u128) & 0xf);
    same_nibble((a >> 40u128) & 0xf, (b >> 40u128) & 0xf);
    same_nibble((a >> 36u128) & 0xf, (b >> 36u128) & 0xf);
    same_nibble((a >> 32u128) & 0xf, (b >> 32u128) & 0xf);
    same_nibble((a >> 28u128) & 0xf, (b >> 28u128) & 0xf);
    same_nibble((a >> 24u128) & 0xf, (b >> 24u128) & 0xf);
    same_nibble((a >> 20u128) & 0xf, (b >> 20u128) & 0xf);
    same_nibble((a >> 16u128) & 0xf, (b >> 16u128) & 0xf);
    same_nibble((a >> 12u128) & 0xf, (b >> 12u128) & 0xf);
    same_nibble((a >> 8u128) & 0xf, (b >> 8u128) & 0xf);
    same_nibble((a >> 4u128) & 0xf, (b >> 4u128) & 0xf);
    same_nibble((a >> 0u128) & 0xf, (b >> 0u128) & 0xf);
    assert(a == b) by (bit_vector)
        requires
            (a >> 124u128) & 0xf == (b >> 124u128) & 0xf,
            (a >> 120u128) & 0xf == (b >> 120u128) & 0xf,
            (a >> 116u128) & 0xf == (b >> 116u128) & 0xf,
            (a >> 112u128) & 0xf == (b >> 112u128) & 0xf,
            (a >> 108u128) & 0xf == (b >> 108u128) & 0xf,
            (a >> 104u128) & 0xf == (b >> 104u128) & 0xf,
            (a >> 100u128) & 0xf == (b >> 100u128) & 0xf,
            (a >> 96u128) & 0xf == (b >> 96u128) & 0xf,
            (a >> 92u128) & 0xf == (b >> 92u128) & 0xf,
            (a >> 88u128) & 0xf == (b >> 88u128) & 0xf,
            (a >> 84u128) & 0xf == (b >> 84u128) & 0xf,
            (a >> 80u128) & 0xf == (b >> 80u128) & 0xf,
            (a >> 76u128) & 0xf == (b >> 76u128) & 0xf,
            (a >> 72u128) & 0xf == (b >> 72u128) & 0xf,
            (a >> 68u128) & 0xf == (b >> 68u128) & 0xf,
            (a >> 64u128) & 0xf == (b >> 64u128) & 0xf,
            (a >> 60u128) & 0xf == (b >> 60u128) & 0xf,
            (a >> 56u128) & 0xf == (b >> 56u128) & 0xf,
            (a >> 52u128) & 0xf == (b >> 52u128) & 0xf,
            (a >> 48u128) & 0xf == (b >> 48u128) & 0xf,
            (a >> 44u128) & 0xf == (b >> 44u128) & 0xf,
            (a >> 40u128) & 0xf == (b >> 40u128) & 0xf,
            (a >> 36u128) & 0xf == (b >> 36u128) & 0xf,
            (a >> 32u128) & 0xf == (b >> 32u128) & 0xf,
            (a >> 28u128) & 0xf == (b >> 28u128) & 0xf,
            (a >> 24u128) & 0xf == (b >> 24u128) & 0xf,
            (a >> 20u128) & 0xf == (b >> 20u128) & 0xf,
            (a >> 16u128) & 0xf == (b >> 16u128) & 0xf,
            (a >> 12u128) & 0xf == (b >> 12u128) & 0xf,
            (a >> 8u128) & 0xf == (b >> 8u128) & 0xf,
            (a >> 4u128) & 0xf == (b >> 4u128) & 0xf,
            (a >> 0u128) & 0xf == (b >> 0u128) & 0xf,
    ;
}

/// An id is written in 36 characters: hyphens at four places, lower-case hexadecimal digits at
/// the others.
pub proof fn ids_are_plain(id: u128)
    ensures
        hyphenated(id).len() == 36,
        forall|i: int|
            0 <= i < 36 ==> {
                let c = #[trigger] hyphenated(id)[i] as int;
                if i == 8 || i == 13 || i == 18 || i == 23 {
                    c == 45
                } else {
                    48 <= c <= 57 || 97 <= c <= 102
                }
            },
{
    assert forall|i: int| 0 <= i < 36 implies {
        let c = #[trigger] hyphenated(id)[i] as int;
        if i == 8 || i == 13 || i == 18 || i == 23 {
            c == 45
        } else {
            48 <= c <= 57 || 97 <= c <= 102
        }
    } by {
        nibble_bound(id, (4 * (31 - digit_at(i))) as u128);
    }
}

} // verus!
