//! Lowercase hexadecimal rendering of byte strings.

use vstd::prelude::*;

verus! {

/// The lowercase hex digit for a value below sixteen.
pub open spec fn hex_digit(n: int) -> char {
    if n < 10 {
        (48 + n) as char
    } else {
        (87 + n) as char
    }
}

/// Two digits per byte, high nibble first.
pub open spec fn hex_of(bytes: Seq<u8>) -> Seq<char>
    decreases bytes.len(),
{
    if bytes.len() == 0 {
        Seq::empty()
    } else {
        hex_of(bytes.drop_last()).push(hex_digit(bytes.last() as int / 16)).push(
            hex_digit(bytes.last() as int % 16),
        )
    }
}

proof fn lemma_hex_of_len(bytes: Seq<u8>)
    ensures
        hex_of(bytes).len() == 2 * bytes.len(),
    decreases bytes.len(),
{
    if bytes.len() > 0 {
        lemma_hex_of_len(bytes.drop_last());
    }
}

proof fn lemma_hex_digit_injective(a: int, b: int)
    requires
        0 <= a < 16,
        0 <= b < 16,
        hex_digit(a) == hex_digit(b),
    ensures
        a == b,
{
    assert(hex_digit(a) as int == if a < 10 { 48 + a } else { 87 + a });
    assert(hex_digit(b) as int == if b < 10 { 48 + b } else { 87 + b });
}

/// Distinct byte strings have distinct hex renderings.
pub proof fn lemma_hex_of_injective(a: Seq<u8>, b: Seq<u8>)
    ensures
        hex_of(a) == hex_of(b) <==> a == b,
    decreases a.len(),
{
    if hex_of(a) == hex_of(b) {
        lemma_hex_of_len(a);
        lemma_hex_of_len(b);
        if a.len() > 0 {
            let ha = hex_of(a);
            let hb = hex_of(b);
            let n = ha.len() as int;
            assert(a.len() == b.len());
            assert(ha[n - 2] == hex_digit(a.last() as int / 16));
            assert(hb[n - 2] == hex_digit(b.last() as int / 16));
            assert(ha[n - 1] == hex_digit(a.last() as int % 16));
            assert(hb[n - 1] == hex_digit(b.last() as int % 16));
            lemma_hex_digit_injective(a.last() as int / 16, b.last() as int / 16);
            lemma_hex_digit_injective(a.last() as int % 16, b.last() as int % 16);
            assert(ha.drop_last().drop_last() =~= hex_of(a.drop_last()));
            assert(hb.drop_last().drop_last() =~= hex_of(b.drop_last()));
            lemma_hex_of_injective(a.drop_last(), b.drop_last());
            assert(a =~= a.drop_last().push(a.last()));
            assert(b =~= b.drop_last().push(b.last()));
        } else {
            assert(a =~= b);
        }
    }
}

/// Relies on String::push: appends one character to the string.
#[verifier::external_body]
fn push_char(s: &mut String, c: char)
    ensures
        final(s)@ == old(s)@.push(c),
{
    s.push(c)
}

fn digit(n: u8) -> (c: char)
    requires
        n < 16,
    ensures
        c == hex_digit(n as int),
{
    let table: [char; 16] = [
        '0', '1', '2', '3', '4', '5', '6', '7', '8', '9', 'a', 'b', 'c', 'd', 'e', 'f',
    ];
    table[n as usize]
}

/// Renders `bytes` as lowercase hexadecimal.
pub fn encode(bytes: &[u8]) -> (r: String)
    ensures
        r@ == hex_of(bytes@),
        r@.len() == 2 * bytes@.len(),
{
    let mut result = String::new();
    let mut i: usize = 0;
    while i < bytes.len()
        invariant
            i <= bytes@.len(),
            result@ == hex_of(bytes@.subrange(0, i as int)),
            result@.len() == 2 * i,
        decreases bytes@.len() - i,
    {
        let b = bytes[i];
        proof {
            let next = bytes@.subrange(0, i + 1);
            assert(next.drop_last() =~= bytes@.subrange(0, i as int));
            assert((b >> 4) == b / 16 && (b & 0x0f) == b % 16) by (bit_vector);
        }
        push_char(&mut result, digit(b >> 4));
        push_char(&mut result, digit(b & 0x0f));
        i = i + 1;
    }
    assert(bytes@.subrange(0, bytes@.len() as int) =~= bytes@);
    result
}

} // verus!
