//! Percent encoding under the two keep-sets the signing scheme uses, and
//! lower-case hexadecimal rendering of byte strings.
//!
//! Both encoders work on the UTF-8 bytes of their input: a multi-byte
//! character is encoded byte by byte. Encoding is total; no input fails.

use vstd::prelude::*;

verus! {

/// Bytes the strict encoder copies through unchanged: ASCII alphanumerics
/// and the four marks `* - . _`.
pub open spec fn strict_keep(b: u8) -> bool {
    ||| 0x30 <= b <= 0x39
    ||| 0x41 <= b <= 0x5a
    ||| 0x61 <= b <= 0x7a
    ||| b == 0x2a
    ||| b == 0x2d
    ||| b == 0x2e
    ||| b == 0x5f
}

/// Bytes the path encoder copies through unchanged: the strict keep-set plus
/// `/` and `~`, so that a multi-segment path stays recognizable as a path.
pub open spec fn path_keep(b: u8) -> bool {
    strict_keep(b) || b == 0x2f || b == 0x7e
}

/// The keep-set of either encoder, chosen by `slashes`.
pub open spec fn keep(b: u8, slashes: bool) -> bool {
    if slashes {
        path_keep(b)
    } else {
        strict_keep(b)
    }
}

/// Upper-case hexadecimal digit of a value below sixteen.
pub open spec fn upper_hex_digit(n: u8) -> u8
    recommends
        n < 16,
{
    if n < 10 {
        (0x30 + n) as u8
    } else {
        (0x41 + (n - 10)) as u8
    }
}

/// What an encoder emits for one input byte: the byte itself when kept,
/// otherwise a `%XX` triplet with upper-case hexadecimal digits.
pub open spec fn encoded_byte(b: u8, slashes: bool) -> Seq<u8> {
    if keep(b, slashes) {
        seq![b]
    } else {
        seq![0x25, upper_hex_digit(b / 16), upper_hex_digit(b % 16)]
    }
}

/// Percent encoding of a whole byte sequence, byte by byte.
pub open spec fn percent_encoded(s: Seq<u8>, slashes: bool) -> Seq<u8>
    decreases s.len(),
{
    if s.len() == 0 {
        Seq::empty()
    } else {
        percent_encoded(s.drop_last(), slashes) + encoded_byte(s.last(), slashes)
    }
}

/// Strict encoding: used for bucket and object names inside request URLs and
/// for the credential in the canonical query string.
pub open spec fn strict_encoded(s: Seq<u8>) -> Seq<u8> {
    percent_encoded(s, false)
}

/// Path encoding: used for the resource path of a signed URL; slashes stay.
pub open spec fn path_encoded(s: Seq<u8>) -> Seq<u8> {
    percent_encoded(s, true)
}

fn keep_byte(b: u8, slashes: bool) -> (r: bool)
    ensures
        r == keep(b, slashes),
{
    let base = (0x30 <= b && b <= 0x39) || (0x41 <= b && b <= 0x5a) || (0x61 <= b && b <= 0x7a)
        || b == 0x2a || b == 0x2d || b == 0x2e || b == 0x5f;
    base || (slashes && (b == 0x2f || b == 0x7e))
}

fn upper_hex(n: u8) -> (r: u8)
    requires
        n < 16,
    ensures
        r == upper_hex_digit(n),
{
    if n < 10 {
        0x30 + n
    } else {
        0x41 + (n - 10)
    }
}

fn percent_encode_with(input: &[u8], slashes: bool) -> (r: Vec<u8>)
    ensures
        r@ == percent_encoded(input@, slashes),
{
    let mut out: Vec<u8> = Vec::new();
    let mut i: usize = 0;
    while i < input.len()
        invariant
            i <= input@.len(),
            out@ == percent_encoded(input@.take(i as int), slashes),
        decreases input@.len() - i,
    {
        let b = input[i];
        proof {
            assert(input@.take(i as int + 1).drop_last() =~= input@.take(i as int));
            assert(input@.take(i as int + 1).last() == input@[i as int]);
        }
        if keep_byte(b, slashes) {
            out.push(b);
        } else {
            out.push(0x25);
            out.push(upper_hex(b / 16));
            out.push(upper_hex(b % 16));
        }
        proof {
            assert(out@ =~= percent_encoded(input@.take(i as int + 1), slashes));
        }
        i += 1;
    }
    proof {
        assert(input@.take(input@.len() as int) =~= input@);
    }
    out
}

/// Strict percent-encoder: keeps alphanumerics and `* - . _`, escapes
/// everything else, slashes included. Total: every input encodes.
pub fn percent_encode(input: &[u8]) -> (r: Vec<u8>)
    ensures
        r@ == strict_encoded(input@),
{
    percent_encode_with(input, false)
}

/// Path percent-encoder: like the strict one but `/` and `~` survive, so a
/// path keeps its segment structure. Total: every input encodes.
pub fn percent_encode_noslash(input: &[u8]) -> (r: Vec<u8>)
    ensures
        r@ == path_encoded(input@),
{
    percent_encode_with(input, true)
}

/// Lower-case hexadecimal digit of a value below sixteen.
pub open spec fn lower_hex_digit(n: u8) -> u8
    recommends
        n < 16,
{
    if n < 10 {
        (0x30 + n) as u8
    } else {
        (0x61 + (n - 10)) as u8
    }
}

/// Lower-case hexadecimal rendering of a byte string: two digits per byte,
/// in order.
pub open spec fn hex_encoded(s: Seq<u8>) -> Seq<u8>
    decreases s.len(),
{
    if s.len() == 0 {
        Seq::empty()
    } else {
        hex_encoded(s.drop_last()) + seq![
            lower_hex_digit(s.last() / 16),
            lower_hex_digit(s.last() % 16),
        ]
    }
}

fn lower_hex(n: u8) -> (r: u8)
    requires
        n < 16,
    ensures
        r == lower_hex_digit(n),
{
    if n < 10 {
        0x30 + n
    } else {
        0x61 + (n - 10)
    }
}

/// Renders a byte string as lower-case hexadecimal, two digits per byte.
pub fn hex_encode(input: &[u8]) -> (r: Vec<u8>)
    ensures
        r@ == hex_encoded(input@),
{
    let mut out: Vec<u8> = Vec::new();
    let mut i: usize = 0;
    while i < input.len()
        invariant
            i <= input@.len(),
            out@ == hex_encoded(input@.take(i as int)),
        decreases input@.len() - i,
    {
        let b = input[i];
        proof {
            assert(input@.take(i as int + 1).drop_last() =~= input@.take(i as int));
            assert(input@.take(i as int + 1).last() == input@[i as int]);
        }
        out.push(lower_hex(b / 16));
        out.push(lower_hex(b % 16));
        proof {
            assert(out@ =~= hex_encoded(input@.take(i as int + 1)));
        }
        i += 1;
    }
    proof {
        assert(input@.take(input@.len() as int) =~= input@);
    }
    out
}

/// Safety of the output alphabet: every byte an encoder emits is either a
/// kept byte or the `%` marker (the hexadecimal digits of a triplet are
/// alphanumeric, hence themselves kept bytes).
pub proof fn lemma_percent_encoded_charset(s: Seq<u8>, slashes: bool)
    ensures
        forall|i: int|
            0 <= i < percent_encoded(s, slashes).len() ==> keep(
                #[trigger] percent_encoded(s, slashes)[i],
                slashes,
            ) || percent_encoded(s, slashes)[i] == 0x25,
    decreases s.len(),
{
    if s.len() == 0 {
    } else {
        lemma_percent_encoded_charset(s.drop_last(), slashes);
        let pre = percent_encoded(s.drop_last(), slashes);
        let enc = encoded_byte(s.last(), slashes);
        assert forall|i: int| 0 <= i < percent_encoded(s, slashes).len() implies keep(
            #[trigger] percent_encoded(s, slashes)[i],
            slashes,
        ) || percent_encoded(s, slashes)[i] == 0x25 by {
            if i < pre.len() {
                assert(percent_encoded(s, slashes)[i] == pre[i]);
            } else {
                assert(percent_encoded(s, slashes)[i] == enc[i - pre.len()]);
            }
        }
    }
}

/// The strict encoder lets no slash through: every `/` of the input is
/// escaped, and none appears in the output.
pub proof fn lemma_strict_encoded_no_slash(s: Seq<u8>)
    ensures
        forall|i: int| 0 <= i < strict_encoded(s).len() ==> #[trigger] strict_encoded(s)[i]
            != 0x2f,
{
    lemma_percent_encoded_charset(s, false);
}

/// Encoder output is pure ASCII.
pub proof fn lemma_percent_encoded_ascii(s: Seq<u8>, slashes: bool)
    ensures
        forall|i: int| 0 <= i < percent_encoded(s, slashes).len() ==> #[trigger] percent_encoded(
            s,
            slashes,
        )[i] < 0x80,
{
    lemma_percent_encoded_charset(s, slashes);
}

/// Number of `/` bytes in a sequence.
pub open spec fn slash_count(s: Seq<u8>) -> nat
    decreases s.len(),
{
    if s.len() == 0 {
        0nat
    } else {
        slash_count(s.drop_last()) + (if s.last() == 0x2f {
            1nat
        } else {
            0nat
        })
    }
}

/// Slash counting distributes over concatenation.
pub proof fn lemma_slash_count_add(a: Seq<u8>, b: Seq<u8>)
    ensures
        slash_count(a + b) == slash_count(a) + slash_count(b),
    decreases b.len(),
{
    if b.len() == 0 {
        assert(a + b =~= a);
    } else {
        lemma_slash_count_add(a, b.drop_last());
        assert((a + b).drop_last() =~= a + b.drop_last());
        assert((a + b).last() == b.last());
    }
}

/// The path encoder preserves every slash unescaped: its output holds
/// exactly as many `/` bytes as the input, while all other escapable bytes
/// are replaced by slash-free triplets.
pub proof fn lemma_path_encoded_preserves_slashes(s: Seq<u8>)
    ensures
        slash_count(path_encoded(s)) == slash_count(s),
    decreases s.len(),
{
    if s.len() == 0 {
    } else {
        reveal_with_fuel(slash_count, 4);
        lemma_path_encoded_preserves_slashes(s.drop_last());
        let b = s.last();
        let enc = encoded_byte(b, true);
        lemma_slash_count_add(percent_encoded(s.drop_last(), true), enc);
        if keep(b, true) {
            assert(enc =~= seq![b]);
            assert(seq![b].drop_last() =~= Seq::<u8>::empty());
            assert(slash_count(enc) == (if b == 0x2f {
                1nat
            } else {
                0nat
            }));
        } else {
            assert(b != 0x2f);
            let d1 = upper_hex_digit(b / 16);
            let d2 = upper_hex_digit(b % 16);
            assert(enc =~= seq![0x25, d1, d2]);
            assert(d1 != 0x2f && d2 != 0x2f);
            assert(enc.drop_last() =~= seq![0x25, d1]);
            assert(enc.drop_last().drop_last() =~= seq![0x25]);
            assert(seq![0x25].drop_last() =~= Seq::<u8>::empty());
            assert(slash_count(enc) == 0nat);
        }
    }
}

/// Hexadecimal rendering yields two digits for each input byte.
pub proof fn lemma_hex_encoded_len(s: Seq<u8>)
    ensures
        hex_encoded(s).len() == 2 * s.len(),
    decreases s.len(),
{
    if s.len() == 0 {
    } else {
        lemma_hex_encoded_len(s.drop_last());
    }
}

/// Hexadecimal rendering is pure ASCII.
pub proof fn lemma_hex_encoded_ascii(s: Seq<u8>)
    ensures
        forall|i: int| 0 <= i < hex_encoded(s).len() ==> #[trigger] hex_encoded(s)[i] < 0x80,
    decreases s.len(),
{
    if s.len() == 0 {
    } else {
        lemma_hex_encoded_ascii(s.drop_last());
        let pre = hex_encoded(s.drop_last());
        assert forall|i: int| 0 <= i < hex_encoded(s).len() implies #[trigger] hex_encoded(s)[i]
            < 0x80 by {
            if i < pre.len() {
                assert(hex_encoded(s)[i] == pre[i]);
            }
        }
    }
}

} // verus!
