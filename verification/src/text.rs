//! Small verified text utilities: substring search, decimal rendering,
//! ASCII case folding.  The rest of the library states its contracts over
//! the spec functions defined here.

use vstd::prelude::*;

verus! {

// ---------------------------------------------------------------------------
// Substring search
// ---------------------------------------------------------------------------

/// The needle `n` occurs in `h` starting at position `i`.
pub open spec fn matches_at<A>(h: Seq<A>, n: Seq<A>, i: int) -> bool {
    0 <= i && i + n.len() <= h.len() && h.subrange(i, i + n.len() as int) == n
}

/// The needle `n` occurs somewhere in `h`.
pub open spec fn contains_seq<A>(h: Seq<A>, n: Seq<A>) -> bool {
    exists|i: int| matches_at(h, n, i)
}

/// Compare the needle against one position of the haystack.
fn str_matches_at(h: &str, n: &str, i: usize, h_len: usize, n_len: usize) -> (r: bool)
    requires
        h_len == h@.len(),
        n_len == n@.len(),
        i + n_len <= h_len,
    ensures
        r == matches_at(h@, n@, i as int),
{
    let mut j: usize = 0;
    while j < n_len
        invariant
            j <= n_len,
            h_len == h@.len(),
            n_len == n@.len(),
            i + n_len <= h_len,
            forall|k: int| 0 <= k < j ==> h@[i + k] == n@[k],
        decreases n_len - j,
    {
        if h.get_char(i + j) != n.get_char(j) {
            assert(h@.subrange(i as int, i + n@.len() as int)[j as int] != n@[j as int]);
            return false;
        }
        j += 1;
    }
    assert(h@.subrange(i as int, i + n@.len() as int) =~= n@);
    true
}

/// Whether the string `h` contains the string `n`.
pub fn str_contains(h: &str, n: &str) -> (r: bool)
    ensures
        r == contains_seq(h@, n@),
{
    let h_len = h.unicode_len();
    let n_len = n.unicode_len();
    if n_len > h_len {
        assert(forall|i: int| !matches_at(h@, n@, i));
        return false;
    }
    if n_len == 0 {
        assert(h@.subrange(0, 0) =~= n@);
        assert(matches_at(h@, n@, 0));
        return true;
    }
    let mut i: usize = 0;
    while i <= h_len - n_len
        invariant
            h_len == h@.len(),
            n_len == n@.len(),
            0 < n_len <= h_len,
            i <= h_len - n_len + 1,
            forall|k: int| 0 <= k < i ==> !matches_at(h@, n@, k),
        decreases h_len - n_len - i + 1,
    {
        if str_matches_at(h, n, i, h_len, n_len) {
            return true;
        }
        i += 1;
    }
    assert(forall|k: int| matches_at(h@, n@, k) ==> 0 <= k <= h@.len() - n@.len());
    false
}

/// Whether two strings hold the same characters.
pub fn str_eq(a: &str, b: &str) -> (r: bool)
    ensures
        r == (a@ == b@),
{
    let a_len = a.unicode_len();
    let b_len = b.unicode_len();
    if a_len != b_len {
        return false;
    }
    if str_matches_at(a, b, 0, a_len, b_len) {
        assert(a@.subrange(0, b@.len() as int) =~= a@);
        true
    } else {
        assert(a@ == b@ ==> a@.subrange(0, b@.len() as int) == b@);
        false
    }
}

/// Whether the string `h` starts with the string `n`.
pub fn str_starts_with(h: &str, n: &str) -> (r: bool)
    ensures
        r == (n@.len() <= h@.len() && h@.subrange(0, n@.len() as int) == n@),
{
    let h_len = h.unicode_len();
    let n_len = n.unicode_len();
    if n_len > h_len {
        return false;
    }
    str_matches_at(h, n, 0, h_len, n_len)
}

/// Compare the byte needle against one position of the byte haystack.
fn bytes_match_at(h: &[u8], n: &[u8], i: usize) -> (r: bool)
    requires
        i + n@.len() <= h@.len(),
    ensures
        r == matches_at(h@, n@, i as int),
{
    let h_len = h.len();
    let n_len = n.len();
    let mut j: usize = 0;
    while j < n_len
        invariant
            j <= n_len,
            h_len == h@.len(),
            n_len == n@.len(),
            i + n_len <= h_len,
            forall|k: int| 0 <= k < j ==> h@[i + k] == n@[k],
        decreases n_len - j,
    {
        if h[i + j] != n[j] {
            assert(h@.subrange(i as int, i + n@.len() as int)[j as int] != n@[j as int]);
            return false;
        }
        j += 1;
    }
    assert(h@.subrange(i as int, i + n@.len() as int) =~= n@);
    true
}

/// Whether the bytes `h` contain the byte sequence `n`.
pub fn bytes_contain(h: &[u8], n: &[u8]) -> (r: bool)
    ensures
        r == contains_seq(h@, n@),
{
    let h_len = h.len();
    let n_len = n.len();
    if n_len > h_len {
        assert(forall|i: int| !matches_at(h@, n@, i));
        return false;
    }
    if n_len == 0 {
        assert(h@.subrange(0, 0) =~= n@);
        assert(matches_at(h@, n@, 0));
        return true;
    }
    let mut i: usize = 0;
    while i <= h_len - n_len
        invariant
            h_len == h@.len(),
            n_len == n@.len(),
            0 < n_len <= h_len,
            i <= h_len - n_len + 1,
            forall|k: int| 0 <= k < i ==> !matches_at(h@, n@, k),
        decreases h_len - n_len - i + 1,
    {
        if bytes_match_at(h, n, i) {
            return true;
        }
        i += 1;
    }
    assert(forall|k: int| matches_at(h@, n@, k) ==> 0 <= k <= h@.len() - n@.len());
    false
}

/// Whether two strings are equal after ASCII lower-casing.
pub fn eq_lowered(a: &str, b: &str) -> (r: bool)
    ensures
        r == (lower_chars(a@) == lower_chars(b@)),
{
    let a_len = a.unicode_len();
    let b_len = b.unicode_len();
    if a_len != b_len {
        proof {
            assert(lower_chars(a@).len() != lower_chars(b@).len());
        }
        return false;
    }
    let mut i: usize = 0;
    while i < a_len
        invariant
            i <= a_len,
            a_len == a@.len(),
            b_len == b@.len(),
            a_len == b_len,
            forall|k: int| 0 <= k < i ==> lower_char(a@[k]) == lower_char(b@[k]),
        decreases a_len - i,
    {
        let ca = a.get_char(i);
        let cb = b.get_char(i);
        let la: u32 = if 'A' <= ca && ca <= 'Z' {
            (ca as u32) + 32
        } else {
            ca as u32
        };
        let lb: u32 = if 'A' <= cb && cb <= 'Z' {
            (cb as u32) + 32
        } else {
            cb as u32
        };
        proof {
            lemma_lower_char_code(a@[i as int]);
            lemma_lower_char_code(b@[i as int]);
        }
        if la != lb {
            proof {
                assert(lower_chars(a@)[i as int] != lower_chars(b@)[i as int]);
            }
            return false;
        }
        i += 1;
    }
    proof {
        assert(lower_chars(a@) =~= lower_chars(b@));
    }
    true
}

/// The code point of a lower-cased character, from the character's own.
proof fn lemma_lower_char_code(c: char)
    ensures
        'A' <= c && c <= 'Z' ==> lower_char(c) as u32 == c as u32 + 32,
        !('A' <= c && c <= 'Z') ==> lower_char(c) == c,
{
}

/// The decimal digits of `n` in base 16, most significant first, as ASCII
/// bytes, lower case and without leading zeroes.
pub open spec fn hex_bytes(n: nat) -> Seq<u8>
    decreases n,
{
    if n < 16 {
        seq![hex_byte_of(n)]
    } else {
        hex_bytes(n / 16).push(hex_byte_of(n % 16))
    }
}

/// The ASCII byte of one hex digit.
pub open spec fn hex_byte_of(d: nat) -> u8 {
    (if d % 16 < 10 {
        48 + d % 16
    } else {
        87 + d % 16
    }) as u8
}

/// The hex digits of `n` as characters.
pub open spec fn hex_chars(n: nat) -> Seq<char> {
    hex_bytes(n).map(|_i: int, b: u8| b as char)
}

proof fn lemma_hex_bytes_ascii(n: nat)
    ensures
        forall|i: int| 0 <= i < hex_bytes(n).len() ==> hex_bytes(n)[i] < 128,
    decreases n,
{
    if n >= 16 {
        lemma_hex_bytes_ascii(n / 16);
        assert forall|i: int| 0 <= i < hex_bytes(n).len() implies hex_bytes(n)[i] < 128 by {
            if i < hex_bytes(n / 16).len() {
                assert(hex_bytes(n)[i] == hex_bytes(n / 16)[i]);
            }
        };
    }
}

/// Render `n` in lower-case hex, as `{:x}` formatting would.
pub fn u64_to_hex_string(n: u64) -> (r: String)
    ensures
        r@ == hex_chars(n as nat),
{
    let mut rev: Vec<u8> = Vec::new();
    let mut cur: u64 = n;
    loop
        invariant_except_break
            hex_bytes(n as nat) =~= hex_bytes(cur as nat) + rev@.reverse(),
        invariant
            forall|i: int| 0 <= i < rev@.len() ==> rev@[i] < 128,
        ensures
            hex_bytes(n as nat) =~= rev@.reverse(),
        decreases cur,
    {
        let dv: u64 = cur % 16;
        let d: u8 = if dv < 10 {
            48 + (dv as u8)
        } else {
            87 + (dv as u8)
        };
        let next = cur / 16;
        proof {
            assert(d == hex_byte_of((cur % 16) as nat));
            if next > 0 {
                assert(hex_bytes(cur as nat) == hex_bytes((cur / 16) as nat).push(hex_byte_of(
                    (cur % 16) as nat,
                )));
                assert(hex_bytes(next as nat) + rev@.push(d).reverse() =~= hex_bytes(
                    next as nat,
                ).push(hex_byte_of((cur % 16) as nat)) + rev@.reverse());
            } else {
                assert(hex_bytes(cur as nat) =~= seq![hex_byte_of((cur % 16) as nat)]);
                assert(rev@.push(d).reverse() =~= seq![hex_byte_of((cur % 16) as nat)]
                    + rev@.reverse());
            }
        }
        rev.push(d);
        if next == 0 {
            break;
        }
        cur = next;
    }
    let mut out: Vec<u8> = Vec::new();
    let total = rev.len();
    let mut i: usize = 0;
    while i < total
        invariant
            i <= total,
            total == rev@.len(),
            out@ =~= rev@.reverse().subrange(0, i as int),
            forall|k: int| 0 <= k < rev@.len() ==> rev@[k] < 128,
        decreases total - i,
    {
        let b = rev[total - 1 - i];
        assert(rev@.reverse()[i as int] == rev@[total - 1 - i]);
        out.push(b);
        assert(out@ =~= rev@.reverse().subrange(0, i + 1));
        i += 1;
    }
    assert(out@ =~= rev@.reverse());
    proof {
        lemma_hex_bytes_ascii(n as nat);
    }
    let s = string_from_ascii(out);
    assert(s@ =~= hex_chars(n as nat));
    s
}

/// Append a byte slice to a byte vector.
pub fn push_bytes(out: &mut Vec<u8>, piece: &[u8])
    ensures
        final(out)@ == old(out)@ + piece@,
{
    let n = piece.len();
    let mut j: usize = 0;
    while j < n
        invariant
            j <= n,
            n == piece@.len(),
            out@ == old(out)@ + piece@.subrange(0, j as int),
        decreases n - j,
    {
        let b = piece[j];
        out.push(b);
        assert(out@ =~= old(out)@ + piece@.subrange(0, j + 1));
        j += 1;
    }
    assert(piece@.subrange(0, n as int) =~= piece@);
}

// ---------------------------------------------------------------------------
// ASCII strings
// ---------------------------------------------------------------------------

/// Relies on `String::from_utf8`: a vector of ASCII bytes decodes to the
/// string of exactly those characters.
#[verifier::external_body]
pub fn string_from_ascii(v: Vec<u8>) -> (s: String)
    requires
        forall|i: int| 0 <= i < v@.len() ==> v@[i] < 128,
    ensures
        s@ == v@.map(|_i: int, b: u8| b as char),
{
    String::from_utf8(v).unwrap_or_default()
}

/// ASCII lower-casing of one character; other characters are unchanged.
pub open spec fn lower_char(c: char) -> char {
    if 'A' <= c && c <= 'Z' {
        ((c as u8) + 32) as char
    } else {
        c
    }
}

/// ASCII lower-casing of a whole sequence.
pub open spec fn lower_chars(s: Seq<char>) -> Seq<char> {
    s.map(|_i: int, c: char| lower_char(c))
}

// ---------------------------------------------------------------------------
// Decimal rendering
// ---------------------------------------------------------------------------

/// The ASCII byte of one decimal digit.
pub open spec fn digit_byte(d: nat) -> u8 {
    (48 + (d % 10)) as u8
}

/// The decimal digits of `n`, most significant first, as ASCII bytes.
pub open spec fn dec_bytes(n: nat) -> Seq<u8>
    decreases n,
{
    if n < 10 {
        seq![digit_byte(n)]
    } else {
        dec_bytes(n / 10).push(digit_byte(n % 10))
    }
}

/// The decimal digits of `n` as characters.
pub open spec fn dec_chars(n: nat) -> Seq<char> {
    dec_bytes(n).map(|_i: int, b: u8| b as char)
}

proof fn lemma_dec_bytes_ascii(n: nat)
    ensures
        forall|i: int| 0 <= i < dec_bytes(n).len() ==> dec_bytes(n)[i] < 128,
    decreases n,
{
    if n >= 10 {
        lemma_dec_bytes_ascii(n / 10);
        assert forall|i: int| 0 <= i < dec_bytes(n).len() implies dec_bytes(n)[i] < 128 by {
            if i < dec_bytes(n / 10).len() {
                assert(dec_bytes(n)[i] == dec_bytes(n / 10)[i]);
            }
        };
    }
}

/// Render `n` in decimal.
pub fn u64_to_string(n: u64) -> (r: String)
    ensures
        r@ == dec_chars(n as nat),
{
    let mut rev: Vec<u8> = Vec::new();
    let mut cur: u64 = n;
    loop
        invariant_except_break
            dec_bytes(n as nat) =~= dec_bytes(cur as nat) + rev@.reverse(),
        invariant
            forall|i: int| 0 <= i < rev@.len() ==> rev@[i] < 128,
        ensures
            dec_bytes(n as nat) =~= rev@.reverse(),
        decreases cur,
    {
        let d: u8 = (cur % 10) as u8;
        let next = cur / 10;
        proof {
            if next > 0 {
                assert(dec_bytes(cur as nat) == dec_bytes((cur / 10) as nat).push(digit_byte(
                    (cur % 10) as nat,
                )));
                assert(dec_bytes(next as nat) + rev@.push((48 + d) as u8).reverse() =~= dec_bytes(
                    next as nat,
                ).push(digit_byte((cur % 10) as nat)) + rev@.reverse());
            } else {
                assert(dec_bytes(cur as nat) =~= seq![digit_byte((cur % 10) as nat)]);
                assert(rev@.push((48 + d) as u8).reverse() =~= seq![digit_byte((cur % 10) as nat)]
                    + rev@.reverse());
            }
        }
        rev.push(48 + d);
        if next == 0 {
            break;
        }
        cur = next;
    }
    // Reverse the collected digits.
    let mut out: Vec<u8> = Vec::new();
    let total = rev.len();
    let mut i: usize = 0;
    while i < total
        invariant
            i <= total,
            total == rev@.len(),
            out@ =~= rev@.reverse().subrange(0, i as int),
            forall|k: int| 0 <= k < rev@.len() ==> rev@[k] < 128,
        decreases total - i,
    {
        let b = rev[total - 1 - i];
        assert(rev@.reverse()[i as int] == rev@[total - 1 - i]);
        out.push(b);
        assert(out@ =~= rev@.reverse().subrange(0, i + 1));
        i += 1;
    }
    assert(out@ =~= rev@.reverse());
    proof {
        lemma_dec_bytes_ascii(n as nat);
    }
    let s = string_from_ascii(out);
    assert(s@ =~= dec_chars(n as nat));
    s
}

} // verus!
