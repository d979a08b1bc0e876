//! Verified rendering of JSON strings.  The output envelopes of the tool are
//! built from these pieces, so what reaches stdout is a valid JSON document
//! by construction.

use vstd::prelude::*;

verus! {

/// The character for one hex digit (lower case).
pub open spec fn hex_digit(d: nat) -> char {
    ((if d % 16 < 10 {
        48 + d % 16
    } else {
        87 + d % 16
    }) as u8) as char
}

/// The escape of one character inside a JSON string literal.
pub open spec fn esc_char(c: char) -> Seq<char> {
    if c == '"' {
        seq!['\\', '"']
    } else if c == '\\' {
        seq!['\\', '\\']
    } else if c == '\n' {
        seq!['\\', 'n']
    } else if c == '\r' {
        seq!['\\', 'r']
    } else if c == '\t' {
        seq!['\\', 't']
    } else if (c as u32) < 32 {
        seq!['\\', 'u', '0', '0', hex_digit((c as u32 / 16) as nat), hex_digit(
            (c as u32 % 16) as nat,
        )]
    } else {
        seq![c]
    }
}

/// The body of a JSON string literal for the text `s`.
pub open spec fn json_escaped(s: Seq<char>) -> Seq<char>
    decreases s.len(),
{
    if s.len() == 0 {
        s
    } else {
        esc_char(s[0]) + json_escaped(s.skip(1))
    }
}

/// A complete JSON string literal for the text `s`, quotes included.
pub open spec fn json_quoted(s: Seq<char>) -> Seq<char> {
    seq!['"'] + json_escaped(s) + seq!['"']
}

/// Append `\u00XX` for a control character value `v`.
fn push_control_escape(out: &mut String, v: u32)
    requires
        v < 32,
    ensures
        final(out)@ == old(out)@ + seq!['\\', 'u', '0', '0', hex_digit((v / 16) as nat), hex_digit(
            (v % 16) as nat,
        )],
{
    let hi = (v / 16) as u8;
    let lo = (v % 16) as u8;
    let hib: u8 = if hi < 10 {
        48 + hi
    } else {
        87 + hi
    };
    let lob: u8 = if lo < 10 {
        48 + lo
    } else {
        87 + lo
    };
    let piece = crate::text::string_from_ascii(vec![92u8, 117u8, 48u8, 48u8, hib, lob]);
    assert(piece@ =~= seq!['\\', 'u', '0', '0', hex_digit((v / 16) as nat), hex_digit(
        (v % 16) as nat,
    )]) by {
        assert(piece@.len() == 6);
        assert(piece@[0] == (92u8 as char) && (92u8 as char) == '\\');
        assert(piece@[1] == (117u8 as char) && (117u8 as char) == 'u');
        assert(piece@[2] == (48u8 as char) && (48u8 as char) == '0');
        assert(piece@[3] == (48u8 as char) && (48u8 as char) == '0');
        assert(piece@[4] == (hib as char));
        assert(piece@[5] == (lob as char));
    };
    out.append(piece.as_str());
}

/// Append the escaped form of the text `s` to `out`.
fn append_escaped(out: &mut String, s: &str)
    ensures
        final(out)@ == old(out)@ + json_escaped(s@),
{
    proof {
        reveal_strlit("\\\"");
        reveal_strlit("\\\\");
        reveal_strlit("\\n");
        reveal_strlit("\\r");
        reveal_strlit("\\t");
    }
    let len = s.unicode_len();
    let mut i: usize = 0;
    proof {
        assert(s@.skip(0) =~= s@);
        assert(old(out)@ + json_escaped(s@.skip(0)) == old(out)@ + json_escaped(s@));
    }
    while i < len
        invariant
            i <= len,
            len == s@.len(),
            out@ + json_escaped(s@.skip(i as int)) == old(out)@ + json_escaped(s@),
            "\\\""@ =~= seq!['\\', '"'],
            "\\\\"@ =~= seq!['\\', '\\'],
            "\\n"@ =~= seq!['\\', 'n'],
            "\\r"@ =~= seq!['\\', 'r'],
            "\\t"@ =~= seq!['\\', 't'],
        decreases len - i,
    {
        let ghost tail = s@.skip(i as int);
        proof {
            assert(tail.len() > 0);
            assert(tail[0] == s@[i as int]);
            assert(json_escaped(tail) == esc_char(tail[0]) + json_escaped(tail.skip(1)));
            assert(tail.skip(1) =~= s@.skip(i + 1));
        }
        let c = s.get_char(i);
        if c == '"' {
            out.append("\\\"");
        } else if c == '\\' {
            out.append("\\\\");
        } else if c == '\n' {
            out.append("\\n");
        } else if c == '\r' {
            out.append("\\r");
        } else if c == '\t' {
            out.append("\\t");
        } else if (c as u32) < 32 {
            push_control_escape(out, c as u32);
        } else {
            let piece = s.substring_char(i, i + 1);
            assert(piece@ =~= seq![s@[i as int]]);
            assert(esc_char(s@[i as int]) =~= seq![s@[i as int]]);
            out.append(piece);
        }
        i += 1;
    }
    proof {
        assert(s@.skip(len as int) =~= Seq::<char>::empty());
        assert(json_escaped(s@.skip(len as int)) =~= Seq::<char>::empty());
        assert(out@ =~= out@ + json_escaped(s@.skip(len as int)));
    }
}

/// The JSON string literal for the text `s`, quotes included.
pub fn json_quote(s: &str) -> (r: String)
    ensures
        r@ == json_quoted(s@),
{
    proof {
        reveal_strlit("\"");
    }
    let mut out = String::from_str("\"");
    assert(out@ =~= seq!['"']);
    append_escaped(&mut out, s);
    let r = out.concat("\"");
    assert(r@ =~= json_quoted(s@));
    r
}

// ---------------------------------------------------------------------------
// Escaping keeps the redaction guarantee
// ---------------------------------------------------------------------------

/// A character that passes through a JSON string body unchanged.
pub open spec fn clean_char(c: char) -> bool {
    esc_char(c) == seq![c]
}

/// A text in which the mask follows every occurrence of the credential
/// prefix.
pub open spec fn mask_follows_marker(t: Seq<char>) -> bool {
    forall|i: int|
        crate::text::matches_at(t, crate::error::redact_marker(), i) ==> i + 6 <= t.len()
            && t.subrange(i + 3, i + 6) == seq!['*', '*', '*']
}

/// What `esc_char` yields: a clean character stands alone; an escaped one
/// becomes a sequence that contains no character of the credential prefix.
proof fn lemma_esc_char_shape(c: char)
    ensures
        esc_char(c).len() >= 1,
        clean_char(c) ==> esc_char(c) == seq![c],
        !clean_char(c) ==> forall|j: int|
            0 <= j < esc_char(c).len() ==> esc_char(c)[j] != 's' && esc_char(c)[j] != 'k'
                && esc_char(c)[j] != '-',
{
    if c == '"' || c == '\\' || c == '\n' || c == '\r' || c == '\t' {
        assert(esc_char(c).len() == 2);
        assert(!clean_char(c)) by {
            assert(esc_char(c).len() != seq![c].len());
        };
    } else if (c as u32) < 32 {
        assert(esc_char(c).len() == 6);
        assert(!clean_char(c)) by {
            assert(esc_char(c).len() != seq![c].len());
        };
        let hi = hex_digit((c as u32 / 16) as nat);
        let lo = hex_digit((c as u32 % 16) as nat);
        assert(48 <= hi as u32 <= 57 || 97 <= hi as u32 <= 102);
        assert(48 <= lo as u32 <= 57 || 97 <= lo as u32 <= 102);
    } else {
        assert(esc_char(c) =~= seq![c]);
    }
}

/// The mask-following property carries to every suffix.
proof fn lemma_mask_follows_suffix(t: Seq<char>)
    requires
        mask_follows_marker(t),
        t.len() > 0,
    ensures
        mask_follows_marker(t.skip(1)),
{
    let m = crate::error::redact_marker();
    assert forall|i: int| crate::text::matches_at(t.skip(1), m, i) implies i + 6 <= t.skip(
        1,
    ).len() && t.skip(1).subrange(i + 3, i + 6) == seq!['*', '*', '*'] by {
        assert(t.subrange(i + 1, i + 4) =~= t.skip(1).subrange(i, i + 3));
        assert(crate::text::matches_at(t, m, i + 1));
        assert(t.skip(1).subrange(i + 3, i + 6) =~= t.subrange(i + 4, i + 7));
    };
}

/// The head of an escaped text is the head of its first escape.
proof fn lemma_escaped_head(u: Seq<char>)
    requires
        u.len() > 0,
    ensures
        json_escaped(u).len() >= 1,
        json_escaped(u)[0] == esc_char(u[0])[0],
{
    lemma_esc_char_shape(u[0]);
}

/// Escaping a prefix of clean characters keeps it in place, character for
/// character.
proof fn lemma_escape_clean_prefix(t: Seq<char>, k: int)
    requires
        0 <= k <= t.len(),
        forall|j: int| 0 <= j < k ==> clean_char(#[trigger] t[j]),
    ensures
        json_escaped(t) == t.subrange(0, k) + json_escaped(t.skip(k)),
    decreases k,
{
    if k == 0 {
        assert(t.skip(0) =~= t);
        assert(t.subrange(0, 0) + json_escaped(t.skip(0)) =~= json_escaped(t));
    } else {
        lemma_escape_clean_prefix(t.skip(1), k - 1);
        assert(t.skip(1).subrange(0, k - 1) =~= t.subrange(1, k));
        assert(t.skip(1).skip(k - 1) =~= t.skip(k));
        assert(clean_char(t[0]));
        assert(json_escaped(t) == esc_char(t[0]) + json_escaped(t.skip(1)));
        assert(json_escaped(t) =~= t.subrange(0, k) + json_escaped(t.skip(k)));
    }
}

/// Escaping keeps the redaction guarantee: wherever the credential prefix
/// occurs in the escaped body of a JSON string, the mask still follows it.
/// The envelope fields hold escaped redacted text, so what reaches stdout
/// in JSON mode keeps the masking of what was redacted.
pub proof fn lemma_escape_keeps_mask(t: Seq<char>)
    requires
        mask_follows_marker(t),
    ensures
        mask_follows_marker(json_escaped(t)),
    decreases t.len(),
{
    let m = crate::error::redact_marker();
    let out = json_escaped(t);
    if t.len() == 0 {
        assert(forall|i: int| !crate::text::matches_at(out, m, i));
        return ;
    }
    let e = esc_char(t[0]);
    let el = e.len();
    let rest = json_escaped(t.skip(1));
    lemma_esc_char_shape(t[0]);
    lemma_mask_follows_suffix(t);
    lemma_escape_keeps_mask(t.skip(1));
    assert(out == e + rest);
    assert forall|i: int| crate::text::matches_at(out, m, i) implies i + 6 <= out.len()
        && out.subrange(i + 3, i + 6) == seq!['*', '*', '*'] by {
        assert(out.subrange(i, i + 3)[0] == out[i]);
        assert(m[0] == 's' && m[1] == 'k' && m[2] == '-');
        if i >= el {
            assert(out.subrange(i, i + 3) =~= rest.subrange(i - el, i - el + 3));
            assert(crate::text::matches_at(rest, m, i - el));
            assert(out.subrange(i + 3, i + 6) =~= rest.subrange(i - el + 3, i - el + 6));
        } else if !clean_char(t[0]) {
            assert(out[i] == e[i]);
            assert(e[i] != 's');
            assert(false);
        } else {
            // A clean head: the occurrence starts at the head itself.
            assert(el == 1);
            assert(i == 0);
            assert(out[0] == t[0]);
            assert(out.subrange(0, 3)[1] == out[1]);
            assert(out.subrange(0, 3)[2] == out[2]);
            assert(out[0] == 's' && out[1] == 'k' && out[2] == '-');
            assert(t[0] == 's');
            assert(rest.len() >= 2);
            assert(t.skip(1).len() > 0) by {
                if t.skip(1).len() == 0 {
                    assert(rest.len() == 0);
                }
            };
            lemma_escaped_head(t.skip(1));
            assert(out[1] == rest[0]);
            assert(rest[0] == esc_char(t[1])[0]);
            lemma_esc_char_shape(t[1]);
            assert(clean_char(t[1]) && t[1] == 'k') by {
                if !clean_char(t[1]) {
                    assert(esc_char(t[1])[0] != 'k');
                    assert(false);
                }
            };
            assert(rest == esc_char(t[1]) + json_escaped(t.skip(1).skip(1)));
            assert(t.skip(1).skip(1) =~= t.skip(2));
            assert(rest[1] == json_escaped(t.skip(2))[0]) by {
                assert(esc_char(t[1]).len() == 1);
            };
            assert(out[2] == rest[1]);
            assert(t.skip(2).len() > 0) by {
                if t.skip(2).len() == 0 {
                    assert(json_escaped(t.skip(2)).len() == 0);
                    assert(rest.len() == 1);
                }
            };
            lemma_escaped_head(t.skip(2));
            lemma_esc_char_shape(t[2]);
            assert(clean_char(t[2]) && t[2] == '-') by {
                if !clean_char(t[2]) {
                    assert(esc_char(t[2])[0] != '-');
                    assert(false);
                }
            };
            assert(t.subrange(0, 3) =~= m);
            assert(crate::text::matches_at(t, m, 0));
            assert(t.len() >= 6 && t.subrange(3, 6) == seq!['*', '*', '*']);
            assert(t[3] == '*' && t[4] == '*' && t[5] == '*') by {
                assert(t.subrange(3, 6)[0] == t[3]);
                assert(t.subrange(3, 6)[1] == t[4]);
                assert(t.subrange(3, 6)[2] == t[5]);
            };
            assert forall|j: int| 0 <= j < 6 implies clean_char(#[trigger] t[j]) by {
                lemma_esc_char_shape(t[j]);
                if j >= 3 {
                    assert(t[j] == '*');
                }
                assert(esc_char(t[j]) =~= seq![t[j]]);
            };
            lemma_escape_clean_prefix(t, 6);
            assert(out.subrange(3, 6) =~= t.subrange(3, 6)) by {
                assert(out == t.subrange(0, 6) + json_escaped(t.skip(6)));
                assert(out.subrange(3, 6) =~= t.subrange(0, 6).subrange(3, 6));
                assert(t.subrange(0, 6).subrange(3, 6) =~= t.subrange(3, 6));
            };
            assert(out.len() >= 6);
        }
    };
}

} // verus!
