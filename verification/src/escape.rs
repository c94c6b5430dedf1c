//! Escaping of protocol-reserved characters.
//!
//! The wire format reserves `?`, `+`, `:` and `@`.  Free-text data elements
//! must prefix each literal occurrence of a reserved character with `?`;
//! unescaping removes exactly one such prefix per occurrence.

use vstd::prelude::*;

verus! {

use vstd::string::{StrSliceExecFns, StringExecFns};

/// The four characters the wire format reserves for its own use.
pub open spec fn is_reserved(c: char) -> bool {
    c == '?' || c == '+' || c == ':' || c == '@'
}

/// The escaped form of a single character: reserved characters gain a `?`
/// prefix, all others pass through unchanged.
pub open spec fn escape_char(c: char) -> Seq<char> {
    if is_reserved(c) {
        seq!['?', c]
    } else {
        seq![c]
    }
}

/// The escaped form of a whole text.
pub open spec fn escape_text(s: Seq<char>) -> Seq<char>
    decreases s.len(),
{
    if s.len() == 0 {
        Seq::empty()
    } else {
        escape_char(s[0]) + escape_text(s.drop_first())
    }
}

/// The unescaped form of a text: each `?` immediately followed by a reserved
/// character is dropped and the reserved character kept; everything else
/// passes through unchanged.
pub open spec fn unescape_text(s: Seq<char>) -> Seq<char>
    decreases s.len(),
{
    if s.len() == 0 {
        Seq::empty()
    } else if s[0] == '?' && s.len() >= 2 && is_reserved(s[1]) {
        seq![s[1]] + unescape_text(s.skip(2))
    } else {
        seq![s[0]] + unescape_text(s.drop_first())
    }
}

/// A text is well escaped when every reserved character in it is consumed as
/// the second half of a `?c` pair: no reserved character stands on its own.
pub open spec fn well_escaped(s: Seq<char>) -> bool
    decreases s.len(),
{
    if s.len() == 0 {
        true
    } else if s[0] == '?' {
        s.len() >= 2 && is_reserved(s[1]) && well_escaped(s.skip(2))
    } else if is_reserved(s[0]) {
        false
    } else {
        well_escaped(s.drop_first())
    }
}

/// Escaping distributes over concatenation.
pub proof fn lemma_escape_concat(a: Seq<char>, b: Seq<char>)
    ensures
        escape_text(a + b) == escape_text(a) + escape_text(b),
    decreases a.len(),
{
    if a.len() == 0 {
        assert(a + b =~= b);
        assert(escape_text(a) + escape_text(b) =~= escape_text(b));
    } else {
        assert((a + b).drop_first() =~= a.drop_first() + b);
        lemma_escape_concat(a.drop_first(), b);
        assert(escape_char(a[0]) + (escape_text(a.drop_first()) + escape_text(b)) =~= (
        escape_char(a[0]) + escape_text(a.drop_first())) + escape_text(b));
    }
}

/// Escaping one more character extends the escaped prefix.
pub proof fn lemma_escape_take_step(s: Seq<char>, i: int)
    requires
        0 <= i < s.len(),
    ensures
        escape_text(s.take(i + 1)) == escape_text(s.take(i)) + escape_char(s[i]),
{
    assert(s.take(i + 1) =~= s.take(i) + seq![s[i]]);
    lemma_escape_concat(s.take(i), seq![s[i]]);
    assert(seq![s[i]].drop_first() =~= Seq::<char>::empty());
    assert(escape_text(Seq::<char>::empty()) == Seq::<char>::empty());
    assert(escape_text(seq![s[i]]) == escape_char(s[i]) + escape_text(Seq::<char>::empty()));
    assert(escape_char(s[i]) + Seq::<char>::empty() =~= escape_char(s[i]));
}

/// Unescaping inverts escaping: `unescape_text(escape_text(s)) == s` for
/// every text `s`.
pub proof fn lemma_escape_round_trip(s: Seq<char>)
    ensures
        unescape_text(escape_text(s)) == s,
    decreases s.len(),
{
    if s.len() == 0 {
    } else {
        let rest = s.drop_first();
        lemma_escape_round_trip(rest);
        let e = escape_text(s);
        if is_reserved(s[0]) {
            assert(e =~= seq!['?', s[0]] + escape_text(rest));
            assert(e[0] == '?' && e.len() >= 2 && is_reserved(e[1]));
            assert(e.skip(2) =~= escape_text(rest));
            assert(seq![s[0]] + rest =~= s);
        } else {
            assert(e =~= seq![s[0]] + escape_text(rest));
            assert(e[0] == s[0] && s[0] != '?');
            assert(e.drop_first() =~= escape_text(rest));
            assert(seq![s[0]] + rest =~= s);
        }
    }
}

/// Escaping leaves no reserved character outside a `?c` escape pair.
pub proof fn lemma_escape_well_escaped(s: Seq<char>)
    ensures
        well_escaped(escape_text(s)),
    decreases s.len(),
{
    if s.len() == 0 {
    } else {
        let rest = s.drop_first();
        lemma_escape_well_escaped(rest);
        let e = escape_text(s);
        if is_reserved(s[0]) {
            assert(e =~= seq!['?', s[0]] + escape_text(rest));
            assert(e.skip(2) =~= escape_text(rest));
        } else {
            assert(e =~= seq![s[0]] + escape_text(rest));
            assert(e.drop_first() =~= escape_text(rest));
        }
    }
}

/// Escape `s` to its wire-compliant form.
pub fn escape_fints(s: &str) -> (r: String)
    ensures
        r@ == escape_text(s@),
{
    let mut out = String::new();
    let n = s.unicode_len();
    let mut i: usize = 0;
    proof {
        assert(s@.take(0) =~= Seq::<char>::empty());
    }
    while i < n
        invariant
            n == s@.len(),
            i <= n,
            out@ == escape_text(s@.take(i as int)),
        decreases n - i,
    {
        let c = s.get_char(i);
        if c == '?' || c == '+' || c == ':' || c == '@' {
            out.append("?");
            proof {
                reveal_strlit("?");
            }
        }
        let piece = s.substring_char(i, i + 1);
        proof {
            assert(piece@ =~= seq![s@[i as int]]);
        }
        out.append(piece);
        proof {
            lemma_escape_take_step(s@, i as int);
        }
        i = i + 1;
    }
    proof {
        assert(s@.take(n as int) =~= s@);
    }
    out
}

/// Unescape `s` from its wire-escaped form.
pub fn unescape_fints(s: &str) -> (r: String)
    ensures
        r@ == unescape_text(s@),
{
    let mut out = String::new();
    let n = s.unicode_len();
    let mut i: usize = 0;
    proof {
        assert(s@.skip(0) =~= s@);
    }
    while i < n
        invariant
            n == s@.len(),
            i <= n,
            unescape_text(s@) == out@ + unescape_text(s@.skip(i as int)),
        decreases n - i,
    {
        let c = s.get_char(i);
        let ghost tail = s@.skip(i as int);
        proof {
            assert(tail.len() == n - i);
            assert(tail[0] == s@[i as int]);
        }
        if c == '?' && i + 1 < n {
            let c2 = s.get_char(i + 1);
            proof {
                assert(tail[1] == s@[i as int + 1]);
            }
            if c2 == '+' || c2 == ':' || c2 == '@' || c2 == '?' {
                let piece = s.substring_char(i + 1, i + 2);
                proof {
                    assert(piece@ =~= seq![s@[i as int + 1]]);
                    assert(tail.skip(2) =~= s@.skip(i as int + 2));
                    assert(unescape_text(tail) == seq![tail[1]] + unescape_text(tail.skip(2)));
                    assert(out@ + (seq![tail[1]] + unescape_text(tail.skip(2))) =~= (out@
                        + seq![tail[1]]) + unescape_text(tail.skip(2)));
                }
                out.append(piece);
                i = i + 2;
                continue;
            }
        }
        let piece = s.substring_char(i, i + 1);
        proof {
            assert(piece@ =~= seq![s@[i as int]]);
            assert(tail.drop_first() =~= s@.skip(i as int + 1));
            assert(unescape_text(tail) == seq![tail[0]] + unescape_text(tail.drop_first()));
            assert(out@ + (seq![tail[0]] + unescape_text(tail.drop_first())) =~= (out@
                + seq![tail[0]]) + unescape_text(tail.drop_first()));
        }
        out.append(piece);
        i = i + 1;
    }
    proof {
        assert(s@.skip(n as int) =~= Seq::<char>::empty());
        assert(out@ + Seq::<char>::empty() =~= out@);
    }
    out
}

} // verus!
