//! Message size accounting and the two-pass size patch-back.
//!
//! The message-head segment declares the total byte size of the message in a
//! fixed-width, zero-padded twelve-digit field.  Because that field is part
//! of what it measures, the size is resolved in two passes: encode once with
//! a placeholder, measure, patch the field, encode again.  The lemmas here
//! show that one patch reaches a fixed point: the re-encoded message has
//! exactly the declared byte length.

use vstd::prelude::*;

verus! {

use crate::numbers::{
    dec_text_padded, lemma_dec_text_padded_digits, lemma_dec_text_padded_len, pow10,
};
use crate::wire::{
    de_text, join_texts, lemma_texts_of, msg_text, node_text, seg_text, texts_of, trim_len,
    trim_texts, DeView, NodeView,
};
use vstd::utf8::{encode_utf8, is_ascii_chars, is_ascii_chars_encode_utf8};

/// The byte length of a text once UTF-8 encoded; this is what `str::len`
/// returns and what the size field declares.
pub open spec fn byte_len(t: Seq<char>) -> nat {
    encode_utf8(t).len()
}

/// UTF-8 encoding distributes over concatenation.
pub proof fn lemma_encode_utf8_concat(a: Seq<char>, b: Seq<char>)
    ensures
        encode_utf8(a + b) == encode_utf8(a) + encode_utf8(b),
    decreases a.len(),
{
    if a.len() == 0 {
        assert(a + b =~= b);
        assert(encode_utf8(a) + encode_utf8(b) =~= encode_utf8(b));
    } else {
        assert((a + b).drop_first() =~= a.drop_first() + b);
        lemma_encode_utf8_concat(a.drop_first(), b);
        assert((a + b)[0] == a[0]);
        assert(encode_utf8(a + b) =~= encode_utf8(a) + encode_utf8(b));
    }
}

/// Whether the node is a twelve-digit fixed-width numeric leaf: the shape of
/// the declared-size slot.
pub open spec fn is_size_slot(n: NodeView) -> bool {
    match n {
        NodeView::Leaf(DeView::NumFixed { value, width }) => width == 12,
        _ => false,
    }
}

/// Whether the message's first segment carries a declared-size slot in its
/// second field, as the message-head segment does.
pub open spec fn has_size_slot(segs: Seq<Seq<NodeView>>) -> bool {
    segs.len() > 0 && segs[0].len() > 1 && is_size_slot(segs[0][1])
}

/// The message with its declared-size slot replaced by the value `v`.
pub open spec fn patch_size(segs: Seq<Seq<NodeView>>, v: nat) -> Seq<Seq<NodeView>> {
    segs.update(0, segs[0].update(1, NodeView::Leaf(DeView::NumFixed { value: v, width: 12 })))
}

/// The size the message declares in its slot.
pub open spec fn declared_size(segs: Seq<Seq<NodeView>>) -> nat {
    match segs[0][1] {
        NodeView::Leaf(DeView::NumFixed { value, width }) => value,
        _ => 0,
    }
}

/// The byte length of the whole encoded message.
pub open spec fn msg_bytes(segs: Seq<Seq<NodeView>>) -> nat {
    byte_len(msg_text(segs))
}

/// The rendering of a twelve-digit size slot holding a value below `10^12`
/// is exactly twelve ASCII characters, so twelve bytes.
pub proof fn lemma_size_slot_text(v: nat)
    requires
        v < pow10(12),
    ensures
        dec_text_padded(v, 12).len() == 12,
        byte_len(dec_text_padded(v, 12)) == 12,
{
    lemma_dec_text_padded_len(v, 12);
    lemma_dec_text_padded_digits(v, 12);
    let t = dec_text_padded(v, 12);
    assert(is_ascii_chars(t)) by {
        assert(forall|i: int| 0 <= i < t.len() ==> '0' <= #[trigger] t[i] && t[i] <= '9');
    }
    is_ascii_chars_encode_utf8(t);
}

/// Two rendered field lists that agree slot by slot on emptiness and byte
/// length.
pub open spec fn texts_congruent(ts1: Seq<Seq<char>>, ts2: Seq<Seq<char>>) -> bool {
    ts1.len() == ts2.len() && (forall|i: int|
        0 <= i < ts1.len() ==> ((#[trigger] ts1[i]).len() == 0 <==> (#[trigger] ts2[i]).len() == 0)
            && byte_len(ts1[i]) == byte_len(ts2[i]))
}

/// Congruent field lists trim to the same number of slots.
pub proof fn lemma_trim_len_congruent(ts1: Seq<Seq<char>>, ts2: Seq<Seq<char>>)
    requires
        texts_congruent(ts1, ts2),
    ensures
        trim_len(ts1) == trim_len(ts2),
    decreases ts1.len(),
{
    if ts1.len() == 0 {
    } else {
        assert(ts1.last() == ts1[ts1.len() - 1]);
        assert(ts2.last() == ts2[ts2.len() - 1]);
        if ts1.last().len() == 0 {
            let d1 = ts1.drop_last();
            let d2 = ts2.drop_last();
            assert(texts_congruent(d1, d2)) by {
                assert(forall|i: int| 0 <= i < d1.len() ==> #[trigger] d1[i] == ts1[i]);
                assert(forall|i: int| 0 <= i < d2.len() ==> #[trigger] d2[i] == ts2[i]);
            }
            lemma_trim_len_congruent(d1, d2);
        }
    }
}

/// Congruent field lists join to texts of the same byte length.
pub proof fn lemma_join_bytes_congruent(ts1: Seq<Seq<char>>, ts2: Seq<Seq<char>>, d: char)
    requires
        texts_congruent(ts1, ts2),
    ensures
        byte_len(join_texts(ts1, d)) == byte_len(join_texts(ts2, d)),
    decreases ts1.len(),
{
    if ts1.len() == 0 {
    } else if ts1.len() == 1 {
        assert(byte_len(ts1[0]) == byte_len(ts2[0]));
    } else {
        let r1 = ts1.drop_first();
        let r2 = ts2.drop_first();
        assert(texts_congruent(r1, r2)) by {
            assert(forall|i: int| 0 <= i < r1.len() ==> #[trigger] r1[i] == ts1[i + 1]);
            assert(forall|i: int| 0 <= i < r2.len() ==> #[trigger] r2[i] == ts2[i + 1]);
        }
        lemma_join_bytes_congruent(r1, r2, d);
        lemma_encode_utf8_concat(ts1[0], seq![d]);
        lemma_encode_utf8_concat(ts1[0] + seq![d], join_texts(r1, d));
        lemma_encode_utf8_concat(ts2[0], seq![d]);
        lemma_encode_utf8_concat(ts2[0] + seq![d], join_texts(r2, d));
    }
}

/// A trimmed join renders empty exactly when no slot survives trimming.
pub proof fn lemma_join_trim_empty(ts: Seq<Seq<char>>, d: char)
    ensures
        join_texts(trim_texts(ts), d).len() == 0 <==> trim_len(ts) == 0,
{
    crate::wire::lemma_trim_len(ts);
    let tt = trim_texts(ts);
    if trim_len(ts) == 0 {
        assert(tt =~= Seq::<Seq<char>>::empty());
    } else {
        assert(tt.len() == trim_len(ts));
        if tt.len() == 1 {
            assert(tt[0] == ts[0]);
            assert(ts[trim_len(ts) - 1].len() > 0);
        } else {
            assert(join_texts(tt, d) == tt[0] + seq![d] + join_texts(tt.drop_first(), d));
        }
    }
}

/// Segments built from congruent field renderings encode to the same number
/// of bytes.
pub proof fn lemma_seg_bytes_congruent(f1: Seq<NodeView>, f2: Seq<NodeView>)
    requires
        texts_congruent(texts_of(f1), texts_of(f2)),
    ensures
        byte_len(seg_text(f1)) == byte_len(seg_text(f2)),
{
    let ts1 = texts_of(f1);
    let ts2 = texts_of(f2);
    lemma_trim_len_congruent(ts1, ts2);
    crate::wire::lemma_trim_len(ts1);
    crate::wire::lemma_trim_len(ts2);
    let tt1 = trim_texts(ts1);
    let tt2 = trim_texts(ts2);
    assert(texts_congruent(tt1, tt2)) by {
        assert(forall|i: int| 0 <= i < tt1.len() ==> #[trigger] tt1[i] == ts1[i]);
        assert(forall|i: int| 0 <= i < tt2.len() ==> #[trigger] tt2[i] == ts2[i]);
    }
    lemma_join_bytes_congruent(tt1, tt2, '+');
    lemma_join_trim_empty(ts1, '+');
    lemma_join_trim_empty(ts2, '+');
    let b1 = join_texts(tt1, '+');
    let b2 = join_texts(tt2, '+');
    if b1.len() > 0 {
        lemma_encode_utf8_concat(b1, seq!['\'']);
        lemma_encode_utf8_concat(b2, seq!['\'']);
    }
}

/// Patching the declared size with any two values that fit the twelve-digit
/// slot yields encodings of the same byte length.
pub proof fn lemma_patch_bytes(m: Seq<Seq<NodeView>>, v1: nat, v2: nat)
    requires
        has_size_slot(m),
        v1 < pow10(12),
        v2 < pow10(12),
    ensures
        msg_bytes(patch_size(m, v1)) == msg_bytes(patch_size(m, v2)),
{
    let m1 = patch_size(m, v1);
    let m2 = patch_size(m, v2);
    let f1 = m1[0];
    let f2 = m2[0];
    assert(m1.drop_first() =~= m.drop_first());
    assert(m2.drop_first() =~= m.drop_first());
    assert(msg_text(m1) == seg_text(f1) + msg_text(m.drop_first()));
    assert(msg_text(m2) == seg_text(f2) + msg_text(m.drop_first()));
    lemma_texts_of(f1);
    lemma_texts_of(f2);
    lemma_size_slot_text(v1);
    lemma_size_slot_text(v2);
    assert(texts_congruent(texts_of(f1), texts_of(f2))) by {
        assert(f1.len() == f2.len());
        assert forall|i: int|
            0 <= i < f1.len() implies ((#[trigger] texts_of(f1)[i]).len() == 0 <==> (
        #[trigger] texts_of(f2)[i]).len() == 0) && byte_len(texts_of(f1)[i]) == byte_len(
            texts_of(f2)[i],
        ) by {
            if i == 1 {
                assert(texts_of(f1)[1] == node_text(f1[1]));
                assert(f1[1] == NodeView::Leaf(DeView::NumFixed { value: v1, width: 12 }));
                assert(node_text(f1[1]) == dec_text_padded(v1, 12));
                assert(node_text(f2[1]) == dec_text_padded(v2, 12));
            } else {
                assert(f1[i] == f2[i]);
            }
        }
    }
    lemma_seg_bytes_congruent(f1, f2);
    lemma_encode_utf8_concat(seg_text(f1), msg_text(m.drop_first()));
    lemma_encode_utf8_concat(seg_text(f2), msg_text(m.drop_first()));
}

/// Patching the declared size never affects whether the message's leaves can
/// be rendered.
pub proof fn lemma_patch_size_valid(m: Seq<Seq<NodeView>>, v: nat)
    requires
        has_size_slot(m),
    ensures
        crate::wire::msg_valid(patch_size(m, v)) <==> crate::wire::msg_valid(m),
{
    let mp = patch_size(m, v);
    crate::wire::lemma_msg_valid_iff(m);
    crate::wire::lemma_msg_valid_iff(mp);
    crate::wire::lemma_nodes_valid(m[0]);
    crate::wire::lemma_nodes_valid(mp[0]);
    assert(forall|i: int| 1 <= i < m.len() ==> #[trigger] mp[i] == m[i]);
    assert(forall|j: int| 0 <= j < m[0].len() && j != 1 ==> #[trigger] mp[0][j] == m[0][j]);
    assert(crate::wire::node_valid(m[0][1]));
    assert(crate::wire::node_valid(mp[0][1]));
    if crate::wire::msg_valid(m) {
        assert forall|i: int| 0 <= i < mp.len() implies crate::wire::nodes_valid(
            #[trigger] mp[i],
        ) by {
            if i == 0 {
                assert forall|j: int| 0 <= j < mp[0].len() implies crate::wire::node_valid(
                    #[trigger] mp[0][j],
                ) by {
                    if j != 1 {
                        assert(mp[0][j] == m[0][j]);
                    }
                }
            } else {
                assert(mp[i] == m[i]);
            }
        }
    }
    if crate::wire::msg_valid(mp) {
        assert forall|i: int| 0 <= i < m.len() implies crate::wire::nodes_valid(
            #[trigger] m[i],
        ) by {
            if i == 0 {
                assert forall|j: int| 0 <= j < m[0].len() implies crate::wire::node_valid(
                    #[trigger] m[0][j],
                ) by {
                    if j != 1 {
                        assert(m[0][j] == mp[0][j]);
                    }
                }
            } else {
                assert(m[i] == mp[i]);
            }
        }
    }
}

/// Size patch-back reaches a fixed point in exactly one iteration: patch the
/// slot with the byte length measured from a placeholder encoding, and the
/// re-encoded message both declares and has that byte length; measuring and
/// patching once more changes nothing.
pub proof fn lemma_size_patch_fixed_point(m: Seq<Seq<NodeView>>)
    requires
        has_size_slot(m),
        msg_bytes(patch_size(m, 0)) < pow10(12),
    ensures
        ({
            let measured = msg_bytes(patch_size(m, 0));
            let patched = patch_size(m, measured);
            msg_bytes(patched) == measured && declared_size(patched) == measured && patch_size(
                patched,
                msg_bytes(patched),
            ) == patched
        }),
{
    let measured = msg_bytes(patch_size(m, 0));
    let patched = patch_size(m, measured);
    lemma_patch_bytes(m, 0, measured);
    assert(patched[0][1] == NodeView::Leaf(DeView::NumFixed { value: measured, width: 12 }));
    assert(patch_size(patched, measured) =~= patched) by {
        assert(patched[0].update(
            1,
            NodeView::Leaf(DeView::NumFixed { value: measured, width: 12 }),
        ) =~= patched[0]);
    }
}

} // verus!
