//! The generic wire tree and its text grammar.
//!
//! A message is an ordered sequence of segments; a segment is an ordered
//! sequence of fields; a field is either a leaf data element or a data
//! element group of nested fields.  The grammar is:
//!
//! - fields directly inside a group are joined with `:` (at any nesting
//!   depth inside the group),
//! - fields directly inside a segment are joined with `+`,
//! - absent optional fields render as zero characters but keep their
//!   delimiter slot, except that trailing absent fields are dropped,
//! - a segment whose rendering is non-empty is terminated with a single `'`,
//! - segments are concatenated with no separator between them.

use vstd::prelude::*;

verus! {

use crate::escape::escape_text;
use crate::numbers::{dec_text, dec_text_padded};
use vstd::utf8::{decode_utf8, valid_utf8};

/// Specification-level value of one leaf data element.
pub enum DeView {
    /// An absent optional field: renders as zero characters.
    Empty,
    /// A plain decimal number.
    Num(nat),
    /// A decimal number zero-padded on the left to a fixed width.
    NumFixed { value: nat, width: nat },
    /// Free text; reserved characters are escaped on the wire.
    Text(Seq<char>),
    /// A fixed alphabetic wire code; passes through unchanged.
    Token(Seq<char>),
    /// A byte blob; must hold valid text to be renderable.
    Binary(Seq<u8>),
    /// A calendar date, rendered as an eight-digit `YYYYMMDD` field.
    Date { year: nat, month: nat, day: nat },
    /// A time of day, rendered as a six-digit `HHMMSS` field.
    Time { hour: nat, minute: nat, second: nat },
}

/// Specification-level wire tree node: a leaf data element or a group.
pub enum NodeView {
    Leaf(DeView),
    Group(Seq<NodeView>),
}

/// The text rendering of one leaf data element.
pub open spec fn de_text(d: DeView) -> Seq<char> {
    match d {
        DeView::Empty => Seq::empty(),
        DeView::Num(n) => dec_text(n),
        DeView::NumFixed { value, width } => dec_text_padded(value, width),
        DeView::Text(s) => escape_text(s),
        DeView::Token(t) => t,
        DeView::Binary(b) => decode_utf8(b),
        DeView::Date { year, month, day } => dec_text_padded(year, 4) + dec_text_padded(month, 2)
            + dec_text_padded(day, 2),
        DeView::Time { hour, minute, second } => dec_text_padded(hour, 2) + dec_text_padded(
            minute,
            2,
        ) + dec_text_padded(second, 2),
    }
}

/// Whether one leaf data element can be rendered: a byte blob must hold
/// valid text, everything else always renders.
pub open spec fn de_valid(d: DeView) -> bool {
    match d {
        DeView::Binary(b) => valid_utf8(b),
        _ => true,
    }
}

/// Join already-rendered fields with the delimiter `d` between each pair of
/// adjacent slots (empty slots keep their delimiter).
pub open spec fn join_texts(ts: Seq<Seq<char>>, d: char) -> Seq<char>
    decreases ts.len(),
{
    if ts.len() == 0 {
        Seq::empty()
    } else if ts.len() == 1 {
        ts[0]
    } else {
        ts[0] + seq![d] + join_texts(ts.drop_first(), d)
    }
}

/// The number of field slots that remain once trailing empty renderings are
/// dropped.
pub open spec fn trim_len(ts: Seq<Seq<char>>) -> int
    decreases ts.len(),
{
    if ts.len() == 0 {
        0
    } else if ts.last().len() == 0 {
        trim_len(ts.drop_last())
    } else {
        ts.len() as int
    }
}

/// Rendered fields with trailing empty slots dropped.
pub open spec fn trim_texts(ts: Seq<Seq<char>>) -> Seq<Seq<char>> {
    ts.take(trim_len(ts))
}

/// The text rendering of one wire tree node.  A group joins its fields with
/// `:` after dropping trailing absent fields.
pub open spec fn node_text(n: NodeView) -> Seq<char>
    decreases n,
{
    match n {
        NodeView::Leaf(d) => de_text(d),
        NodeView::Group(ch) => join_texts(trim_texts(texts_of(ch)), ':'),
    }
}

/// The renderings of a sequence of nodes, in order.
pub open spec fn texts_of(s: Seq<NodeView>) -> Seq<Seq<char>>
    decreases s,
{
    if s.len() == 0 {
        Seq::empty()
    } else {
        seq![node_text(s[0])] + texts_of(s.drop_first())
    }
}

/// Whether every leaf under the node can be rendered.
pub open spec fn node_valid(n: NodeView) -> bool
    decreases n,
{
    match n {
        NodeView::Leaf(d) => de_valid(d),
        NodeView::Group(ch) => nodes_valid(ch),
    }
}

/// Whether every leaf under each node of the sequence can be rendered.
pub open spec fn nodes_valid(s: Seq<NodeView>) -> bool
    decreases s,
{
    s.len() == 0 || (node_valid(s[0]) && nodes_valid(s.drop_first()))
}

/// The text rendering of one segment: its fields joined with `+` (trailing
/// absent fields dropped), terminated with `'` when non-empty.
pub open spec fn seg_text(fields: Seq<NodeView>) -> Seq<char> {
    let body = join_texts(trim_texts(texts_of(fields)), '+');
    if body.len() == 0 {
        body
    } else {
        body + seq!['\'']
    }
}

/// The text rendering of a whole message: its segments concatenated with no
/// separator between them.
pub open spec fn msg_text(segs: Seq<Seq<NodeView>>) -> Seq<char>
    decreases segs.len(),
{
    if segs.len() == 0 {
        Seq::empty()
    } else {
        seg_text(segs[0]) + msg_text(segs.drop_first())
    }
}

/// Whether every leaf of the message can be rendered.
pub open spec fn msg_valid(segs: Seq<Seq<NodeView>>) -> bool
    decreases segs.len(),
{
    segs.len() == 0 || (nodes_valid(segs[0]) && msg_valid(segs.drop_first()))
}

/// Executable leaf data element.
pub enum De {
    /// An absent optional field.
    Empty,
    /// A plain decimal number.
    Num(u64),
    /// A decimal number zero-padded on the left to a fixed width.
    NumFixed(u64, usize),
    /// Free text; escaped on the wire.
    Text(String),
    /// A fixed alphabetic wire code.
    Token(String),
    /// A byte blob; rendering fails unless it holds valid text.
    Binary(Vec<u8>),
    /// A calendar date: year, month, day.
    Date(u16, u8, u8),
    /// A time of day: hour, minute, second.
    Time(u8, u8, u8),
}

/// Executable wire tree node.
pub enum Node {
    Leaf(De),
    Group(Vec<Node>),
}

/// Executable segment: an ordered sequence of fields.
pub struct WireSegment {
    pub fields: Vec<Node>,
}

/// Executable message: an ordered sequence of segments.
pub struct WireMessage {
    pub segments: Vec<WireSegment>,
}

/// The specification value of an executable leaf.
pub open spec fn de_view(d: De) -> DeView {
    match d {
        De::Empty => DeView::Empty,
        De::Num(n) => DeView::Num(n as nat),
        De::NumFixed(n, w) => DeView::NumFixed { value: n as nat, width: w as nat },
        De::Text(s) => DeView::Text(s@),
        De::Token(t) => DeView::Token(t@),
        De::Binary(b) => DeView::Binary(b@),
        De::Date(y, m, d) => DeView::Date { year: y as nat, month: m as nat, day: d as nat },
        De::Time(h, m, s) => DeView::Time { hour: h as nat, minute: m as nat, second: s as nat },
    }
}

/// The specification value of an executable node.
pub open spec fn node_view(n: Node) -> NodeView
    decreases n,
{
    match n {
        Node::Leaf(d) => NodeView::Leaf(de_view(d)),
        Node::Group(fs) => NodeView::Group(nodes_view(fs@)),
    }
}

/// The specification values of a sequence of executable nodes.
pub open spec fn nodes_view(s: Seq<Node>) -> Seq<NodeView>
    decreases s,
{
    if s.len() == 0 {
        Seq::empty()
    } else {
        seq![node_view(s[0])] + nodes_view(s.drop_first())
    }
}

/// The specification value of an executable segment: its fields' views.
pub open spec fn seg_view(s: WireSegment) -> Seq<NodeView> {
    nodes_view(s.fields@)
}

/// The specification value of an executable message: its segments' views.
pub open spec fn msg_view(m: WireMessage) -> Seq<Seq<NodeView>>
    decreases m.segments@.len(),
{
    segs_view(m.segments@)
}

/// The specification values of a sequence of executable segments.
pub open spec fn segs_view(s: Seq<WireSegment>) -> Seq<Seq<NodeView>>
    decreases s.len(),
{
    if s.len() == 0 {
        Seq::empty()
    } else {
        seq![seg_view(s[0])] + segs_view(s.drop_first())
    }
}

/// `nodes_view` maps the sequence pointwise.
pub proof fn lemma_nodes_view(s: Seq<Node>)
    ensures
        nodes_view(s).len() == s.len(),
        forall|i: int| 0 <= i < s.len() ==> #[trigger] nodes_view(s)[i] == node_view(s[i]),
    decreases s,
{
    if s.len() == 0 {
    } else {
        lemma_nodes_view(s.drop_first());
    }
}

/// `texts_of` maps the sequence pointwise.
pub proof fn lemma_texts_of(s: Seq<NodeView>)
    ensures
        texts_of(s).len() == s.len(),
        forall|i: int| 0 <= i < s.len() ==> #[trigger] texts_of(s)[i] == node_text(s[i]),
    decreases s,
{
    if s.len() == 0 {
    } else {
        lemma_texts_of(s.drop_first());
    }
}

/// `nodes_valid` holds exactly when every node of the sequence is valid.
pub proof fn lemma_nodes_valid(s: Seq<NodeView>)
    ensures
        nodes_valid(s) <==> (forall|i: int| 0 <= i < s.len() ==> #[trigger] node_valid(s[i])),
    decreases s,
{
    if s.len() == 0 {
    } else {
        lemma_nodes_valid(s.drop_first());
        let t = s.drop_first();
        assert(forall|i: int| 0 <= i < t.len() ==> #[trigger] t[i] == s[i + 1]);
        if nodes_valid(s) {
            assert forall|i: int| 0 <= i < s.len() implies #[trigger] node_valid(s[i]) by {
                if i > 0 {
                    assert(node_valid(t[i - 1]));
                }
            }
        }
        if forall|i: int| 0 <= i < s.len() ==> #[trigger] node_valid(s[i]) {
            assert(node_valid(s[0]));
            assert forall|i: int| 0 <= i < t.len() implies #[trigger] node_valid(t[i]) by {
                assert(t[i] == s[i + 1]);
                assert(node_valid(s[i + 1]));
            }
            assert(nodes_valid(t));
        }
    }
}

/// `segs_view` maps the sequence pointwise.
pub proof fn lemma_segs_view(s: Seq<WireSegment>)
    ensures
        segs_view(s).len() == s.len(),
        forall|i: int| 0 <= i < s.len() ==> #[trigger] segs_view(s)[i] == seg_view(s[i]),
    decreases s,
{
    if s.len() == 0 {
    } else {
        lemma_segs_view(s.drop_first());
    }
}

/// Appending one more rendered field to a join adds one delimiter slot.
pub proof fn lemma_join_texts_push(ts: Seq<Seq<char>>, d: char, x: Seq<char>)
    ensures
        join_texts(ts.push(x), d) == if ts.len() == 0 {
            x
        } else {
            join_texts(ts, d) + seq![d] + x
        },
    decreases ts.len(),
{
    let e = ts.push(x);
    if ts.len() == 0 {
        assert(e.len() == 1);
        assert(join_texts(e, d) == e[0]);
        assert(e[0] == x);
    } else {
        lemma_join_texts_push(ts.drop_first(), d, x);
        assert(e.drop_first() =~= ts.drop_first().push(x));
        assert(e.len() >= 2);
        assert(join_texts(e, d) == e[0] + seq![d] + join_texts(e.drop_first(), d));
        assert(e[0] == ts[0]);
        if ts.len() == 1 {
            assert(ts.drop_first().len() == 0);
            assert(join_texts(e.drop_first(), d) == x);
            assert(join_texts(ts, d) == ts[0]);
            assert(ts[0] + seq![d] + x == join_texts(ts, d) + seq![d] + x);
        } else {
            assert(join_texts(e.drop_first(), d) == join_texts(ts.drop_first(), d) + seq![d] + x);
            assert(ts[0] + seq![d] + (join_texts(ts.drop_first(), d) + seq![d] + x) =~= (ts[0]
                + seq![d] + join_texts(ts.drop_first(), d)) + seq![d] + x);
            assert(join_texts(ts, d) == ts[0] + seq![d] + join_texts(ts.drop_first(), d));
        }
    }
}

/// The trimmed length is within range, everything past it renders empty, and
/// the last kept slot (if any) renders non-empty.
pub proof fn lemma_trim_len(ts: Seq<Seq<char>>)
    ensures
        0 <= trim_len(ts) <= ts.len(),
        forall|j: int| trim_len(ts) <= j < ts.len() ==> #[trigger] ts[j].len() == 0,
        trim_len(ts) > 0 ==> ts[trim_len(ts) - 1].len() > 0,
    decreases ts.len(),
{
    if ts.len() == 0 {
    } else if ts.last().len() == 0 {
        lemma_trim_len(ts.drop_last());
        assert(forall|j: int|
            0 <= j < ts.len() - 1 ==> #[trigger] ts[j] == ts.drop_last()[j]);
    } else {
    }
}

/// Segments are simply concatenated: the rendering of a message split in two
/// is the concatenation of the two parts' renderings, and validity splits
/// the same way.
pub proof fn lemma_msg_concat(a: Seq<Seq<NodeView>>, b: Seq<Seq<NodeView>>)
    ensures
        msg_text(a + b) == msg_text(a) + msg_text(b),
        msg_valid(a + b) <==> (msg_valid(a) && msg_valid(b)),
    decreases a.len(),
{
    if a.len() == 0 {
        assert(a + b =~= b);
        assert(msg_text(a) + msg_text(b) =~= msg_text(b));
    } else {
        assert((a + b).drop_first() =~= a.drop_first() + b);
        lemma_msg_concat(a.drop_first(), b);
        assert((a + b)[0] == a[0]);
        assert(seg_text(a[0]) + (msg_text(a.drop_first()) + msg_text(b)) =~= (seg_text(a[0])
            + msg_text(a.drop_first())) + msg_text(b));
    }
}

/// `msg_valid` holds exactly when every segment's fields are valid.
pub proof fn lemma_msg_valid_iff(segs: Seq<Seq<NodeView>>)
    ensures
        msg_valid(segs) <==> (forall|i: int| 0 <= i < segs.len() ==> nodes_valid(#[trigger] segs[i])),
    decreases segs.len(),
{
    if segs.len() == 0 {
    } else {
        lemma_msg_valid_iff(segs.drop_first());
        let t = segs.drop_first();
        assert(forall|i: int| 0 <= i < t.len() ==> #[trigger] t[i] == segs[i + 1]);
        if msg_valid(segs) {
            assert forall|i: int| 0 <= i < segs.len() implies nodes_valid(#[trigger] segs[i]) by {
                if i > 0 {
                    assert(nodes_valid(t[i - 1]));
                }
            }
        }
        if forall|i: int| 0 <= i < segs.len() ==> nodes_valid(#[trigger] segs[i]) {
            assert(nodes_valid(segs[0]));
            assert forall|i: int| 0 <= i < t.len() implies nodes_valid(#[trigger] t[i]) by {
                assert(t[i] == segs[i + 1]);
                assert(nodes_valid(segs[i + 1]));
            }
            assert(msg_valid(t));
        }
    }
}

/// How many times the character `c` occurs in `s`.
pub open spec fn count_char(s: Seq<char>, c: char) -> nat
    decreases s.len(),
{
    if s.len() == 0 {
        0
    } else {
        (if s[0] == c {
            1nat
        } else {
            0nat
        }) + count_char(s.drop_first(), c)
    }
}

/// A character occurs zero times exactly when the text does not contain it.
pub proof fn lemma_count_char_zero(s: Seq<char>, c: char)
    ensures
        count_char(s, c) == 0 <==> !s.contains(c),
    decreases s.len(),
{
    if s.len() == 0 {
    } else {
        lemma_count_char_zero(s.drop_first(), c);
        let t = s.drop_first();
        assert(forall|i: int| 0 <= i < t.len() ==> #[trigger] t[i] == s[i + 1]);
        if !s.contains(c) {
            assert(forall|i: int| 0 <= i < s.len() ==> #[trigger] s[i] != c);
            assert(!t.contains(c)) by {
                if t.contains(c) {
                    let i = choose|i: int| 0 <= i < t.len() && t[i] == c;
                    assert(s[i + 1] == c);
                }
            }
        }
        if count_char(s, c) == 0 {
            if s.contains(c) {
                let i = choose|i: int| 0 <= i < s.len() && s[i] == c;
                if i == 0 {
                } else {
                    assert(t[i - 1] == c);
                    assert(t.contains(c));
                }
            }
        }
    }
}

/// Character counts add over concatenation.
pub proof fn lemma_count_char_concat(a: Seq<char>, b: Seq<char>, c: char)
    ensures
        count_char(a + b, c) == count_char(a, c) + count_char(b, c),
    decreases a.len(),
{
    if a.len() == 0 {
        assert(a + b =~= b);
    } else {
        assert((a + b).drop_first() =~= a.drop_first() + b);
        lemma_count_char_concat(a.drop_first(), b, c);
        assert((a + b)[0] == a[0]);
    }
}

/// A join of texts that avoid `c`, with a delimiter other than `c`, avoids
/// `c`.
pub proof fn lemma_join_texts_count_zero(ts: Seq<Seq<char>>, d: char, c: char)
    requires
        d != c,
        forall|i: int| 0 <= i < ts.len() ==> count_char(#[trigger] ts[i], c) == 0,
    ensures
        count_char(join_texts(ts, d), c) == 0,
    decreases ts.len(),
{
    if ts.len() == 0 {
    } else if ts.len() == 1 {
        assert(count_char(ts[0], c) == 0);
    } else {
        let t = ts.drop_first();
        assert(forall|i: int| 0 <= i < t.len() ==> #[trigger] t[i] == ts[i + 1]);
        lemma_join_texts_count_zero(t, d, c);
        assert(count_char(ts[0], c) == 0);
        assert(seq![d].drop_first() =~= Seq::<char>::empty());
        assert(count_char(Seq::<char>::empty(), c) == 0);
        assert(count_char(seq![d], c) == 0);
        lemma_count_char_concat(ts[0], seq![d], c);
        lemma_count_char_concat(ts[0] + seq![d], join_texts(t, d), c);
    }
}

/// Segment termination: when a segment's fields render to anything at all,
/// and none of those renderings contains the terminator character itself,
/// the encoded segment ends with exactly one `'` — it occurs exactly once,
/// as the final character.
pub proof fn lemma_segment_termination(fields: Seq<NodeView>)
    requires
        forall|i: int| 0 <= i < fields.len() ==> !(#[trigger] node_text(fields[i])).contains('\''),
    ensures
        seg_text(fields).len() > 0 ==> seg_text(fields).last() == '\'' && count_char(
            seg_text(fields),
            '\'',
        ) == 1,
{
    let ts = texts_of(fields);
    lemma_texts_of(fields);
    lemma_trim_len(ts);
    let tt = trim_texts(ts);
    assert forall|i: int| 0 <= i < tt.len() implies count_char(#[trigger] tt[i], '\'') == 0 by {
        assert(tt[i] == ts[i]);
        assert(ts[i] == node_text(fields[i]));
        lemma_count_char_zero(node_text(fields[i]), '\'');
    }
    lemma_join_texts_count_zero(tt, '+', '\'');
    let body = join_texts(tt, '+');
    if body.len() > 0 {
        let t = seg_text(fields);
        assert(t == body + seq!['\'']);
        lemma_count_char_concat(body, seq!['\''], '\'');
        assert(seq!['\''].drop_first() =~= Seq::<char>::empty());
        assert(count_char(Seq::<char>::empty(), '\'') == 0);
        assert(count_char(seq!['\''], '\'') == 1);
        assert(t.last() == '\'');
    }
}

} // verus!
