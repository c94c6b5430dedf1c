//! Serialization: the executable wire-format encoder.
//!
//! `to_string` walks a [`WireMessage`](crate::wire::WireMessage) tree once,
//! depth first, and produces exactly the text that the specification
//! functions of [`crate::wire`] describe.

use vstd::prelude::*;

verus! {

use crate::escape::escape_fints;
use crate::numbers::{u64_dec_padded, u64_dec_text};
use crate::wire::{
    de_text, de_valid, de_view, join_texts, lemma_join_texts_push, lemma_msg_concat,
    lemma_nodes_valid, lemma_nodes_view, lemma_segs_view, lemma_texts_of, lemma_trim_len,
    msg_text, msg_valid, msg_view, node_text, node_valid, node_view, nodes_valid, nodes_view,
    seg_text, seg_view, segs_view, texts_of, trim_len, trim_texts, De, Node, NodeView,
    WireMessage, WireSegment,
};
use vstd::string::{StrSliceExecFns, StringExecFns};
use vstd::utf8::{decode_utf8, valid_utf8};

/// The failures this crate reports.
#[derive(Clone, Copy, Debug, PartialEq, Eq, Structural)]
pub enum Error {
    /// The encoder was handed a value it cannot render in its declared slot:
    /// a byte blob that is not text, or a message whose byte length does not
    /// fit the fixed-width size field.
    SchemaViolation,
    /// Message assembly received empty or unusable identity inputs.
    InvalidInput,
    /// The transport collaborator reported a failure; dialog state is left
    /// unchanged when this is observed.
    TransportFailure,
}

/// Relies on `core::str::from_utf8`: it returns a string slice exactly when
/// the bytes are valid UTF-8, and that string holds the decoding of those
/// bytes.
#[verifier::external_body]
fn utf8_to_string(v: &[u8]) -> (r: Option<String>)
    ensures
        match r {
            Some(s) => valid_utf8(v@) && s@ == decode_utf8(v@),
            None => !valid_utf8(v@),
        },
{
    match core::str::from_utf8(v) {
        Ok(s) => Some(s.to_owned()),
        Err(_) => None,
    }
}

/// Render one leaf data element.
fn encode_de(d: &De) -> (r: Result<String, Error>)
    ensures
        match r {
            Ok(s) => de_valid(de_view(*d)) && s@ == de_text(de_view(*d)),
            Err(e) => !de_valid(de_view(*d)) && e == Error::SchemaViolation,
        },
{
    match d {
        De::Empty => Ok(String::new()),
        De::Num(n) => Ok(u64_dec_text(*n)),
        De::NumFixed(n, w) => Ok(u64_dec_padded(*n, *w)),
        De::Text(s) => Ok(escape_fints(s.as_str())),
        De::Token(t) => Ok(t.clone()),
        De::Binary(b) => match utf8_to_string(b.as_slice()) {
            Some(s) => Ok(s),
            None => Err(Error::SchemaViolation),
        },
        De::Date(y, m, dd) => {
            let mut s = u64_dec_padded(*y as u64, 4);
            s.append(u64_dec_padded(*m as u64, 2).as_str());
            s.append(u64_dec_padded(*dd as u64, 2).as_str());
            Ok(s)
        },
        De::Time(h, mi, sec) => {
            let mut s = u64_dec_padded(*h as u64, 2);
            s.append(u64_dec_padded(*mi as u64, 2).as_str());
            s.append(u64_dec_padded(*sec as u64, 2).as_str());
            Ok(s)
        },
    }
}

/// Render a sequence of sibling fields: each field's rendering, trailing
/// absent fields dropped, the rest joined with the delimiter `delim`.
fn encode_fields(fields: &Vec<Node>, delim: &str, Ghost(dc): Ghost<char>) -> (r: Result<
    String,
    Error,
>)
    requires
        delim@ == seq![dc],
    ensures
        match r {
            Ok(s) => nodes_valid(nodes_view(fields@)) && s@ == join_texts(
                trim_texts(texts_of(nodes_view(fields@))),
                dc,
            ),
            Err(e) => !nodes_valid(nodes_view(fields@)) && e == Error::SchemaViolation,
        },
    decreases fields@,
{
    let ghost views = nodes_view(fields@);
    proof {
        lemma_nodes_view(fields@);
        lemma_texts_of(views);
        lemma_nodes_valid(views);
    }
    let ghost ts = texts_of(views);

    // First pass: render every field.
    let mut texts: Vec<String> = Vec::new();
    let n = fields.len();
    let mut i: usize = 0;
    while i < n
        invariant
            n == fields@.len(),
            i <= n,
            views == nodes_view(fields@),
            ts == texts_of(views),
            views.len() == n,
            ts.len() == n,
            forall|j: int| 0 <= j < n ==> #[trigger] views[j] == node_view(fields@[j]),
            forall|j: int| 0 <= j < n ==> #[trigger] ts[j] == node_text(views[j]),
            nodes_valid(views) <==> (forall|j: int|
                0 <= j < n ==> #[trigger] node_valid(views[j])),
            texts@.len() == i,
            forall|j: int| 0 <= j < i ==> node_valid(#[trigger] views[j]),
            forall|j: int| 0 <= j < i ==> #[trigger] texts@[j]@ == ts[j],
        decreases n - i,
    {
        proof {
            assert(decreases_to!(fields@ => fields@[i as int]));
        }
        match encode_node(&fields[i]) {
            Ok(s) => {
                texts.push(s);
            },
            Err(e) => {
                proof {
                    assert(!node_valid(views[i as int]));
                }
                return Err(e);
            },
        }
        i = i + 1;
    }

    // Second pass: drop trailing fields whose rendering is empty.
    proof {
        lemma_trim_len(ts);
        assert(ts.take(n as int) =~= ts);
    }
    let mut k: usize = n;
    while k > 0 && texts[k - 1].as_str().is_empty()
        invariant
            n == fields@.len(),
            ts.len() == n,
            texts@.len() == n,
            forall|j: int| 0 <= j < n ==> #[trigger] texts@[j]@ == ts[j],
            k <= n,
            trim_len(ts) == trim_len(ts.take(k as int)),
            forall|j: int| k <= j < n ==> #[trigger] ts[j].len() == 0,
        decreases k,
    {
        proof {
            let tk = ts.take(k as int);
            assert(tk.last() == ts[k - 1]);
            assert(tk.drop_last() =~= ts.take(k - 1));
        }
        k = k - 1;
    }
    proof {
        if k > 0 {
            let tk = ts.take(k as int);
            assert(tk.last() == ts[k - 1]);
            assert(ts[k - 1].len() > 0);
            assert(trim_len(tk) == k as int);
        } else {
            assert(ts.take(0) =~= Seq::<Seq<char>>::empty());
        }
        assert(trim_len(ts) == k as int);
        assert(trim_texts(ts) == ts.take(k as int));
    }

    // Third pass: join what remains with the delimiter.
    let mut out = String::new();
    let mut j: usize = 0;
    proof {
        assert(ts.take(0) =~= Seq::<Seq<char>>::empty());
    }
    while j < k
        invariant
            n == fields@.len(),
            ts.len() == n,
            texts@.len() == n,
            forall|jj: int| 0 <= jj < n ==> #[trigger] texts@[jj]@ == ts[jj],
            k <= n,
            j <= k,
            delim@ == seq![dc],
            out@ == join_texts(ts.take(j as int), dc),
        decreases k - j,
    {
        proof {
            lemma_join_texts_push(ts.take(j as int), dc, ts[j as int]);
            assert(ts.take(j as int).push(ts[j as int]) =~= ts.take(j as int + 1));
        }
        if j > 0 {
            out.append(delim);
        }
        out.append(texts[j].as_str());
        j = j + 1;
    }
    Ok(out)
}

/// Render one wire tree node: a leaf renders as its data element, a group
/// joins its fields with `:`.
fn encode_node(n: &Node) -> (r: Result<String, Error>)
    ensures
        match r {
            Ok(s) => node_valid(node_view(*n)) && s@ == node_text(node_view(*n)),
            Err(e) => !node_valid(node_view(*n)) && e == Error::SchemaViolation,
        },
    decreases *n,
{
    match n {
        Node::Leaf(d) => encode_de(d),
        Node::Group(fs) => {
            proof {
                assert(decreases_to!(*n => fs@));
                reveal_strlit(":");
                assert(":"@ =~= seq![':']);
            }
            encode_fields(fs, ":", Ghost(':'))
        },
    }
}

/// Render one segment: its fields joined with `+`, terminated with `'` when
/// the rendering is non-empty.
fn encode_segment(s: &WireSegment) -> (r: Result<String, Error>)
    ensures
        match r {
            Ok(t) => nodes_valid(seg_view(*s)) && t@ == seg_text(seg_view(*s)),
            Err(e) => !nodes_valid(seg_view(*s)) && e == Error::SchemaViolation,
        },
{
    proof {
        reveal_strlit("+");
        assert("+"@ =~= seq!['+']);
    }
    let mut body = match encode_fields(&s.fields, "+", Ghost('+')) {
        Ok(t) => t,
        Err(e) => {
            return Err(e);
        },
    };
    if !body.as_str().is_empty() {
        body.append("'");
        proof {
            reveal_strlit("'");
            assert("'"@ =~= seq!['\'']);
        }
    }
    Ok(body)
}

/// Produce the canonical text encoding of a message by a single depth-first
/// traversal of its structural tree.  Succeeds exactly when every leaf can
/// be rendered; the result is then precisely the text of the wire grammar.
pub fn to_string(m: &WireMessage) -> (r: Result<String, Error>)
    ensures
        match r {
            Ok(s) => msg_valid(msg_view(*m)) && s@ == msg_text(msg_view(*m)),
            Err(e) => !msg_valid(msg_view(*m)) && e == Error::SchemaViolation,
        },
{
    let ghost views = msg_view(*m);
    proof {
        lemma_segs_view(m.segments@);
    }
    let mut out = String::new();
    let n = m.segments.len();
    let mut i: usize = 0;
    proof {
        lemma_msg_text_take_zero(views);
    }
    while i < n
        invariant
            n == m.segments@.len(),
            i <= n,
            views == segs_view(m.segments@),
            views.len() == n,
            forall|j: int| 0 <= j < n ==> #[trigger] views[j] == seg_view(m.segments@[j]),
            out@ == msg_text(views.take(i as int)),
            msg_valid(views.take(i as int)),
        decreases n - i,
    {
        match encode_segment(&m.segments[i]) {
            Ok(t) => {
                proof {
                    lemma_msg_text_take_step(views, i as int);
                }
                out.append(t.as_str());
            },
            Err(e) => {
                proof {
                    lemma_msg_valid_index(views, i as int);
                }
                return Err(e);
            },
        }
        i = i + 1;
    }
    proof {
        assert(views.take(n as int) =~= views);
    }
    Ok(out)
}

/// The rendering of no segments is empty, and trivially valid.
proof fn lemma_msg_text_take_zero(segs: Seq<Seq<NodeView>>)
    ensures
        msg_text(segs.take(0)) == Seq::<char>::empty(),
        msg_valid(segs.take(0)),
{
    assert(segs.take(0) =~= Seq::<Seq<NodeView>>::empty());
}

/// Rendering one more segment appends its text, and preserves validity.
proof fn lemma_msg_text_take_step(segs: Seq<Seq<NodeView>>, i: int)
    requires
        0 <= i < segs.len(),
        nodes_valid(segs[i]),
        msg_valid(segs.take(i)),
    ensures
        msg_text(segs.take(i + 1)) == msg_text(segs.take(i)) + seg_text(segs[i]),
        msg_valid(segs.take(i + 1)),
{
    lemma_msg_concat(segs.take(i), seq![segs[i]]);
    assert(segs.take(i) + seq![segs[i]] =~= segs.take(i + 1));
    assert(msg_valid(Seq::<Seq<NodeView>>::empty()));
    assert(seq![segs[i]].drop_first() =~= Seq::<Seq<NodeView>>::empty());
    assert(msg_valid(seq![segs[i]]));
    assert(seq![segs[i]].drop_first() =~= Seq::<Seq<NodeView>>::empty());
    assert(msg_text(seq![segs[i]]) == seg_text(segs[i]) + msg_text(
        Seq::<Seq<NodeView>>::empty(),
    ));
    assert(seg_text(segs[i]) + Seq::<char>::empty() =~= seg_text(segs[i]));
}

/// If a segment of a message is invalid, the message is invalid.
proof fn lemma_msg_valid_index(segs: Seq<Seq<NodeView>>, i: int)
    requires
        0 <= i < segs.len(),
        !nodes_valid(segs[i]),
    ensures
        !msg_valid(segs),
    decreases segs.len(),
{
    if i == 0 {
    } else {
        lemma_msg_valid_index(segs.drop_first(), i - 1);
    }
}

} // verus!
