//! Tests of the escaping utility, numeric rendering and the wire-format
//! encoder on hand-built trees.

use fints::escape::{escape_fints, unescape_fints};
use fints::numbers::{u64_dec_padded, u64_dec_text};
use fints::se::{to_string, Error};
use fints::wire::{De, Node, WireMessage, WireSegment};

fn one_segment_message(fields: Vec<Node>) -> WireMessage {
    WireMessage {
        segments: vec![WireSegment { fields }],
    }
}

#[test]
fn escape_round_trip_samples() {
    let samples = [
        "",
        "plain text",
        "a?b",
        "a+b:c@d",
        "????",
        "?+:@",
        "ends with ?",
        "umlaut äöü and ? mark",
    ];
    for s in samples {
        assert_eq!(unescape_fints(&escape_fints(s)), s);
    }
}

#[test]
fn escape_prefixes_each_reserved_character() {
    assert_eq!(escape_fints("a?b"), "a??b");
    assert_eq!(escape_fints("a+b"), "a?+b");
    assert_eq!(escape_fints("a:b"), "a?:b");
    assert_eq!(escape_fints("a@b"), "a?@b");
    assert_eq!(escape_fints("?+:@"), "???+?:?@");
    assert_eq!(escape_fints("none"), "none");
}

#[test]
fn unescape_removes_exactly_one_prefix() {
    assert_eq!(unescape_fints("a??b"), "a?b");
    assert_eq!(unescape_fints("???+"), "?+");
    // A lone question mark before an unreserved character passes through.
    assert_eq!(unescape_fints("a?b"), "a?b");
}

#[test]
fn decimal_rendering() {
    assert_eq!(u64_dec_text(0), "0");
    assert_eq!(u64_dec_text(7), "7");
    assert_eq!(u64_dec_text(12345), "12345");
    assert_eq!(u64_dec_text(u64::MAX), "18446744073709551615");
    assert_eq!(u64_dec_padded(42, 12), "000000000042");
    assert_eq!(u64_dec_padded(0, 4), "0000");
    assert_eq!(u64_dec_padded(123456, 4), "123456");
}

#[test]
fn deg_inside_segment_uses_colons() {
    // A group of three data elements renders "1:2:3"; as the only field of
    // its segment, the terminator follows directly.
    let m = one_segment_message(vec![Node::Group(vec![
        Node::Leaf(De::Num(1)),
        Node::Leaf(De::Num(2)),
        Node::Leaf(De::Num(3)),
    ])]);
    assert_eq!(to_string(&m).unwrap(), "1:2:3'");
}

#[test]
fn segment_fields_use_plus_and_terminator() {
    let m = one_segment_message(vec![Node::Leaf(De::Num(1)), Node::Leaf(De::Num(2))]);
    assert_eq!(to_string(&m).unwrap(), "1+2'");
}

#[test]
fn nested_group_shares_colon_delimiting() {
    // A group inside a group flattens into one colon-joined run.
    let m = one_segment_message(vec![Node::Group(vec![
        Node::Leaf(De::Num(1)),
        Node::Group(vec![Node::Leaf(De::Num(2)), Node::Leaf(De::Num(3))]),
        Node::Leaf(De::Num(4)),
    ])]);
    assert_eq!(to_string(&m).unwrap(), "1:2:3:4'");
}

#[test]
fn absent_field_keeps_its_delimiter_slot() {
    let m = one_segment_message(vec![
        Node::Leaf(De::Num(1)),
        Node::Leaf(De::Empty),
        Node::Leaf(De::Num(3)),
    ]);
    assert_eq!(to_string(&m).unwrap(), "1++3'");
}

#[test]
fn trailing_absent_fields_are_dropped() {
    let m = one_segment_message(vec![
        Node::Leaf(De::Num(1)),
        Node::Leaf(De::Num(2)),
        Node::Leaf(De::Empty),
        Node::Leaf(De::Empty),
    ]);
    assert_eq!(to_string(&m).unwrap(), "1+2'");
}

#[test]
fn segments_concatenate_without_separator() {
    let m = WireMessage {
        segments: vec![
            WireSegment {
                fields: vec![Node::Leaf(De::Num(1)), Node::Leaf(De::Num(2))],
            },
            WireSegment {
                fields: vec![Node::Leaf(De::Num(3))],
            },
        ],
    };
    let s = to_string(&m).unwrap();
    assert_eq!(s, "1+2'3'");
    // Every non-empty segment ends with exactly one terminator.
    assert_eq!(s.matches('\'').count(), 2);
}

#[test]
fn empty_segment_renders_nothing() {
    let m = WireMessage {
        segments: vec![
            WireSegment {
                fields: vec![Node::Leaf(De::Empty)],
            },
            WireSegment {
                fields: vec![Node::Leaf(De::Num(5))],
            },
        ],
    };
    assert_eq!(to_string(&m).unwrap(), "5'");
}

#[test]
fn text_fields_are_escaped_on_the_wire() {
    let m = one_segment_message(vec![
        Node::Leaf(De::Text(String::from("a+b"))),
        Node::Leaf(De::Text(String::from("c:d"))),
    ]);
    assert_eq!(to_string(&m).unwrap(), "a?+b+c?:d'");
}

#[test]
fn date_and_time_render_fixed_width() {
    let m = one_segment_message(vec![
        Node::Leaf(De::Date(2019, 3, 13)),
        Node::Leaf(De::Time(10, 28, 45)),
        Node::Leaf(De::Time(9, 5, 0)),
    ]);
    assert_eq!(to_string(&m).unwrap(), "20190313+102845+090500'");
}

#[test]
fn textual_blob_passes_through_unescaped() {
    let m = one_segment_message(vec![Node::Leaf(De::Binary(b"a+b".to_vec()))]);
    // Blobs are raw text placements: no escaping is applied.
    assert_eq!(to_string(&m).unwrap(), "a+b'");
}

#[test]
fn non_textual_blob_is_a_schema_violation() {
    let m = one_segment_message(vec![Node::Leaf(De::Binary(vec![0xff, 0xfe]))]);
    assert_eq!(to_string(&m), Err(Error::SchemaViolation));
}

#[test]
fn test_message_serialize() {
    // Smoke test: a fixed-width size slot next to plain fields.
    let m = one_segment_message(vec![
        Node::Leaf(De::Token(String::from("HNHBK"))),
        Node::Leaf(De::NumFixed(31, 12)),
        Node::Leaf(De::Num(300)),
    ]);
    assert_eq!(to_string(&m).unwrap(), "HNHBK+000000000031+300'");
}

#[test]
fn it_works() {
    assert_eq!(2 + 2, 4);
}
