//! Tests of message assembly, size patch-back, dialog sequencing and the
//! transport wrapping.

use base64::Engine;
use fints::data_types::{WireDate, WireTime};
use fints::dialog::{Dialog, SyncResponse, TransportOutcome};
use fints::messages::{prepare_wire_message, wire_format, Message, Msg_DialogInit, Msg_DialogSync};
use fints::se::Error;
use fints::wire::{De, Node, WireMessage, WireSegment};
use fints::PinTanClient;

const TOKEN: &str = "AAAABBBBCCCCDD";

fn test_date() -> WireDate {
    WireDate {
        year: 2019,
        month: 3,
        day: 13,
    }
}

fn test_time() -> WireTime {
    WireTime {
        hour: 10,
        minute: 28,
        second: 45,
    }
}

fn sample_sync() -> Msg_DialogSync {
    Msg_DialogSync::with_parts(12345678, "test1", "1234", "0", 1, TOKEN, test_date(), test_time())
        .unwrap()
}

#[test]
fn end_to_end_scenario() {
    let m = sample_sync();
    let wire = wire_format(&m).unwrap();
    let segments: Vec<&str> = wire.split('\'').collect();
    // The split leaves one empty tail after the last terminator.
    assert_eq!(segments.len(), 8);
    assert_eq!(segments[7], "");
    assert_eq!(
        segments[0],
        format!("HNHBK:1:3+{:012}+300+0+1", wire.len())
    );
    assert_eq!(
        segments[1],
        format!(
            "HNSHK:2:4+PIN:1+999+{}+1+1+1::0+1+1:20190313:102845+1:999:1+6:10:16+280:12345678:test1:S:0:0",
            TOKEN
        )
    );
    assert_eq!(segments[2], "HKIDN:3:2+280:12345678+test1+0+1");
    assert_eq!(segments[3], "HKVVB:4:3+0+0+1+fints-rs+0.1");
    assert_eq!(segments[4], "HKSYN:5:3+0");
    assert_eq!(segments[5], format!("HNSHA:6:2+{}++1234", TOKEN));
    assert_eq!(segments[6], "HNHBS:7:1+1");
}

#[test]
fn size_patch_back_reaches_fixed_point() {
    let m = sample_sync();
    let wire = wire_format(&m).unwrap();
    // The declared size field is the second field of the first segment and
    // must equal the byte length of the final encoding.
    let head = wire.split('\'').next().unwrap();
    let declared: Vec<&str> = head.split('+').collect();
    assert_eq!(declared[1].len(), 12);
    assert_eq!(declared[1].parse::<u64>().unwrap(), wire.len() as u64);
    // Re-assembling with the measured size declared up front changes nothing:
    // the fixed point is reached after one patch iteration.
    let mut again = sample_sync();
    again.message_head.message_size = wire.len() as u64;
    assert_eq!(wire_format(&again).unwrap(), wire);
}

#[test]
fn segment_numbering_is_sequential() {
    let m = sample_sync();
    let wire = wire_format(&m).unwrap();
    let mut expected: u64 = 1;
    for seg in wire.split('\'') {
        if seg.is_empty() {
            continue;
        }
        let head: Vec<&str> = seg.split('+').next().unwrap().split(':').collect();
        assert_eq!(head[1].parse::<u64>().unwrap(), expected);
        expected += 1;
    }
    assert_eq!(expected, 8);
}

#[test]
fn init_message_numbering_and_shape() {
    let m = Msg_DialogInit::with_parts(
        12345678,
        "test1",
        "1234",
        "SYSID42",
        2,
        TOKEN,
        test_date(),
        test_time(),
    )
    .unwrap();
    let wire = wire_format(&m).unwrap();
    let segments: Vec<&str> = wire.split('\'').collect();
    assert_eq!(segments.len(), 7);
    assert_eq!(
        segments[0],
        format!("HNHBK:1:3+{:012}+300+0+2", wire.len())
    );
    assert_eq!(segments[2], "HKIDN:3:2+280:12345678+test1+SYSID42+1");
    assert_eq!(segments[4], format!("HNSHA:5:2+{}++1234", TOKEN));
    assert_eq!(segments[5], "HNHBS:6:1+2");
}

#[test]
fn security_reference_is_shared_within_a_message() {
    let m = Msg_DialogSync::new(12345678, "test1", "1234", "0", 1).unwrap();
    assert_eq!(m.signature_head.security_reference, m.signature_end.security_reference);
}

#[test]
fn security_reference_is_fresh_per_message() {
    let a = Msg_DialogSync::new(12345678, "test1", "1234", "0", 1).unwrap();
    let b = Msg_DialogSync::new(12345678, "test1", "1234", "0", 1).unwrap();
    assert_ne!(a.signature_head.security_reference, b.signature_head.security_reference);
}

#[test]
fn security_reference_is_fourteen_alphanumerics() {
    let m = Msg_DialogSync::new(12345678, "test1", "1234", "0", 1).unwrap();
    let token = &m.signature_head.security_reference;
    assert_eq!(token.len(), 14);
    assert!(token.chars().all(|c| c.is_ascii_alphanumeric()));
}

#[test]
fn security_date_is_stamped_in_range() {
    let m = Msg_DialogSync::new(12345678, "test1", "1234", "0", 1).unwrap();
    let d = m.signature_head.security_date.date;
    let t = m.signature_head.security_date.time;
    assert!(d.year >= 2020 && d.year <= 9999);
    assert!((1..=12).contains(&d.month));
    assert!((1..=31).contains(&d.day));
    assert!(t.hour <= 23 && t.minute <= 59 && t.second <= 59);
}

#[test]
fn empty_identity_inputs_are_rejected() {
    assert_eq!(
        Msg_DialogSync::new(12345678, "", "1234", "0", 1).unwrap_err(),
        Error::InvalidInput
    );
    assert_eq!(
        Msg_DialogSync::new(12345678, "test1", "", "0", 1).unwrap_err(),
        Error::InvalidInput
    );
    assert_eq!(
        Msg_DialogSync::new(0, "test1", "1234", "0", 1).unwrap_err(),
        Error::InvalidInput
    );
    assert_eq!(
        Msg_DialogInit::new(12345678, "test1", "1234", "", 1).unwrap_err(),
        Error::InvalidInput
    );
}

#[test]
fn message_without_size_slot_cannot_be_prepared() {
    let m = WireMessage {
        segments: vec![WireSegment {
            fields: vec![Node::Leaf(De::Num(1)), Node::Leaf(De::Num(2))],
        }],
    };
    assert_eq!(prepare_wire_message(m), Err(Error::SchemaViolation));
}

#[test]
fn transport_wrapping_is_base64() {
    let m = sample_sync();
    let wire = wire_format(&m).unwrap();
    let wrapped = m.prepare_message_for_sending().unwrap();
    let unwrapped = base64::engine::general_purpose::STANDARD
        .decode(wrapped.as_bytes())
        .unwrap();
    assert_eq!(unwrapped, wire.as_bytes());
    assert_ne!(wrapped, wire);
}

#[test]
fn dialog_starts_at_the_sentinel_state() {
    let d = Dialog::new(12345678, "test1", "1234");
    assert_eq!(d.customer_system_id, "0");
    assert_eq!(d.message_no, 1);
    assert!(d.tan_methods.is_empty());
}

#[test]
fn dialog_counter_advances_only_on_confirmed_send() {
    let mut d = Dialog::new(12345678, "test1", "1234");
    // A failed transport leaves counter and customer-system id unchanged.
    d.apply_outcome(TransportOutcome::Failed);
    assert_eq!(d.message_no, 1);
    assert_eq!(d.customer_system_id, "0");
    // A confirmed synchronize advances the counter by exactly one and takes
    // over the assigned identifier.
    d.apply_outcome(TransportOutcome::DeliveredSync(SyncResponse {
        customer_system_id: String::from("SYSID42"),
        tan_methods: vec![String::from("942")],
    }));
    assert_eq!(d.message_no, 2);
    assert_eq!(d.customer_system_id, "SYSID42");
    assert_eq!(d.tan_methods, vec![String::from("942")]);
    // A confirmed initialize advances the counter again.
    d.apply_outcome(TransportOutcome::Delivered);
    assert_eq!(d.message_no, 3);
    assert_eq!(d.customer_system_id, "SYSID42");
}

#[test]
fn dialog_builds_messages_from_its_state() {
    let mut d = Dialog::new(12345678, "test1", "1234");
    let sync = d.get_sync_message().unwrap();
    assert_eq!(sync.message_head.message_no, 1);
    assert_eq!(sync.identification.customer_system_id, "0");
    d.apply_outcome(TransportOutcome::DeliveredSync(SyncResponse {
        customer_system_id: String::from("SYSID42"),
        tan_methods: Vec::new(),
    }));
    let init = d.init().unwrap();
    assert_eq!(init.message_head.message_no, 2);
    assert_eq!(init.identification.customer_system_id, "SYSID42");
}

#[test]
fn client_hands_out_dialogs_and_accounts() {
    let client = PinTanClient {
        url: String::from("http://127.0.0.1:3000/cgi-bin/hbciservlet"),
        bank_code: 12345678,
        username: String::from("test1"),
        pin: String::from("1234"),
    };
    let d = client.new_dialog();
    assert_eq!(d.bank_code, 12345678);
    assert_eq!(d.message_no, 1);
    let accounts = client.get_accounts();
    assert_eq!(accounts.len(), 1);
}
