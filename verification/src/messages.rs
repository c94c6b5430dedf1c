//! Message assembly: building the synchronize and initialize messages of the
//! dialog handshake and preparing them for transport.
//!
//! Preparation follows a fixed algorithm shared by every message shape:
//! encode once, measure the byte length, patch the message head's
//! twelve-digit size field with it, encode again, and wrap the result in the
//! transport's binary-safe encoding.

use base64::Engine;
use chrono::{Datelike, Timelike};
use rand::distr::SampleString;
use vstd::prelude::*;

verus! {

use crate::data_types::{
    CustomerSystemStatus, DateIdentifier, DialogLang, HashAlgorithm,
    HashAlgorithmParameterIdentifier, KeyType, OperationMode, SecurityArea, SecurityFunction,
    SecurityMethodCode, SecurityPartyIdentifier, SecurityRole, SignatureAlgorithm,
    SynchronizationMode, UseOfHashAlgorithm, UseOfSignatureAlgorithm, WireDate, WireTime,
    DEG_HashAlgorithm, DEG_InstituteIdentifier, DEG_KeyName, DEG_SecurityDate,
    DEG_SecurityIdentificationDetails, DEG_SecurityProfile, DEG_SegmentHead,
    DEG_SignatureAlgorithm, DEG_UserDefinedSignature,
};
use crate::numbers::pow10;
use crate::se::{to_string, Error};
use crate::segments::{
    lemma_identification_valid, lemma_message_end_valid, lemma_message_head_valid,
    lemma_processing_preparation_valid, lemma_signature_end_valid, lemma_signature_head_valid,
    lemma_synchronization_valid, Seg_HKIDN_Identification, Seg_HKISA_RequestForPubkey,
    Seg_HKSYN_Synchronization, Seg_HKTAN_TwoStepTanSubmission, Seg_HKVVB_ProcessingPreparation,
    Seg_HNHBK_MessageHead, Seg_HNHBS_MessageEnd, Seg_HNSHA_SignatureEnd, Seg_HNSHK_SignatureHead,
};
use crate::sizing::{
    byte_len, declared_size, has_size_slot, is_size_slot, lemma_patch_size_valid,
    lemma_size_patch_fixed_point, msg_bytes, patch_size,
};
use crate::wire::{
    lemma_msg_valid_iff, lemma_nodes_view, lemma_segs_view, msg_text, msg_valid, msg_view,
    node_view, nodes_valid, nodes_view, seg_view, segs_view, De, DeView, Node, NodeView,
    WireMessage, WireSegment,
};
use vstd::string::StringExecFns;

/// A character of the alphanumeric ASCII alphabet that security-reference
/// tokens are drawn from.
pub open spec fn is_alphanumeric_char(c: char) -> bool {
    ('0' <= c && c <= '9') || ('A' <= c && c <= 'Z') || ('a' <= c && c <= 'z')
}

/// Relies on rand's `Alphanumeric` distribution: `sample_string` returns
/// exactly the requested number of characters, each drawn from the ASCII
/// digits and letters.  Nothing else is assumed of the randomness, so two
/// calls may or may not agree.
#[verifier::external_body]
fn random_security_reference() -> (r: String)
    ensures
        r@.len() == 14,
        forall|i: int| 0 <= i < r@.len() ==> is_alphanumeric_char(#[trigger] r@[i]),
{
    rand::distr::Alphanumeric.sample_string(&mut rand::rng(), 14)
}

/// Relies on chrono's `Local::now` and its calendar accessors: the month is
/// in 1..=12, the day in 1..=31, the hour below 24, minute and second below
/// 60.  Nothing is assumed of the year beyond what the clock returns.
#[verifier::external_body]
fn local_now_parts() -> (r: (i64, u32, u32, u32, u32, u32))
    ensures
        1 <= r.1 <= 12,
        1 <= r.2 <= 31,
        r.3 <= 23,
        r.4 <= 59,
        r.5 <= 59,
{
    let now = chrono::Local::now().naive_local();
    (
        now.year() as i64,
        now.month(),
        now.day(),
        now.hour(),
        now.minute(),
        now.second(),
    )
}

/// The transport's binary-safe wrapping of a wire text; the result is a
/// function of the text alone.
pub uninterp spec fn transport_wrap_of(s: Seq<char>) -> Seq<char>;

/// Relies on base64's standard-alphabet `encode`: a pure function of the
/// input bytes, named by `transport_wrap_of`.
#[verifier::external_body]
fn transport_wrap(s: &str) -> (r: String)
    ensures
        r@ == transport_wrap_of(s@),
{
    base64::engine::general_purpose::STANDARD.encode(s.as_bytes())
}

/// A message tree can be prepared for sending when it carries a size slot in
/// the message head, every leaf renders, and the measured byte length fits
/// the twelve-digit slot.
pub open spec fn preparable(m: Seq<Seq<NodeView>>) -> bool {
    has_size_slot(m) && msg_valid(m) && msg_bytes(patch_size(m, 0)) < pow10(12)
}

/// The final wire text of a prepared message: the size slot patched with the
/// byte length measured from a placeholder encoding.
pub open spec fn prepared_text(m: Seq<Seq<NodeView>>) -> Seq<char> {
    msg_text(patch_size(m, msg_bytes(patch_size(m, 0))))
}

/// Overwrite the message head's size slot with `v`.
fn set_size_slot(w: &mut WireMessage, v: u64)
    requires
        old(w).segments@.len() > 0,
        old(w).segments@[0].fields@.len() > 1,
    ensures
        msg_view(*final(w)) == patch_size(msg_view(*old(w)), v as nat),
        final(w).segments@.len() == old(w).segments@.len(),
        final(w).segments@[0].fields@.len() == old(w).segments@[0].fields@.len(),
{
    let ghost old_segs = w.segments@;
    let ghost old_fields = w.segments@[0].fields@;
    let node = Node::Leaf(De::NumFixed(v, 12));
    w.segments[0].fields[1] = node;
    proof {
        assert(w.segments@[0].fields@ == old_fields.update(
            1,
            Node::Leaf(De::NumFixed(v, 12)),
        ));
        assert(w.segments@ == old_segs.update(0, w.segments@[0]));
        lemma_segs_view(old_segs);
        lemma_segs_view(w.segments@);
        lemma_nodes_view(old_fields);
        lemma_nodes_view(w.segments@[0].fields@);
        let slot = NodeView::Leaf(DeView::NumFixed { value: v as nat, width: 12 });
        assert(nodes_view(w.segments@[0].fields@) =~= nodes_view(old_fields).update(1, slot));
        assert(segs_view(w.segments@) =~= segs_view(old_segs).update(
            0,
            nodes_view(old_fields).update(1, slot),
        ));
    }
}

/// Resolve the declared message size and produce the final wire text:
/// encode once with a zeroed size slot, measure the byte length, patch the
/// slot, and encode again.  The result's declared size equals its own byte
/// length; failure reports exactly the trees that cannot be prepared.
pub fn prepare_wire_message(m: WireMessage) -> (r: Result<String, Error>)
    ensures
        match r {
            Ok(s) => preparable(msg_view(m)) && s@ == prepared_text(msg_view(m)) && byte_len(s@)
                == declared_size(patch_size(msg_view(m), msg_bytes(patch_size(msg_view(m), 0)))),
            Err(e) => !preparable(msg_view(m)) && e == Error::SchemaViolation,
        },
{
    let ghost mv = msg_view(m);
    let mut w = m;
    proof {
        lemma_segs_view(w.segments@);
        reveal_with_fuel(pow10, 13);
        assert(pow10(12) == 1000000000000);
    }

    // The message head must carry the twelve-digit size slot.
    if w.segments.len() == 0 {
        return Err(Error::SchemaViolation);
    }
    if w.segments[0].fields.len() <= 1 {
        proof {
            lemma_nodes_view(w.segments@[0].fields@);
        }
        return Err(Error::SchemaViolation);
    }
    proof {
        lemma_nodes_view(w.segments@[0].fields@);
        assert(mv[0] == seg_view(w.segments@[0]));
        assert(mv[0][1] == node_view(w.segments@[0].fields@[1]));
    }
    let shape_ok: bool = match &w.segments[0].fields[1] {
        Node::Leaf(De::NumFixed(_, width)) => *width == 12,
        _ => false,
    };
    if !shape_ok {
        proof {
            assert(!is_size_slot(mv[0][1]));
        }
        return Err(Error::SchemaViolation);
    }
    proof {
        assert(is_size_slot(mv[0][1]));
        assert(has_size_slot(mv));
    }

    // First pass: zero the slot and encode to measure the byte length.
    set_size_slot(&mut w, 0);
    proof {
        assert(msg_view(w) == patch_size(mv, 0));
        lemma_patch_size_valid(mv, 0);
    }
    let first = match to_string(&w) {
        Ok(s) => s,
        Err(e) => {
            return Err(e);
        },
    };
    let measured = first.as_str().as_bytes().len();
    proof {
        assert(measured as nat == byte_len(first@));
        assert(byte_len(first@) == msg_bytes(patch_size(mv, 0)));
    }
    if measured as u64 >= 1000000000000u64 {
        return Err(Error::SchemaViolation);
    }

    // Second pass: patch the measured size back and encode the final text.
    set_size_slot(&mut w, measured as u64);
    proof {
        assert(patch_size(patch_size(mv, 0), measured as nat) =~= patch_size(
            mv,
            measured as nat,
        )) by {
            assert(patch_size(mv, 0)[0].update(
                1,
                NodeView::Leaf(DeView::NumFixed { value: measured as nat, width: 12 }),
            ) =~= mv[0].update(
                1,
                NodeView::Leaf(DeView::NumFixed { value: measured as nat, width: 12 }),
            ));
        }
        assert(msg_view(w) == patch_size(mv, measured as nat));
        lemma_patch_size_valid(mv, measured as nat);
    }
    match to_string(&w) {
        Ok(s) => {
            proof {
                lemma_size_patch_fixed_point(mv);
            }
            Ok(s)
        },
        Err(e) => {
            proof {
                assert(false);
            }
            Err(e)
        },
    }
}

/// The uniform interface of a complete protocol message: its structural tree
/// and the shared send-preparation algorithm.
pub trait Message {
    /// The segments of this message, in wire order.
    spec fn wire_view(&self) -> Seq<Seq<NodeView>>;

    /// Convert to the generic wire tree that the encoder walks.
    fn to_wire(&self) -> (r: WireMessage)
        ensures
            msg_view(r) == self.wire_view(),
    ;

    /// Take care of everything the message needs for sending: resolve the
    /// declared size by the two-pass patch-back, then wrap the final wire
    /// text in the transport's binary-safe encoding.
    fn prepare_message_for_sending(&self) -> (r: Result<String, Error>)
        ensures
            match r {
                Ok(s) => preparable(self.wire_view()) && s@ == transport_wrap_of(
                    prepared_text(self.wire_view()),
                ),
                Err(e) => !preparable(self.wire_view()) && e == Error::SchemaViolation,
            },
    ;
}

/// The final wire text of a message: encoded, measured, size patched back,
/// re-encoded.  This is the canonical text form before transport wrapping.
pub fn wire_format<M: Message>(m: &M) -> (r: Result<String, Error>)
    ensures
        match r {
            Ok(s) => preparable(m.wire_view()) && s@ == prepared_text(m.wire_view()) && byte_len(
                s@,
            ) == declared_size(
                patch_size(m.wire_view(), msg_bytes(patch_size(m.wire_view(), 0))),
            ),
            Err(e) => !preparable(m.wire_view()) && e == Error::SchemaViolation,
        },
{
    prepare_wire_message(m.to_wire())
}

/// An optional string field holding exactly the text `s`.
pub open spec fn opt_string_is(o: Option<String>, s: Seq<char>) -> bool {
    match o {
        Some(t) => t@ == s,
        None => false,
    }
}

/// The identity inputs a message can be assembled from: a non-zero bank
/// code and non-empty username, pin and customer-system identifier.
pub open spec fn valid_dialog_inputs(
    bank_code: u32,
    username: Seq<char>,
    pin: Seq<char>,
    customer_system_id: Seq<char>,
) -> bool {
    bank_code > 0 && username.len() > 0 && pin.len() > 0 && customer_system_id.len() > 0
}

/// A segment head with the given identifier, number and version, and no
/// reference segment.
pub open spec fn wf_segment_head(
    h: DEG_SegmentHead,
    identifier: Seq<char>,
    segment_no: u16,
    version: u16,
) -> bool {
    h.identifier@ == identifier && h.segment_no == segment_no && h.version == version
        && h.reference_seg is None
}

/// The message head an assembled message starts from: size still zero (to be
/// patched at send time), protocol version 300, dialog id `0`.
pub open spec fn wf_message_head(s: Seg_HNHBK_MessageHead, message_no: u16) -> bool {
    wf_segment_head(s.segment_head, "HNHBK"@, 1, 3) && s.message_size == 0 && s.hbci_version
        == 300 && s.dialog_id@ == "0"@ && s.message_no == message_no && s.reference_msg is None
}

/// The key name of the dialog's signing key.
pub open spec fn wf_key_name(k: DEG_KeyName, bank_code: u32, username: Seq<char>) -> bool {
    k.institute_identifier.country_code@ == "280"@ && k.institute_identifier.bank_code == bank_code
        && k.user_id@ == username && k.key_type == KeyType::S && k.key_no == 0 && k.key_version
        == 0
}

/// The signature head of an assembled message: single-step PIN/TAN
/// authentication, stamped with `date` and `time`, correlated by `token`.
pub open spec fn wf_signature_head(
    s: Seg_HNSHK_SignatureHead,
    segment_no: u16,
    bank_code: u32,
    username: Seq<char>,
    customer_system_id: Seq<char>,
    token: Seq<char>,
    date: WireDate,
    time: WireTime,
) -> bool {
    &&& wf_segment_head(s.segment_head, "HNSHK"@, segment_no, 4)
    &&& s.security_profile.security_method_code == SecurityMethodCode::PIN
    &&& s.security_profile.version == 1
    &&& s.security_function == SecurityFunction::SingleStepAuth
    &&& s.security_reference@ == token
    &&& s.security_area == SecurityArea::SHM
    &&& s.security_role == SecurityRole::ISS
    &&& s.security_identification_details.security_party_identifier
        == SecurityPartyIdentifier::MS
    &&& s.security_identification_details.cardholder_identification is None
    &&& opt_string_is(s.security_identification_details.party_identifier, customer_system_id)
    &&& s.security_ref_no == 1
    &&& s.security_date.date_identifier == DateIdentifier::STS
    &&& s.security_date.date == date
    &&& s.security_date.time == time
    &&& s.hash_algorithm.use_of_hash_algorithm == UseOfHashAlgorithm::OHA
    &&& s.hash_algorithm.hash_algorithm == HashAlgorithm::MutuallyAgreed
    &&& s.hash_algorithm.hash_algorithm_param_identifier
        == HashAlgorithmParameterIdentifier::IVC
    &&& s.hash_algorithm.param_value is None
    &&& s.signature_algorithm.use_of_signature_algorithm == UseOfSignatureAlgorithm::OSG
    &&& s.signature_algorithm.signature_algorithm == SignatureAlgorithm::RSA
    &&& s.signature_algorithm.operation_mode == OperationMode::ISO_97961
    &&& wf_key_name(s.key_name, bank_code, username)
    &&& s.certificate is None
}

/// The identification segment of an assembled message.
pub open spec fn wf_identification(
    s: Seg_HKIDN_Identification,
    segment_no: u16,
    bank_code: u32,
    username: Seq<char>,
    customer_system_id: Seq<char>,
) -> bool {
    &&& wf_segment_head(s.segment_head, "HKIDN"@, segment_no, 2)
    &&& s.institute_identifier.country_code@ == "280"@
    &&& s.institute_identifier.bank_code == bank_code
    &&& s.customer_id@ == username
    &&& s.customer_system_id@ == customer_system_id
    &&& s.customer_system_status == CustomerSystemStatus::Required
}

/// The processing-preparation segment of an assembled message.
pub open spec fn wf_processing_preparation(
    s: Seg_HKVVB_ProcessingPreparation,
    segment_no: u16,
) -> bool {
    &&& wf_segment_head(s.segment_head, "HKVVB"@, segment_no, 3)
    &&& s.bpd_version == 0
    &&& s.upd_version == 0
    &&& s.dialog_lang == DialogLang::de
    &&& s.product_identifier@ == "fints-rs"@
    &&& s.product_version@ == "0.1"@
}

/// The synchronization segment of an assembled synchronize message.
pub open spec fn wf_synchronization(s: Seg_HKSYN_Synchronization, segment_no: u16) -> bool {
    wf_segment_head(s.segment_head, "HKSYN"@, segment_no, 3) && s.synchronization_mode
        == SynchronizationMode::ReportNewCustomerSystemId
}

/// The signature end of an assembled message: repeats `token` and carries
/// the PIN as the user-defined signature.
pub open spec fn wf_signature_end(
    s: Seg_HNSHA_SignatureEnd,
    segment_no: u16,
    pin: Seq<char>,
    token: Seq<char>,
) -> bool {
    &&& wf_segment_head(s.segment_head, "HNSHA"@, segment_no, 2)
    &&& s.security_reference@ == token
    &&& s.validation_result is None
    &&& match s.user_defined_signature {
        Some(u) => u.PIN@ == pin && u.TAN is None,
        None => false,
    }
}

/// The message end of an assembled message.
pub open spec fn wf_message_end(s: Seg_HNHBS_MessageEnd, segment_no: u16, message_no: u16) -> bool {
    wf_segment_head(s.segment_head, "HNHBS"@, segment_no, 1) && s.message_no == message_no
}

/// The dialog-synchronize message: sent first in a conversation to have the
/// bank assign a customer-system identifier.
#[allow(non_camel_case_types)]
#[derive(Clone, Debug)]
pub struct Msg_DialogSync {
    pub message_head: Seg_HNHBK_MessageHead,
    pub signature_head: Seg_HNSHK_SignatureHead,
    pub identification: Seg_HKIDN_Identification,
    pub processing_preparation: Seg_HKVVB_ProcessingPreparation,
    pub two_step_tan_submission: Option<Seg_HKTAN_TwoStepTanSubmission>,
    pub request_for_pubkey: Option<Seg_HKISA_RequestForPubkey>,
    pub synchronization: Seg_HKSYN_Synchronization,
    pub signature_end: Seg_HNSHA_SignatureEnd,
    pub message_end: Seg_HNHBS_MessageEnd,
}

/// A fully assembled synchronize message: every segment populated as the
/// handshake requires, numbered 1 through 7 in structural order, with the
/// security-reference `token` shared between signature head and end.
pub open spec fn wf_sync(
    m: Msg_DialogSync,
    bank_code: u32,
    username: Seq<char>,
    pin: Seq<char>,
    customer_system_id: Seq<char>,
    message_no: u16,
    token: Seq<char>,
    date: WireDate,
    time: WireTime,
) -> bool {
    &&& wf_message_head(m.message_head, message_no)
    &&& wf_signature_head(
        m.signature_head,
        2,
        bank_code,
        username,
        customer_system_id,
        token,
        date,
        time,
    )
    &&& wf_identification(m.identification, 3, bank_code, username, customer_system_id)
    &&& wf_processing_preparation(m.processing_preparation, 4)
    &&& m.two_step_tan_submission is None
    &&& m.request_for_pubkey is None
    &&& wf_synchronization(m.synchronization, 5)
    &&& wf_signature_end(m.signature_end, 6, pin, token)
    &&& wf_message_end(m.message_end, 7, message_no)
}

/// Build the signature head shared by the handshake messages.
fn build_signature_head(
    segment_no: u16,
    bank_code: u32,
    username: &str,
    customer_system_id: &str,
    security_reference: &str,
    date: WireDate,
    time: WireTime,
) -> (r: Seg_HNSHK_SignatureHead)
    ensures
        wf_signature_head(
            r,
            segment_no,
            bank_code,
            username@,
            customer_system_id@,
            security_reference@,
            date,
            time,
        ),
{
    Seg_HNSHK_SignatureHead {
        segment_head: DEG_SegmentHead {
            identifier: String::from_str("HNSHK"),
            segment_no,
            version: 4,
            reference_seg: None,
        },
        security_profile: DEG_SecurityProfile {
            security_method_code: SecurityMethodCode::PIN,
            version: 1,
        },
        security_function: SecurityFunction::SingleStepAuth,
        security_reference: String::from_str(security_reference),
        security_area: SecurityArea::SHM,
        security_role: SecurityRole::ISS,
        security_identification_details: DEG_SecurityIdentificationDetails {
            security_party_identifier: SecurityPartyIdentifier::MS,
            cardholder_identification: None,
            party_identifier: Some(String::from_str(customer_system_id)),
        },
        security_ref_no: 1,
        security_date: DEG_SecurityDate { date_identifier: DateIdentifier::STS, date, time },
        hash_algorithm: DEG_HashAlgorithm {
            use_of_hash_algorithm: UseOfHashAlgorithm::OHA,
            hash_algorithm: HashAlgorithm::MutuallyAgreed,
            hash_algorithm_param_identifier: HashAlgorithmParameterIdentifier::IVC,
            param_value: None,
        },
        signature_algorithm: DEG_SignatureAlgorithm {
            use_of_signature_algorithm: UseOfSignatureAlgorithm::OSG,
            signature_algorithm: SignatureAlgorithm::RSA,
            operation_mode: OperationMode::ISO_97961,
        },
        key_name: DEG_KeyName {
            institute_identifier: DEG_InstituteIdentifier {
                country_code: String::from_str("280"),
                bank_code,
            },
            user_id: String::from_str(username),
            key_type: KeyType::S,
            key_no: 0,
            key_version: 0,
        },
        certificate: None,
    }
}

impl Msg_DialogSync {
    /// Assemble a synchronize message from explicit parts: the identity
    /// inputs, the security-reference token and the timestamp.  Fails with
    /// `InvalidInput` exactly when an identity input is empty or the bank
    /// code is zero.
    pub fn with_parts(
        bank_code: u32,
        username: &str,
        pin: &str,
        customer_system_id: &str,
        message_no: u16,
        security_reference: &str,
        date: WireDate,
        time: WireTime,
    ) -> (r: Result<Msg_DialogSync, Error>)
        ensures
            match r {
                Ok(m) => valid_dialog_inputs(bank_code, username@, pin@, customer_system_id@)
                    && wf_sync(
                    m,
                    bank_code,
                    username@,
                    pin@,
                    customer_system_id@,
                    message_no,
                    security_reference@,
                    date,
                    time,
                ),
                Err(e) => !valid_dialog_inputs(bank_code, username@, pin@, customer_system_id@)
                    && e == Error::InvalidInput,
            },
    {
        if bank_code == 0 || username.is_empty() || pin.is_empty()
            || customer_system_id.is_empty() {
            return Err(Error::InvalidInput);
        }
        let message_head = Seg_HNHBK_MessageHead {
            segment_head: DEG_SegmentHead {
                identifier: String::from_str("HNHBK"),
                segment_no: 1,
                version: 3,
                reference_seg: None,
            },
            message_size: 0,
            hbci_version: 300,
            dialog_id: String::from_str("0"),
            message_no,
            reference_msg: None,
        };
        let signature_head = build_signature_head(
            2,
            bank_code,
            username,
            customer_system_id,
            security_reference,
            date,
            time,
        );
        let identification = Seg_HKIDN_Identification {
            segment_head: DEG_SegmentHead {
                identifier: String::from_str("HKIDN"),
                segment_no: 3,
                version: 2,
                reference_seg: None,
            },
            institute_identifier: DEG_InstituteIdentifier {
                country_code: String::from_str("280"),
                bank_code,
            },
            customer_id: String::from_str(username),
            customer_system_id: String::from_str(customer_system_id),
            customer_system_status: CustomerSystemStatus::Required,
        };
        let processing_preparation = Seg_HKVVB_ProcessingPreparation {
            segment_head: DEG_SegmentHead {
                identifier: String::from_str("HKVVB"),
                segment_no: 4,
                version: 3,
                reference_seg: None,
            },
            bpd_version: 0,
            upd_version: 0,
            dialog_lang: DialogLang::de,
            product_identifier: String::from_str("fints-rs"),
            product_version: String::from_str("0.1"),
        };
        let synchronization = Seg_HKSYN_Synchronization {
            segment_head: DEG_SegmentHead {
                identifier: String::from_str("HKSYN"),
                segment_no: 5,
                version: 3,
                reference_seg: None,
            },
            synchronization_mode: SynchronizationMode::ReportNewCustomerSystemId,
        };
        let signature_end = Seg_HNSHA_SignatureEnd {
            segment_head: DEG_SegmentHead {
                identifier: String::from_str("HNSHA"),
                segment_no: 6,
                version: 2,
                reference_seg: None,
            },
            security_reference: String::from_str(security_reference),
            validation_result: None,
            user_defined_signature: Some(
                DEG_UserDefinedSignature { PIN: String::from_str(pin), TAN: None },
            ),
        };
        let message_end = Seg_HNHBS_MessageEnd {
            segment_head: DEG_SegmentHead {
                identifier: String::from_str("HNHBS"),
                segment_no: 7,
                version: 1,
                reference_seg: None,
            },
            message_no,
        };
        Ok(
            Msg_DialogSync {
                message_head,
                signature_head,
                identification,
                processing_preparation,
                two_step_tan_submission: None,
                request_for_pubkey: None,
                synchronization,
                signature_end,
                message_end,
            },
        )
    }

    /// Assemble a synchronize message: draw a fresh security-reference
    /// token, stamp the current local date and time, and populate every
    /// segment.  Fails with `InvalidInput` exactly when an identity input is
    /// empty or the bank code is zero.
    pub fn new(
        bank_code: u32,
        username: &str,
        pin: &str,
        customer_system_id: &str,
        message_no: u16,
    ) -> (r: Result<Msg_DialogSync, Error>)
        ensures
            match r {
                Ok(m) => valid_dialog_inputs(bank_code, username@, pin@, customer_system_id@)
                    && wf_sync(
                    m,
                    bank_code,
                    username@,
                    pin@,
                    customer_system_id@,
                    message_no,
                    m.signature_head.security_reference@,
                    m.signature_head.security_date.date,
                    m.signature_head.security_date.time,
                ) && m.signature_head.security_reference@.len() == 14 && (forall|i: int|
                    0 <= i < 14 ==> is_alphanumeric_char(
                        #[trigger] m.signature_head.security_reference@[i],
                    )) && m.signature_head.security_date.date.wf()
                    && m.signature_head.security_date.time.wf(),
                Err(e) => !valid_dialog_inputs(bank_code, username@, pin@, customer_system_id@)
                    && e == Error::InvalidInput,
            },
    {
        let token = random_security_reference();
        let now = local_now_parts();
        let date = WireDate::clamped(now.0, now.1, now.2);
        let time = WireTime::clamped(now.3, now.4, now.5);
        Msg_DialogSync::with_parts(
            bank_code,
            username,
            pin,
            customer_system_id,
            message_no,
            token.as_str(),
            date,
            time,
        )
    }
}

/// The segment numbers of a synchronize message, in structural order.
pub open spec fn sync_segment_numbers(m: Msg_DialogSync) -> Seq<nat> {
    seq![
        m.message_head.segment_head.segment_no as nat,
        m.signature_head.segment_head.segment_no as nat,
        m.identification.segment_head.segment_no as nat,
        m.processing_preparation.segment_head.segment_no as nat,
        m.synchronization.segment_head.segment_no as nat,
        m.signature_end.segment_head.segment_no as nat,
        m.message_end.segment_head.segment_no as nat,
    ]
}

/// Segment numbering and security-reference correlation of an assembled
/// synchronize message: its segment numbers are 1, 2, ..., 7 in structural
/// order with no gaps or repeats, and its signature head and signature end
/// share one security-reference token.
pub proof fn lemma_sync_message_laws(
    m: Msg_DialogSync,
    bank_code: u32,
    username: Seq<char>,
    pin: Seq<char>,
    customer_system_id: Seq<char>,
    message_no: u16,
    token: Seq<char>,
    date: WireDate,
    time: WireTime,
)
    requires
        wf_sync(m, bank_code, username, pin, customer_system_id, message_no, token, date, time),
    ensures
        sync_segment_numbers(m).len() == 7,
        forall|i: int|
            0 <= i < sync_segment_numbers(m).len() ==> #[trigger] sync_segment_numbers(m)[i] == i
                + 1,
        m.signature_head.security_reference@ == m.signature_end.security_reference@,
{
    assert(forall|i: int|
        0 <= i < sync_segment_numbers(m).len() ==> #[trigger] sync_segment_numbers(m)[i] == i + 1);
}

/// An assembled synchronize message always renders: its wire tree carries
/// the twelve-digit size slot in its message head and every leaf can be
/// rendered, so encoding it cannot fail.
pub proof fn lemma_sync_renderable(
    m: Msg_DialogSync,
    bank_code: u32,
    username: Seq<char>,
    pin: Seq<char>,
    customer_system_id: Seq<char>,
    message_no: u16,
    token: Seq<char>,
    date: WireDate,
    time: WireTime,
)
    requires
        wf_sync(m, bank_code, username, pin, customer_system_id, message_no, token, date, time),
    ensures
        has_size_slot(m.wire_view()),
        msg_valid(m.wire_view()),
{
    let mv = m.wire_view();
    assert(mv =~= seq![
        m.message_head.view_fields(),
        m.signature_head.view_fields(),
        m.identification.view_fields(),
        m.processing_preparation.view_fields(),
        m.synchronization.view_fields(),
        m.signature_end.view_fields(),
        m.message_end.view_fields(),
    ]);
    assert(mv[0][1] == NodeView::Leaf(
        DeView::NumFixed { value: m.message_head.message_size as nat, width: 12 },
    ));
    lemma_msg_valid_iff(mv);
    lemma_message_head_valid(m.message_head);
    lemma_signature_head_valid(m.signature_head);
    lemma_identification_valid(m.identification);
    lemma_processing_preparation_valid(m.processing_preparation);
    lemma_synchronization_valid(m.synchronization);
    lemma_signature_end_valid(m.signature_end);
    lemma_message_end_valid(m.message_end);
    assert forall|i: int| 0 <= i < mv.len() implies nodes_valid(#[trigger] mv[i]) by {}
}

/// The dialog-initialize message: opens a dialog once a customer-system
/// identifier is known.
#[allow(non_camel_case_types)]
#[derive(Clone, Debug)]
pub struct Msg_DialogInit {
    pub message_head: Seg_HNHBK_MessageHead,
    pub signature_head: Seg_HNSHK_SignatureHead,
    pub identification: Seg_HKIDN_Identification,
    pub processing_preparation: Seg_HKVVB_ProcessingPreparation,
    pub two_step_tan_submission: Option<Seg_HKTAN_TwoStepTanSubmission>,
    pub request_for_pubkey: Option<Seg_HKISA_RequestForPubkey>,
    pub signature_end: Seg_HNSHA_SignatureEnd,
    pub message_end: Seg_HNHBS_MessageEnd,
}

/// A fully assembled initialize message: every segment populated as the
/// handshake requires, numbered 1 through 6 in structural order, with the
/// security-reference `token` shared between signature head and end.
pub open spec fn wf_init(
    m: Msg_DialogInit,
    bank_code: u32,
    username: Seq<char>,
    pin: Seq<char>,
    customer_system_id: Seq<char>,
    message_no: u16,
    token: Seq<char>,
    date: WireDate,
    time: WireTime,
) -> bool {
    &&& wf_message_head(m.message_head, message_no)
    &&& wf_signature_head(
        m.signature_head,
        2,
        bank_code,
        username,
        customer_system_id,
        token,
        date,
        time,
    )
    &&& wf_identification(m.identification, 3, bank_code, username, customer_system_id)
    &&& wf_processing_preparation(m.processing_preparation, 4)
    &&& m.two_step_tan_submission is None
    &&& m.request_for_pubkey is None
    &&& wf_signature_end(m.signature_end, 5, pin, token)
    &&& wf_message_end(m.message_end, 6, message_no)
}

impl Msg_DialogInit {
    /// Assemble an initialize message from explicit parts.  Fails with
    /// `InvalidInput` exactly when an identity input is empty or the bank
    /// code is zero.
    pub fn with_parts(
        bank_code: u32,
        username: &str,
        pin: &str,
        customer_system_id: &str,
        message_no: u16,
        security_reference: &str,
        date: WireDate,
        time: WireTime,
    ) -> (r: Result<Msg_DialogInit, Error>)
        ensures
            match r {
                Ok(m) => valid_dialog_inputs(bank_code, username@, pin@, customer_system_id@)
                    && wf_init(
                    m,
                    bank_code,
                    username@,
                    pin@,
                    customer_system_id@,
                    message_no,
                    security_reference@,
                    date,
                    time,
                ),
                Err(e) => !valid_dialog_inputs(bank_code, username@, pin@, customer_system_id@)
                    && e == Error::InvalidInput,
            },
    {
        if bank_code == 0 || username.is_empty() || pin.is_empty()
            || customer_system_id.is_empty() {
            return Err(Error::InvalidInput);
        }
        let message_head = Seg_HNHBK_MessageHead {
            segment_head: DEG_SegmentHead {
                identifier: String::from_str("HNHBK"),
                segment_no: 1,
                version: 3,
                reference_seg: None,
            },
            message_size: 0,
            hbci_version: 300,
            dialog_id: String::from_str("0"),
            message_no,
            reference_msg: None,
        };
        let signature_head = build_signature_head(
            2,
            bank_code,
            username,
            customer_system_id,
            security_reference,
            date,
            time,
        );
        let identification = Seg_HKIDN_Identification {
            segment_head: DEG_SegmentHead {
                identifier: String::from_str("HKIDN"),
                segment_no: 3,
                version: 2,
                reference_seg: None,
            },
            institute_identifier: DEG_InstituteIdentifier {
                country_code: String::from_str("280"),
                bank_code,
            },
            customer_id: String::from_str(username),
            customer_system_id: String::from_str(customer_system_id),
            customer_system_status: CustomerSystemStatus::Required,
        };
        let processing_preparation = Seg_HKVVB_ProcessingPreparation {
            segment_head: DEG_SegmentHead {
                identifier: String::from_str("HKVVB"),
                segment_no: 4,
                version: 3,
                reference_seg: None,
            },
            bpd_version: 0,
            upd_version: 0,
            dialog_lang: DialogLang::de,
            product_identifier: String::from_str("fints-rs"),
            product_version: String::from_str("0.1"),
        };
        let signature_end = Seg_HNSHA_SignatureEnd {
            segment_head: DEG_SegmentHead {
                identifier: String::from_str("HNSHA"),
                segment_no: 5,
                version: 2,
                reference_seg: None,
            },
            security_reference: String::from_str(security_reference),
            validation_result: None,
            user_defined_signature: Some(
                DEG_UserDefinedSignature { PIN: String::from_str(pin), TAN: None },
            ),
        };
        let message_end = Seg_HNHBS_MessageEnd {
            segment_head: DEG_SegmentHead {
                identifier: String::from_str("HNHBS"),
                segment_no: 6,
                version: 1,
                reference_seg: None,
            },
            message_no,
        };
        Ok(
            Msg_DialogInit {
                message_head,
                signature_head,
                identification,
                processing_preparation,
                two_step_tan_submission: None,
                request_for_pubkey: None,
                signature_end,
                message_end,
            },
        )
    }

    /// Assemble an initialize message: draw a fresh security-reference
    /// token, stamp the current local date and time, and populate every
    /// segment.  Fails with `InvalidInput` exactly when an identity input is
    /// empty or the bank code is zero.
    pub fn new(
        bank_code: u32,
        username: &str,
        pin: &str,
        customer_system_id: &str,
        message_no: u16,
    ) -> (r: Result<Msg_DialogInit, Error>)
        ensures
            match r {
                Ok(m) => valid_dialog_inputs(bank_code, username@, pin@, customer_system_id@)
                    && wf_init(
                    m,
                    bank_code,
                    username@,
                    pin@,
                    customer_system_id@,
                    message_no,
                    m.signature_head.security_reference@,
                    m.signature_head.security_date.date,
                    m.signature_head.security_date.time,
                ) && m.signature_head.security_reference@.len() == 14 && (forall|i: int|
                    0 <= i < 14 ==> is_alphanumeric_char(
                        #[trigger] m.signature_head.security_reference@[i],
                    )) && m.signature_head.security_date.date.wf()
                    && m.signature_head.security_date.time.wf(),
                Err(e) => !valid_dialog_inputs(bank_code, username@, pin@, customer_system_id@)
                    && e == Error::InvalidInput,
            },
    {
        let token = random_security_reference();
        let now = local_now_parts();
        let date = WireDate::clamped(now.0, now.1, now.2);
        let time = WireTime::clamped(now.3, now.4, now.5);
        Msg_DialogInit::with_parts(
            bank_code,
            username,
            pin,
            customer_system_id,
            message_no,
            token.as_str(),
            date,
            time,
        )
    }
}

/// The segment numbers of an initialize message, in structural order.
pub open spec fn init_segment_numbers(m: Msg_DialogInit) -> Seq<nat> {
    seq![
        m.message_head.segment_head.segment_no as nat,
        m.signature_head.segment_head.segment_no as nat,
        m.identification.segment_head.segment_no as nat,
        m.processing_preparation.segment_head.segment_no as nat,
        m.signature_end.segment_head.segment_no as nat,
        m.message_end.segment_head.segment_no as nat,
    ]
}

/// Segment numbering and security-reference correlation of an assembled
/// initialize message: its segment numbers are 1, 2, ..., 6 in structural
/// order with no gaps or repeats, and its signature head and signature end
/// share one security-reference token.
pub proof fn lemma_init_message_laws(
    m: Msg_DialogInit,
    bank_code: u32,
    username: Seq<char>,
    pin: Seq<char>,
    customer_system_id: Seq<char>,
    message_no: u16,
    token: Seq<char>,
    date: WireDate,
    time: WireTime,
)
    requires
        wf_init(m, bank_code, username, pin, customer_system_id, message_no, token, date, time),
    ensures
        init_segment_numbers(m).len() == 6,
        forall|i: int|
            0 <= i < init_segment_numbers(m).len() ==> #[trigger] init_segment_numbers(m)[i] == i
                + 1,
        m.signature_head.security_reference@ == m.signature_end.security_reference@,
{
    assert(forall|i: int|
        0 <= i < init_segment_numbers(m).len() ==> #[trigger] init_segment_numbers(m)[i] == i + 1);
}

/// An assembled initialize message always renders: its wire tree carries
/// the twelve-digit size slot in its message head and every leaf can be
/// rendered, so encoding it cannot fail.
pub proof fn lemma_init_renderable(
    m: Msg_DialogInit,
    bank_code: u32,
    username: Seq<char>,
    pin: Seq<char>,
    customer_system_id: Seq<char>,
    message_no: u16,
    token: Seq<char>,
    date: WireDate,
    time: WireTime,
)
    requires
        wf_init(m, bank_code, username, pin, customer_system_id, message_no, token, date, time),
    ensures
        has_size_slot(m.wire_view()),
        msg_valid(m.wire_view()),
{
    let mv = m.wire_view();
    assert(mv =~= seq![
        m.message_head.view_fields(),
        m.signature_head.view_fields(),
        m.identification.view_fields(),
        m.processing_preparation.view_fields(),
        m.signature_end.view_fields(),
        m.message_end.view_fields(),
    ]);
    assert(mv[0][1] == NodeView::Leaf(
        DeView::NumFixed { value: m.message_head.message_size as nat, width: 12 },
    ));
    lemma_msg_valid_iff(mv);
    lemma_message_head_valid(m.message_head);
    lemma_signature_head_valid(m.signature_head);
    lemma_identification_valid(m.identification);
    lemma_processing_preparation_valid(m.processing_preparation);
    lemma_signature_end_valid(m.signature_end);
    lemma_message_end_valid(m.message_end);
    assert forall|i: int| 0 <= i < mv.len() implies nodes_valid(#[trigger] mv[i]) by {}
}

impl Message for Msg_DialogSync {
    /// The synchronize message's segments: the two optional segments join
    /// the sequence only when present.
    open spec fn wire_view(&self) -> Seq<Seq<NodeView>> {
        seq![
            self.message_head.view_fields(),
            self.signature_head.view_fields(),
            self.identification.view_fields(),
            self.processing_preparation.view_fields(),
        ] + (match self.two_step_tan_submission {
            Some(t) => seq![t.view_fields()],
            None => Seq::<Seq<NodeView>>::empty(),
        }) + (match self.request_for_pubkey {
            Some(t) => seq![t.view_fields()],
            None => Seq::<Seq<NodeView>>::empty(),
        }) + seq![
            self.synchronization.view_fields(),
            self.signature_end.view_fields(),
            self.message_end.view_fields(),
        ]
    }

    fn to_wire(&self) -> (r: WireMessage) {
        let mut segments: Vec<WireSegment> = Vec::new();
        segments.push(self.message_head.to_wire_segment());
        segments.push(self.signature_head.to_wire_segment());
        segments.push(self.identification.to_wire_segment());
        segments.push(self.processing_preparation.to_wire_segment());
        match &self.two_step_tan_submission {
            Some(t) => segments.push(t.to_wire_segment()),
            None => (),
        }
        match &self.request_for_pubkey {
            Some(t) => segments.push(t.to_wire_segment()),
            None => (),
        }
        segments.push(self.synchronization.to_wire_segment());
        segments.push(self.signature_end.to_wire_segment());
        segments.push(self.message_end.to_wire_segment());
        let r = WireMessage { segments };
        proof {
            lemma_segs_view(r.segments@);
            assert(segs_view(r.segments@) =~= self.wire_view());
        }
        r
    }

    fn prepare_message_for_sending(&self) -> (r: Result<String, Error>) {
        match prepare_wire_message(self.to_wire()) {
            Ok(s) => Ok(transport_wrap(s.as_str())),
            Err(e) => Err(e),
        }
    }
}

impl Message for Msg_DialogInit {
    /// The initialize message's segments: the two optional segments join
    /// the sequence only when present.
    open spec fn wire_view(&self) -> Seq<Seq<NodeView>> {
        seq![
            self.message_head.view_fields(),
            self.signature_head.view_fields(),
            self.identification.view_fields(),
            self.processing_preparation.view_fields(),
        ] + (match self.two_step_tan_submission {
            Some(t) => seq![t.view_fields()],
            None => Seq::<Seq<NodeView>>::empty(),
        }) + (match self.request_for_pubkey {
            Some(t) => seq![t.view_fields()],
            None => Seq::<Seq<NodeView>>::empty(),
        }) + seq![self.signature_end.view_fields(), self.message_end.view_fields()]
    }

    fn to_wire(&self) -> (r: WireMessage) {
        let mut segments: Vec<WireSegment> = Vec::new();
        segments.push(self.message_head.to_wire_segment());
        segments.push(self.signature_head.to_wire_segment());
        segments.push(self.identification.to_wire_segment());
        segments.push(self.processing_preparation.to_wire_segment());
        match &self.two_step_tan_submission {
            Some(t) => segments.push(t.to_wire_segment()),
            None => (),
        }
        match &self.request_for_pubkey {
            Some(t) => segments.push(t.to_wire_segment()),
            None => (),
        }
        segments.push(self.signature_end.to_wire_segment());
        segments.push(self.message_end.to_wire_segment());
        let r = WireMessage { segments };
        proof {
            lemma_segs_view(r.segments@);
            assert(segs_view(r.segments@) =~= self.wire_view());
        }
        r
    }

    fn prepare_message_for_sending(&self) -> (r: Result<String, Error>) {
        match prepare_wire_message(self.to_wire()) {
            Ok(s) => Ok(transport_wrap(s.as_str())),
            Err(e) => Err(e),
        }
    }
}

} // verus!
