//! The closed catalog of segment shapes used by message assembly.
//!
//! Each segment is a fixed-arity tuple whose first member is always the
//! segment head; field order is part of the wire contract.

use vstd::prelude::*;

verus! {

use crate::data_types::{
    opt_binary_node, opt_binary_to_node, opt_text_node, opt_text_to_node, CustomerSystemStatus,
    DEG_AccountInternationalIssuer, DEG_Certificate, DEG_HashAlgorithm, DEG_InstituteIdentifier,
    DEG_KeyName, DEG_SecurityDate, DEG_SecurityIdentificationDetails, DEG_SecurityProfile,
    DEG_SegmentHead, DEG_SignatureAlgorithm, DEG_UserDefinedSignature, DialogLang,
    FunctionTypeIdentifier, MessageRelationship, ReferenceMessage, SecurityArea, SecurityFunction,
    SecurityRole, SynchronizationMode, TanProcess,
};
use crate::data_types::{
    lemma_hash_algorithm_valid, lemma_institute_identifier_valid, lemma_reference_message_valid,
    lemma_security_date_valid, lemma_security_identification_details_valid,
    lemma_security_profile_valid, lemma_segment_head_valid, lemma_signature_algorithm_valid,
    lemma_key_name_valid, lemma_user_defined_signature_valid,
};
use crate::wire::{
    lemma_nodes_valid, lemma_nodes_view, node_valid, nodes_valid, nodes_view, seg_view, De, DeView,
    Node, NodeView, WireSegment,
};

/// The wire tree of an optional reference-message group.
pub open spec fn opt_reference_msg_node(o: Option<ReferenceMessage>) -> NodeView {
    match o {
        Some(m) => m.view_node(),
        None => NodeView::Leaf(DeView::Empty),
    }
}

/// Convert an optional reference-message group.
pub fn opt_reference_msg_to_node(o: &Option<ReferenceMessage>) -> (r: Node)
    ensures
        crate::wire::node_view(r) == opt_reference_msg_node(*o),
{
    match o {
        Some(m) => m.to_node(),
        None => Node::Leaf(De::Empty),
    }
}

/// The wire tree of an optional certificate group.
pub open spec fn opt_certificate_node(o: Option<DEG_Certificate>) -> NodeView {
    match o {
        Some(c) => c.view_node(),
        None => NodeView::Leaf(DeView::Empty),
    }
}

/// Convert an optional certificate group.
pub fn opt_certificate_to_node(o: &Option<DEG_Certificate>) -> (r: Node)
    ensures
        crate::wire::node_view(r) == opt_certificate_node(*o),
{
    match o {
        Some(c) => c.to_node(),
        None => Node::Leaf(De::Empty),
    }
}

/// Message head (`HNHBK`): declared byte size, protocol version, dialog
/// identifier, message number, optional reference message.
#[allow(non_camel_case_types)]
#[derive(Clone, Debug)]
pub struct Seg_HNHBK_MessageHead {
    pub segment_head: DEG_SegmentHead,
    /// Declared total byte size of the message, a twelve-digit zero-padded
    /// field patched in after a first encoding pass.
    pub message_size: u64,
    pub hbci_version: u16,
    pub dialog_id: String,
    pub message_no: u16,
    pub reference_msg: Option<ReferenceMessage>,
}

impl Seg_HNHBK_MessageHead {
    /// The field list of this segment.
    pub open spec fn view_fields(self) -> Seq<NodeView> {
        seq![
            self.segment_head.view_node(),
            NodeView::Leaf(DeView::NumFixed { value: self.message_size as nat, width: 12 }),
            NodeView::Leaf(DeView::Num(self.hbci_version as nat)),
            NodeView::Leaf(DeView::Text(self.dialog_id@)),
            NodeView::Leaf(DeView::Num(self.message_no as nat)),
            opt_reference_msg_node(self.reference_msg),
        ]
    }

    /// Convert to the generic wire tree.
    pub fn to_wire_segment(&self) -> (r: WireSegment)
        ensures
            seg_view(r) == self.view_fields(),
    {
        let fields: Vec<Node> = vec![
            self.segment_head.to_node(),
            Node::Leaf(De::NumFixed(self.message_size, 12)),
            Node::Leaf(De::Num(self.hbci_version as u64)),
            Node::Leaf(De::Text(self.dialog_id.clone())),
            Node::Leaf(De::Num(self.message_no as u64)),
            opt_reference_msg_to_node(&self.reference_msg),
        ];
        let ghost fs = fields@;
        proof {
            lemma_nodes_view(fs);
            assert(nodes_view(fs) =~= self.view_fields());
        }
        WireSegment { fields }
    }
}

/// Every leaf of a message head renders.
pub proof fn lemma_message_head_valid(s: Seg_HNHBK_MessageHead)
    ensures
        nodes_valid(s.view_fields()),
{
    let ch = s.view_fields();
    lemma_nodes_valid(ch);
    lemma_segment_head_valid(s.segment_head);
    if s.reference_msg is Some {
        lemma_reference_message_valid(s.reference_msg->0);
    }
    assert forall|i: int| 0 <= i < ch.len() implies node_valid(#[trigger] ch[i]) by {}
}

/// Signature head (`HNSHK`): the first half of the signature envelope.
#[allow(non_camel_case_types)]
#[derive(Clone, Debug)]
pub struct Seg_HNSHK_SignatureHead {
    pub segment_head: DEG_SegmentHead,
    pub security_profile: DEG_SecurityProfile,
    pub security_function: SecurityFunction,
    /// Random alphanumeric token shared with the signature end of the same
    /// message.
    pub security_reference: String,
    pub security_area: SecurityArea,
    pub security_role: SecurityRole,
    pub security_identification_details: DEG_SecurityIdentificationDetails,
    pub security_ref_no: u64,
    pub security_date: DEG_SecurityDate,
    pub hash_algorithm: DEG_HashAlgorithm,
    pub signature_algorithm: DEG_SignatureAlgorithm,
    pub key_name: DEG_KeyName,
    pub certificate: Option<DEG_Certificate>,
}

impl Seg_HNSHK_SignatureHead {
    /// The field list of this segment.
    pub open spec fn view_fields(self) -> Seq<NodeView> {
        seq![
            self.segment_head.view_node(),
            self.security_profile.view_node(),
            NodeView::Leaf(DeView::Num(self.security_function.wire_code_spec() as nat)),
            NodeView::Leaf(DeView::Text(self.security_reference@)),
            NodeView::Leaf(DeView::Num(self.security_area.wire_code_spec() as nat)),
            NodeView::Leaf(DeView::Num(self.security_role.wire_code_spec() as nat)),
            self.security_identification_details.view_node(),
            NodeView::Leaf(DeView::Num(self.security_ref_no as nat)),
            self.security_date.view_node(),
            self.hash_algorithm.view_node(),
            self.signature_algorithm.view_node(),
            self.key_name.view_node(),
            opt_certificate_node(self.certificate),
        ]
    }

    /// Convert to the generic wire tree.
    pub fn to_wire_segment(&self) -> (r: WireSegment)
        ensures
            seg_view(r) == self.view_fields(),
    {
        let fields: Vec<Node> = vec![
            self.segment_head.to_node(),
            self.security_profile.to_node(),
            Node::Leaf(De::Num(self.security_function.wire_code())),
            Node::Leaf(De::Text(self.security_reference.clone())),
            Node::Leaf(De::Num(self.security_area.wire_code())),
            Node::Leaf(De::Num(self.security_role.wire_code())),
            self.security_identification_details.to_node(),
            Node::Leaf(De::Num(self.security_ref_no)),
            self.security_date.to_node(),
            self.hash_algorithm.to_node(),
            self.signature_algorithm.to_node(),
            self.key_name.to_node(),
            opt_certificate_to_node(&self.certificate),
        ];
        let ghost fs = fields@;
        proof {
            lemma_nodes_view(fs);
            assert(nodes_view(fs) =~= self.view_fields());
        }
        WireSegment { fields }
    }
}

/// Every leaf of a signature head renders when it carries no byte blobs.
pub proof fn lemma_signature_head_valid(s: Seg_HNSHK_SignatureHead)
    requires
        s.security_identification_details.cardholder_identification is None,
        s.hash_algorithm.param_value is None,
        s.certificate is None,
    ensures
        nodes_valid(s.view_fields()),
{
    let ch = s.view_fields();
    lemma_nodes_valid(ch);
    lemma_segment_head_valid(s.segment_head);
    lemma_security_profile_valid(s.security_profile);
    lemma_security_identification_details_valid(s.security_identification_details);
    lemma_security_date_valid(s.security_date);
    lemma_hash_algorithm_valid(s.hash_algorithm);
    lemma_signature_algorithm_valid(s.signature_algorithm);
    lemma_key_name_valid(s.key_name);
    assert forall|i: int| 0 <= i < ch.len() implies node_valid(#[trigger] ch[i]) by {}
}

/// Message end (`HNHBS`): repeats the message number.
#[allow(non_camel_case_types)]
#[derive(Clone, Debug)]
pub struct Seg_HNHBS_MessageEnd {
    pub segment_head: DEG_SegmentHead,
    pub message_no: u16,
}

impl Seg_HNHBS_MessageEnd {
    /// The field list of this segment.
    pub open spec fn view_fields(self) -> Seq<NodeView> {
        seq![
            self.segment_head.view_node(),
            NodeView::Leaf(DeView::Num(self.message_no as nat)),
        ]
    }

    /// Convert to the generic wire tree.
    pub fn to_wire_segment(&self) -> (r: WireSegment)
        ensures
            seg_view(r) == self.view_fields(),
    {
        let fields: Vec<Node> = vec![
            self.segment_head.to_node(),
            Node::Leaf(De::Num(self.message_no as u64)),
        ];
        let ghost fs = fields@;
        proof {
            lemma_nodes_view(fs);
            assert(nodes_view(fs) =~= self.view_fields());
        }
        WireSegment { fields }
    }
}

/// Every leaf of a message end renders.
pub proof fn lemma_message_end_valid(s: Seg_HNHBS_MessageEnd)
    ensures
        nodes_valid(s.view_fields()),
{
    let ch = s.view_fields();
    lemma_nodes_valid(ch);
    lemma_segment_head_valid(s.segment_head);
    assert forall|i: int| 0 <= i < ch.len() implies node_valid(#[trigger] ch[i]) by {}
}

/// Identification (`HKIDN`): who is talking to which institute.
#[allow(non_camel_case_types)]
#[derive(Clone, Debug)]
pub struct Seg_HKIDN_Identification {
    pub segment_head: DEG_SegmentHead,
    pub institute_identifier: DEG_InstituteIdentifier,
    pub customer_id: String,
    pub customer_system_id: String,
    pub customer_system_status: CustomerSystemStatus,
}

impl Seg_HKIDN_Identification {
    /// The field list of this segment.
    pub open spec fn view_fields(self) -> Seq<NodeView> {
        seq![
            self.segment_head.view_node(),
            self.institute_identifier.view_node(),
            NodeView::Leaf(DeView::Text(self.customer_id@)),
            NodeView::Leaf(DeView::Text(self.customer_system_id@)),
            NodeView::Leaf(DeView::Num(self.customer_system_status.wire_code_spec() as nat)),
        ]
    }

    /// Convert to the generic wire tree.
    pub fn to_wire_segment(&self) -> (r: WireSegment)
        ensures
            seg_view(r) == self.view_fields(),
    {
        let fields: Vec<Node> = vec![
            self.segment_head.to_node(),
            self.institute_identifier.to_node(),
            Node::Leaf(De::Text(self.customer_id.clone())),
            Node::Leaf(De::Text(self.customer_system_id.clone())),
            Node::Leaf(De::Num(self.customer_system_status.wire_code())),
        ];
        let ghost fs = fields@;
        proof {
            lemma_nodes_view(fs);
            assert(nodes_view(fs) =~= self.view_fields());
        }
        WireSegment { fields }
    }
}

/// Every leaf of an identification segment renders.
pub proof fn lemma_identification_valid(s: Seg_HKIDN_Identification)
    ensures
        nodes_valid(s.view_fields()),
{
    let ch = s.view_fields();
    lemma_nodes_valid(ch);
    lemma_segment_head_valid(s.segment_head);
    lemma_institute_identifier_valid(s.institute_identifier);
    assert forall|i: int| 0 <= i < ch.len() implies node_valid(#[trigger] ch[i]) by {}
}

/// Processing preparation (`HKVVB`): client capabilities and identity of the
/// product speaking the protocol.
#[allow(non_camel_case_types)]
#[derive(Clone, Debug)]
pub struct Seg_HKVVB_ProcessingPreparation {
    pub segment_head: DEG_SegmentHead,
    pub bpd_version: u16,
    pub upd_version: u16,
    pub dialog_lang: DialogLang,
    pub product_identifier: String,
    pub product_version: String,
}

impl Seg_HKVVB_ProcessingPreparation {
    /// The field list of this segment.
    pub open spec fn view_fields(self) -> Seq<NodeView> {
        seq![
            self.segment_head.view_node(),
            NodeView::Leaf(DeView::Num(self.bpd_version as nat)),
            NodeView::Leaf(DeView::Num(self.upd_version as nat)),
            NodeView::Leaf(DeView::Num(self.dialog_lang.wire_code_spec() as nat)),
            NodeView::Leaf(DeView::Text(self.product_identifier@)),
            NodeView::Leaf(DeView::Text(self.product_version@)),
        ]
    }

    /// Convert to the generic wire tree.
    pub fn to_wire_segment(&self) -> (r: WireSegment)
        ensures
            seg_view(r) == self.view_fields(),
    {
        let fields: Vec<Node> = vec![
            self.segment_head.to_node(),
            Node::Leaf(De::Num(self.bpd_version as u64)),
            Node::Leaf(De::Num(self.upd_version as u64)),
            Node::Leaf(De::Num(self.dialog_lang.wire_code())),
            Node::Leaf(De::Text(self.product_identifier.clone())),
            Node::Leaf(De::Text(self.product_version.clone())),
        ];
        let ghost fs = fields@;
        proof {
            lemma_nodes_view(fs);
            assert(nodes_view(fs) =~= self.view_fields());
        }
        WireSegment { fields }
    }
}

/// Every leaf of a processing-preparation segment renders.
pub proof fn lemma_processing_preparation_valid(s: Seg_HKVVB_ProcessingPreparation)
    ensures
        nodes_valid(s.view_fields()),
{
    let ch = s.view_fields();
    lemma_nodes_valid(ch);
    lemma_segment_head_valid(s.segment_head);
    assert forall|i: int| 0 <= i < ch.len() implies node_valid(#[trigger] ch[i]) by {}
}

/// Two-step TAN submission (`HKTAN`).
#[allow(non_camel_case_types)]
#[derive(Clone, Debug)]
pub struct Seg_HKTAN_TwoStepTanSubmission {
    pub segment_head: DEG_SegmentHead,
    pub tan_process: TanProcess,
    pub segment_identifier: Option<String>,
    pub account_international_issuer: Option<DEG_AccountInternationalIssuer>,
    pub job_hash_value: Option<Vec<u8>>,
    pub job_reference: Option<String>,
}

/// The wire tree of an optional international account group.
pub open spec fn opt_account_node(o: Option<DEG_AccountInternationalIssuer>) -> NodeView {
    match o {
        Some(a) => a.view_node(),
        None => NodeView::Leaf(DeView::Empty),
    }
}

/// Convert an optional international account group.
pub fn opt_account_to_node(o: &Option<DEG_AccountInternationalIssuer>) -> (r: Node)
    ensures
        crate::wire::node_view(r) == opt_account_node(*o),
{
    match o {
        Some(a) => a.to_node(),
        None => Node::Leaf(De::Empty),
    }
}

impl Seg_HKTAN_TwoStepTanSubmission {
    /// The field list of this segment.
    pub open spec fn view_fields(self) -> Seq<NodeView> {
        seq![
            self.segment_head.view_node(),
            NodeView::Leaf(DeView::Num(self.tan_process.wire_code_spec() as nat)),
            opt_text_node(self.segment_identifier),
            opt_account_node(self.account_international_issuer),
            opt_binary_node(self.job_hash_value),
            opt_text_node(self.job_reference),
        ]
    }

    /// Convert to the generic wire tree.
    pub fn to_wire_segment(&self) -> (r: WireSegment)
        ensures
            seg_view(r) == self.view_fields(),
    {
        let fields: Vec<Node> = vec![
            self.segment_head.to_node(),
            Node::Leaf(De::Num(self.tan_process.wire_code())),
            opt_text_to_node(&self.segment_identifier),
            opt_account_to_node(&self.account_international_issuer),
            opt_binary_to_node(&self.job_hash_value),
            opt_text_to_node(&self.job_reference),
        ];
        let ghost fs = fields@;
        proof {
            lemma_nodes_view(fs);
            assert(nodes_view(fs) =~= self.view_fields());
        }
        WireSegment { fields }
    }
}

/// Request for a public key (`HKISA`).
#[allow(non_camel_case_types)]
#[derive(Clone, Debug)]
pub struct Seg_HKISA_RequestForPubkey {
    pub segment_head: DEG_SegmentHead,
    pub message_relationship: MessageRelationship,
    pub function_type_identifier: FunctionTypeIdentifier,
    pub security_profile: DEG_SecurityProfile,
    pub key_name: DEG_KeyName,
    pub certificate: Option<DEG_Certificate>,
}

impl Seg_HKISA_RequestForPubkey {
    /// The field list of this segment.
    pub open spec fn view_fields(self) -> Seq<NodeView> {
        seq![
            self.segment_head.view_node(),
            NodeView::Leaf(DeView::Num(self.message_relationship.wire_code_spec() as nat)),
            NodeView::Leaf(DeView::Num(self.function_type_identifier.wire_code_spec() as nat)),
            self.security_profile.view_node(),
            self.key_name.view_node(),
            opt_certificate_node(self.certificate),
        ]
    }

    /// Convert to the generic wire tree.
    pub fn to_wire_segment(&self) -> (r: WireSegment)
        ensures
            seg_view(r) == self.view_fields(),
    {
        let fields: Vec<Node> = vec![
            self.segment_head.to_node(),
            Node::Leaf(De::Num(self.message_relationship.wire_code())),
            Node::Leaf(De::Num(self.function_type_identifier.wire_code())),
            self.security_profile.to_node(),
            self.key_name.to_node(),
            opt_certificate_to_node(&self.certificate),
        ];
        let ghost fs = fields@;
        proof {
            lemma_nodes_view(fs);
            assert(nodes_view(fs) =~= self.view_fields());
        }
        WireSegment { fields }
    }
}

/// Synchronization (`HKSYN`): asks the bank for a customer-system id.
#[allow(non_camel_case_types)]
#[derive(Clone, Debug)]
pub struct Seg_HKSYN_Synchronization {
    pub segment_head: DEG_SegmentHead,
    pub synchronization_mode: SynchronizationMode,
}

impl Seg_HKSYN_Synchronization {
    /// The field list of this segment.
    pub open spec fn view_fields(self) -> Seq<NodeView> {
        seq![
            self.segment_head.view_node(),
            NodeView::Leaf(DeView::Num(self.synchronization_mode.wire_code_spec() as nat)),
        ]
    }

    /// Convert to the generic wire tree.
    pub fn to_wire_segment(&self) -> (r: WireSegment)
        ensures
            seg_view(r) == self.view_fields(),
    {
        let fields: Vec<Node> = vec![
            self.segment_head.to_node(),
            Node::Leaf(De::Num(self.synchronization_mode.wire_code())),
        ];
        let ghost fs = fields@;
        proof {
            lemma_nodes_view(fs);
            assert(nodes_view(fs) =~= self.view_fields());
        }
        WireSegment { fields }
    }
}

/// Every leaf of a synchronization segment renders.
pub proof fn lemma_synchronization_valid(s: Seg_HKSYN_Synchronization)
    ensures
        nodes_valid(s.view_fields()),
{
    let ch = s.view_fields();
    lemma_nodes_valid(ch);
    lemma_segment_head_valid(s.segment_head);
    assert forall|i: int| 0 <= i < ch.len() implies node_valid(#[trigger] ch[i]) by {}
}

/// The wire tree of an optional user-defined signature group.
pub open spec fn opt_user_signature_node(o: Option<DEG_UserDefinedSignature>) -> NodeView {
    match o {
        Some(s) => s.view_node(),
        None => NodeView::Leaf(DeView::Empty),
    }
}

/// Convert an optional user-defined signature group.
pub fn opt_user_signature_to_node(o: &Option<DEG_UserDefinedSignature>) -> (r: Node)
    ensures
        crate::wire::node_view(r) == opt_user_signature_node(*o),
{
    match o {
        Some(s) => s.to_node(),
        None => Node::Leaf(De::Empty),
    }
}

/// Signature end (`HNSHA`): the second half of the signature envelope; it
/// repeats the security reference of the signature head.
#[allow(non_camel_case_types)]
#[derive(Clone, Debug)]
pub struct Seg_HNSHA_SignatureEnd {
    pub segment_head: DEG_SegmentHead,
    /// Random alphanumeric token shared with the signature head of the same
    /// message.
    pub security_reference: String,
    pub validation_result: Option<Vec<u8>>,
    pub user_defined_signature: Option<DEG_UserDefinedSignature>,
}

impl Seg_HNSHA_SignatureEnd {
    /// The field list of this segment.
    pub open spec fn view_fields(self) -> Seq<NodeView> {
        seq![
            self.segment_head.view_node(),
            NodeView::Leaf(DeView::Text(self.security_reference@)),
            opt_binary_node(self.validation_result),
            opt_user_signature_node(self.user_defined_signature),
        ]
    }

    /// Convert to the generic wire tree.
    pub fn to_wire_segment(&self) -> (r: WireSegment)
        ensures
            seg_view(r) == self.view_fields(),
    {
        let fields: Vec<Node> = vec![
            self.segment_head.to_node(),
            Node::Leaf(De::Text(self.security_reference.clone())),
            opt_binary_to_node(&self.validation_result),
            opt_user_signature_to_node(&self.user_defined_signature),
        ];
        let ghost fs = fields@;
        proof {
            lemma_nodes_view(fs);
            assert(nodes_view(fs) =~= self.view_fields());
        }
        WireSegment { fields }
    }
}

/// Every leaf of a signature end renders when it carries no byte blob.
pub proof fn lemma_signature_end_valid(s: Seg_HNSHA_SignatureEnd)
    requires
        s.validation_result is None,
    ensures
        nodes_valid(s.view_fields()),
{
    let ch = s.view_fields();
    lemma_nodes_valid(ch);
    lemma_segment_head_valid(s.segment_head);
    if s.user_defined_signature is Some {
        lemma_user_defined_signature_valid(s.user_defined_signature->0);
    }
    assert forall|i: int| 0 <= i < ch.len() implies node_valid(#[trigger] ch[i]) by {}
}

} // verus!
