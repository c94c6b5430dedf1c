//! The protocol data model: the closed catalog of enumerations with their
//! fixed wire codes, the date and time value types, and the data element
//! groups used by message assembly.
//!
//! Every enumeration fixes its wire code explicitly; field order of every
//! group is part of the wire contract and must never be reordered.

use vstd::prelude::*;

verus! {

use crate::wire::{
    lemma_nodes_valid, node_valid, node_view, nodes_view, De, DeView, Node, NodeView,
};
use vstd::string::StringExecFns;

/// Security method of the signature envelope (wire code is alphabetic).
#[allow(non_camel_case_types)]
#[derive(Clone, Copy, Debug, PartialEq, Eq, Structural)]
pub enum SecurityMethodCode {
    RAH,
    PIN,
}

impl SecurityMethodCode {
    /// The alphabetic wire code of this method.
    pub open spec fn wire_token_spec(self) -> Seq<char> {
        match self {
            SecurityMethodCode::RAH => "RAH"@,
            SecurityMethodCode::PIN => "PIN"@,
        }
    }

    /// Render the alphabetic wire code.
    pub fn wire_token(&self) -> (r: &'static str)
        ensures
            r@ == self.wire_token_spec(),
    {
        match self {
            SecurityMethodCode::RAH => "RAH",
            SecurityMethodCode::PIN => "PIN",
        }
    }
}

/// Security function within the signature head.
#[derive(Clone, Copy, Debug, PartialEq, Eq, Structural)]
pub enum SecurityFunction {
    /// Non-repudiation of origin.
    NRO,
    /// Message origin authentication.
    AUT,
    /// Encryption.
    ENC,
    /// Single-step authentication (PIN/TAN).
    SingleStepAuth,
}

impl SecurityFunction {
    /// The numeric wire code of this function.
    pub open spec fn wire_code_spec(self) -> u64 {
        match self {
            SecurityFunction::NRO => 1,
            SecurityFunction::AUT => 2,
            SecurityFunction::ENC => 4,
            SecurityFunction::SingleStepAuth => 999,
        }
    }

    /// The numeric wire code of this function.
    pub fn wire_code(&self) -> (r: u64)
        ensures
            r == self.wire_code_spec(),
    {
        match self {
            SecurityFunction::NRO => 1,
            SecurityFunction::AUT => 2,
            SecurityFunction::ENC => 4,
            SecurityFunction::SingleStepAuth => 999,
        }
    }
}

/// Area of the security application.
#[derive(Clone, Copy, Debug, PartialEq, Eq, Structural)]
pub enum SecurityArea {
    /// Signature head and HBCI data.
    SHM,
    /// Signature head to signature end.
    SHT,
}

impl SecurityArea {
    /// The numeric wire code of this area.
    pub open spec fn wire_code_spec(self) -> u64 {
        match self {
            SecurityArea::SHM => 1,
            SecurityArea::SHT => 2,
        }
    }

    /// The numeric wire code of this area.
    pub fn wire_code(&self) -> (r: u64)
        ensures
            r == self.wire_code_spec(),
    {
        match self {
            SecurityArea::SHM => 1,
            SecurityArea::SHT => 2,
        }
    }
}

/// Role of the security supplier.
#[derive(Clone, Copy, Debug, PartialEq, Eq, Structural)]
pub enum SecurityRole {
    /// Issuer.
    ISS,
    /// Co-signer.
    CON,
    /// Witness.
    WIT,
}

impl SecurityRole {
    /// The numeric wire code of this role.
    pub open spec fn wire_code_spec(self) -> u64 {
        match self {
            SecurityRole::ISS => 1,
            SecurityRole::CON => 3,
            SecurityRole::WIT => 4,
        }
    }

    /// The numeric wire code of this role.
    pub fn wire_code(&self) -> (r: u64)
        ensures
            r == self.wire_code_spec(),
    {
        match self {
            SecurityRole::ISS => 1,
            SecurityRole::CON => 3,
            SecurityRole::WIT => 4,
        }
    }
}

/// Which party the security identification details describe.
#[derive(Clone, Copy, Debug, PartialEq, Eq, Structural)]
pub enum SecurityPartyIdentifier {
    /// Message sender.
    MS,
    /// Message receiver.
    MR,
}

impl SecurityPartyIdentifier {
    /// The numeric wire code of this party identifier.
    pub open spec fn wire_code_spec(self) -> u64 {
        match self {
            SecurityPartyIdentifier::MS => 1,
            SecurityPartyIdentifier::MR => 2,
        }
    }

    /// The numeric wire code of this party identifier.
    pub fn wire_code(&self) -> (r: u64)
        ensures
            r == self.wire_code_spec(),
    {
        match self {
            SecurityPartyIdentifier::MS => 1,
            SecurityPartyIdentifier::MR => 2,
        }
    }
}

/// What kind of moment a security date describes.
#[derive(Clone, Copy, Debug, PartialEq, Eq, Structural)]
pub enum DateIdentifier {
    /// Security timestamp.
    STS,
    /// Certificate revocation time.
    CRT,
}

impl DateIdentifier {
    /// The numeric wire code of this date identifier.
    pub open spec fn wire_code_spec(self) -> u64 {
        match self {
            DateIdentifier::STS => 1,
            DateIdentifier::CRT => 6,
        }
    }

    /// The numeric wire code of this date identifier.
    pub fn wire_code(&self) -> (r: u64)
        ensures
            r == self.wire_code_spec(),
    {
        match self {
            DateIdentifier::STS => 1,
            DateIdentifier::CRT => 6,
        }
    }
}

/// Use of the hash algorithm.
#[derive(Clone, Copy, Debug, PartialEq, Eq, Structural)]
pub enum UseOfHashAlgorithm {
    /// Owner hashing.
    OHA,
}

impl UseOfHashAlgorithm {
    /// The numeric wire code of this use.
    pub open spec fn wire_code_spec(self) -> u64 {
        match self {
            UseOfHashAlgorithm::OHA => 1,
        }
    }

    /// The numeric wire code of this use.
    pub fn wire_code(&self) -> (r: u64)
        ensures
            r == self.wire_code_spec(),
    {
        match self {
            UseOfHashAlgorithm::OHA => 1,
        }
    }
}

/// Hash algorithm selector.
#[derive(Clone, Copy, Debug, PartialEq, Eq, Structural)]
pub enum HashAlgorithm {
    SHA1,
    SHA256,
    SHA384,
    SHA512,
    SHA256SHA256,
    /// Mutually agreed (ZZZ).
    MutuallyAgreed,
}

impl HashAlgorithm {
    /// The numeric wire code of this algorithm.
    pub open spec fn wire_code_spec(self) -> u64 {
        match self {
            HashAlgorithm::SHA1 => 1,
            HashAlgorithm::SHA256 => 3,
            HashAlgorithm::SHA384 => 4,
            HashAlgorithm::SHA512 => 5,
            HashAlgorithm::SHA256SHA256 => 6,
            HashAlgorithm::MutuallyAgreed => 999,
        }
    }

    /// The numeric wire code of this algorithm.
    pub fn wire_code(&self) -> (r: u64)
        ensures
            r == self.wire_code_spec(),
    {
        match self {
            HashAlgorithm::SHA1 => 1,
            HashAlgorithm::SHA256 => 3,
            HashAlgorithm::SHA384 => 4,
            HashAlgorithm::SHA512 => 5,
            HashAlgorithm::SHA256SHA256 => 6,
            HashAlgorithm::MutuallyAgreed => 999,
        }
    }
}

/// Identifier for the hash algorithm's parameter.
#[derive(Clone, Copy, Debug, PartialEq, Eq, Structural)]
pub enum HashAlgorithmParameterIdentifier {
    /// Initialization value, clear text.
    IVC,
}

impl HashAlgorithmParameterIdentifier {
    /// The numeric wire code of this parameter identifier.
    pub open spec fn wire_code_spec(self) -> u64 {
        match self {
            HashAlgorithmParameterIdentifier::IVC => 1,
        }
    }

    /// The numeric wire code of this parameter identifier.
    pub fn wire_code(&self) -> (r: u64)
        ensures
            r == self.wire_code_spec(),
    {
        match self {
            HashAlgorithmParameterIdentifier::IVC => 1,
        }
    }
}

/// Use of the signature algorithm.
#[derive(Clone, Copy, Debug, PartialEq, Eq, Structural)]
pub enum UseOfSignatureAlgorithm {
    /// Owner signing.
    OSG,
}

impl UseOfSignatureAlgorithm {
    /// The numeric wire code of this use.
    pub open spec fn wire_code_spec(self) -> u64 {
        match self {
            UseOfSignatureAlgorithm::OSG => 6,
        }
    }

    /// The numeric wire code of this use.
    pub fn wire_code(&self) -> (r: u64)
        ensures
            r == self.wire_code_spec(),
    {
        match self {
            UseOfSignatureAlgorithm::OSG => 6,
        }
    }
}

/// Signature algorithm selector.
#[derive(Clone, Copy, Debug, PartialEq, Eq, Structural)]
pub enum SignatureAlgorithm {
    /// Not permitted.
    NA,
    /// RSA.
    RSA,
}

impl SignatureAlgorithm {
    /// The numeric wire code of this algorithm.
    pub open spec fn wire_code_spec(self) -> u64 {
        match self {
            SignatureAlgorithm::NA => 1,
            SignatureAlgorithm::RSA => 10,
        }
    }

    /// The numeric wire code of this algorithm.
    pub fn wire_code(&self) -> (r: u64)
        ensures
            r == self.wire_code_spec(),
    {
        match self {
            SignatureAlgorithm::NA => 1,
            SignatureAlgorithm::RSA => 10,
        }
    }
}

/// Operation mode of the signature or cipher algorithm.
#[allow(non_camel_case_types)]
#[derive(Clone, Copy, Debug, PartialEq, Eq, Structural)]
pub enum OperationMode {
    /// Cipher block chaining; encryption only.
    CBC,
    ISO_97961,
    ISO_97962,
    RSASSA_PKCS,
    RSASSA_PSS,
    /// Mutually agreed (ZZZ).
    MutuallyAgreed,
}

impl OperationMode {
    /// The numeric wire code of this mode.
    pub open spec fn wire_code_spec(self) -> u64 {
        match self {
            OperationMode::CBC => 2,
            OperationMode::ISO_97961 => 16,
            OperationMode::ISO_97962 => 17,
            OperationMode::RSASSA_PKCS => 18,
            OperationMode::RSASSA_PSS => 19,
            OperationMode::MutuallyAgreed => 999,
        }
    }

    /// The numeric wire code of this mode.
    pub fn wire_code(&self) -> (r: u64)
        ensures
            r == self.wire_code_spec(),
    {
        match self {
            OperationMode::CBC => 2,
            OperationMode::ISO_97961 => 16,
            OperationMode::ISO_97962 => 17,
            OperationMode::RSASSA_PKCS => 18,
            OperationMode::RSASSA_PSS => 19,
            OperationMode::MutuallyAgreed => 999,
        }
    }
}

/// Key type named in a key name group (wire code is alphabetic).
#[derive(Clone, Copy, Debug, PartialEq, Eq, Structural)]
pub enum KeyType {
    /// Key for digital signatures.
    D,
    /// Signing key.
    S,
    /// Cipher key.
    V,
}

impl KeyType {
    /// The alphabetic wire code of this key type.
    pub open spec fn wire_token_spec(self) -> Seq<char> {
        match self {
            KeyType::D => "D"@,
            KeyType::S => "S"@,
            KeyType::V => "V"@,
        }
    }

    /// Render the alphabetic wire code.
    pub fn wire_token(&self) -> (r: &'static str)
        ensures
            r@ == self.wire_token_spec(),
    {
        match self {
            KeyType::D => "D",
            KeyType::S => "S",
            KeyType::V => "V",
        }
    }
}

/// Certificate type.
#[allow(non_camel_case_types)]
#[derive(Clone, Copy, Debug, PartialEq, Eq, Structural)]
pub enum CertificateType {
    ZKA,
    UN_EDIFACT,
    X509v3,
}

impl CertificateType {
    /// The numeric wire code of this certificate type.
    pub open spec fn wire_code_spec(self) -> u64 {
        match self {
            CertificateType::ZKA => 1,
            CertificateType::UN_EDIFACT => 2,
            CertificateType::X509v3 => 3,
        }
    }

    /// The numeric wire code of this certificate type.
    pub fn wire_code(&self) -> (r: u64)
        ensures
            r == self.wire_code_spec(),
    {
        match self {
            CertificateType::ZKA => 1,
            CertificateType::UN_EDIFACT => 2,
            CertificateType::X509v3 => 3,
        }
    }
}

/// Whether the customer system needs a bank-assigned identifier.
#[derive(Clone, Copy, Debug, PartialEq, Eq, Structural)]
pub enum CustomerSystemStatus {
    /// No customer-system identifier is needed.
    NotRequired,
    /// A customer-system identifier is required (PIN/TAN).
    Required,
}

impl CustomerSystemStatus {
    /// The numeric wire code of this status.
    pub open spec fn wire_code_spec(self) -> u64 {
        match self {
            CustomerSystemStatus::NotRequired => 0,
            CustomerSystemStatus::Required => 1,
        }
    }

    /// The numeric wire code of this status.
    pub fn wire_code(&self) -> (r: u64)
        ensures
            r == self.wire_code_spec(),
    {
        match self {
            CustomerSystemStatus::NotRequired => 0,
            CustomerSystemStatus::Required => 1,
        }
    }
}

/// Language of the dialog.
#[allow(non_camel_case_types)]
#[derive(Clone, Copy, Debug, PartialEq, Eq, Structural)]
pub enum DialogLang {
    Standard,
    de,
    en,
    fr,
}

impl DialogLang {
    /// The numeric wire code of this language.
    pub open spec fn wire_code_spec(self) -> u64 {
        match self {
            DialogLang::Standard => 0,
            DialogLang::de => 1,
            DialogLang::en => 2,
            DialogLang::fr => 3,
        }
    }

    /// The numeric wire code of this language.
    pub fn wire_code(&self) -> (r: u64)
        ensures
            r == self.wire_code_spec(),
    {
        match self {
            DialogLang::Standard => 0,
            DialogLang::de => 1,
            DialogLang::en => 2,
            DialogLang::fr => 3,
        }
    }
}

/// Which TAN processes a two-step submission asks about.
#[derive(Clone, Copy, Debug, PartialEq, Eq, Structural)]
pub enum TanProcess {
    /// All.
    All,
    /// Active.
    Active,
    /// Available.
    Available,
}

impl TanProcess {
    /// The numeric wire code of this process selector.
    pub open spec fn wire_code_spec(self) -> u64 {
        match self {
            TanProcess::All => 0,
            TanProcess::Active => 2,
            TanProcess::Available => 3,
        }
    }

    /// The numeric wire code of this process selector.
    pub fn wire_code(&self) -> (r: u64)
        ensures
            r == self.wire_code_spec(),
    {
        match self {
            TanProcess::All => 0,
            TanProcess::Active => 2,
            TanProcess::Available => 3,
        }
    }
}

/// Relationship of a key-management message to its answer.
#[derive(Clone, Copy, Debug, PartialEq, Eq, Structural)]
pub enum MessageRelationship {
    /// The message is an answer.
    IsAnswer,
    /// The message expects an answer.
    ExpectAnswer,
}

impl MessageRelationship {
    /// The numeric wire code of this relationship.
    pub open spec fn wire_code_spec(self) -> u64 {
        match self {
            MessageRelationship::IsAnswer => 1,
            MessageRelationship::ExpectAnswer => 2,
        }
    }

    /// The numeric wire code of this relationship.
    pub fn wire_code(&self) -> (r: u64)
        ensures
            r == self.wire_code_spec(),
    {
        match self {
            MessageRelationship::IsAnswer => 1,
            MessageRelationship::ExpectAnswer => 2,
        }
    }
}

/// Function type of a key-management request.
#[derive(Clone, Copy, Debug, PartialEq, Eq, Structural)]
pub enum FunctionTypeIdentifier {
    /// Certificate replacement, in connection with a key change.
    CertificateReplacement,
    /// Certificate status request, asking for a public key.
    CertficateStatusRequest,
    /// Certificate status notice, delivering a public key.
    CertificateStatusNotice,
    /// Certificate revocation, in connection with a key suspension.
    CertificateRevocation,
    /// Confirmation of a certificate revocation.
    RevocationConfirmation,
}

impl FunctionTypeIdentifier {
    /// The numeric wire code of this function type.
    pub open spec fn wire_code_spec(self) -> u64 {
        match self {
            FunctionTypeIdentifier::CertificateReplacement => 112,
            FunctionTypeIdentifier::CertficateStatusRequest => 124,
            FunctionTypeIdentifier::CertificateStatusNotice => 224,
            FunctionTypeIdentifier::CertificateRevocation => 130,
            FunctionTypeIdentifier::RevocationConfirmation => 231,
        }
    }

    /// The numeric wire code of this function type.
    pub fn wire_code(&self) -> (r: u64)
        ensures
            r == self.wire_code_spec(),
    {
        match self {
            FunctionTypeIdentifier::CertificateReplacement => 112,
            FunctionTypeIdentifier::CertficateStatusRequest => 124,
            FunctionTypeIdentifier::CertificateStatusNotice => 224,
            FunctionTypeIdentifier::CertificateRevocation => 130,
            FunctionTypeIdentifier::RevocationConfirmation => 231,
        }
    }
}

/// What the bank should report back during synchronization.
#[derive(Clone, Copy, Debug, PartialEq, Eq, Structural)]
pub enum SynchronizationMode {
    /// Report a newly assigned customer-system identifier.
    ReportNewCustomerSystemId,
    /// Report the last processed message number.
    ReportLastProcessedMessageNo,
    /// Report a signature identifier.
    ReportSignatureId,
}

impl SynchronizationMode {
    /// The numeric wire code of this mode.
    pub open spec fn wire_code_spec(self) -> u64 {
        match self {
            SynchronizationMode::ReportNewCustomerSystemId => 0,
            SynchronizationMode::ReportLastProcessedMessageNo => 1,
            SynchronizationMode::ReportSignatureId => 2,
        }
    }

    /// The numeric wire code of this mode.
    pub fn wire_code(&self) -> (r: u64)
        ensures
            r == self.wire_code_spec(),
    {
        match self {
            SynchronizationMode::ReportNewCustomerSystemId => 0,
            SynchronizationMode::ReportLastProcessedMessageNo => 1,
            SynchronizationMode::ReportSignatureId => 2,
        }
    }
}

/// A calendar date held as plain year, month and day values, rendered on the
/// wire as the eight digits `YYYYMMDD`.
#[derive(Clone, Copy, Debug, PartialEq, Eq, Structural)]
pub struct WireDate {
    pub year: u16,
    pub month: u8,
    pub day: u8,
}

impl WireDate {
    /// The fields fit their wire columns: four digits of year, two of month,
    /// two of day, with month and day in calendar range.
    pub open spec fn wf(self) -> bool {
        self.year <= 9999 && 1 <= self.month <= 12 && 1 <= self.day <= 31
    }

    /// Build a date from raw clock components, forcing each component into
    /// range; in-range components pass through unchanged.
    pub fn clamped(year: i64, month: u32, day: u32) -> (r: WireDate)
        ensures
            r.wf(),
            (0 <= year <= 9999 && 1 <= month <= 12 && 1 <= day <= 31) ==> r == (WireDate {
                year: year as u16,
                month: month as u8,
                day: day as u8,
            }),
    {
        let y: u16 = if year < 0 {
            0
        } else if year > 9999 {
            9999
        } else {
            year as u16
        };
        let m: u8 = if month < 1 {
            1
        } else if month > 12 {
            12
        } else {
            month as u8
        };
        let d: u8 = if day < 1 {
            1
        } else if day > 31 {
            31
        } else {
            day as u8
        };
        WireDate { year: y, month: m, day: d }
    }
}

/// A time of day held as plain hour, minute and second values, rendered on
/// the wire as the six digits `HHMMSS`.
#[derive(Clone, Copy, Debug, PartialEq, Eq, Structural)]
pub struct WireTime {
    pub hour: u8,
    pub minute: u8,
    pub second: u8,
}

impl WireTime {
    /// The fields are a valid time of day.
    pub open spec fn wf(self) -> bool {
        self.hour <= 23 && self.minute <= 59 && self.second <= 59
    }

    /// Build a time from raw clock components, forcing each component into
    /// range; in-range components pass through unchanged.
    pub fn clamped(hour: u32, minute: u32, second: u32) -> (r: WireTime)
        ensures
            r.wf(),
            (hour <= 23 && minute <= 59 && second <= 59) ==> r == (WireTime {
                hour: hour as u8,
                minute: minute as u8,
                second: second as u8,
            }),
    {
        let h: u8 = if hour > 23 {
            23
        } else {
            hour as u8
        };
        let mi: u8 = if minute > 59 {
            59
        } else {
            minute as u8
        };
        let s: u8 = if second > 59 {
            59
        } else {
            second as u8
        };
        WireTime { hour: h, minute: mi, second: s }
    }
}

/// The tree node of an optional free-text field: absent renders empty.
pub open spec fn opt_text_node(o: Option<String>) -> NodeView {
    match o {
        Some(s) => NodeView::Leaf(DeView::Text(s@)),
        None => NodeView::Leaf(DeView::Empty),
    }
}

/// Convert an optional free-text field.
pub fn opt_text_to_node(o: &Option<String>) -> (r: Node)
    ensures
        node_view(r) == opt_text_node(*o),
{
    match o {
        Some(s) => Node::Leaf(De::Text(s.clone())),
        None => Node::Leaf(De::Empty),
    }
}

/// The tree node of an optional numeric field: absent renders empty.
pub open spec fn opt_num16_node(o: Option<u16>) -> NodeView {
    match o {
        Some(v) => NodeView::Leaf(DeView::Num(v as nat)),
        None => NodeView::Leaf(DeView::Empty),
    }
}

/// Convert an optional numeric field.
pub fn opt_num16_to_node(o: &Option<u16>) -> (r: Node)
    ensures
        node_view(r) == opt_num16_node(*o),
{
    match o {
        Some(v) => Node::Leaf(De::Num(*v as u64)),
        None => Node::Leaf(De::Empty),
    }
}

/// The tree node of an optional byte-blob field: absent renders empty.
pub open spec fn opt_binary_node(o: Option<Vec<u8>>) -> NodeView {
    match o {
        Some(b) => NodeView::Leaf(DeView::Binary(b@)),
        None => NodeView::Leaf(DeView::Empty),
    }
}

/// Convert an optional byte-blob field.
pub fn opt_binary_to_node(o: &Option<Vec<u8>>) -> (r: Node)
    ensures
        node_view(r) == opt_binary_node(*o),
{
    match o {
        Some(b) => Node::Leaf(De::Binary(b.clone())),
        None => Node::Leaf(De::Empty),
    }
}

/// Every leaf of a segment head renders.
pub proof fn lemma_segment_head_valid(h: DEG_SegmentHead)
    ensures
        node_valid(h.view_node()),
{
    let ch = seq![
        NodeView::Leaf(DeView::Text(h.identifier@)),
        NodeView::Leaf(DeView::Num(h.segment_no as nat)),
        NodeView::Leaf(DeView::Num(h.version as nat)),
        opt_num16_node(h.reference_seg),
    ];
    lemma_nodes_valid(ch);
    assert forall|i: int| 0 <= i < ch.len() implies node_valid(#[trigger] ch[i]) by {}
}

/// Every leaf of an institute identifier renders.
pub proof fn lemma_institute_identifier_valid(g: DEG_InstituteIdentifier)
    ensures
        node_valid(g.view_node()),
{
    let ch = seq![
        NodeView::Leaf(DeView::Text(g.country_code@)),
        NodeView::Leaf(DeView::Num(g.bank_code as nat)),
    ];
    lemma_nodes_valid(ch);
    assert forall|i: int| 0 <= i < ch.len() implies node_valid(#[trigger] ch[i]) by {}
}

/// Every leaf of a reference message renders.
pub proof fn lemma_reference_message_valid(g: ReferenceMessage)
    ensures
        node_valid(g.view_node()),
{
    let ch = seq![
        NodeView::Leaf(DeView::Num(g.dialog_id as nat)),
        NodeView::Leaf(DeView::Num(g.message_no as nat)),
    ];
    lemma_nodes_valid(ch);
    assert forall|i: int| 0 <= i < ch.len() implies node_valid(#[trigger] ch[i]) by {}
}

/// Every leaf of a security profile renders.
pub proof fn lemma_security_profile_valid(g: DEG_SecurityProfile)
    ensures
        node_valid(g.view_node()),
{
    let ch = seq![
        NodeView::Leaf(DeView::Token(g.security_method_code.wire_token_spec())),
        NodeView::Leaf(DeView::Num(g.version as nat)),
    ];
    lemma_nodes_valid(ch);
    assert forall|i: int| 0 <= i < ch.len() implies node_valid(#[trigger] ch[i]) by {}
}

/// Every leaf of security identification details renders when no byte blob
/// is carried.
pub proof fn lemma_security_identification_details_valid(g: DEG_SecurityIdentificationDetails)
    requires
        g.cardholder_identification is None,
    ensures
        node_valid(g.view_node()),
{
    let ch = seq![
        NodeView::Leaf(DeView::Num(g.security_party_identifier.wire_code_spec() as nat)),
        opt_binary_node(g.cardholder_identification),
        opt_text_node(g.party_identifier),
    ];
    lemma_nodes_valid(ch);
    assert forall|i: int| 0 <= i < ch.len() implies node_valid(#[trigger] ch[i]) by {}
}

/// Every leaf of a security date renders.
pub proof fn lemma_security_date_valid(g: DEG_SecurityDate)
    ensures
        node_valid(g.view_node()),
{
    let ch = seq![
        NodeView::Leaf(DeView::Num(g.date_identifier.wire_code_spec() as nat)),
        NodeView::Leaf(
            DeView::Date {
                year: g.date.year as nat,
                month: g.date.month as nat,
                day: g.date.day as nat,
            },
        ),
        NodeView::Leaf(
            DeView::Time {
                hour: g.time.hour as nat,
                minute: g.time.minute as nat,
                second: g.time.second as nat,
            },
        ),
    ];
    lemma_nodes_valid(ch);
    assert forall|i: int| 0 <= i < ch.len() implies node_valid(#[trigger] ch[i]) by {}
}

/// Every leaf of a hash algorithm group renders when no parameter blob is
/// carried.
pub proof fn lemma_hash_algorithm_valid(g: DEG_HashAlgorithm)
    requires
        g.param_value is None,
    ensures
        node_valid(g.view_node()),
{
    let ch = seq![
        NodeView::Leaf(DeView::Num(g.use_of_hash_algorithm.wire_code_spec() as nat)),
        NodeView::Leaf(DeView::Num(g.hash_algorithm.wire_code_spec() as nat)),
        NodeView::Leaf(DeView::Num(g.hash_algorithm_param_identifier.wire_code_spec() as nat)),
        opt_binary_node(g.param_value),
    ];
    lemma_nodes_valid(ch);
    assert forall|i: int| 0 <= i < ch.len() implies node_valid(#[trigger] ch[i]) by {}
}

/// Every leaf of a signature algorithm group renders.
pub proof fn lemma_signature_algorithm_valid(g: DEG_SignatureAlgorithm)
    ensures
        node_valid(g.view_node()),
{
    let ch = seq![
        NodeView::Leaf(DeView::Num(g.use_of_signature_algorithm.wire_code_spec() as nat)),
        NodeView::Leaf(DeView::Num(g.signature_algorithm.wire_code_spec() as nat)),
        NodeView::Leaf(DeView::Num(g.operation_mode.wire_code_spec() as nat)),
    ];
    lemma_nodes_valid(ch);
    assert forall|i: int| 0 <= i < ch.len() implies node_valid(#[trigger] ch[i]) by {}
}

/// Every leaf of a key name renders.
pub proof fn lemma_key_name_valid(g: DEG_KeyName)
    ensures
        node_valid(g.view_node()),
{
    let ch = seq![
        g.institute_identifier.view_node(),
        NodeView::Leaf(DeView::Text(g.user_id@)),
        NodeView::Leaf(DeView::Token(g.key_type.wire_token_spec())),
        NodeView::Leaf(DeView::Num(g.key_no as nat)),
        NodeView::Leaf(DeView::Num(g.key_version as nat)),
    ];
    lemma_nodes_valid(ch);
    lemma_institute_identifier_valid(g.institute_identifier);
    assert forall|i: int| 0 <= i < ch.len() implies node_valid(#[trigger] ch[i]) by {}
}

/// Every leaf of a user-defined signature renders.
pub proof fn lemma_user_defined_signature_valid(g: DEG_UserDefinedSignature)
    ensures
        node_valid(g.view_node()),
{
    let ch = seq![NodeView::Leaf(DeView::Text(g.PIN@)), opt_text_node(g.TAN)];
    lemma_nodes_valid(ch);
    assert forall|i: int| 0 <= i < ch.len() implies node_valid(#[trigger] ch[i]) by {}
}

/// Institute identifier: country code plus bank code.
#[allow(non_camel_case_types)]
#[derive(Clone, Debug)]
pub struct DEG_InstituteIdentifier {
    pub country_code: String,
    pub bank_code: u32,
}

impl DEG_InstituteIdentifier {
    /// The wire tree of this group.
    pub open spec fn view_node(self) -> NodeView {
        NodeView::Group(
            seq![
                NodeView::Leaf(DeView::Text(self.country_code@)),
                NodeView::Leaf(DeView::Num(self.bank_code as nat)),
            ],
        )
    }

    /// Convert to the generic wire tree.
    pub fn to_node(&self) -> (r: Node)
        ensures
            node_view(r) == self.view_node(),
    {
        let fields: Vec<Node> = vec![
            Node::Leaf(De::Text(self.country_code.clone())),
            Node::Leaf(De::Num(self.bank_code as u64)),
        ];
        let ghost fs = fields@;
        proof {
            crate::wire::lemma_nodes_view(fs);
            assert(nodes_view(fs) =~= seq![
                NodeView::Leaf(DeView::Text(self.country_code@)),
                NodeView::Leaf(DeView::Num(self.bank_code as nat)),
            ]);
        }
        Node::Group(fields)
    }
}

/// Segment head: identifier, 1-based segment number, version, and an
/// optional reference-segment number.
#[allow(non_camel_case_types)]
#[derive(Clone, Debug)]
pub struct DEG_SegmentHead {
    pub identifier: String,
    pub segment_no: u16,
    pub version: u16,
    pub reference_seg: Option<u16>,
}

impl DEG_SegmentHead {
    /// The wire tree of this group.
    pub open spec fn view_node(self) -> NodeView {
        NodeView::Group(
            seq![
                NodeView::Leaf(DeView::Text(self.identifier@)),
                NodeView::Leaf(DeView::Num(self.segment_no as nat)),
                NodeView::Leaf(DeView::Num(self.version as nat)),
                opt_num16_node(self.reference_seg),
            ],
        )
    }

    /// Convert to the generic wire tree.
    pub fn to_node(&self) -> (r: Node)
        ensures
            node_view(r) == self.view_node(),
    {
        let fields: Vec<Node> = vec![
            Node::Leaf(De::Text(self.identifier.clone())),
            Node::Leaf(De::Num(self.segment_no as u64)),
            Node::Leaf(De::Num(self.version as u64)),
            opt_num16_to_node(&self.reference_seg),
        ];
        let ghost fs = fields@;
        proof {
            crate::wire::lemma_nodes_view(fs);
            assert(nodes_view(fs) =~= seq![
                NodeView::Leaf(DeView::Text(self.identifier@)),
                NodeView::Leaf(DeView::Num(self.segment_no as nat)),
                NodeView::Leaf(DeView::Num(self.version as nat)),
                opt_num16_node(self.reference_seg),
            ]);
        }
        Node::Group(fields)
    }
}

/// Reference to an earlier message: dialog and message number.
#[derive(Clone, Debug)]
pub struct ReferenceMessage {
    pub dialog_id: u16,
    pub message_no: u16,
}

impl ReferenceMessage {
    /// The wire tree of this group.
    pub open spec fn view_node(self) -> NodeView {
        NodeView::Group(
            seq![
                NodeView::Leaf(DeView::Num(self.dialog_id as nat)),
                NodeView::Leaf(DeView::Num(self.message_no as nat)),
            ],
        )
    }

    /// Convert to the generic wire tree.
    pub fn to_node(&self) -> (r: Node)
        ensures
            node_view(r) == self.view_node(),
    {
        let fields: Vec<Node> = vec![
            Node::Leaf(De::Num(self.dialog_id as u64)),
            Node::Leaf(De::Num(self.message_no as u64)),
        ];
        let ghost fs = fields@;
        proof {
            crate::wire::lemma_nodes_view(fs);
            assert(nodes_view(fs) =~= seq![
                NodeView::Leaf(DeView::Num(self.dialog_id as nat)),
                NodeView::Leaf(DeView::Num(self.message_no as nat)),
            ]);
        }
        Node::Group(fields)
    }
}

/// Security profile: method code and method version.
#[allow(non_camel_case_types)]
#[derive(Clone, Debug)]
pub struct DEG_SecurityProfile {
    pub security_method_code: SecurityMethodCode,
    pub version: u8,
}

impl DEG_SecurityProfile {
    /// The wire tree of this group.
    pub open spec fn view_node(self) -> NodeView {
        NodeView::Group(
            seq![
                NodeView::Leaf(DeView::Token(self.security_method_code.wire_token_spec())),
                NodeView::Leaf(DeView::Num(self.version as nat)),
            ],
        )
    }

    /// Convert to the generic wire tree.
    pub fn to_node(&self) -> (r: Node)
        ensures
            node_view(r) == self.view_node(),
    {
        let fields: Vec<Node> = vec![
            Node::Leaf(De::Token(String::from_str(self.security_method_code.wire_token()))),
            Node::Leaf(De::Num(self.version as u64)),
        ];
        let ghost fs = fields@;
        proof {
            crate::wire::lemma_nodes_view(fs);
            assert(nodes_view(fs) =~= seq![
                NodeView::Leaf(DeView::Token(self.security_method_code.wire_token_spec())),
                NodeView::Leaf(DeView::Num(self.version as nat)),
            ]);
        }
        Node::Group(fields)
    }
}

/// Security identification details: party identifier, optional cardholder
/// identification, optional party identifier text.
#[allow(non_camel_case_types)]
#[derive(Clone, Debug)]
pub struct DEG_SecurityIdentificationDetails {
    pub security_party_identifier: SecurityPartyIdentifier,
    pub cardholder_identification: Option<Vec<u8>>,
    pub party_identifier: Option<String>,
}

impl DEG_SecurityIdentificationDetails {
    /// The wire tree of this group.
    pub open spec fn view_node(self) -> NodeView {
        NodeView::Group(
            seq![
                NodeView::Leaf(DeView::Num(self.security_party_identifier.wire_code_spec() as nat)),
                opt_binary_node(self.cardholder_identification),
                opt_text_node(self.party_identifier),
            ],
        )
    }

    /// Convert to the generic wire tree.
    pub fn to_node(&self) -> (r: Node)
        ensures
            node_view(r) == self.view_node(),
    {
        let fields: Vec<Node> = vec![
            Node::Leaf(De::Num(self.security_party_identifier.wire_code())),
            opt_binary_to_node(&self.cardholder_identification),
            opt_text_to_node(&self.party_identifier),
        ];
        let ghost fs = fields@;
        proof {
            crate::wire::lemma_nodes_view(fs);
            assert(nodes_view(fs) =~= seq![
                NodeView::Leaf(DeView::Num(self.security_party_identifier.wire_code_spec() as nat)),
                opt_binary_node(self.cardholder_identification),
                opt_text_node(self.party_identifier),
            ]);
        }
        Node::Group(fields)
    }
}

/// Security date and time: what moment it marks, the date, the time.
#[allow(non_camel_case_types)]
#[derive(Clone, Debug)]
pub struct DEG_SecurityDate {
    pub date_identifier: DateIdentifier,
    pub date: WireDate,
    pub time: WireTime,
}

impl DEG_SecurityDate {
    /// The wire tree of this group.
    pub open spec fn view_node(self) -> NodeView {
        NodeView::Group(
            seq![
                NodeView::Leaf(DeView::Num(self.date_identifier.wire_code_spec() as nat)),
                NodeView::Leaf(
                    DeView::Date {
                        year: self.date.year as nat,
                        month: self.date.month as nat,
                        day: self.date.day as nat,
                    },
                ),
                NodeView::Leaf(
                    DeView::Time {
                        hour: self.time.hour as nat,
                        minute: self.time.minute as nat,
                        second: self.time.second as nat,
                    },
                ),
            ],
        )
    }

    /// Convert to the generic wire tree.
    pub fn to_node(&self) -> (r: Node)
        ensures
            node_view(r) == self.view_node(),
    {
        let fields: Vec<Node> = vec![
            Node::Leaf(De::Num(self.date_identifier.wire_code())),
            Node::Leaf(De::Date(self.date.year, self.date.month, self.date.day)),
            Node::Leaf(De::Time(self.time.hour, self.time.minute, self.time.second)),
        ];
        let ghost fs = fields@;
        proof {
            crate::wire::lemma_nodes_view(fs);
            assert(nodes_view(fs) =~= seq![
                NodeView::Leaf(DeView::Num(self.date_identifier.wire_code_spec() as nat)),
                NodeView::Leaf(
                    DeView::Date {
                        year: self.date.year as nat,
                        month: self.date.month as nat,
                        day: self.date.day as nat,
                    },
                ),
                NodeView::Leaf(
                    DeView::Time {
                        hour: self.time.hour as nat,
                        minute: self.time.minute as nat,
                        second: self.time.second as nat,
                    },
                ),
            ]);
        }
        Node::Group(fields)
    }
}

/// Hash algorithm group: use, algorithm, parameter identifier, optional
/// parameter value.
#[allow(non_camel_case_types)]
#[derive(Clone, Debug)]
pub struct DEG_HashAlgorithm {
    pub use_of_hash_algorithm: UseOfHashAlgorithm,
    pub hash_algorithm: HashAlgorithm,
    pub hash_algorithm_param_identifier: HashAlgorithmParameterIdentifier,
    pub param_value: Option<Vec<u8>>,
}

impl DEG_HashAlgorithm {
    /// The wire tree of this group.
    pub open spec fn view_node(self) -> NodeView {
        NodeView::Group(
            seq![
                NodeView::Leaf(DeView::Num(self.use_of_hash_algorithm.wire_code_spec() as nat)),
                NodeView::Leaf(DeView::Num(self.hash_algorithm.wire_code_spec() as nat)),
                NodeView::Leaf(
                    DeView::Num(self.hash_algorithm_param_identifier.wire_code_spec() as nat),
                ),
                opt_binary_node(self.param_value),
            ],
        )
    }

    /// Convert to the generic wire tree.
    pub fn to_node(&self) -> (r: Node)
        ensures
            node_view(r) == self.view_node(),
    {
        let fields: Vec<Node> = vec![
            Node::Leaf(De::Num(self.use_of_hash_algorithm.wire_code())),
            Node::Leaf(De::Num(self.hash_algorithm.wire_code())),
            Node::Leaf(De::Num(self.hash_algorithm_param_identifier.wire_code())),
            opt_binary_to_node(&self.param_value),
        ];
        let ghost fs = fields@;
        proof {
            crate::wire::lemma_nodes_view(fs);
            assert(nodes_view(fs) =~= seq![
                NodeView::Leaf(DeView::Num(self.use_of_hash_algorithm.wire_code_spec() as nat)),
                NodeView::Leaf(DeView::Num(self.hash_algorithm.wire_code_spec() as nat)),
                NodeView::Leaf(
                    DeView::Num(self.hash_algorithm_param_identifier.wire_code_spec() as nat),
                ),
                opt_binary_node(self.param_value),
            ]);
        }
        Node::Group(fields)
    }
}

/// Signature algorithm group: use, algorithm, operation mode.
#[allow(non_camel_case_types)]
#[derive(Clone, Debug)]
pub struct DEG_SignatureAlgorithm {
    pub use_of_signature_algorithm: UseOfSignatureAlgorithm,
    pub signature_algorithm: SignatureAlgorithm,
    pub operation_mode: OperationMode,
}

impl DEG_SignatureAlgorithm {
    /// The wire tree of this group.
    pub open spec fn view_node(self) -> NodeView {
        NodeView::Group(
            seq![
                NodeView::Leaf(
                    DeView::Num(self.use_of_signature_algorithm.wire_code_spec() as nat),
                ),
                NodeView::Leaf(DeView::Num(self.signature_algorithm.wire_code_spec() as nat)),
                NodeView::Leaf(DeView::Num(self.operation_mode.wire_code_spec() as nat)),
            ],
        )
    }

    /// Convert to the generic wire tree.
    pub fn to_node(&self) -> (r: Node)
        ensures
            node_view(r) == self.view_node(),
    {
        let fields: Vec<Node> = vec![
            Node::Leaf(De::Num(self.use_of_signature_algorithm.wire_code())),
            Node::Leaf(De::Num(self.signature_algorithm.wire_code())),
            Node::Leaf(De::Num(self.operation_mode.wire_code())),
        ];
        let ghost fs = fields@;
        proof {
            crate::wire::lemma_nodes_view(fs);
            assert(nodes_view(fs) =~= seq![
                NodeView::Leaf(
                    DeView::Num(self.use_of_signature_algorithm.wire_code_spec() as nat),
                ),
                NodeView::Leaf(DeView::Num(self.signature_algorithm.wire_code_spec() as nat)),
                NodeView::Leaf(DeView::Num(self.operation_mode.wire_code_spec() as nat)),
            ]);
        }
        Node::Group(fields)
    }
}

/// Key name: institute identifier, user, key type, key number and version.
#[allow(non_camel_case_types)]
#[derive(Clone, Debug)]
pub struct DEG_KeyName {
    pub institute_identifier: DEG_InstituteIdentifier,
    pub user_id: String,
    pub key_type: KeyType,
    pub key_no: u16,
    pub key_version: u16,
}

impl DEG_KeyName {
    /// The wire tree of this group; the institute identifier is a nested
    /// group whose fields share this group's `:` delimiting.
    pub open spec fn view_node(self) -> NodeView {
        NodeView::Group(
            seq![
                self.institute_identifier.view_node(),
                NodeView::Leaf(DeView::Text(self.user_id@)),
                NodeView::Leaf(DeView::Token(self.key_type.wire_token_spec())),
                NodeView::Leaf(DeView::Num(self.key_no as nat)),
                NodeView::Leaf(DeView::Num(self.key_version as nat)),
            ],
        )
    }

    /// Convert to the generic wire tree.
    pub fn to_node(&self) -> (r: Node)
        ensures
            node_view(r) == self.view_node(),
    {
        let fields: Vec<Node> = vec![
            self.institute_identifier.to_node(),
            Node::Leaf(De::Text(self.user_id.clone())),
            Node::Leaf(De::Token(String::from_str(self.key_type.wire_token()))),
            Node::Leaf(De::Num(self.key_no as u64)),
            Node::Leaf(De::Num(self.key_version as u64)),
        ];
        let ghost fs = fields@;
        proof {
            crate::wire::lemma_nodes_view(fs);
            assert(nodes_view(fs) =~= seq![
                self.institute_identifier.view_node(),
                NodeView::Leaf(DeView::Text(self.user_id@)),
                NodeView::Leaf(DeView::Token(self.key_type.wire_token_spec())),
                NodeView::Leaf(DeView::Num(self.key_no as nat)),
                NodeView::Leaf(DeView::Num(self.key_version as nat)),
            ]);
        }
        Node::Group(fields)
    }
}

/// Certificate: type and content.
#[allow(non_camel_case_types)]
#[derive(Clone, Debug)]
pub struct DEG_Certificate {
    pub certificate_type: CertificateType,
    pub value: Vec<u8>,
}

impl DEG_Certificate {
    /// The wire tree of this group.
    pub open spec fn view_node(self) -> NodeView {
        NodeView::Group(
            seq![
                NodeView::Leaf(DeView::Num(self.certificate_type.wire_code_spec() as nat)),
                NodeView::Leaf(DeView::Binary(self.value@)),
            ],
        )
    }

    /// Convert to the generic wire tree.
    pub fn to_node(&self) -> (r: Node)
        ensures
            node_view(r) == self.view_node(),
    {
        let fields: Vec<Node> = vec![
            Node::Leaf(De::Num(self.certificate_type.wire_code())),
            Node::Leaf(De::Binary(self.value.clone())),
        ];
        let ghost fs = fields@;
        proof {
            crate::wire::lemma_nodes_view(fs);
            assert(nodes_view(fs) =~= seq![
                NodeView::Leaf(DeView::Num(self.certificate_type.wire_code_spec() as nat)),
                NodeView::Leaf(DeView::Binary(self.value@)),
            ]);
        }
        Node::Group(fields)
    }
}

/// International account issuer: the IBAN.
#[allow(non_camel_case_types)]
#[derive(Clone, Debug)]
pub struct DEG_AccountInternationalIssuer {
    pub iban: String,
}

impl DEG_AccountInternationalIssuer {
    /// The wire tree of this group.
    pub open spec fn view_node(self) -> NodeView {
        NodeView::Group(seq![NodeView::Leaf(DeView::Text(self.iban@))])
    }

    /// Convert to the generic wire tree.
    pub fn to_node(&self) -> (r: Node)
        ensures
            node_view(r) == self.view_node(),
    {
        let fields: Vec<Node> = vec![Node::Leaf(De::Text(self.iban.clone()))];
        let ghost fs = fields@;
        proof {
            crate::wire::lemma_nodes_view(fs);
            assert(nodes_view(fs) =~= seq![NodeView::Leaf(DeView::Text(self.iban@))]);
        }
        Node::Group(fields)
    }
}

/// User-defined signature: the PIN and an optional TAN.
#[allow(non_camel_case_types, non_snake_case)]
#[derive(Clone, Debug)]
pub struct DEG_UserDefinedSignature {
    pub PIN: String,
    pub TAN: Option<String>,
}

impl DEG_UserDefinedSignature {
    /// The wire tree of this group.
    pub open spec fn view_node(self) -> NodeView {
        NodeView::Group(
            seq![NodeView::Leaf(DeView::Text(self.PIN@)), opt_text_node(self.TAN)],
        )
    }

    /// Convert to the generic wire tree.
    pub fn to_node(&self) -> (r: Node)
        ensures
            node_view(r) == self.view_node(),
    {
        let fields: Vec<Node> = vec![
            Node::Leaf(De::Text(self.PIN.clone())),
            opt_text_to_node(&self.TAN),
        ];
        let ghost fs = fields@;
        proof {
            crate::wire::lemma_nodes_view(fs);
            assert(nodes_view(fs) =~= seq![
                NodeView::Leaf(DeView::Text(self.PIN@)),
                opt_text_node(self.TAN),
            ]);
        }
        Node::Group(fields)
    }
}

} // verus!
