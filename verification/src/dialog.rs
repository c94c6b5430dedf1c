//! Dialog sequencing: the per-conversation identity and its state machine.
//!
//! A dialog starts with the sentinel customer-system identifier `0` and an
//! outgoing message counter of 1.  It advances only when the transport
//! collaborator confirms an exchange: the counter then increases by exactly
//! one, and whatever the bank assigned is taken over.  A failed exchange
//! leaves the dialog exactly as it was.

use vstd::prelude::*;

verus! {

use crate::messages::{
    is_alphanumeric_char, valid_dialog_inputs, wf_init, wf_sync, Msg_DialogInit, Msg_DialogSync,
};
use crate::se::Error;
use vstd::string::StringExecFns;

/// What the bank's answer to a synchronize exchange hands the dialog.
pub struct SyncResponse {
    /// The customer-system identifier the bank assigned.
    pub customer_system_id: String,
    /// The TAN methods the bank advertises.
    pub tan_methods: Vec<String>,
}

/// The outcome of one message exchange, as the transport collaborator
/// reports it.
pub enum TransportOutcome {
    /// The synchronize message was delivered and answered.
    DeliveredSync(SyncResponse),
    /// The message was delivered and answered; nothing of the dialog state
    /// changes beyond the counter.
    Delivered,
    /// The transport failed or the answer was unusable; the dialog must not
    /// advance.
    Failed,
}

/// The conversational identity held by the client across a handshake.
#[derive(Debug)]
pub struct Dialog {
    /// Bank code ("Bankleitzahl").
    pub bank_code: u32,
    /// Username or identification number.
    pub username: String,
    /// Pin or password.
    pub pin: String,
    /// Starts as the sentinel `0`; assigned by the bank on first sync.
    pub customer_system_id: String,
    /// Starts at 1; incremented once per confirmed message exchange.
    pub message_no: u16,
    /// TAN methods as returned by the bank on first sync.
    pub tan_methods: Vec<String>,
}

impl Dialog {
    /// A fresh dialog: sentinel customer-system identifier, counter at 1, no
    /// TAN methods yet.
    pub fn new(bank_code: u32, username: &str, pin: &str) -> (r: Dialog)
        ensures
            r.bank_code == bank_code,
            r.username@ == username@,
            r.pin@ == pin@,
            r.customer_system_id@ == "0"@,
            r.message_no == 1,
            r.tan_methods@.len() == 0,
    {
        Dialog {
            bank_code,
            username: String::from_str(username),
            pin: String::from_str(pin),
            customer_system_id: String::from_str("0"),
            message_no: 1,
            tan_methods: Vec::new(),
        }
    }

    /// Assemble the synchronize message for the dialog's current state.
    /// Fails with `InvalidInput` exactly when the dialog's identity inputs
    /// are unusable.
    pub fn get_sync_message(&self) -> (r: Result<Msg_DialogSync, Error>)
        ensures
            match r {
                Ok(m) => valid_dialog_inputs(
                    self.bank_code,
                    self.username@,
                    self.pin@,
                    self.customer_system_id@,
                ) && wf_sync(
                    m,
                    self.bank_code,
                    self.username@,
                    self.pin@,
                    self.customer_system_id@,
                    self.message_no,
                    m.signature_head.security_reference@,
                    m.signature_head.security_date.date,
                    m.signature_head.security_date.time,
                ) && m.signature_head.security_reference@.len() == 14 && (forall|i: int|
                    0 <= i < 14 ==> is_alphanumeric_char(
                        #[trigger] m.signature_head.security_reference@[i],
                    )),
                Err(e) => !valid_dialog_inputs(
                    self.bank_code,
                    self.username@,
                    self.pin@,
                    self.customer_system_id@,
                ) && e == Error::InvalidInput,
            },
    {
        Msg_DialogSync::new(
            self.bank_code,
            self.username.as_str(),
            self.pin.as_str(),
            self.customer_system_id.as_str(),
            self.message_no,
        )
    }

    /// Assemble the initialize message for the dialog's current state; it is
    /// sent once the synchronize exchange has assigned a customer-system
    /// identifier.  Fails with `InvalidInput` exactly when the dialog's
    /// identity inputs are unusable.
    pub fn init(&self) -> (r: Result<Msg_DialogInit, Error>)
        ensures
            match r {
                Ok(m) => valid_dialog_inputs(
                    self.bank_code,
                    self.username@,
                    self.pin@,
                    self.customer_system_id@,
                ) && wf_init(
                    m,
                    self.bank_code,
                    self.username@,
                    self.pin@,
                    self.customer_system_id@,
                    self.message_no,
                    m.signature_head.security_reference@,
                    m.signature_head.security_date.date,
                    m.signature_head.security_date.time,
                ) && m.signature_head.security_reference@.len() == 14 && (forall|i: int|
                    0 <= i < 14 ==> is_alphanumeric_char(
                        #[trigger] m.signature_head.security_reference@[i],
                    )),
                Err(e) => !valid_dialog_inputs(
                    self.bank_code,
                    self.username@,
                    self.pin@,
                    self.customer_system_id@,
                ) && e == Error::InvalidInput,
            },
    {
        Msg_DialogInit::new(
            self.bank_code,
            self.username.as_str(),
            self.pin.as_str(),
            self.customer_system_id.as_str(),
            self.message_no,
        )
    }

    /// Apply the outcome of one message exchange.  A delivered exchange
    /// advances the outgoing message counter by exactly one and takes over
    /// what the bank assigned; a transport failure leaves every field of the
    /// dialog unchanged.
    pub fn apply_outcome(&mut self, outcome: TransportOutcome)
        requires
            old(self).message_no < u16::MAX,
        ensures
            final(self).bank_code == old(self).bank_code,
            final(self).username@ == old(self).username@,
            final(self).pin@ == old(self).pin@,
            match outcome {
                TransportOutcome::DeliveredSync(resp) => {
                    &&& final(self).message_no == old(self).message_no + 1
                    &&& final(self).customer_system_id@ == resp.customer_system_id@
                    &&& final(self).tan_methods@ == resp.tan_methods@
                },
                TransportOutcome::Delivered => {
                    &&& final(self).message_no == old(self).message_no + 1
                    &&& final(self).customer_system_id@ == old(self).customer_system_id@
                    &&& final(self).tan_methods@ == old(self).tan_methods@
                },
                TransportOutcome::Failed => *final(self) == *old(self),
            },
    {
        match outcome {
            TransportOutcome::DeliveredSync(resp) => {
                self.customer_system_id = resp.customer_system_id;
                self.tan_methods = resp.tan_methods;
                self.message_no = self.message_no + 1;
            },
            TransportOutcome::Delivered => {
                self.message_no = self.message_no + 1;
            },
            TransportOutcome::Failed => {},
        }
    }
}

} // verus!
