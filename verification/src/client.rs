//! The PIN/TAN client: the caller-facing configuration of one bank
//! connection.
//!
//! The client owns the construction inputs (endpoint URL, bank code,
//! username, pin) and hands dialogs out; the transport round trips
//! themselves are the excluded collaborator's work and happen outside this
//! crate.

use vstd::prelude::*;

verus! {

use crate::dialog::Dialog;

/// A SEPA account of the customer.  Account discovery is a domain operation
/// beyond the handshake this crate covers, so the account carries no fields
/// yet.
#[derive(Clone, Copy, Debug, PartialEq, Eq, Structural)]
pub struct SepaAccount;

/// The primary way to communicate with a bank over PIN/TAN.
#[derive(Clone, Debug)]
pub struct PinTanClient {
    /// URL of the bank's PIN/TAN portal.
    pub url: String,
    /// Bank code ("Bankleitzahl").
    pub bank_code: u32,
    /// Username or identification number.
    pub username: String,
    /// Pin or password.
    pub pin: String,
}

impl PinTanClient {
    /// A fresh dialog for this client's identity.
    pub fn new_dialog(&self) -> (r: Dialog)
        ensures
            r.bank_code == self.bank_code,
            r.username@ == self.username@,
            r.pin@ == self.pin@,
            r.customer_system_id@ == "0"@,
            r.message_no == 1,
            r.tan_methods@.len() == 0,
    {
        Dialog::new(self.bank_code, self.username.as_str(), self.pin.as_str())
    }

    /// The accounts known after a completed handshake: account discovery is
    /// not part of the handshake itself, so this is the single placeholder
    /// account.
    pub fn get_accounts(&self) -> (r: Vec<SepaAccount>)
        ensures
            r@.len() == 1,
            r@[0] == SepaAccount,
    {
        let mut accounts: Vec<SepaAccount> = Vec::new();
        accounts.push(SepaAccount);
        accounts
    }
}

} // verus!
