use vstd::prelude::*;
use crate::address::Address;
use crate::ledger::Contract;

verus! {

/// Who the invoking party is, with respect to one stream.
#[derive(Clone, Copy, Debug, PartialEq, Eq, Structural)]
pub enum Role {
    Sender,
    Recipient,
    Neither,
}

/// The role of `authority`: the sender wins where it is both.
pub open spec fn role_of(authority: Seq<u8>, sender: Seq<u8>, recipient: Seq<u8>) -> Role {
    if authority == sender {
        Role::Sender
    } else if authority == recipient {
        Role::Recipient
    } else {
        Role::Neither
    }
}

/// Whether `role` is granted an action that the flag pair guards.
pub open spec fn permitted(role: Role, by_sender: bool, by_recipient: bool) -> bool {
    (role == Role::Sender && by_sender) || (role == Role::Recipient && by_recipient)
}

/// The invoking party of one call.
#[derive(Clone, Copy, Debug)]
pub struct Invoker {
    pub role: Role,
}

impl Invoker {
    /// Resolves the role of `authority` against a stream's sender and recipient.
    pub fn new(authority: &Address, sender: &Address, recipient: &Address) -> (r: Invoker)
        ensures
            r.role == role_of(authority@, sender@, recipient@),
    {
        let role = if authority.same_as(sender) {
            Role::Sender
        } else if authority.same_as(recipient) {
            Role::Recipient
        } else {
            Role::Neither
        };
        Invoker { role }
    }

    /// The flag-pair test shared by every restricted action.
    pub fn permits(&self, by_sender: bool, by_recipient: bool) -> (r: bool)
        ensures
            r == permitted(self.role, by_sender, by_recipient),
    {
        match self.role {
            Role::Sender => by_sender,
            Role::Recipient => by_recipient,
            Role::Neither => false,
        }
    }

    /// Whether the invoker may hand the stream to another recipient.
    pub fn can_transfer(&self, ledger: &Contract) -> (r: bool)
        ensures
            r == permitted(self.role, ledger.transferable_by_sender, ledger.transferable_by_recipient),
    {
        self.permits(ledger.transferable_by_sender, ledger.transferable_by_recipient)
    }

    /// Whether the invoker may cancel the stream.
    pub fn can_cancel(&self, ledger: &Contract) -> (r: bool)
        ensures
            r == permitted(self.role, ledger.cancelable_by_sender, ledger.cancelable_by_recipient),
    {
        self.permits(ledger.cancelable_by_sender, ledger.cancelable_by_recipient)
    }
}

/// With only the sender's flag set, exactly the sender is granted the action;
/// with only the recipient's flag set, exactly a recipient who is not also
/// the sender is; a third party never is.
pub proof fn lemma_authorization_symmetry(authority: Seq<u8>, sender: Seq<u8>, recipient: Seq<u8>)
    ensures
        permitted(role_of(authority, sender, recipient), true, false) <==> authority == sender,
        permitted(role_of(authority, sender, recipient), false, true) <==> (authority != sender
            && authority == recipient),
        authority != sender && authority != recipient ==> forall|by_sender: bool, by_recipient: bool|
            !permitted(role_of(authority, sender, recipient), by_sender, by_recipient),
{
}

} // verus!
