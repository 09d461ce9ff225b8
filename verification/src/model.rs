//! What the contract keeps in the host's storage, and what each of its functions answers and
//! changes, as functions of what the host holds.
use soroban_sdk::Address;
use vstd::prelude::*;

use crate::host::{
    in_invocation, with_entry, with_event, with_extension, with_grant, with_instance, Event,
    EventData, HostView, Stored,
};
use crate::types::{Error, Key, PayLinkView, PAYLINK_TTL_BUFFER_LEDGERS};

verus! {

/// The key of a creator's registration.
pub open spec fn creator_key(username: Seq<u8>) -> Key {
    ("Creator"@, username)
}

/// The key of a link.
pub open spec fn paylink_key(token_id: Seq<u8>) -> Key {
    ("PayLink"@, token_id)
}

/// The key of a user's staked balance.
pub open spec fn stake_key(username: Seq<u8>) -> Key {
    ("StakeBalance"@, username)
}

/// Whether a creator of this name is registered.
pub open spec fn is_creator(s: HostView, username: Seq<u8>) -> bool {
    s.persistent.contains_key(creator_key(username))
}

/// The link with this token id.
pub open spec fn paylink(s: HostView, token_id: Seq<u8>) -> Option<PayLinkView> {
    if s.persistent.contains_key(paylink_key(token_id)) {
        Some(s.persistent[paylink_key(token_id)]->Link_0)
    } else {
        None
    }
}

/// The staked balance of this user, zero where none is kept.
pub open spec fn balance(s: HostView, username: Seq<u8>) -> i128 {
    if s.persistent.contains_key(stake_key(username)) {
        s.persistent[stake_key(username)]->Amount_0
    } else {
        0
    }
}

/// The administrator, once there is one.
pub open spec fn admin(s: HostView) -> Option<Address> {
    if s.instance.contains_key("Admin"@) {
        s.instance["Admin"@]
    } else {
        None
    }
}

/// A contract runs whose storage holds under each key a value of the key's type.
pub open spec fn well_formed(s: HostView) -> bool {
    &&& in_invocation(s)
    &&& forall|token_id: Seq<u8>| #[trigger]
        s.persistent.contains_key(paylink_key(token_id))
            ==> s.persistent[paylink_key(token_id)] is Link
    &&& forall|username: Seq<u8>| #[trigger]
        s.persistent.contains_key(stake_key(username))
            ==> s.persistent[stake_key(username)] is Amount
    &&& s.instance.contains_key("Admin"@) ==> s.instance["Admin"@] is Some
}

/// Setting the administrator.
pub open spec fn after_set_admin(s: HostView, who: Address) -> HostView {
    with_instance(s, "Admin"@, who)
}

/// Registering a creator.
pub open spec fn after_register(s: HostView, username: Seq<u8>) -> HostView {
    with_entry(s, creator_key(username), Stored::Flag(true))
}

/// What crediting a yield answers.
pub open spec fn credit_outcome(s: HostView, username: Seq<u8>, amount: i128) -> Result<
    (),
    Error,
> {
    if admin(s) is None {
        Err(Error::Unauthorized)
    } else if amount <= 0 {
        Err(Error::InvalidAmount)
    } else if !is_creator(s, username) {
        Err(Error::UserNotFound)
    } else {
        Ok(())
    }
}

/// The sum of the balance and the amount can be kept.
pub open spec fn credit_fits(s: HostView, username: Seq<u8>, amount: i128) -> bool {
    credit_outcome(s, username, amount) is Ok ==> balance(s, username) + amount <= i128::MAX
}

/// What crediting a yield changes. The administrator's authorization is asked for before
/// anything else is looked at; `left` is who can still be asked afterwards.
pub open spec fn after_credit(
    s: HostView,
    username: Seq<u8>,
    amount: i128,
    left: Set<Address>,
) -> HostView {
    match admin(s) {
        None => s,
        Some(who) => {
            let asked = with_grant(s, who, left);
            let sum = (balance(s, username) + amount) as i128;
            if credit_outcome(s, username, amount) is Ok {
                with_event(
                    with_extension(
                        with_entry(asked, stake_key(username), Stored::Amount(sum)),
                        stake_key(username),
                        PAYLINK_TTL_BUFFER_LEDGERS,
                        PAYLINK_TTL_BUFFER_LEDGERS,
                    ),
                    Event {
                        topic: "yield_credited"@,
                        data: EventData::TextAmountAmountLedger(
                            username,
                            amount,
                            sum,
                            s.sequence,
                        ),
                    },
                )
            } else {
                asked
            }
        },
    }
}

/// A link may be made under this token id, as far as its ledgers can be counted.
pub open spec fn may_create(
    s: HostView,
    creator_username: Seq<u8>,
    token_id: Seq<u8>,
    amount: i128,
) -> bool {
    &&& is_creator(s, creator_username)
    &&& amount > 0
    &&& paylink(s, token_id) is None
}

/// The ledger in which a link expires can be counted.
pub open spec fn expiration_fits(s: HostView, ttl_ledgers: u32) -> bool {
    s.sequence + ttl_ledgers <= u32::MAX
}

/// The ledgers for which a link's entry is to be kept can be counted.
pub open spec fn lifetime_fits(ttl_ledgers: u32) -> bool {
    ttl_ledgers + PAYLINK_TTL_BUFFER_LEDGERS <= u32::MAX
}

/// What making a link answers.
pub open spec fn create_outcome(
    s: HostView,
    creator_username: Seq<u8>,
    token_id: Seq<u8>,
    amount: i128,
    ttl_ledgers: u32,
) -> Result<(), Error> {
    if !is_creator(s, creator_username) {
        Err(Error::CreatorNotFound)
    } else if amount <= 0 {
        Err(Error::InvalidAmount)
    } else if paylink(s, token_id) is Some {
        Err(Error::PayLinkAlreadyExists)
    } else if !expiration_fits(s, ttl_ledgers) || !lifetime_fits(ttl_ledgers) {
        Err(Error::LedgerOverflow)
    } else {
        Ok(())
    }
}

/// A link as it is made.
pub open spec fn new_link(
    s: HostView,
    creator_username: Seq<u8>,
    amount: i128,
    note: Seq<u8>,
    ttl_ledgers: u32,
) -> PayLinkView {
    PayLinkView {
        creator_username,
        amount,
        note,
        expiration_ledger: (s.sequence + ttl_ledgers) as u32,
        paid: false,
        cancelled: false,
    }
}

/// What making a link changes. The link is written before the ledgers for which its entry is to
/// be kept are counted.
pub open spec fn after_create(
    s: HostView,
    creator_username: Seq<u8>,
    token_id: Seq<u8>,
    amount: i128,
    note: Seq<u8>,
    ttl_ledgers: u32,
) -> HostView {
    let key = paylink_key(token_id);
    let link = new_link(s, creator_username, amount, note, ttl_ledgers);
    let written = with_entry(s, key, Stored::Link(link));
    let lifetime = (ttl_ledgers + PAYLINK_TTL_BUFFER_LEDGERS) as u32;
    if !may_create(s, creator_username, token_id, amount) || !expiration_fits(s, ttl_ledgers) {
        s
    } else if !lifetime_fits(ttl_ledgers) {
        written
    } else {
        with_event(
            with_extension(written, key, lifetime, lifetime),
            Event {
                topic: "paylink_created"@,
                data: EventData::TextTextAmountLedger(
                    creator_username,
                    token_id,
                    amount,
                    link.expiration_ledger,
                ),
            },
        )
    }
}

/// What cancelling a link answers.
pub open spec fn cancel_outcome(
    s: HostView,
    requester_username: Seq<u8>,
    token_id: Seq<u8>,
) -> Result<(), Error> {
    match paylink(s, token_id) {
        None => Err(Error::PayLinkNotFound),
        Some(link) => if requester_username != link.creator_username {
            Err(Error::NotPayLinkCreator)
        } else if link.paid {
            Err(Error::PayLinkAlreadyPaid)
        } else {
            Ok(())
        },
    }
}

/// What cancelling a link changes. The contract's own authorization is asked for before anything
/// else is looked at; `left` is who can still be asked afterwards.
pub open spec fn after_cancel(
    s: HostView,
    requester_username: Seq<u8>,
    token_id: Seq<u8>,
    left: Set<Address>,
) -> HostView {
    let asked = with_grant(s, s.contract_address, left);
    if cancel_outcome(s, requester_username, token_id) is Ok {
        let cancelled = PayLinkView { cancelled: true, ..paylink(s, token_id)->0 };
        with_event(
            with_entry(asked, paylink_key(token_id), Stored::Link(cancelled)),
            Event {
                topic: "paylink_cancelled"@,
                data: EventData::TextText(requester_username, token_id),
            },
        )
    } else {
        asked
    }
}

/// Keys of different kinds differ.
pub proof fn lemma_kinds_differ()
    ensures
        "Creator"@ != "PayLink"@,
        "Creator"@ != "StakeBalance"@,
        "PayLink"@ != "StakeBalance"@,
{
    reveal_strlit("Creator");
    reveal_strlit("PayLink");
    reveal_strlit("StakeBalance");
    assert("Creator"@[0] != "PayLink"@[0]);
}

/// A value of the right type under a key keeps the storage well formed.
pub proof fn lemma_entry_well_formed(s: HostView, key: Key, value: Stored)
    requires
        well_formed(s),
        key.0 == "PayLink"@ ==> value is Link,
        key.0 == "StakeBalance"@ ==> value is Amount,
    ensures
        well_formed(with_entry(s, key, value)),
{
    let t = with_entry(s, key, value);
    assert forall|token_id: Seq<u8>| #[trigger]
        t.persistent.contains_key(paylink_key(token_id)) implies t.persistent[paylink_key(
        token_id,
    )] is Link by {
        assert(s.persistent.contains_key(paylink_key(token_id)) || paylink_key(token_id) == key);
    }
    assert forall|username: Seq<u8>| #[trigger]
        t.persistent.contains_key(stake_key(username)) implies t.persistent[stake_key(
        username,
    )] is Amount by {
        assert(s.persistent.contains_key(stake_key(username)) || stake_key(username) == key);
    }
}

} // verus!
