//! What is read and what each call answers, told from the entries that storage holds.
use soroban_sdk::Address;
use vstd::prelude::*;

use crate::host::{is_text, HostView, Stored};
use crate::model::{
    admin, balance, cancel_outcome, create_outcome, credit_fits, credit_outcome, is_creator,
    lemma_kinds_differ, paylink, paylink_key, stake_key, well_formed,
};
use crate::types::{DataKey, Error, PayLinkView};

verus! {

/// Storage is well formed wherever a contract runs, links are stored under the keys of links,
/// amounts under the keys of balances and an address under that of the administrator. Nothing is
/// asked of the texts, the amounts or the ledgers in them.
pub proof fn law_storage_is_well_formed_by_its_types(s: HostView)
    ensures
        well_formed(s) <==> {
            &&& s.running
            &&& s.sequence <= s.first_live_until <= u32::MAX
            &&& s.sequence <= s.max_live_until <= u32::MAX
            &&& forall|token_id: Seq<u8>| #[trigger]
                s.persistent.contains_key(("PayLink"@, token_id))
                    ==> s.persistent[("PayLink"@, token_id)] is Link
            &&& forall|username: Seq<u8>| #[trigger]
                s.persistent.contains_key(("StakeBalance"@, username))
                    ==> s.persistent[("StakeBalance"@, username)] is Amount
            &&& s.instance.contains_key("Admin"@) ==> s.instance["Admin"@] is Some
        },
{
    assert(forall|token_id: Seq<u8>|
        (#[trigger] paylink_key(token_id)) == ("PayLink"@, token_id));
    assert(forall|username: Seq<u8>|
        (#[trigger] stake_key(username)) == ("StakeBalance"@, username));
    if well_formed(s) {
        assert forall|token_id: Seq<u8>| #[trigger]
            s.persistent.contains_key(("PayLink"@, token_id)) implies s.persistent[(
            "PayLink"@,
            token_id,
        )] is Link by {
            assert(s.persistent.contains_key(paylink_key(token_id)));
        }
        assert forall|username: Seq<u8>| #[trigger]
            s.persistent.contains_key(("StakeBalance"@, username)) implies s.persistent[(
            "StakeBalance"@,
            username,
        )] is Amount by {
            assert(s.persistent.contains_key(stake_key(username)));
        }
    }
}

/// A text of any bytes is taken, as far as its length can be counted.
pub proof fn law_any_countable_text_is_taken(text: Seq<u8>)
    ensures
        is_text(text) <==> text.len() <= u32::MAX,
{
}

/// A key is stored as the symbol of its kind and its text, and keys that are stored alike are of
/// one kind and have one text.
pub proof fn law_keys_are_told_apart(a: DataKey, b: DataKey)
    ensures
        a matches DataKey::Creator(username) ==> a@ == ("Creator"@, username@),
        a matches DataKey::PayLink(token_id) ==> a@ == ("PayLink"@, token_id@),
        a matches DataKey::StakeBalance(username) ==> a@ == ("StakeBalance"@, username@),
        a is Admin ==> a@.0 == "Admin"@,
        a@ == b@ ==> match (a, b) {
            (DataKey::Creator(x), DataKey::Creator(y)) => x@ == y@,
            (DataKey::PayLink(x), DataKey::PayLink(y)) => x@ == y@,
            (DataKey::StakeBalance(x), DataKey::StakeBalance(y)) => x@ == y@,
            (DataKey::Admin, DataKey::Admin) => true,
            _ => false,
        },
{
    lemma_kinds_differ();
    reveal_strlit("Admin");
    reveal_strlit("Creator");
    reveal_strlit("PayLink");
    reveal_strlit("StakeBalance");
    assert("Admin"@[0] == 'A');
    assert("Creator"@[0] == 'C');
    assert("PayLink"@[0] == 'P');
    assert("StakeBalance"@[0] == 'S');
}

/// A link is read as it is stored, field by field: nothing is added, and what is not stored is
/// not read.
pub proof fn law_link_is_read_as_stored(s: HostView, token_id: Seq<u8>)
    ensures
        !s.persistent.contains_key(("PayLink"@, token_id)) <==> paylink(s, token_id) is None,
        s.persistent.contains_key(("PayLink"@, token_id)) ==> {
            s.persistent[("PayLink"@, token_id)] matches Stored::Link(stored) ==> {
                &&& paylink(s, token_id) matches Some(link)
                &&& link.creator_username == stored.creator_username
                &&& link.amount == stored.amount
                &&& link.note == stored.note
                &&& link.expiration_ledger == stored.expiration_ledger
                &&& link.paid == stored.paid
                &&& link.cancelled == stored.cancelled
            }
        },
{
}

/// What is read of a link rests on its entry alone: it is the same in every ledger, before the
/// link expires and after, whatever else is stored and whoever asks.
pub proof fn law_link_reads_the_same_in_every_ledger(s: HostView, t: HostView, token_id: Seq<u8>)
    requires
        s.persistent.contains_key(("PayLink"@, token_id)) == t.persistent.contains_key(
            ("PayLink"@, token_id),
        ),
        s.persistent.contains_key(("PayLink"@, token_id))
            ==> s.persistent[("PayLink"@, token_id)] == t.persistent[("PayLink"@, token_id)],
    ensures
        paylink(s, token_id) == paylink(t, token_id),
{
}

/// A creator is one whose registration is stored, a balance is the amount that is stored, or zero,
/// and the administrator is the address that is stored.
pub proof fn law_storage_tells_creators_balances_and_admin(
    s: HostView,
    username: Seq<u8>,
    held: i128,
    who: Address,
)
    ensures
        is_creator(s, username) <==> s.persistent.contains_key(("Creator"@, username)),
        !s.persistent.contains_key(("StakeBalance"@, username)) ==> balance(s, username) == 0,
        s.persistent.contains_key(("StakeBalance"@, username)) && s.persistent[(
            "StakeBalance"@,
            username,
        )] == Stored::Amount(held) ==> balance(s, username) == held,
        !s.instance.contains_key("Admin"@) ==> admin(s) is None,
        s.instance.contains_key("Admin"@) && s.instance["Admin"@] == Some(who) ==> admin(s)
            == Some(who),
{
}

/// A link is made wherever its creator is registered, its amount is positive, nothing is stored
/// under its token id, and both the ledger in which it expires and the ledgers for which to keep
/// it can be counted; and nowhere else.
pub proof fn law_link_is_made_wherever_it_may_be(
    s: HostView,
    creator_username: Seq<u8>,
    token_id: Seq<u8>,
    amount: i128,
    ttl_ledgers: u32,
)
    ensures
        create_outcome(s, creator_username, token_id, amount, ttl_ledgers) == Ok::<(), Error>(())
            <==> {
            &&& s.persistent.contains_key(("Creator"@, creator_username))
            &&& amount > 0
            &&& !s.persistent.contains_key(("PayLink"@, token_id))
            &&& s.sequence + ttl_ledgers <= u32::MAX
            &&& ttl_ledgers + 16_384 <= u32::MAX
        },
{
}

/// Each refusal to make a link has its one reason, and the first that holds is answered: the
/// creator is not registered, the amount is not positive, the token id is taken, or a ledger
/// cannot be counted.
pub proof fn law_each_refusal_of_a_link_has_its_reason(
    s: HostView,
    creator_username: Seq<u8>,
    token_id: Seq<u8>,
    amount: i128,
    ttl_ledgers: u32,
)
    ensures
        ({
            let answer = create_outcome(s, creator_username, token_id, amount, ttl_ledgers);
            let registered = s.persistent.contains_key(("Creator"@, creator_username));
            let taken = s.persistent.contains_key(("PayLink"@, token_id));
            &&& answer == Err::<(), Error>(Error::CreatorNotFound) <==> !registered
            &&& answer == Err::<(), Error>(Error::InvalidAmount) <==> registered && amount <= 0
            &&& answer == Err::<(), Error>(Error::PayLinkAlreadyExists) <==> registered && amount
                > 0 && taken
            &&& answer == Err::<(), Error>(Error::LedgerOverflow) <==> {
                &&& registered
                &&& amount > 0
                &&& !taken
                &&& s.sequence + ttl_ledgers > u32::MAX || ttl_ledgers + 16_384 > u32::MAX
            }
        }),
{
}

/// Whether a link is made rests on its creator's registration, its token id and the ledger alone:
/// in two states that agree on these the answer is the same, whatever else is stored, whoever is
/// the administrator and whatever balances are held.
pub proof fn law_making_a_link_looks_at_nothing_else(
    s: HostView,
    t: HostView,
    creator_username: Seq<u8>,
    token_id: Seq<u8>,
    amount: i128,
    ttl_ledgers: u32,
)
    requires
        s.persistent.contains_key(("Creator"@, creator_username)) == t.persistent.contains_key(
            ("Creator"@, creator_username),
        ),
        s.persistent.contains_key(("PayLink"@, token_id)) == t.persistent.contains_key(
            ("PayLink"@, token_id),
        ),
        s.sequence == t.sequence,
    ensures
        create_outcome(s, creator_username, token_id, amount, ttl_ledgers) == create_outcome(
            t,
            creator_username,
            token_id,
            amount,
            ttl_ledgers,
        ),
{
}

/// A link is cancelled wherever it is stored, its creator asks and it is not paid, whatever its
/// amount, note and expiry and whether or not it was cancelled before; and nowhere else.
pub proof fn law_unpaid_link_is_cancelled_by_its_creator(
    s: HostView,
    requester_username: Seq<u8>,
    token_id: Seq<u8>,
    link: PayLinkView,
)
    requires
        s.persistent.contains_key(("PayLink"@, token_id)),
        s.persistent[("PayLink"@, token_id)] == Stored::Link(link),
    ensures
        cancel_outcome(s, requester_username, token_id) == Ok::<(), Error>(())
            <==> link.creator_username == requester_username && !link.paid,
        cancel_outcome(s, requester_username, token_id) == Err::<(), Error>(
            Error::NotPayLinkCreator,
        ) <==> link.creator_username != requester_username,
        cancel_outcome(s, requester_username, token_id) == Err::<(), Error>(
            Error::PayLinkAlreadyPaid,
        ) <==> link.creator_username == requester_username && link.paid,
{
}

/// A link is not found where none is stored, and only there.
pub proof fn law_link_is_found_where_it_is_stored(
    s: HostView,
    requester_username: Seq<u8>,
    token_id: Seq<u8>,
)
    ensures
        cancel_outcome(s, requester_username, token_id) == Err::<(), Error>(Error::PayLinkNotFound)
            <==> !s.persistent.contains_key(("PayLink"@, token_id)),
{
}

/// Whether a link is cancelled rests on who made it and whether it is paid: for two links that
/// agree on these, in any two states, the answer is the same.
pub proof fn law_cancelling_looks_at_nothing_else(
    s: HostView,
    t: HostView,
    requester_username: Seq<u8>,
    token_id: Seq<u8>,
    other_token_id: Seq<u8>,
    link: PayLinkView,
    other: PayLinkView,
)
    requires
        s.persistent.contains_key(("PayLink"@, token_id)),
        s.persistent[("PayLink"@, token_id)] == Stored::Link(link),
        t.persistent.contains_key(("PayLink"@, other_token_id)),
        t.persistent[("PayLink"@, other_token_id)] == Stored::Link(other),
        link.creator_username == other.creator_username,
        link.paid == other.paid,
    ensures
        cancel_outcome(s, requester_username, token_id) == cancel_outcome(
            t,
            requester_username,
            other_token_id,
        ),
{
}

/// Yield is credited wherever there is an administrator, the amount is positive and the user is
/// registered, whatever the user's name; and nowhere else.
pub proof fn law_yield_is_credited_wherever_it_may_be(s: HostView, username: Seq<u8>, amount: i128)
    requires
        s.instance.contains_key("Admin"@) ==> s.instance["Admin"@] is Some,
    ensures
        credit_outcome(s, username, amount) == Ok::<(), Error>(()) <==> {
            &&& s.instance.contains_key("Admin"@)
            &&& amount > 0
            &&& s.persistent.contains_key(("Creator"@, username))
        },
{
}

/// Each refusal to credit a yield has its one reason, and the first that holds is answered: there
/// is no administrator, the amount is not positive, or the user is not registered.
pub proof fn law_each_refusal_of_a_credit_has_its_reason(
    s: HostView,
    username: Seq<u8>,
    amount: i128,
)
    requires
        s.instance.contains_key("Admin"@) ==> s.instance["Admin"@] is Some,
    ensures
        ({
            let answer = credit_outcome(s, username, amount);
            let governed = s.instance.contains_key("Admin"@);
            let registered = s.persistent.contains_key(("Creator"@, username));
            &&& answer == Err::<(), Error>(Error::Unauthorized) <==> !governed
            &&& answer == Err::<(), Error>(Error::InvalidAmount) <==> governed && amount <= 0
            &&& answer == Err::<(), Error>(Error::UserNotFound) <==> governed && amount > 0
                && !registered
        }),
{
}

/// A credit can be kept unless it would be accepted and its sum with the amount that is stored,
/// or with zero, is beyond the largest amount.
pub proof fn law_credit_is_kept_wherever_the_sum_can_be(
    s: HostView,
    username: Seq<u8>,
    amount: i128,
    held: i128,
)
    requires
        s.instance.contains_key("Admin"@) ==> s.instance["Admin"@] is Some,
        s.persistent.contains_key(("StakeBalance"@, username)) ==> s.persistent[(
            "StakeBalance"@,
            username,
        )] == Stored::Amount(held),
        !s.persistent.contains_key(("StakeBalance"@, username)) ==> held == 0,
    ensures
        !credit_fits(s, username, amount) <==> {
            &&& s.instance.contains_key("Admin"@)
            &&& amount > 0
            &&& s.persistent.contains_key(("Creator"@, username))
            &&& held + amount > i128::MAX
        },
{
}

/// Whether a yield is credited rests on there being an administrator and on the registration
/// alone: for two users that agree on it, in any two states with an administrator, the answer is
/// the same.
pub proof fn law_crediting_looks_at_nothing_else(
    s: HostView,
    t: HostView,
    username: Seq<u8>,
    other: Seq<u8>,
    amount: i128,
)
    requires
        s.instance.contains_key("Admin"@) && s.instance["Admin"@] is Some,
        t.instance.contains_key("Admin"@) && t.instance["Admin"@] is Some,
        s.persistent.contains_key(("Creator"@, username)) == t.persistent.contains_key(
            ("Creator"@, other),
        ),
    ensures
        credit_outcome(s, username, amount) == credit_outcome(t, other, amount),
{
}

} // verus!
