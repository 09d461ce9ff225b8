//! What holds of the contract as a whole. `answers` and `effects` tell what each call answers and
//! changes of the entries in storage themselves.
use soroban_sdk::Address;
use vstd::prelude::*;

use crate::host::{in_invocation, HostView, Stored};
use crate::model::{
    admin, after_cancel, after_create, after_credit, after_register, after_set_admin, balance,
    cancel_outcome, create_outcome, creator_key, credit_fits, credit_outcome, expiration_fits,
    is_creator, lemma_entry_well_formed, lemma_kinds_differ, lifetime_fits, may_create, new_link,
    paylink, paylink_key, stake_key, well_formed,
};
use crate::types::{error_code, Error, Key, PayLinkView, PAYLINK_TTL_BUFFER_LEDGERS};

pub mod answers;
pub mod effects;

verus! {

/// A call of a function that changes the host. For one that asks for an authorization, `left` is
/// who can still be asked afterwards.
pub enum Call {
    SetAdmin { who: Address },
    RegisterCreator { username: Seq<u8> },
    CreditYield { username: Seq<u8>, amount: i128, left: Set<Address> },
    CreatePayLink {
        creator_username: Seq<u8>,
        token_id: Seq<u8>,
        amount: i128,
        note: Seq<u8>,
        ttl_ledgers: u32,
    },
    CancelPayLink { requester_username: Seq<u8>, token_id: Seq<u8>, left: Set<Address> },
}

/// The function may be called so.
pub open spec fn allowed(s: HostView, call: Call) -> bool {
    &&& well_formed(s)
    &&& match call {
        Call::SetAdmin { .. } => admin(s) is None,
        Call::CreditYield { username, amount, .. } => credit_fits(s, username, amount),
        _ => true,
    }
}

/// What the call makes of the host.
pub open spec fn after(s: HostView, call: Call) -> HostView {
    match call {
        Call::SetAdmin { who } => after_set_admin(s, who),
        Call::RegisterCreator { username } => after_register(s, username),
        Call::CreditYield { username, amount, left } => after_credit(s, username, amount, left),
        Call::CreatePayLink { creator_username, token_id, amount, note, ttl_ledgers } =>
            after_create(s, creator_username, token_id, amount, note, ttl_ledgers),
        Call::CancelPayLink { requester_username, token_id, left } => after_cancel(
            s,
            requester_username,
            token_id,
            left,
        ),
    }
}

/// What the call answers.
pub open spec fn outcome(s: HostView, call: Call) -> Result<(), Error> {
    match call {
        Call::SetAdmin { .. } => Ok(()),
        Call::RegisterCreator { .. } => Ok(()),
        Call::CreditYield { username, amount, .. } => credit_outcome(s, username, amount),
        Call::CreatePayLink { creator_username, token_id, amount, ttl_ledgers, .. } =>
            create_outcome(s, creator_username, token_id, amount, ttl_ledgers),
        Call::CancelPayLink { requester_username, token_id, .. } => cancel_outcome(
            s,
            requester_username,
            token_id,
        ),
    }
}

/// Every link is for a positive amount and in the name of a registered creator, and every
/// balance that is kept is positive and that of a registered creator.
pub open spec fn books_in_order(s: HostView) -> bool {
    &&& forall|token_id: Seq<u8>| #[trigger]
        s.persistent.contains_key(paylink_key(token_id)) ==> {
            &&& (paylink(s, token_id)->0).amount > 0
            &&& is_creator(s, (paylink(s, token_id)->0).creator_username)
        }
    &&& forall|username: Seq<u8>| #[trigger]
        s.persistent.contains_key(stake_key(username)) ==> {
            &&& balance(s, username) > 0
            &&& is_creator(s, username)
        }
}

/// Every call leaves under each key a value of the key's type.
pub proof fn law_storage_stays_well_formed(s: HostView, call: Call)
    requires
        allowed(s, call),
    ensures
        well_formed(after(s, call)),
{
    lemma_kinds_differ();
    match call {
        Call::SetAdmin { .. } => {},
        Call::RegisterCreator { username } => {
            lemma_entry_well_formed(s, creator_key(username), Stored::Flag(true));
        },
        Call::CreditYield { username, amount, .. } => {
            let sum = (balance(s, username) + amount) as i128;
            lemma_entry_well_formed(s, stake_key(username), Stored::Amount(sum));
        },
        Call::CreatePayLink { creator_username, token_id, amount, note, ttl_ledgers } => {
            let link = new_link(s, creator_username, amount, note, ttl_ledgers);
            lemma_entry_well_formed(s, paylink_key(token_id), Stored::Link(link));
        },
        Call::CancelPayLink { token_id, .. } => {
            let link = PayLinkView { cancelled: true, ..paylink(s, token_id)->0 };
            lemma_entry_well_formed(s, paylink_key(token_id), Stored::Link(link));
        },
    }
}

/// Every call leaves the books in order.
pub proof fn law_books_stay_in_order(s: HostView, call: Call)
    requires
        allowed(s, call),
        books_in_order(s),
    ensures
        books_in_order(after(s, call)),
{
    lemma_kinds_differ();
    let t = after(s, call);
    assert forall|token_id: Seq<u8>| #[trigger]
        t.persistent.contains_key(paylink_key(token_id)) implies {
        &&& (paylink(t, token_id)->0).amount > 0
        &&& is_creator(t, (paylink(t, token_id)->0).creator_username)
    } by {
        if s.persistent.contains_key(paylink_key(token_id)) {
            assert(is_creator(s, (paylink(s, token_id)->0).creator_username));
        }
    }
    assert forall|username: Seq<u8>| #[trigger]
        t.persistent.contains_key(stake_key(username)) implies {
        &&& balance(t, username) > 0
        &&& is_creator(t, username)
    } by {
        if s.persistent.contains_key(stake_key(username)) {
            assert(is_creator(s, username));
        }
    }
}

/// Storage that holds nothing is well formed and has its books in order.
pub proof fn law_empty_storage_is_in_order(s: HostView)
    requires
        in_invocation(s),
        s.persistent == Map::<Key, Stored>::empty(),
        s.instance == Map::<Seq<char>, Option<Address>>::empty(),
    ensures
        well_formed(s),
        books_in_order(s),
        admin(s) is None,
{
}

/// No call forgets a creator.
pub proof fn law_creators_are_kept(s: HostView, call: Call, username: Seq<u8>)
    requires
        allowed(s, call),
        is_creator(s, username),
    ensures
        is_creator(after(s, call), username),
{
    lemma_kinds_differ();
}

/// No call takes a link away, changes who made it, its amount, its note, when it expires or
/// whether it is paid, or takes a cancellation back.
pub proof fn law_links_are_kept(s: HostView, call: Call, token_id: Seq<u8>)
    requires
        allowed(s, call),
        paylink(s, token_id) is Some,
    ensures
        paylink(after(s, call), token_id) is Some,
        ({
            let before = paylink(s, token_id)->0;
            let now = paylink(after(s, call), token_id)->0;
            &&& now == PayLinkView { cancelled: now.cancelled, ..before }
            &&& before.cancelled ==> now.cancelled
        }),
{
    lemma_kinds_differ();
}

/// No call lowers a balance.
pub proof fn law_balances_never_fall(s: HostView, call: Call, username: Seq<u8>)
    requires
        allowed(s, call),
    ensures
        balance(after(s, call), username) >= balance(s, username),
{
    lemma_kinds_differ();
}

/// No call replaces the administrator.
pub proof fn law_admin_is_kept(s: HostView, call: Call)
    requires
        allowed(s, call),
        admin(s) is Some,
    ensures
        admin(after(s, call)) == admin(s),
{
}

/// An entry that is there stays, and lives at least as long as before.
pub proof fn law_entries_are_kept_alive(s: HostView, call: Call, key: Key)
    requires
        allowed(s, call),
        s.persistent.contains_key(key),
    ensures
        after(s, call).persistent.contains_key(key),
        after(s, call).live_until[key] >= s.live_until[key],
{
}

/// A call that is refused leaves storage, the lives of its entries and the events as they were.
/// The one exception is a link whose expiry can be counted while the ledgers for which to keep
/// it cannot.
pub proof fn law_refused_call_changes_nothing(s: HostView, call: Call)
    requires
        allowed(s, call),
        outcome(s, call) is Err,
        !(call matches Call::CreatePayLink { creator_username, token_id, amount, ttl_ledgers, .. }
            && may_create(s, creator_username, token_id, amount)
            && expiration_fits(s, ttl_ledgers)
            && !lifetime_fits(ttl_ledgers)),
    ensures
        after(s, call).persistent == s.persistent,
        after(s, call).live_until == s.live_until,
        after(s, call).instance == s.instance,
        after(s, call).events == s.events,
{
}

/// A call that credits, makes or cancels, and is not refused, publishes one event, after those
/// that were there.
pub proof fn law_accepted_call_publishes_one_event(s: HostView, call: Call)
    requires
        allowed(s, call),
        outcome(s, call) is Ok,
        call is CreditYield || call is CreatePayLink || call is CancelPayLink,
    ensures
        after(s, call).events.len() == s.events.len() + 1,
        after(s, call).events.drop_last() == s.events,
{
    assert(after(s, call).events.drop_last() =~= s.events);
}

/// Amounts that are not positive are refused, whoever asks and whatever is stored.
pub proof fn law_amounts_are_positive(s: HostView, call: Call)
    requires
        allowed(s, call),
        (call matches Call::CreditYield { amount, .. } && amount <= 0) || (call matches
            Call::CreatePayLink { amount, .. } && amount <= 0),
    ensures
        outcome(s, call) is Err,
{
}

/// Once the administrator is set it is the one that was given, and cannot be set again.
pub proof fn law_admin_is_set_once(s: HostView, who: Address, other: Address)
    requires
        allowed(s, Call::SetAdmin { who }),
    ensures
        admin(after_set_admin(s, who)) == Some(who),
        !allowed(after_set_admin(s, who), Call::SetAdmin { who: other }),
{
}

/// Without an administrator no yield is credited and nothing changes. With one, none is credited
/// unless the host confirmed the administrator's authorization.
pub proof fn law_only_the_admin_credits(
    s: HostView,
    username: Seq<u8>,
    amount: i128,
    left: Set<Address>,
)
    requires
        well_formed(s),
    ensures
        admin(s) is None ==> {
            &&& credit_outcome(s, username, amount) == Err::<(), Error>(Error::Unauthorized)
            &&& after_credit(s, username, amount, left) == s
        },
        admin(s) matches Some(who) ==> after_credit(s, username, amount, left).granted
            == s.granted.push(who),
{
}

/// Registering a creator lets links be made in that name, and registering twice is registering
/// once.
pub proof fn law_registration_opens_links(
    s: HostView,
    username: Seq<u8>,
    token_id: Seq<u8>,
    amount: i128,
    ttl_ledgers: u32,
)
    requires
        well_formed(s),
    ensures
        create_outcome(after_register(s, username), username, token_id, amount, ttl_ledgers)
            != Err::<(), Error>(Error::CreatorNotFound),
        after_register(after_register(s, username), username) == after_register(s, username),
{
    let once = after_register(s, username);
    assert(after_register(once, username).persistent =~= once.persistent);
}

/// A link that was made is read back as it was given, expires as many ledgers from now as was
/// asked, and is neither paid nor cancelled.
pub proof fn law_made_link_is_read_back(
    s: HostView,
    creator_username: Seq<u8>,
    token_id: Seq<u8>,
    amount: i128,
    note: Seq<u8>,
    ttl_ledgers: u32,
)
    requires
        well_formed(s),
        create_outcome(s, creator_username, token_id, amount, ttl_ledgers) is Ok,
    ensures
        ({
            let t = after_create(s, creator_username, token_id, amount, note, ttl_ledgers);
            &&& paylink(t, token_id) matches Some(link)
            &&& link.creator_username == creator_username
            &&& link.amount == amount
            &&& link.note == note
            &&& link.expiration_ledger == s.sequence + ttl_ledgers
            &&& !link.paid
            &&& !link.cancelled
        }),
{
}

/// A token id is used once: where there is a link, making another under its token id is refused
/// and changes nothing.
pub proof fn law_token_id_is_used_once(
    s: HostView,
    creator_username: Seq<u8>,
    token_id: Seq<u8>,
    amount: i128,
    note: Seq<u8>,
    ttl_ledgers: u32,
)
    requires
        well_formed(s),
        paylink(s, token_id) is Some,
    ensures
        create_outcome(s, creator_username, token_id, amount, ttl_ledgers) is Err,
        is_creator(s, creator_username) && amount > 0 ==> create_outcome(
            s,
            creator_username,
            token_id,
            amount,
            ttl_ledgers,
        ) == Err::<(), Error>(Error::PayLinkAlreadyExists),
        after_create(s, creator_username, token_id, amount, note, ttl_ledgers) == s,
{
}

/// A link that was made can be read until after the ledger in which it expires: its entry lives
/// the buffer longer than the link, or as long as the network lets an entry live.
pub proof fn law_link_outlives_its_expiry(
    s: HostView,
    creator_username: Seq<u8>,
    token_id: Seq<u8>,
    amount: i128,
    note: Seq<u8>,
    ttl_ledgers: u32,
)
    requires
        well_formed(s),
        create_outcome(s, creator_username, token_id, amount, ttl_ledgers) is Ok,
    ensures
        ({
            let t = after_create(s, creator_username, token_id, amount, note, ttl_ledgers);
            let expiry = s.sequence + ttl_ledgers;
            let lives = t.live_until[paylink_key(token_id)];
            &&& lives >= expiry + PAYLINK_TTL_BUFFER_LEDGERS || lives >= s.max_live_until
            &&& expiry < s.max_live_until ==> lives > expiry
        }),
{
}

/// A balance that was credited is kept for the buffer, or as long as the network lets an entry
/// live.
pub proof fn law_credited_balance_is_kept(
    s: HostView,
    username: Seq<u8>,
    amount: i128,
    left: Set<Address>,
)
    requires
        allowed(s, Call::CreditYield { username, amount, left }),
        credit_outcome(s, username, amount) is Ok,
    ensures
        ({
            let lives = after_credit(s, username, amount, left).live_until[stake_key(username)];
            lives >= s.sequence + PAYLINK_TTL_BUFFER_LEDGERS || lives >= s.max_live_until
        }),
{
}

/// Cancelling marks the link and changes nothing else of it.
pub proof fn law_cancelling_marks_the_link(
    s: HostView,
    requester_username: Seq<u8>,
    token_id: Seq<u8>,
    left: Set<Address>,
)
    requires
        well_formed(s),
        cancel_outcome(s, requester_username, token_id) is Ok,
    ensures
        paylink(after_cancel(s, requester_username, token_id, left), token_id) == Some(
            PayLinkView { cancelled: true, ..paylink(s, token_id)->0 },
        ),
{
}

/// A cancelled link can be cancelled again, which leaves storage as it is.
pub proof fn law_cancelling_twice_is_cancelling_once(
    s: HostView,
    requester_username: Seq<u8>,
    token_id: Seq<u8>,
    left: Set<Address>,
    left_again: Set<Address>,
)
    requires
        well_formed(s),
        cancel_outcome(s, requester_username, token_id) is Ok,
    ensures
        ({
            let once = after_cancel(s, requester_username, token_id, left);
            let twice = after_cancel(once, requester_username, token_id, left_again);
            &&& cancel_outcome(once, requester_username, token_id) is Ok
            &&& twice.persistent == once.persistent
            &&& twice.live_until == once.live_until
        }),
{
    let once = after_cancel(s, requester_username, token_id, left);
    let twice = after_cancel(once, requester_username, token_id, left_again);
    assert(twice.persistent =~= once.persistent);
}

/// No link is cancelled unless the host confirmed the contract's own authorization.
pub proof fn law_cancelling_asks_the_contract(
    s: HostView,
    requester_username: Seq<u8>,
    token_id: Seq<u8>,
    left: Set<Address>,
)
    requires
        well_formed(s),
    ensures
        after_cancel(s, requester_username, token_id, left).granted == s.granted.push(
            s.contract_address,
        ),
{
}

/// Nobody but its creator cancels a link.
pub proof fn law_only_its_creator_cancels_a_link(
    s: HostView,
    requester_username: Seq<u8>,
    token_id: Seq<u8>,
    left: Set<Address>,
)
    requires
        well_formed(s),
        paylink(s, token_id) matches Some(link) && link.creator_username != requester_username,
    ensures
        cancel_outcome(s, requester_username, token_id) == Err::<(), Error>(
            Error::NotPayLinkCreator,
        ),
        after_cancel(s, requester_username, token_id, left).persistent == s.persistent,
{
}

/// A link that is paid is never cancelled.
pub proof fn law_paid_link_is_not_cancelled(
    s: HostView,
    requester_username: Seq<u8>,
    token_id: Seq<u8>,
    left: Set<Address>,
)
    requires
        well_formed(s),
        paylink(s, token_id) matches Some(link) && link.paid,
    ensures
        cancel_outcome(s, requester_username, token_id) is Err,
        requester_username == (paylink(s, token_id)->0).creator_username ==> cancel_outcome(
            s,
            requester_username,
            token_id,
        ) == Err::<(), Error>(Error::PayLinkAlreadyPaid),
        after_cancel(s, requester_username, token_id, left).persistent == s.persistent,
{
}

/// Making or cancelling a link leaves every other link as it is.
pub proof fn law_links_are_independent(s: HostView, call: Call, other: Seq<u8>)
    requires
        allowed(s, call),
        call matches Call::CreatePayLink { token_id, .. } ==> token_id != other,
        call matches Call::CancelPayLink { token_id, .. } ==> token_id != other,
    ensures
        paylink(after(s, call), other) == paylink(s, other),
{
    lemma_kinds_differ();
}

/// A call that credits nobody, or somebody else, leaves a balance as it is.
pub proof fn law_balances_are_independent(s: HostView, call: Call, other: Seq<u8>)
    requires
        allowed(s, call),
        call matches Call::CreditYield { username, .. } ==> username != other,
    ensures
        balance(after(s, call), other) == balance(s, other),
{
    lemma_kinds_differ();
}

/// Two credits of one user add up.
pub proof fn law_credits_add_up(
    s: HostView,
    username: Seq<u8>,
    first: i128,
    second: i128,
    left: Set<Address>,
    left_again: Set<Address>,
)
    requires
        allowed(s, Call::CreditYield { username, amount: first, left }),
        credit_outcome(s, username, first) is Ok,
        second > 0,
        balance(s, username) + first + second <= i128::MAX,
    ensures
        ({
            let once = after_credit(s, username, first, left);
            &&& credit_outcome(once, username, second) is Ok
            &&& balance(once, username) == balance(s, username) + first
            &&& balance(after_credit(once, username, second, left_again), username) == balance(
                s,
                username,
            ) + first + second
        }),
{
    lemma_kinds_differ();
}

/// Errors are told apart by their numbers.
pub proof fn law_error_codes_differ(a: Error, b: Error)
    ensures
        error_code(a) == error_code(b) ==> a == b,
        1 <= error_code(a) <= 9,
{
}

} // verus!
