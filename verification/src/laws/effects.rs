//! What each call changes, told of the entries and events that the host holds, and which calls
//! bring a change about.
use soroban_sdk::Address;
use vstd::prelude::*;

use crate::host::{Event, EventData, HostView, Stored};
use crate::laws::{after, allowed, Call};
use crate::model::{
    after_cancel, after_create, after_credit, after_register, after_set_admin, create_outcome,
    lemma_kinds_differ, paylink, well_formed,
};
use crate::types::{Error, PayLinkView};

verus! {

/// Setting the administrator stores the address that was given and changes nothing else.
pub proof fn law_setting_the_admin_stores_it_alone(s: HostView, who: Address)
    ensures
        after_set_admin(s, who) == (HostView {
            instance: s.instance.insert("Admin"@, Some(who)),
            ..s
        }),
{
}

/// Registering a creator stores the registration and changes nothing else. One that is stored
/// already keeps its life; a new one gets that of a new entry.
pub proof fn law_registering_stores_the_registration_alone(s: HostView, username: Seq<u8>)
    ensures
        ({
            let key = ("Creator"@, username);
            after_register(s, username) == HostView {
                persistent: s.persistent.insert(key, Stored::Flag(true)),
                live_until: if s.persistent.contains_key(key) {
                    s.live_until
                } else {
                    s.live_until.insert(key, s.first_live_until)
                },
                ..s
            }
        }),
{
}

/// Making a link stores it under its token id as it was given, to expire `ttl_ledgers` from now,
/// neither paid nor cancelled; keeps its entry for those ledgers and 16384 more, as far as the
/// network goes, or as long as it keeps a new entry if that is longer; and publishes who made it,
/// its token id, its amount and when it expires. It changes nothing else: no other entry, no
/// registration, no balance, no authorization.
pub proof fn law_making_a_link_stores_it_alone(
    s: HostView,
    creator_username: Seq<u8>,
    token_id: Seq<u8>,
    amount: i128,
    note: Seq<u8>,
    ttl_ledgers: u32,
    expiration_ledger: u32,
)
    requires
        s.persistent.contains_key(("Creator"@, creator_username)),
        amount > 0,
        !s.persistent.contains_key(("PayLink"@, token_id)),
        expiration_ledger == s.sequence + ttl_ledgers,
        ttl_ledgers + 16_384 <= u32::MAX,
    ensures
        ({
            let key = ("PayLink"@, token_id);
            let asked = s.sequence + ttl_ledgers + 16_384;
            let reached = if asked < s.max_live_until { asked } else { s.max_live_until };
            after_create(s, creator_username, token_id, amount, note, ttl_ledgers) =~= HostView {
                persistent: s.persistent.insert(
                    key,
                    Stored::Link(
                        PayLinkView {
                            creator_username,
                            amount,
                            note,
                            expiration_ledger,
                            paid: false,
                            cancelled: false,
                        },
                    ),
                ),
                live_until: s.live_until.insert(
                    key,
                    if reached > s.first_live_until { reached } else { s.first_live_until },
                ),
                events: s.events.push(
                    Event {
                        topic: "paylink_created"@,
                        data: EventData::TextTextAmountLedger(
                            creator_username,
                            token_id,
                            amount,
                            expiration_ledger,
                        ),
                    },
                ),
                ..s
            }
        }),
{
}

/// A creator that is not registered makes no link, whatever the amount: the call is refused and
/// changes nothing.
pub proof fn law_unregistered_creator_makes_no_link(
    s: HostView,
    creator_username: Seq<u8>,
    token_id: Seq<u8>,
    amount: i128,
    note: Seq<u8>,
    ttl_ledgers: u32,
)
    requires
        !s.persistent.contains_key(("Creator"@, creator_username)),
    ensures
        create_outcome(s, creator_username, token_id, amount, ttl_ledgers) == Err::<(), Error>(
            Error::CreatorNotFound,
        ),
        after_create(s, creator_username, token_id, amount, note, ttl_ledgers) == s,
{
}

/// A link whose creator is not registered, whose amount is not positive, whose token id is taken
/// or whose expiry cannot be counted changes nothing at all.
pub proof fn law_refused_link_changes_nothing(
    s: HostView,
    creator_username: Seq<u8>,
    token_id: Seq<u8>,
    amount: i128,
    note: Seq<u8>,
    ttl_ledgers: u32,
)
    requires
        !s.persistent.contains_key(("Creator"@, creator_username)) || amount <= 0
            || s.persistent.contains_key(("PayLink"@, token_id)) || s.sequence + ttl_ledgers
            > u32::MAX,
    ensures
        after_create(s, creator_username, token_id, amount, note, ttl_ledgers) == s,
{
}

/// A link whose expiry can be counted while the ledgers for which to keep it cannot is stored as
/// a new entry before the call is refused, with no event and nothing else changed.
pub proof fn law_link_of_uncountable_life_is_stored_alone(
    s: HostView,
    creator_username: Seq<u8>,
    token_id: Seq<u8>,
    amount: i128,
    note: Seq<u8>,
    ttl_ledgers: u32,
    expiration_ledger: u32,
)
    requires
        s.persistent.contains_key(("Creator"@, creator_username)),
        amount > 0,
        !s.persistent.contains_key(("PayLink"@, token_id)),
        expiration_ledger == s.sequence + ttl_ledgers,
        ttl_ledgers + 16_384 > u32::MAX,
    ensures
        ({
            let key = ("PayLink"@, token_id);
            after_create(s, creator_username, token_id, amount, note, ttl_ledgers) =~= HostView {
                persistent: s.persistent.insert(
                    key,
                    Stored::Link(
                        PayLinkView {
                            creator_username,
                            amount,
                            note,
                            expiration_ledger,
                            paid: false,
                            cancelled: false,
                        },
                    ),
                ),
                live_until: s.live_until.insert(key, s.first_live_until),
                ..s
            }
        }),
{
}

/// Cancelling an unpaid link at the request of its creator asks for the contract's authorization,
/// sets the link's mark, and publishes who asked and its token id. It changes nothing else: no
/// other field, no other entry, no entry's life.
pub proof fn law_cancelling_sets_the_mark_alone(
    s: HostView,
    requester_username: Seq<u8>,
    token_id: Seq<u8>,
    left: Set<Address>,
    link: PayLinkView,
)
    requires
        s.persistent.contains_key(("PayLink"@, token_id)),
        s.persistent[("PayLink"@, token_id)] == Stored::Link(link),
        link.creator_username == requester_username,
        !link.paid,
    ensures
        after_cancel(s, requester_username, token_id, left) =~= (HostView {
            persistent: s.persistent.insert(
                ("PayLink"@, token_id),
                Stored::Link(PayLinkView { cancelled: true, ..link }),
            ),
            granted: s.granted.push(s.contract_address),
            authorized: left,
            events: s.events.push(
                Event {
                    topic: "paylink_cancelled"@,
                    data: EventData::TextText(requester_username, token_id),
                },
            ),
            ..s
        }),
{
}

/// A link that is not stored, is paid, or was made by another is not cancelled: all that happens
/// is that the contract's authorization is asked for.
pub proof fn law_refused_cancellation_only_asks(
    s: HostView,
    requester_username: Seq<u8>,
    token_id: Seq<u8>,
    left: Set<Address>,
    link: PayLinkView,
)
    requires
        s.persistent.contains_key(("PayLink"@, token_id)) ==> {
            &&& s.persistent[("PayLink"@, token_id)] == Stored::Link(link)
            &&& link.creator_username != requester_username || link.paid
        },
    ensures
        after_cancel(s, requester_username, token_id, left) =~= (HostView {
            granted: s.granted.push(s.contract_address),
            authorized: left,
            ..s
        }),
{
}

/// Crediting a positive yield to a registered user asks for the administrator's authorization,
/// stores the sum of the amount and what was held, keeps the balance for 16384 ledgers, as far as
/// the network goes, or as long as before if that is longer, and publishes the user, the amount,
/// the sum and the ledger. It changes nothing else.
pub proof fn law_crediting_raises_one_balance_alone(
    s: HostView,
    username: Seq<u8>,
    amount: i128,
    left: Set<Address>,
    who: Address,
    held: i128,
    sum: i128,
)
    requires
        s.instance.contains_key("Admin"@),
        s.instance["Admin"@] == Some(who),
        amount > 0,
        s.persistent.contains_key(("Creator"@, username)),
        s.persistent.contains_key(("StakeBalance"@, username)) ==> s.persistent[(
            "StakeBalance"@,
            username,
        )] == Stored::Amount(held),
        !s.persistent.contains_key(("StakeBalance"@, username)) ==> held == 0,
        sum == held + amount,
    ensures
        ({
            let key = ("StakeBalance"@, username);
            let before = if s.persistent.contains_key(key) {
                s.live_until[key]
            } else {
                s.first_live_until
            };
            let asked = s.sequence + 16_384;
            let reached = if asked < s.max_live_until { asked } else { s.max_live_until };
            after_credit(s, username, amount, left) =~= HostView {
                persistent: s.persistent.insert(key, Stored::Amount(sum)),
                live_until: s.live_until.insert(
                    key,
                    if reached > before { reached } else { before },
                ),
                granted: s.granted.push(who),
                authorized: left,
                events: s.events.push(
                    Event {
                        topic: "yield_credited"@,
                        data: EventData::TextAmountAmountLedger(username, amount, sum, s.sequence),
                    },
                ),
                ..s
            }
        }),
{
}

/// Without an administrator a credit does nothing. With one, a credit of an amount that is not
/// positive, or to a user that is not registered, only asks for the administrator's
/// authorization.
pub proof fn law_refused_credit_only_asks(
    s: HostView,
    username: Seq<u8>,
    amount: i128,
    left: Set<Address>,
    who: Address,
)
    ensures
        !s.instance.contains_key("Admin"@) ==> after_credit(s, username, amount, left) == s,
        s.instance.contains_key("Admin"@) && s.instance["Admin"@] == Some(who) && (amount <= 0
            || !s.persistent.contains_key(("Creator"@, username))) ==> after_credit(
            s,
            username,
            amount,
            left,
        ) == (HostView { granted: s.granted.push(who), authorized: left, ..s }),
{
}

/// A name is registered by registering that very name, and by no other call.
pub proof fn law_only_registering_registers(s: HostView, call: Call, username: Seq<u8>)
    requires
        allowed(s, call),
        !s.persistent.contains_key(("Creator"@, username)),
    ensures
        after(s, call).persistent.contains_key(("Creator"@, username)) <==> call
            == (Call::RegisterCreator { username }),
{
    lemma_kinds_differ();
}

/// A link appears under a token id by making one under that very id, in the name of a registered
/// creator and for a positive amount, and by no other call.
pub proof fn law_only_making_makes_links(s: HostView, call: Call, token_id: Seq<u8>)
    requires
        allowed(s, call),
        !s.persistent.contains_key(("PayLink"@, token_id)),
    ensures
        after(s, call).persistent.contains_key(("PayLink"@, token_id)) <==> {
            &&& call matches Call::CreatePayLink {
                creator_username,
                token_id: made,
                amount,
                ttl_ledgers,
                ..
            }
            &&& made == token_id
            &&& s.persistent.contains_key(("Creator"@, creator_username))
            &&& amount > 0
            &&& s.sequence + ttl_ledgers <= u32::MAX
        },
{
    lemma_kinds_differ();
}

/// A link that is not cancelled becomes cancelled when its creator cancels it while it is unpaid,
/// and by no other call.
pub proof fn law_only_its_creator_marks_a_link(
    s: HostView,
    call: Call,
    token_id: Seq<u8>,
    link: PayLinkView,
)
    requires
        allowed(s, call),
        s.persistent.contains_key(("PayLink"@, token_id)),
        s.persistent[("PayLink"@, token_id)] == Stored::Link(link),
        !link.cancelled,
    ensures
        after(s, call).persistent[("PayLink"@, token_id)] == Stored::Link(
            PayLinkView { cancelled: true, ..link },
        ) <==> {
            &&& call matches Call::CancelPayLink { requester_username, token_id: named, .. }
            &&& named == token_id
            &&& requester_username == link.creator_username
            &&& !link.paid
        },
{
    lemma_kinds_differ();
}

/// A balance changes by crediting its very user, by exactly the amount, and by no other call.
pub proof fn law_only_crediting_changes_a_balance(s: HostView, call: Call, username: Seq<u8>)
    requires
        allowed(s, call),
    ensures
        ({
            let key = ("StakeBalance"@, username);
            let t = after(s, call);
            let held = if s.persistent.contains_key(key) {
                s.persistent[key]->Amount_0 as int
            } else {
                0
            };
            let credits = match call {
                Call::CreditYield { username: credited, amount, .. } => if credited == username
                    && s.instance.contains_key("Admin"@) && s.persistent.contains_key(
                    ("Creator"@, username),
                ) {
                    amount as int
                } else {
                    0
                },
                _ => 0,
            };
            if credits > 0 {
                &&& t.persistent.contains_key(key)
                &&& t.persistent[key] is Amount
                &&& t.persistent[key]->Amount_0 == held + credits
            } else {
                &&& t.persistent.contains_key(key) == s.persistent.contains_key(key)
                &&& s.persistent.contains_key(key) ==> t.persistent[key] == s.persistent[key]
            }
        }),
{
    lemma_kinds_differ();
}

/// An administrator appears by setting one, and by no other call.
pub proof fn law_only_setting_an_admin_sets_one(s: HostView, call: Call)
    requires
        allowed(s, call),
        !s.instance.contains_key("Admin"@),
    ensures
        after(s, call).instance.contains_key("Admin"@) <==> call is SetAdmin,
        call matches Call::SetAdmin { who } ==> after(s, call).instance["Admin"@] == Some(who),
{
}

/// No call touches the ledger, the contract's address or what the network allows, and no call
/// takes an event or a confirmed authorization back.
pub proof fn law_what_was_is_kept(s: HostView, call: Call)
    requires
        allowed(s, call),
    ensures
        ({
            let t = after(s, call);
            &&& t.running == s.running
            &&& t.contract_address == s.contract_address
            &&& t.sequence == s.sequence
            &&& t.first_live_until == s.first_live_until
            &&& t.max_live_until == s.max_live_until
            &&& s.events.is_prefix_of(t.events)
            &&& s.granted.is_prefix_of(t.granted)
        }),
{
}

/// Every call may be made wherever storage is well formed, but for a second setting of the
/// administrator and for a credit whose sum cannot be kept.
pub proof fn law_every_other_call_is_allowed(s: HostView, call: Call)
    requires
        well_formed(s),
    ensures
        call matches Call::SetAdmin { .. } ==> (allowed(s, call) <==> !s.instance.contains_key(
            "Admin"@,
        )),
        call matches Call::CreditYield { username, amount, .. } ==> (!allowed(s, call) <==> {
            let key = ("StakeBalance"@, username);
            let held = if s.persistent.contains_key(key) {
                s.persistent[key]->Amount_0 as int
            } else {
                0
            };
            &&& s.instance.contains_key("Admin"@)
            &&& amount > 0
            &&& s.persistent.contains_key(("Creator"@, username))
            &&& held + amount > i128::MAX
        }),
        call is RegisterCreator || call is CreatePayLink || call is CancelPayLink ==> allowed(
            s,
            call,
        ),
{
}

/// A name that is registered makes a link under any token id that is free, the link is read back
/// in every later ledger as it was made, its creator cancels it, and it is then read back as
/// cancelled, whatever is credited in between.
pub proof fn law_life_of_a_link(
    s: HostView,
    creator_username: Seq<u8>,
    token_id: Seq<u8>,
    amount: i128,
    note: Seq<u8>,
    ttl_ledgers: u32,
    later: u32,
    credit: Call,
    left: Set<Address>,
)
    requires
        well_formed(s),
        amount > 0,
        !s.persistent.contains_key(("PayLink"@, token_id)),
        s.sequence + ttl_ledgers <= u32::MAX,
        ttl_ledgers + 16_384 <= u32::MAX,
        credit is CreditYield,
    ensures
        ({
            let registered = after(s, Call::RegisterCreator { username: creator_username });
            let credited = after(registered, credit);
            let make = Call::CreatePayLink {
                creator_username,
                token_id,
                amount,
                note,
                ttl_ledgers,
            };
            let made = HostView { sequence: later, ..after(credited, make) };
            let cancel = Call::CancelPayLink {
                requester_username: creator_username,
                token_id,
                left,
            };
            let link = PayLinkView {
                creator_username,
                amount,
                note,
                expiration_ledger: (s.sequence + ttl_ledgers) as u32,
                paid: false,
                cancelled: false,
            };
            &&& create_outcome(credited, creator_username, token_id, amount, ttl_ledgers) is Ok
            &&& paylink(made, token_id) == Some(link)
            &&& paylink(after(made, cancel), token_id) == Some(
                PayLinkView { cancelled: true, ..link },
            )
        }),
{
    lemma_kinds_differ();
}

} // verus!
