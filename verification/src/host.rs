//! The Soroban host as the contract sees it: what the contract may read of it and change in it,
//! and the calls by which it does so. Everything that this module states of those calls is taken
//! from the source of `soroban-sdk` and of the host behind it, and is not proved here.
//!
//! A call of the host can also end the whole invocation, which undoes all that the invocation
//! wrote: the network charges for what a contract uses and ends an invocation that goes beyond
//! what was paid for or touches an entry that was not declared beforehand. Nothing of the
//! contract runs after that, so the contracts below speak of the calls that come back.
use soroban_sdk::{Address, Env, IntoVal, Symbol, TryFromVal, Val};
use vstd::prelude::*;

use crate::types::{Key, PayLinkData, PayLinkView};

verus! {

/// A handle on the host that runs the contract, for the length of one invocation. The handles of
/// one host share what they change: this crate holds one at a time, and hands it on as `&mut`
/// wherever the host may change.
#[verifier::external_type_specification]
#[verifier::external_body]
pub struct ExEnv(Env);

/// The address of an account or of a contract. Two of them are equal where they denote the same
/// account or contract.
#[verifier::external_type_specification]
#[verifier::external_body]
pub struct ExAddress(Address);

/// The value of a persistent entry.
pub enum Stored {
    Flag(bool),
    Amount(i128),
    /// A map from the symbols of a link's six fields to their values.
    Link(PayLinkView),
    /// A value of a type that the contract never writes.
    Foreign,
}

/// The data of an event, by the types of the tuple that carries it.
pub enum EventData {
    /// A text, two amounts and a ledger.
    TextAmountAmountLedger(Seq<u8>, i128, i128, u32),
    /// Two texts, an amount and a ledger.
    TextTextAmountLedger(Seq<u8>, Seq<u8>, i128, u32),
    /// Two texts.
    TextText(Seq<u8>, Seq<u8>),
}

/// An event: its one topic and its data.
pub struct Event {
    pub topic: Seq<char>,
    pub data: EventData,
}

/// All that the contract can tell of the host.
#[verifier::ext_equal]
pub struct HostView {
    /// Whether the invocation of a contract is in progress.
    pub running: bool,
    /// The address of the contract that runs.
    pub contract_address: Address,
    /// The sequence number of the ledger in which the invocation takes place.
    pub sequence: u32,
    /// The last ledger to which a persistent entry lives that is written for the first time now.
    pub first_live_until: int,
    /// The last ledger to which the network lets an entry live that is extended now.
    pub max_live_until: int,
    /// The persistent entries of the contract that runs.
    pub persistent: Map<Key, Stored>,
    /// The last ledger to which each persistent entry lives. The host restores an entry whose
    /// time had run out before it hands it out, and lets it live as long as one written for the
    /// first time.
    pub live_until: Map<Key, int>,
    /// The instance entries of the contract that runs: an address, or `None` for a value of
    /// another type.
    pub instance: Map<Seq<char>, Option<Address>>,
    /// The addresses whose authorization of the running invocation the host would confirm now.
    pub authorized: Set<Address>,
    /// The addresses whose authorization the contract has asked for and the host has confirmed,
    /// in that order.
    pub granted: Seq<Address>,
    /// The events that the contract has published, in that order.
    pub events: Seq<Event>,
}

/// What the host behind a handle holds.
pub uninterp spec fn host_view(env: Env) -> HostView;

/// A contract runs, and the ledgers to which entries may live can be counted.
pub open spec fn in_invocation(s: HostView) -> bool {
    &&& s.running
    &&& s.sequence <= s.first_live_until <= u32::MAX
    &&& s.sequence <= s.max_live_until <= u32::MAX
}

/// A character that a symbol may hold.
pub open spec fn is_symbol_char(c: char) -> bool {
    ||| 'a' <= c <= 'z'
    ||| 'A' <= c <= 'Z'
    ||| '0' <= c <= '9'
    ||| c == '_'
}

/// A text that can be made a symbol.
pub open spec fn is_symbol(s: Seq<char>) -> bool {
    &&& s.len() <= 32
    &&& forall|i: int| 0 <= i < s.len() ==> is_symbol_char(#[trigger] s[i])
}

/// A text that the host can hold.
pub open spec fn is_text(s: Seq<u8>) -> bool {
    s.len() <= u32::MAX
}

/// The host with a persistent entry written: an entry that was there keeps the ledger to which
/// it lives, a new one gets the first one that the network gives.
pub open spec fn with_entry(s: HostView, key: Key, value: Stored) -> HostView {
    HostView {
        persistent: s.persistent.insert(key, value),
        live_until: if s.persistent.contains_key(key) {
            s.live_until
        } else {
            s.live_until.insert(key, s.first_live_until)
        },
        ..s
    }
}

/// The last ledger to which an entry lives after an extension: `extend_to` ledgers from now, or
/// as far as the network goes, if that is later than before and the entry had at most
/// `threshold` ledgers left.
pub open spec fn extended(
    s: HostView,
    before: int,
    threshold: u32,
    extend_to: u32,
) -> int {
    let asked = s.sequence + extend_to;
    let reached = if asked <= s.max_live_until { asked } else { s.max_live_until };
    if before - s.sequence <= threshold && reached > before {
        reached
    } else {
        before
    }
}

/// The host with the life of a persistent entry extended.
pub open spec fn with_extension(
    s: HostView,
    key: Key,
    threshold: u32,
    extend_to: u32,
) -> HostView {
    HostView {
        live_until: s.live_until.insert(
            key,
            extended(s, s.live_until[key], threshold, extend_to),
        ),
        ..s
    }
}

/// The host with an instance entry written.
pub open spec fn with_instance(s: HostView, tag: Seq<char>, value: Address) -> HostView {
    HostView { instance: s.instance.insert(tag, Some(value)), ..s }
}

/// The host with an authorization confirmed, after which `left` can be confirmed.
pub open spec fn with_grant(s: HostView, who: Address, left: Set<Address>) -> HostView {
    HostView { granted: s.granted.push(who), authorized: left, ..s }
}

/// The host with an event published.
pub open spec fn with_event(s: HostView, event: Event) -> HostView {
    HostView { events: s.events.push(event), ..s }
}

/// `Persistent::has`: tells whether there is an entry under the pair of the symbol `tag` and the
/// string `name`. `Symbol::new` refuses a text that is no symbol, and `String::from_bytes` one
/// that is too long.
#[verifier::external_body]
pub(crate) fn persistent_has(env: &Env, tag: &str, name: &Vec<u8>) -> (r: bool)
    requires
        in_invocation(host_view(*env)),
        is_symbol(tag@),
        is_text(name@),
    ensures
        r == host_view(*env).persistent.contains_key((tag@, name@)),
{
    let key = (Symbol::new(env, tag), soroban_sdk::String::from_bytes(env, name));
    env.storage().persistent().has(&key)
}

/// `Persistent::get` at `i128`: gives the entry's amount, or `None` where there is no entry. It
/// panics on a value of another type, which the last requirement leaves out.
#[verifier::external_body]
pub(crate) fn persistent_get_amount(env: &Env, tag: &str, name: &Vec<u8>) -> (r: Option<i128>)
    requires
        in_invocation(host_view(*env)),
        is_symbol(tag@),
        is_text(name@),
        host_view(*env).persistent.contains_key((tag@, name@))
            ==> host_view(*env).persistent[(tag@, name@)] is Amount,
    ensures
        r is Some <==> host_view(*env).persistent.contains_key((tag@, name@)),
        r matches Some(amount)
            ==> host_view(*env).persistent[(tag@, name@)] == Stored::Amount(amount),
{
    let key = (Symbol::new(env, tag), soroban_sdk::String::from_bytes(env, name));
    env.storage().persistent().get(&key)
}

/// `Persistent::get` at a map from symbols to values, the form in which
/// `persistent_set_link` writes a link: gives the link, or `None` where there is no entry. The
/// map's values come in the order of their symbols. The host counts the bytes of a string in 32
/// bits.
#[verifier::external_body]
pub(crate) fn persistent_get_link(env: &Env, tag: &str, name: &Vec<u8>) -> (r: Option<PayLinkData>)
    requires
        in_invocation(host_view(*env)),
        is_symbol(tag@),
        is_text(name@),
        host_view(*env).persistent.contains_key((tag@, name@))
            ==> host_view(*env).persistent[(tag@, name@)] is Link,
    ensures
        r is Some <==> host_view(*env).persistent.contains_key((tag@, name@)),
        r matches Some(link) ==> {
            &&& host_view(*env).persistent[(tag@, name@)] == Stored::Link(link@)
            &&& is_text(link.creator_username@)
            &&& is_text(link.note@)
        },
{
    let key = (Symbol::new(env, tag), soroban_sdk::String::from_bytes(env, name));
    let map: soroban_sdk::Map<Symbol, Val> = env.storage().persistent().get(&key)?;
    let (amount, cancelled, creator, expiration_ledger, note, paid) =
        <(i128, bool, soroban_sdk::String, u32, soroban_sdk::String, bool)>::try_from_val(
        env,
        &map.values().to_val(),
    ).unwrap();
    let creator_username = creator.to_bytes().iter().collect();
    let note = note.to_bytes().iter().collect();
    Some(PayLinkData { creator_username, amount, note, expiration_ledger, paid, cancelled })
}

/// `Persistent::set` with a `bool`: writes the entry.
#[verifier::external_body]
pub(crate) fn persistent_set_flag(env: &mut Env, tag: &str, name: &Vec<u8>, flag: bool)
    requires
        in_invocation(host_view(*old(env))),
        is_symbol(tag@),
        is_text(name@),
    ensures
        host_view(*final(env)) == with_entry(
            host_view(*old(env)),
            (tag@, name@),
            Stored::Flag(flag),
        ),
{
    let key = (Symbol::new(env, tag), soroban_sdk::String::from_bytes(env, name));
    env.storage().persistent().set(&key, &flag);
}

/// `Persistent::set` with an `i128`: writes the entry.
#[verifier::external_body]
pub(crate) fn persistent_set_amount(env: &mut Env, tag: &str, name: &Vec<u8>, amount: i128)
    requires
        in_invocation(host_view(*old(env))),
        is_symbol(tag@),
        is_text(name@),
    ensures
        host_view(*final(env)) == with_entry(
            host_view(*old(env)),
            (tag@, name@),
            Stored::Amount(amount),
        ),
{
    let key = (Symbol::new(env, tag), soroban_sdk::String::from_bytes(env, name));
    env.storage().persistent().set(&key, &amount);
}

/// `Persistent::set` with a link, as a map from the symbols of its fields to their values:
/// writes the entry.
#[verifier::external_body]
pub(crate) fn persistent_set_link(env: &mut Env, tag: &str, name: &Vec<u8>, link: &PayLinkData)
    requires
        in_invocation(host_view(*old(env))),
        is_symbol(tag@),
        is_text(name@),
        is_text(link.creator_username@),
        is_text(link.note@),
    ensures
        host_view(*final(env)) == with_entry(
            host_view(*old(env)),
            (tag@, name@),
            Stored::Link(link@),
        ),
{
    let text = |b: &Vec<u8>| soroban_sdk::String::from_bytes(env, b);
    let mut map = soroban_sdk::Map::<Symbol, Val>::new(env);
    let mut set = |field: &str, value: Val| map.set(Symbol::new(env, field), value);
    set("creator_username", text(&link.creator_username).into_val(env));
    set("amount", link.amount.into_val(env));
    set("note", text(&link.note).into_val(env));
    set("expiration_ledger", link.expiration_ledger.into_val(env));
    set("paid", link.paid.into_val(env));
    set("cancelled", link.cancelled.into_val(env));
    env.storage().persistent().set(&(Symbol::new(env, tag), text(name)), &map);
}

/// `Persistent::extend_ttl`: extends the life of an entry. It panics where there is no entry and
/// where `threshold` is above `extend_to`.
#[verifier::external_body]
pub(crate) fn persistent_extend_ttl(
    env: &mut Env,
    tag: &str,
    name: &Vec<u8>,
    threshold: u32,
    extend_to: u32,
)
    requires
        in_invocation(host_view(*old(env))),
        is_symbol(tag@),
        is_text(name@),
        host_view(*old(env)).persistent.contains_key((tag@, name@)),
        threshold <= extend_to,
    ensures
        host_view(*final(env)) == with_extension(
            host_view(*old(env)),
            (tag@, name@),
            threshold,
            extend_to,
        ),
{
    let key = (Symbol::new(env, tag), soroban_sdk::String::from_bytes(env, name));
    env.storage().persistent().extend_ttl(&key, threshold, extend_to);
}

/// `Instance::has`: tells whether there is an entry under the symbol `tag`, as the one element
/// of a tuple.
#[verifier::external_body]
pub(crate) fn instance_has(env: &Env, tag: &str) -> (r: bool)
    requires
        in_invocation(host_view(*env)),
        is_symbol(tag@),
    ensures
        r == host_view(*env).instance.contains_key(tag@),
{
    env.storage().instance().has(&(Symbol::new(env, tag),))
}

/// `Instance::get` at `Address`: gives the entry's address, or `None` where there is no entry.
/// It panics on a value of another type, which the last requirement leaves out.
#[verifier::external_body]
pub(crate) fn instance_get_address(env: &Env, tag: &str) -> (r: Option<Address>)
    requires
        in_invocation(host_view(*env)),
        is_symbol(tag@),
        host_view(*env).instance.contains_key(tag@) ==> host_view(*env).instance[tag@] is Some,
    ensures
        r is Some <==> host_view(*env).instance.contains_key(tag@),
        r is Some ==> r == host_view(*env).instance[tag@],
{
    env.storage().instance().get(&(Symbol::new(env, tag),))
}

/// `Instance::set` with an `Address`: writes the entry.
#[verifier::external_body]
pub(crate) fn instance_set_address(env: &mut Env, tag: &str, value: &Address)
    requires
        in_invocation(host_view(*old(env))),
        is_symbol(tag@),
    ensures
        host_view(*final(env)) == with_instance(host_view(*old(env)), tag@, *value),
{
    env.storage().instance().set(&(Symbol::new(env, tag),), value);
}

/// `Address::require_auth`: asks the host to confirm that `who` authorized the invocation. It
/// panics where the host does not. Whether the host would confirm it a second time is left open.
#[verifier::external_body]
pub(crate) fn require_auth(env: &mut Env, who: &Address)
    requires
        in_invocation(host_view(*old(env))),
        host_view(*old(env)).authorized.contains(*who),
    ensures
        host_view(*final(env)) == with_grant(
            host_view(*old(env)),
            *who,
            host_view(*final(env)).authorized,
        ),
{
    who.require_auth();
}

/// `Env::current_contract_address`: gives the address of the contract that runs.
#[verifier::external_body]
pub(crate) fn current_contract_address(env: &Env) -> (r: Address)
    requires
        host_view(*env).running,
    ensures
        r == host_view(*env).contract_address,
{
    env.current_contract_address()
}

/// `Ledger::sequence`: gives the sequence number of the ledger.
#[verifier::external_body]
pub(crate) fn ledger_sequence(env: &Env) -> (r: u32)
    requires
        host_view(*env).running,
    ensures
        r == host_view(*env).sequence,
{
    env.ledger().sequence()
}

/// `Events::publish` with a text, two amounts and a ledger: publishes the event.
#[verifier::external_body]
#[allow(deprecated)]
pub(crate) fn publish_text_amount_amount_ledger(
    env: &mut Env,
    topic: &str,
    text: &Vec<u8>,
    first: i128,
    second: i128,
    ledger: u32,
)
    requires
        in_invocation(host_view(*old(env))),
        is_symbol(topic@),
        is_text(text@),
    ensures
        host_view(*final(env)) == with_event(
            host_view(*old(env)),
            (Event {
                topic: topic@,
                data: EventData::TextAmountAmountLedger(text@, first, second, ledger),
            }),
        ),
{
    let text = soroban_sdk::String::from_bytes(env, text);
    env.events().publish((Symbol::new(env, topic),), (text, first, second, ledger));
}

/// `Events::publish` with two texts, an amount and a ledger: publishes the event.
#[verifier::external_body]
#[allow(deprecated)]
pub(crate) fn publish_text_text_amount_ledger(
    env: &mut Env,
    topic: &str,
    first: &Vec<u8>,
    second: &Vec<u8>,
    amount: i128,
    ledger: u32,
)
    requires
        in_invocation(host_view(*old(env))),
        is_symbol(topic@),
        is_text(first@),
        is_text(second@),
    ensures
        host_view(*final(env)) == with_event(
            host_view(*old(env)),
            (Event {
                topic: topic@,
                data: EventData::TextTextAmountLedger(first@, second@, amount, ledger),
            }),
        ),
{
    let first = soroban_sdk::String::from_bytes(env, first);
    let second = soroban_sdk::String::from_bytes(env, second);
    env.events().publish((Symbol::new(env, topic),), (first, second, amount, ledger));
}

/// `Events::publish` with two texts: publishes the event.
#[verifier::external_body]
#[allow(deprecated)]
pub(crate) fn publish_text_text(env: &mut Env, topic: &str, first: &Vec<u8>, second: &Vec<u8>)
    requires
        in_invocation(host_view(*old(env))),
        is_symbol(topic@),
        is_text(first@),
        is_text(second@),
    ensures
        host_view(*final(env)) == with_event(
            host_view(*old(env)),
            (Event { topic: topic@, data: EventData::TextText(first@, second@) }),
        ),
{
    let first = soroban_sdk::String::from_bytes(env, first);
    let second = soroban_sdk::String::from_bytes(env, second);
    env.events().publish((Symbol::new(env, topic),), (first, second));
}

} // verus!
