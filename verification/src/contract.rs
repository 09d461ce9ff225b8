//! The contract.
use soroban_sdk::{Address, Env};
use vstd::prelude::*;

use crate::host::{
    current_contract_address, host_view, instance_get_address, instance_has, instance_set_address,
    is_symbol, is_text, ledger_sequence, persistent_extend_ttl, persistent_get_amount,
    persistent_get_link, persistent_has, persistent_set_amount, persistent_set_flag,
    persistent_set_link, publish_text_amount_amount_ledger, publish_text_text,
    publish_text_text_amount_ledger, require_auth, Stored,
};
use crate::model::{
    admin, after_cancel, after_create, after_credit, after_register, after_set_admin,
    cancel_outcome, create_outcome, credit_fits, credit_outcome, lemma_entry_well_formed,
    lemma_kinds_differ, paylink, well_formed,
};
use crate::types::{DataKey, Error, PayLinkData, PayLinkView, PAYLINK_TTL_BUFFER_LEDGERS};

verus! {

/// The words that the contract hands to the host as symbols are symbols.
proof fn lemma_symbols()
    ensures
        is_symbol("Creator"@),
        is_symbol("PayLink"@),
        is_symbol("Admin"@),
        is_symbol("StakeBalance"@),
        is_symbol("yield_credited"@),
        is_symbol("paylink_created"@),
        is_symbol("paylink_cancelled"@),
{
    reveal_strlit("Creator");
    reveal_strlit("PayLink");
    reveal_strlit("Admin");
    reveal_strlit("StakeBalance");
    reveal_strlit("yield_credited");
    reveal_strlit("paylink_created");
    reveal_strlit("paylink_cancelled");
}

/// Payment links of registered creators, and the staked balances that an administrator credits
/// yield to.
pub struct PayLinkContract;

impl PayLinkContract {
    /// One-time initialisation of the administrator.
    pub fn set_admin(env: &mut Env, who: Address)
        requires
            well_formed(host_view(*old(env))),
            admin(host_view(*old(env))) is None,
        ensures
            host_view(*final(env)) == after_set_admin(host_view(*old(env)), who),
            well_formed(host_view(*final(env))),
    {
        proof {
            lemma_symbols();
        }
        instance_set_address(env, DataKey::Admin.tag(), &who);
    }

    /// Sets the administrator if there is none, and tells whether it did.
    pub fn try_set_admin(env: &mut Env, who: Address) -> (r: bool)
        requires
            well_formed(host_view(*old(env))),
        ensures
            r == (admin(host_view(*old(env))) is None),
            r <==> !host_view(*old(env)).instance.contains_key("Admin"@),
            r ==> host_view(*final(env)) == after_set_admin(host_view(*old(env)), who),
            !r ==> host_view(*final(env)) == host_view(*old(env)),
            well_formed(host_view(*final(env))),
    {
        proof {
            lemma_symbols();
        }
        if instance_has(env, DataKey::Admin.tag()) {
            return false;
        }
        Self::set_admin(env, who);
        true
    }

    /// Marks `username` as an existing creator, so that links may be made in that name.
    pub fn register_creator(env: &mut Env, username: Vec<u8>)
        requires
            well_formed(host_view(*old(env))),
            is_text(username@),
        ensures
            host_view(*final(env)) == after_register(host_view(*old(env)), username@),
            well_formed(host_view(*final(env))),
    {
        let key = DataKey::Creator(username);
        proof {
            lemma_symbols();
            lemma_kinds_differ();
            lemma_entry_well_formed(host_view(*env), key@, Stored::Flag(true));
        }
        persistent_set_flag(env, key.tag(), key.name(), true);
    }

    /// Credits yield to a staker's balance, on the authority of the administrator.
    pub fn credit_yield(env: &mut Env, username: Vec<u8>, amount: i128) -> (r: Result<(), Error>)
        requires
            well_formed(host_view(*old(env))),
            is_text(username@),
            admin(host_view(*old(env))) matches Some(who)
                ==> host_view(*old(env)).authorized.contains(who),
            credit_fits(host_view(*old(env)), username@, amount),
        ensures
            r == credit_outcome(host_view(*old(env)), username@, amount),
            r is Ok <==> {
                &&& host_view(*old(env)).instance.contains_key("Admin"@)
                &&& amount > 0
                &&& host_view(*old(env)).persistent.contains_key(("Creator"@, username@))
            },
            host_view(*final(env)) == after_credit(
                host_view(*old(env)),
                username@,
                amount,
                host_view(*final(env)).authorized,
            ),
            well_formed(host_view(*final(env))),
    {
        proof {
            lemma_symbols();
            lemma_kinds_differ();
        }
        let who = match instance_get_address(env, DataKey::Admin.tag()) {
            Some(who) => who,
            None => return Err(Error::Unauthorized),
        };
        require_auth(env, &who);

        if amount <= 0 {
            return Err(Error::InvalidAmount);
        }
        let creator_key = DataKey::Creator(username.clone());
        if !persistent_has(env, creator_key.tag(), creator_key.name()) {
            return Err(Error::UserNotFound);
        }
        let stake_key = DataKey::StakeBalance(username.clone());
        let current: i128 = match persistent_get_amount(env, stake_key.tag(), stake_key.name()) {
            Some(amount) => amount,
            None => 0,
        };
        let new_balance: i128 = current + amount;
        proof {
            lemma_entry_well_formed(host_view(*env), stake_key@, Stored::Amount(new_balance));
        }
        persistent_set_amount(env, stake_key.tag(), stake_key.name(), new_balance);
        persistent_extend_ttl(
            env,
            stake_key.tag(),
            stake_key.name(),
            PAYLINK_TTL_BUFFER_LEDGERS,
            PAYLINK_TTL_BUFFER_LEDGERS,
        );
        let ledger: u32 = ledger_sequence(env);
        publish_text_amount_amount_ledger(
            env,
            "yield_credited",
            &username,
            amount,
            new_balance,
            ledger,
        );
        Ok(())
    }

    /// Credits yield as `credit_yield` does if the new balance can be kept. Otherwise it changes
    /// nothing, asks for no authorization and gives `None`.
    pub fn try_credit_yield(env: &mut Env, username: Vec<u8>, amount: i128) -> (r: Option<
        Result<(), Error>,
    >)
        requires
            well_formed(host_view(*old(env))),
            is_text(username@),
            admin(host_view(*old(env))) matches Some(who)
                ==> host_view(*old(env)).authorized.contains(who),
        ensures
            r is Some <==> credit_fits(host_view(*old(env)), username@, amount),
            r matches Some(outcome) ==> {
                &&& outcome == credit_outcome(host_view(*old(env)), username@, amount)
                &&& host_view(*final(env)) == after_credit(
                    host_view(*old(env)),
                    username@,
                    amount,
                    host_view(*final(env)).authorized,
                )
            },
            r is None ==> host_view(*final(env)) == host_view(*old(env)),
            well_formed(host_view(*final(env))),
    {
        proof {
            lemma_symbols();
        }
        let creator_key = DataKey::Creator(username.clone());
        let stake_key = DataKey::StakeBalance(username.clone());
        if instance_has(env, DataKey::Admin.tag()) && amount > 0 && persistent_has(
            env,
            creator_key.tag(),
            creator_key.name(),
        ) {
            let current: i128 = match persistent_get_amount(
                env,
                stake_key.tag(),
                stake_key.name(),
            ) {
                Some(amount) => amount,
                None => 0,
            };
            if current > i128::MAX - amount {
                return None;
            }
        }
        Some(Self::credit_yield(env, username, amount))
    }

    /// Makes a link that expires `ttl_ledgers` ledgers from now.
    pub fn create_paylink(
        env: &mut Env,
        creator_username: Vec<u8>,
        token_id: Vec<u8>,
        amount: i128,
        note: Vec<u8>,
        ttl_ledgers: u32,
    ) -> (r: Result<(), Error>)
        requires
            well_formed(host_view(*old(env))),
            is_text(creator_username@),
            is_text(token_id@),
            is_text(note@),
        ensures
            r == create_outcome(
                host_view(*old(env)),
                creator_username@,
                token_id@,
                amount,
                ttl_ledgers,
            ),
            r is Ok <==> {
                &&& host_view(*old(env)).persistent.contains_key(("Creator"@, creator_username@))
                &&& amount > 0
                &&& !host_view(*old(env)).persistent.contains_key(("PayLink"@, token_id@))
                &&& host_view(*old(env)).sequence + ttl_ledgers <= u32::MAX
                &&& ttl_ledgers + PAYLINK_TTL_BUFFER_LEDGERS <= u32::MAX
            },
            host_view(*final(env)) == after_create(
                host_view(*old(env)),
                creator_username@,
                token_id@,
                amount,
                note@,
                ttl_ledgers,
            ),
            well_formed(host_view(*final(env))),
    {
        proof {
            lemma_symbols();
            lemma_kinds_differ();
        }
        let creator_key = DataKey::Creator(creator_username.clone());
        if !persistent_has(env, creator_key.tag(), creator_key.name()) {
            return Err(Error::CreatorNotFound);
        }
        if amount <= 0 {
            return Err(Error::InvalidAmount);
        }
        let paylink_key = DataKey::PayLink(token_id.clone());
        if persistent_has(env, paylink_key.tag(), paylink_key.name()) {
            return Err(Error::PayLinkAlreadyExists);
        }
        let current: u32 = ledger_sequence(env);
        let expiration_ledger: u32 = match current.checked_add(ttl_ledgers) {
            Some(ledger) => ledger,
            None => return Err(Error::LedgerOverflow),
        };
        let data = PayLinkData {
            creator_username: creator_username.clone(),
            amount,
            note,
            expiration_ledger,
            paid: false,
            cancelled: false,
        };
        proof {
            lemma_entry_well_formed(host_view(*env), paylink_key@, Stored::Link(data@));
        }
        persistent_set_link(env, paylink_key.tag(), paylink_key.name(), &data);

        let min_ttl: u32 = match ttl_ledgers.checked_add(PAYLINK_TTL_BUFFER_LEDGERS) {
            Some(ledgers) => ledgers,
            None => return Err(Error::LedgerOverflow),
        };
        persistent_extend_ttl(env, paylink_key.tag(), paylink_key.name(), min_ttl, min_ttl);
        publish_text_text_amount_ledger(
            env,
            "paylink_created",
            &creator_username,
            &token_id,
            amount,
            expiration_ledger,
        );
        Ok(())
    }

    /// Cancels a link at the request of the creator that made it.
    pub fn cancel_paylink(
        env: &mut Env,
        requester_username: Vec<u8>,
        token_id: Vec<u8>,
    ) -> (r: Result<(), Error>)
        requires
            well_formed(host_view(*old(env))),
            is_text(requester_username@),
            is_text(token_id@),
            host_view(*old(env)).authorized.contains(host_view(*old(env)).contract_address),
        ensures
            r == cancel_outcome(host_view(*old(env)), requester_username@, token_id@),
            r is Ok <==> {
                &&& host_view(*old(env)).persistent.contains_key(("PayLink"@, token_id@))
                &&& host_view(*old(env)).persistent[("PayLink"@, token_id@)] matches Stored::Link(
                    link,
                )
                &&& link.creator_username == requester_username@
                &&& !link.paid
            },
            host_view(*final(env)) == after_cancel(
                host_view(*old(env)),
                requester_username@,
                token_id@,
                host_view(*final(env)).authorized,
            ),
            well_formed(host_view(*final(env))),
    {
        proof {
            lemma_symbols();
            lemma_kinds_differ();
        }
        let contract = current_contract_address(env);
        require_auth(env, &contract);

        let paylink_key = DataKey::PayLink(token_id.clone());
        let mut paylink = match persistent_get_link(env, paylink_key.tag(), paylink_key.name()) {
            Some(paylink) => paylink,
            None => return Err(Error::PayLinkNotFound),
        };
        if !(requester_username == paylink.creator_username) {
            return Err(Error::NotPayLinkCreator);
        }
        assert(requester_username@ =~= paylink.creator_username@);
        if paylink.paid {
            return Err(Error::PayLinkAlreadyPaid);
        }
        paylink.cancelled = true;
        proof {
            lemma_entry_well_formed(host_view(*env), paylink_key@, Stored::Link(paylink@));
        }
        persistent_set_link(env, paylink_key.tag(), paylink_key.name(), &paylink);
        publish_text_text(env, "paylink_cancelled", &requester_username, &token_id);
        Ok(())
    }

    /// The link with this token id, if there is one.
    pub fn get_paylink(env: &Env, token_id: Vec<u8>) -> (r: Option<PayLinkData>)
        requires
            well_formed(host_view(*env)),
            is_text(token_id@),
        ensures
            r is Some <==> paylink(host_view(*env), token_id@) is Some,
            r matches Some(link) ==> link@ == paylink(host_view(*env), token_id@)->0,
            r is Some <==> host_view(*env).persistent.contains_key(("PayLink"@, token_id@)),
            r matches Some(link) ==> host_view(*env).persistent[("PayLink"@, token_id@)]
                == Stored::Link(
                (PayLinkView {
                    creator_username: link.creator_username@,
                    amount: link.amount,
                    note: link.note@,
                    expiration_ledger: link.expiration_ledger,
                    paid: link.paid,
                    cancelled: link.cancelled,
                }),
            ),
    {
        proof {
            lemma_symbols();
        }
        let key = DataKey::PayLink(token_id);
        persistent_get_link(env, key.tag(), key.name())
    }
}

} // verus!
