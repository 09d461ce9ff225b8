use paylink::{DataKey, Error, PayLinkContract, PayLinkData, PAYLINK_TTL_BUFFER_LEDGERS};
use soroban_sdk::testutils::storage::Persistent as _;
use soroban_sdk::testutils::{
    Address as _, ContractFunctionSet, EnvTestConfig, Events as _, Ledger as _,
};
use soroban_sdk::{
    Address, Env, IntoVal, InvokeError, String as Text, Symbol, TryFromVal, Val, Vec as Vals,
};

fn bytes(text: &Text) -> Vec<u8> {
    text.to_bytes().iter().collect()
}

fn arg<T: TryFromVal<Env, Val>>(env: &Env, args: &[Val], i: usize) -> T {
    match T::try_from_val(env, &args[i]) {
        Ok(value) => value,
        Err(_) => panic!("argument {} has another type", i),
    }
}

fn text_arg(env: &Env, args: &[Val], i: usize) -> Vec<u8> {
    bytes(&arg::<Text>(env, args, i))
}

fn answer(env: &Env, result: Result<(), Error>) -> Val {
    match result {
        Ok(()) => ().into_val(env),
        Err(error) => soroban_sdk::Error::from_contract_error(error.code()).to_val(),
    }
}

/// The contract as the host calls it.
struct Deployed;

impl ContractFunctionSet for Deployed {
    fn call(&self, func: &str, env: Env, args: &[Val]) -> Option<Val> {
        let mut env = env;
        let value = match func {
            "set_admin" => {
                let who: Address = arg(&env, args, 0);
                if !PayLinkContract::try_set_admin(&mut env, who) {
                    panic!("admin already set");
                }
                ().into_val(&env)
            }
            "register_creator" => {
                let username = text_arg(&env, args, 0);
                PayLinkContract::register_creator(&mut env, username);
                ().into_val(&env)
            }
            "credit_yield" => {
                let username = text_arg(&env, args, 0);
                let amount: i128 = arg(&env, args, 1);
                match PayLinkContract::try_credit_yield(&mut env, username, amount) {
                    Some(result) => answer(&env, result),
                    None => panic!("balance overflow"),
                }
            }
            "create_paylink" => {
                let creator = text_arg(&env, args, 0);
                let token_id = text_arg(&env, args, 1);
                let amount: i128 = arg(&env, args, 2);
                let note = text_arg(&env, args, 3);
                let ttl: u32 = arg(&env, args, 4);
                let result = PayLinkContract::create_paylink(
                    &mut env, creator, token_id, amount, note, ttl,
                );
                answer(&env, result)
            }
            "cancel_paylink" => {
                let requester = text_arg(&env, args, 0);
                let token_id = text_arg(&env, args, 1);
                let result = PayLinkContract::cancel_paylink(&mut env, requester, token_id);
                answer(&env, result)
            }
            _ => return None,
        };
        Some(value)
    }
}

fn new_env() -> Env {
    Env::new_with_config(EnvTestConfig { capture_snapshot_at_drop: false })
}

fn error_of(code: u32) -> Option<Error> {
    let all = [
        Error::PayLinkAlreadyExists,
        Error::InvalidAmount,
        Error::CreatorNotFound,
        Error::LedgerOverflow,
        Error::PayLinkNotFound,
        Error::NotPayLinkCreator,
        Error::PayLinkAlreadyPaid,
        Error::Unauthorized,
        Error::UserNotFound,
    ];
    all.into_iter().find(|error| error.code() == code)
}

struct Client {
    env: Env,
    id: Address,
}

impl Client {
    fn new(env: &Env, id: &Address) -> Client {
        Client { env: env.clone(), id: id.clone() }
    }

    fn text(&self, s: &str) -> Val {
        Text::from_str(&self.env, s).to_val()
    }

    fn call(&self, func: &str, args: &[Val]) -> Result<(), Result<Error, InvokeError>> {
        let func = Symbol::new(&self.env, func);
        let args = Vals::from_slice(&self.env, args);
        match self.env.try_invoke_contract::<(), InvokeError>(&self.id, &func, args) {
            Ok(Ok(())) => Ok(()),
            Ok(Err(_)) => panic!("the answer has another type"),
            Err(Ok(InvokeError::Contract(code))) => match error_of(code) {
                Some(error) => Err(Ok(error)),
                None => Err(Err(InvokeError::Contract(code))),
            },
            Err(Ok(other)) => Err(Err(other)),
            Err(Err(other)) => Err(Err(other)),
        }
    }

    fn try_set_admin(&self, who: &Address) -> Result<(), Result<Error, InvokeError>> {
        self.call("set_admin", &[who.to_val()])
    }

    fn set_admin(&self, who: &Address) {
        self.try_set_admin(who).unwrap();
    }

    fn register_creator(&self, username: &str) {
        self.call("register_creator", &[self.text(username)]).unwrap();
    }

    fn try_credit_yield(
        &self,
        username: &str,
        amount: i128,
    ) -> Result<(), Result<Error, InvokeError>> {
        self.call("credit_yield", &[self.text(username), amount.into_val(&self.env)])
    }

    fn credit_yield(&self, username: &str, amount: i128) {
        self.try_credit_yield(username, amount).unwrap();
    }

    fn try_create_paylink(
        &self,
        creator: &str,
        token_id: &str,
        amount: i128,
        note: &str,
        ttl: u32,
    ) -> Result<(), Result<Error, InvokeError>> {
        self.call(
            "create_paylink",
            &[
                self.text(creator),
                self.text(token_id),
                amount.into_val(&self.env),
                self.text(note),
                ttl.into_val(&self.env),
            ],
        )
    }

    fn create_paylink(&self, creator: &str, token_id: &str, amount: i128, note: &str, ttl: u32) {
        self.try_create_paylink(creator, token_id, amount, note, ttl).unwrap();
    }

    fn try_cancel_paylink(
        &self,
        requester: &str,
        token_id: &str,
    ) -> Result<(), Result<Error, InvokeError>> {
        self.call("cancel_paylink", &[self.text(requester), self.text(token_id)])
    }

    fn cancel_paylink(&self, requester: &str, token_id: &str) {
        self.try_cancel_paylink(requester, token_id).unwrap();
    }

    fn get_paylink(&self, token_id: &str) -> Option<PayLinkData> {
        self.env.as_contract(&self.id, || {
            PayLinkContract::get_paylink(&self.env, token_id.as_bytes().to_vec())
        })
    }

    /// The stored form of a key.
    fn key(&self, tag: &str, name: &str) -> (Symbol, Text) {
        (Symbol::new(&self.env, tag), Text::from_str(&self.env, name))
    }

    fn stake_balance(&self, username: &str) -> Option<i128> {
        self.env.as_contract(&self.id, || {
            self.env.storage().persistent().get(&self.key("StakeBalance", username))
        })
    }
}

fn setup() -> (Env, Client) {
    let env = new_env();
    let contract_id = env.register(Deployed, ());
    let client = Client::new(&env, &contract_id);
    (env, client)
}

#[test]
fn create_paylink_persists_paylink_data() {
    let (env, client) = setup();

    client.register_creator("alice");
    env.ledger().set_sequence_number(100);

    client.create_paylink("alice", "tok-1", 100_i128, "coffee", 50);

    let stored = client.get_paylink("tok-1").expect("expected PayLink in storage");
    assert_eq!(stored.creator_username, b"alice".to_vec());
    assert_eq!(stored.amount, 100);
    assert_eq!(stored.note, b"coffee".to_vec());
    assert_eq!(stored.expiration_ledger, 150);
    assert!(!stored.paid);
    assert!(!stored.cancelled);
}

#[test]
fn paylink_data_xdr_round_trip() {
    let (_env, client) = setup();
    let data = PayLinkData {
        creator_username: b"alice".to_vec(),
        amount: 10_000_000_i128,
        note: b"test note".to_vec(),
        expiration_ledger: 500,
        paid: false,
        cancelled: false,
    };

    client.register_creator("alice");
    client.create_paylink("alice", "tok-xdr-roundtrip", 10_000_000_i128, "test note", 500);
    let retrieved = client
        .get_paylink("tok-xdr-roundtrip")
        .expect("round-trip failed: key not found");
    assert_eq!(retrieved, data);
}

#[test]
fn duplicate_token_id_returns_paylink_already_exists() {
    let (_env, client) = setup();

    client.register_creator("bob");

    client.create_paylink("bob", "dup", 1_i128, "n", 10);
    assert_eq!(
        client.try_create_paylink("bob", "dup", 2_i128, "n", 10),
        Err(Ok(Error::PayLinkAlreadyExists))
    );
}

#[test]
fn zero_amount_returns_invalid_amount() {
    let (_env, client) = setup();

    client.register_creator("carol");

    assert_eq!(
        client.try_create_paylink("carol", "z", 0_i128, "n", 10),
        Err(Ok(Error::InvalidAmount))
    );
}

#[test]
fn cancel_paylink_marks_link_cancelled() {
    let (env, client) = setup();
    env.mock_all_auths();

    client.register_creator("dave");
    client.create_paylink("dave", "tok-cancel", 25_i128, "lunch", 20);

    client.cancel_paylink("dave", "tok-cancel");

    let stored = client.get_paylink("tok-cancel").expect("expected PayLink in storage");
    assert!(stored.cancelled);
    assert_eq!(stored.creator_username, b"dave".to_vec());
    assert!(!stored.paid);
}

#[test]
fn cancel_paylink_by_non_creator_returns_not_paylink_creator() {
    let (env, client) = setup();
    env.mock_all_auths();

    client.register_creator("erin");
    client.create_paylink("erin", "tok-wrong-user", 40_i128, "gift", 20);

    assert_eq!(
        client.try_cancel_paylink("frank", "tok-wrong-user"),
        Err(Ok(Error::NotPayLinkCreator))
    );
}

#[test]
fn cancel_paid_paylink_returns_paylink_already_paid() {
    let (env, client) = setup();
    env.mock_all_auths();

    client.register_creator("grace");
    client.create_paylink("grace", "tok-paid", 75_i128, "rent", 20);

    env.as_contract(&client.id, || {
        let key = client.key("PayLink", "tok-paid");
        let mut stored: soroban_sdk::Map<Symbol, Val> = env
            .storage()
            .persistent()
            .get(&key)
            .expect("expected PayLink in storage");
        stored.set(Symbol::new(&env, "paid"), true.into_val(&env));
        env.storage().persistent().set(&key, &stored);
    });

    assert_eq!(
        client.try_cancel_paylink("grace", "tok-paid"),
        Err(Ok(Error::PayLinkAlreadyPaid))
    );
}

#[test]
fn create_paylink_for_non_existent_creator_returns_creator_not_found() {
    let (_env, client) = setup();

    assert_eq!(
        client.try_create_paylink("unknown", "tok-unknown", 100_i128, "test", 10),
        Err(Ok(Error::CreatorNotFound))
    );
}

#[test]
fn create_paylink_with_negative_amount_returns_invalid_amount() {
    let (_env, client) = setup();

    client.register_creator("henry");

    assert_eq!(
        client.try_create_paylink("henry", "tok-neg", -1_i128, "test", 10),
        Err(Ok(Error::InvalidAmount))
    );
}

#[test]
fn create_paylink_with_very_large_amount_succeeds() {
    let (_env, client) = setup();

    client.register_creator("irene");

    // 1 billion USDC in stroops (1 USDC = 10_000_000 stroops)
    let large_amount = 1_000_000_000_i128 * 10_000_000_i128;
    client.create_paylink("irene", "tok-large", large_amount, "large payment", 100);

    let stored = client.get_paylink("tok-large").expect("expected PayLink in storage");
    assert_eq!(stored.amount, large_amount);
}

#[test]
fn create_paylink_with_minimum_ttl_succeeds() {
    let (env, client) = setup();

    client.register_creator("jack");

    // Minimum TTL of 1 ledger
    client.create_paylink("jack", "tok-min-ttl", 100_i128, "test", 1);

    let stored = client.get_paylink("tok-min-ttl").expect("expected PayLink in storage");
    assert_eq!(stored.expiration_ledger, env.ledger().sequence() + 1);
}

#[test]
fn create_paylink_with_zero_ttl_fails_due_to_overflow_or_invalid() {
    let (env, client) = setup();

    client.register_creator("kate");

    // A TTL of 0 makes a link that expires in the current ledger.
    client.create_paylink("kate", "tok-zero-ttl", 100_i128, "test", 0);

    let stored = client.get_paylink("tok-zero-ttl").expect("expected PayLink in storage");
    assert_eq!(stored.expiration_ledger, env.ledger().sequence());
}

#[test]
fn get_paylink_for_non_existent_token_returns_none() {
    let (_env, client) = setup();
    assert!(client.get_paylink("non-existent").is_none());
}

#[test]
fn register_creator_allows_subsequent_create_paylink() {
    let (_env, client) = setup();

    client.register_creator("leo");
    client.create_paylink("leo", "tok-registered", 50_i128, "test", 10);

    let stored = client.get_paylink("tok-registered").expect("expected PayLink in storage");
    assert_eq!(stored.creator_username, b"leo".to_vec());
}

#[test]
fn credit_yield_for_non_existent_user_returns_user_not_found() {
    let (env, client) = setup();

    let admin = Address::generate(&env);
    client.set_admin(&admin);
    env.mock_all_auths();

    assert_eq!(
        client.try_credit_yield("non-existent", 100_i128),
        Err(Ok(Error::UserNotFound))
    );
}

#[test]
fn credit_yield_with_zero_amount_returns_invalid_amount() {
    let (env, client) = setup();

    let admin = Address::generate(&env);
    client.set_admin(&admin);

    client.register_creator("mike");
    env.mock_all_auths();

    assert_eq!(client.try_credit_yield("mike", 0_i128), Err(Ok(Error::InvalidAmount)));
}

#[test]
fn credit_yield_with_negative_amount_returns_invalid_amount() {
    let (env, client) = setup();

    let admin = Address::generate(&env);
    client.set_admin(&admin);

    client.register_creator("nancy");
    env.mock_all_auths();

    assert_eq!(client.try_credit_yield("nancy", -100_i128), Err(Ok(Error::InvalidAmount)));
}

#[test]
fn credit_yield_increases_stake_balance() {
    let (env, client) = setup();

    let admin = Address::generate(&env);
    client.set_admin(&admin);

    client.register_creator("oscar");
    env.mock_all_auths();

    client.credit_yield("oscar", 100_i128);
    client.credit_yield("oscar", 200_i128);
    client.credit_yield("oscar", 50_i128);

    let balance = client.stake_balance("oscar").expect("expected stake balance");
    assert_eq!(balance, 350_i128);
}

#[test]
fn credit_yield_to_multiple_users() {
    let (env, client) = setup();

    let admin = Address::generate(&env);
    client.set_admin(&admin);

    client.register_creator("peter");
    client.register_creator("quinn");
    env.mock_all_auths();

    client.credit_yield("peter", 100_i128);
    client.credit_yield("quinn", 200_i128);

    assert_eq!(client.stake_balance("peter").unwrap_or(0), 100_i128);
    assert_eq!(client.stake_balance("quinn").unwrap_or(0), 200_i128);
}

#[test]
fn set_admin_panics_on_second_call() {
    let (env, client) = setup();

    let admin1 = Address::generate(&env);
    let admin2 = Address::generate(&env);

    client.set_admin(&admin1);

    let result = client.try_set_admin(&admin2);
    assert!(result.is_err());
}

#[test]
fn paylink_expiry_test_with_ledger_advance() {
    let (env, client) = setup();

    client.register_creator("rex");
    env.ledger().set_sequence_number(100);

    // Expires at ledger 101
    client.create_paylink("rex", "tok-expiry", 100_i128, "expiry test", 1);

    let paylink_before = client.get_paylink("tok-expiry").expect("expected PayLink in storage");
    assert_eq!(paylink_before.expiration_ledger, 101);
    assert!(!paylink_before.cancelled);

    // Past expiry
    env.ledger().set_sequence_number(102);

    let paylink_after = client
        .get_paylink("tok-expiry")
        .expect("expected PayLink still readable");
    assert_eq!(paylink_after.expiration_ledger, 101);
}

#[test]
fn multiple_paylinks_for_same_creator() {
    let (env, client) = setup();

    client.register_creator("sara");

    client.create_paylink("sara", "tok-1", 100_i128, "first", 10);
    client.create_paylink("sara", "tok-2", 200_i128, "second", 20);
    client.create_paylink("sara", "tok-3", 300_i128, "third", 30);

    let pl1 = client.get_paylink("tok-1").expect("tok-1 should exist");
    let pl2 = client.get_paylink("tok-2").expect("tok-2 should exist");
    let pl3 = client.get_paylink("tok-3").expect("tok-3 should exist");

    assert_eq!(pl1.amount, 100_i128);
    assert_eq!(pl2.amount, 200_i128);
    assert_eq!(pl3.amount, 300_i128);

    assert_eq!(pl1.expiration_ledger, env.ledger().sequence() + 10);
    assert_eq!(pl2.expiration_ledger, env.ledger().sequence() + 20);
    assert_eq!(pl3.expiration_ledger, env.ledger().sequence() + 30);
}

#[test]
fn cancel_non_existent_paylink_returns_paylink_not_found() {
    let (env, client) = setup();
    env.mock_all_auths();

    assert_eq!(
        client.try_cancel_paylink("tom", "non-existent"),
        Err(Ok(Error::PayLinkNotFound))
    );
}

#[test]
fn cancel_already_cancelled_paylink_succeeds() {
    let (env, client) = setup();
    env.mock_all_auths();

    client.register_creator("uma");
    client.create_paylink("uma", "tok-cancel-twice", 50_i128, "test", 10);

    client.cancel_paylink("uma", "tok-cancel-twice");
    let pl1 = client.get_paylink("tok-cancel-twice").expect("expected PayLink");
    assert!(pl1.cancelled);

    client.cancel_paylink("uma", "tok-cancel-twice");
    let pl2 = client.get_paylink("tok-cancel-twice").expect("expected PayLink");
    assert!(pl2.cancelled);
}

#[test]
fn paylink_data_fields_verification() {
    let (env, client) = setup();

    client.register_creator("victor");
    env.ledger().set_sequence_number(500);

    client.create_paylink(
        "victor",
        "tok-verify",
        1_000_000_i128,
        "detailed verification test",
        100,
    );

    let stored = client.get_paylink("tok-verify").expect("expected PayLink");

    assert_eq!(stored.creator_username, b"victor".to_vec());
    assert_eq!(stored.amount, 1_000_000_i128);
    assert_eq!(stored.note, b"detailed verification test".to_vec());
    assert_eq!(stored.expiration_ledger, 600);
    assert!(!stored.paid);
    assert!(!stored.cancelled);
}

#[test]
fn credit_yield_without_auth_fails() {
    let (env, client) = setup();

    let admin = Address::generate(&env);
    client.set_admin(&admin);

    client.register_creator("wendy");

    // No authorization is given
    let result = client.try_credit_yield("wendy", 100_i128);
    assert!(result.is_err());
}

#[test]
fn error_numbers() {
    assert_eq!(Error::PayLinkAlreadyExists.code(), 1);
    assert_eq!(Error::InvalidAmount.code(), 2);
    assert_eq!(Error::CreatorNotFound.code(), 3);
    assert_eq!(Error::LedgerOverflow.code(), 4);
    assert_eq!(Error::PayLinkNotFound.code(), 5);
    assert_eq!(Error::NotPayLinkCreator.code(), 6);
    assert_eq!(Error::PayLinkAlreadyPaid.code(), 7);
    assert_eq!(Error::Unauthorized.code(), 8);
    assert_eq!(Error::UserNotFound.code(), 9);
}

#[test]
fn data_keys_are_stored_by_kind_and_name() {
    let creator = DataKey::Creator(b"ada".to_vec());
    assert_eq!((creator.tag(), creator.name()), ("Creator", &b"ada".to_vec()));
    let link = DataKey::PayLink(b"tok".to_vec());
    assert_eq!((link.tag(), link.name()), ("PayLink", &b"tok".to_vec()));
    let stake = DataKey::StakeBalance(b"ada".to_vec());
    assert_eq!((stake.tag(), stake.name()), ("StakeBalance", &b"ada".to_vec()));
    assert_eq!(DataKey::Admin.tag(), "Admin");
}

#[test]
fn link_is_stored_as_a_map_of_its_fields() {
    let (env, client) = setup();
    client.register_creator("ada");
    env.ledger().set_sequence_number(7);
    client.create_paylink("ada", "tok", 12_i128, "for tea", 30);

    env.as_contract(&client.id, || {
        let map: soroban_sdk::Map<Symbol, Val> =
            env.storage().persistent().get(&client.key("PayLink", "tok")).unwrap();
        assert_eq!(map.len(), 6);
        let field = |name: &str| map.get(Symbol::new(&env, name)).unwrap();
        let creator = Text::try_from_val(&env, &field("creator_username")).unwrap();
        assert_eq!(creator, Text::from_str(&env, "ada"));
        assert_eq!(i128::try_from_val(&env, &field("amount")).unwrap(), 12);
        let note = Text::try_from_val(&env, &field("note")).unwrap();
        assert_eq!(note, Text::from_str(&env, "for tea"));
        assert_eq!(u32::try_from_val(&env, &field("expiration_ledger")).unwrap(), 37);
        assert!(!bool::try_from_val(&env, &field("paid")).unwrap());
        assert!(!bool::try_from_val(&env, &field("cancelled")).unwrap());
    });
}

#[test]
fn stored_link_is_read_field_by_field() {
    let (env, client) = setup();
    env.as_contract(&client.id, || {
        let mut map: soroban_sdk::Map<Symbol, Val> = soroban_sdk::Map::new(&env);
        let text = |s: &str| Text::from_str(&env, s).to_val();
        map.set(Symbol::new(&env, "paid"), true.into_val(&env));
        map.set(Symbol::new(&env, "note"), text("second"));
        map.set(Symbol::new(&env, "creator_username"), text("first"));
        map.set(Symbol::new(&env, "cancelled"), false.into_val(&env));
        map.set(Symbol::new(&env, "expiration_ledger"), 9_u32.into_val(&env));
        map.set(Symbol::new(&env, "amount"), i128::MAX.into_val(&env));
        env.storage().persistent().set(&client.key("PayLink", "by-hand"), &map);
    });
    assert_eq!(
        client.get_paylink("by-hand"),
        Some(PayLinkData {
            creator_username: b"first".to_vec(),
            amount: i128::MAX,
            note: b"second".to_vec(),
            expiration_ledger: 9,
            paid: true,
            cancelled: false,
        })
    );
}

#[test]
fn registration_admin_and_balance_are_stored_under_their_keys() {
    let (env, client) = setup();
    env.mock_all_auths();
    let admin = Address::generate(&env);
    client.set_admin(&admin);
    client.register_creator("ada");
    client.credit_yield("ada", 5);

    env.as_contract(&client.id, || {
        let stored: Option<Address> =
            env.storage().instance().get(&(Symbol::new(&env, "Admin"),));
        assert_eq!(stored, Some(admin.clone()));
        let flag: Option<bool> = env.storage().persistent().get(&client.key("Creator", "ada"));
        assert_eq!(flag, Some(true));
        assert!(!env.storage().persistent().has(&client.key("Creator", "eve")));
        let balance: Option<i128> =
            env.storage().persistent().get(&client.key("StakeBalance", "ada"));
        assert_eq!(balance, Some(5));
    });
}

#[test]
fn texts_need_not_be_utf8() {
    let (env, client) = setup();
    let name: Vec<u8> = [0xff_u8, 0x00, 0xc3].to_vec();
    env.as_contract(&client.id, || {
        let mut handle = env.clone();
        PayLinkContract::register_creator(&mut handle, name.clone());
        let made = PayLinkContract::create_paylink(
            &mut handle,
            name.clone(),
            [0xfe_u8].to_vec(),
            3,
            Vec::new(),
            1,
        );
        assert_eq!(made, Ok(()));
        let link = PayLinkContract::get_paylink(&handle, [0xfe_u8].to_vec()).unwrap();
        assert_eq!(link.creator_username, name);
        assert_eq!(link.note, Vec::<u8>::new());
    });
}

#[test]
fn one_text_names_a_creator_a_link_and_a_balance() {
    let (env, client) = setup();
    env.mock_all_auths();
    client.set_admin(&Address::generate(&env));
    client.register_creator("same");
    client.create_paylink("same", "same", 8, "", 4);
    client.credit_yield("same", 70);
    assert_eq!(client.get_paylink("same").unwrap().amount, 8);
    assert_eq!(client.stake_balance("same"), Some(70));
}

#[test]
fn link_lives_the_buffer_longer_than_its_ttl() {
    let (env, client) = setup();
    client.register_creator("ada");
    env.ledger().set_sequence_number(100);
    client.create_paylink("ada", "tok", 1, "", 5_000);
    env.as_contract(&client.id, || {
        let ttl = env.storage().persistent().get_ttl(&client.key("PayLink", "tok"));
        assert_eq!(ttl, 5_000 + PAYLINK_TTL_BUFFER_LEDGERS);
    });
}

#[test]
fn link_lives_no_longer_than_the_network_allows() {
    let (env, client) = setup();
    client.register_creator("ada");
    env.ledger().set_max_entry_ttl(20_000);
    client.create_paylink("ada", "tok", 1, "", 1_000_000);
    assert_eq!(client.get_paylink("tok").unwrap().expiration_ledger, 1_000_000);
    env.as_contract(&client.id, || {
        let ttl = env.storage().persistent().get_ttl(&client.key("PayLink", "tok"));
        assert_eq!(ttl, 20_000);
    });
}

#[test]
fn longer_life_of_a_new_entry_is_kept() {
    let (env, client) = setup();
    client.register_creator("ada");
    env.ledger().set_min_persistent_entry_ttl(50_001);
    client.create_paylink("ada", "tok", 1, "", 10);
    env.as_contract(&client.id, || {
        let ttl = env.storage().persistent().get_ttl(&client.key("PayLink", "tok"));
        assert_eq!(ttl, 50_000);
    });
}

#[test]
fn credited_balance_lives_for_the_buffer() {
    let (env, client) = setup();
    env.mock_all_auths();
    client.set_admin(&Address::generate(&env));
    client.register_creator("ada");
    client.credit_yield("ada", 1);
    env.as_contract(&client.id, || {
        let ttl = env.storage().persistent().get_ttl(&client.key("StakeBalance", "ada"));
        assert_eq!(ttl, 16_384);
    });
    env.ledger().set_sequence_number(1_000);
    client.credit_yield("ada", 1);
    env.as_contract(&client.id, || {
        let ttl = env.storage().persistent().get_ttl(&client.key("StakeBalance", "ada"));
        assert_eq!(ttl, 16_384);
    });
}

#[test]
fn cancelling_keeps_the_life_of_the_entry() {
    let (env, client) = setup();
    env.mock_all_auths();
    client.register_creator("ada");
    client.create_paylink("ada", "tok", 1, "", 16);
    env.ledger().set_sequence_number(400);
    client.cancel_paylink("ada", "tok");
    env.as_contract(&client.id, || {
        let ttl = env.storage().persistent().get_ttl(&client.key("PayLink", "tok"));
        assert_eq!(ttl, 16 + 16_384 - 400);
    });
}

#[test]
fn link_is_readable_in_the_last_ledger_of_its_entry() {
    let (env, client) = setup();
    client.register_creator("ada");
    client.create_paylink("ada", "tok", 1, "", 3);
    env.ledger().set_sequence_number(3 + PAYLINK_TTL_BUFFER_LEDGERS);
    assert_eq!(client.get_paylink("tok").unwrap().expiration_ledger, 3);
}

fn published(env: &Env, client: &Client, topic: &str, data: Val) -> bool {
    let topics: Vals<Val> = Vals::from_array(env, [Symbol::new(env, topic).to_val()]);
    env.events().all() == Vals::from_array(env, [(client.id.clone(), topics, data)])
}

#[test]
fn making_a_link_publishes_an_event() {
    let (env, client) = setup();
    client.register_creator("ada");
    env.ledger().set_sequence_number(40);
    client.create_paylink("ada", "tok", 6, "note", 2);
    let data = (Text::from_str(&env, "ada"), Text::from_str(&env, "tok"), 6_i128, 42_u32);
    assert!(published(&env, &client, "paylink_created", data.into_val(&env)));
}

#[test]
fn crediting_publishes_an_event() {
    let (env, client) = setup();
    env.mock_all_auths();
    client.set_admin(&Address::generate(&env));
    client.register_creator("ada");
    env.ledger().set_sequence_number(40);
    client.credit_yield("ada", 6);
    client.credit_yield("ada", 5);
    let data = (Text::from_str(&env, "ada"), 5_i128, 11_i128, 40_u32);
    assert!(published(&env, &client, "yield_credited", data.into_val(&env)));
}

#[test]
fn cancelling_publishes_an_event() {
    let (env, client) = setup();
    env.mock_all_auths();
    client.register_creator("ada");
    client.create_paylink("ada", "tok", 6, "note", 2);
    client.cancel_paylink("ada", "tok");
    let data = (Text::from_str(&env, "ada"), Text::from_str(&env, "tok"));
    assert!(published(&env, &client, "paylink_cancelled", data.into_val(&env)));
}

#[test]
fn crediting_asks_the_admin_and_cancelling_asks_the_contract() {
    let (env, client) = setup();
    env.mock_all_auths();
    let admin = Address::generate(&env);
    client.set_admin(&admin);
    client.register_creator("ada");
    client.create_paylink("ada", "tok", 6, "note", 2);

    client.credit_yield("ada", 6);
    let asked: Vec<Address> = env.auths().into_iter().map(|(who, _)| who).collect();
    assert_eq!(asked, [admin].to_vec());

    client.cancel_paylink("ada", "tok");
    let asked: Vec<Address> = env.auths().into_iter().map(|(who, _)| who).collect();
    assert_eq!(asked, [client.id.clone()].to_vec());
}

#[test]
fn cancelling_without_authorization_fails() {
    let (_env, client) = setup();
    client.register_creator("ada");
    client.create_paylink("ada", "tok", 6, "note", 2);
    assert_eq!(client.try_cancel_paylink("ada", "tok"), Err(Err(InvokeError::Abort)));
    assert!(!client.get_paylink("tok").unwrap().cancelled);
}

#[test]
fn crediting_without_an_admin_is_unauthorized() {
    let (env, client) = setup();
    env.mock_all_auths();
    client.register_creator("ada");
    assert_eq!(client.try_credit_yield("ada", 100), Err(Ok(Error::Unauthorized)));
    assert_eq!(client.try_credit_yield("ada", 0), Err(Ok(Error::Unauthorized)));
    assert_eq!(client.stake_balance("ada"), None);
}

#[test]
fn admin_is_set_once_and_kept() {
    let (env, client) = setup();
    let first = Address::generate(&env);
    let second = Address::generate(&env);
    env.as_contract(&client.id, || {
        let mut handle = env.clone();
        assert!(PayLinkContract::try_set_admin(&mut handle, first.clone()));
        assert!(!PayLinkContract::try_set_admin(&mut handle, second));
        let stored: Option<Address> =
            env.storage().instance().get(&(Symbol::new(&env, "Admin"),));
        assert_eq!(stored, Some(first));
    });
}

#[test]
fn set_admin_writes_the_admin() {
    let (env, client) = setup();
    let who = Address::generate(&env);
    env.as_contract(&client.id, || {
        let mut handle = env.clone();
        PayLinkContract::set_admin(&mut handle, who.clone());
        assert!(!PayLinkContract::try_set_admin(&mut handle, who.clone()));
    });
}

#[test]
fn refusals_come_in_order() {
    let (_env, client) = setup();
    assert_eq!(client.try_create_paylink("eve", "tok", 0, "", 1), Err(Ok(Error::CreatorNotFound)));
    client.register_creator("ada");
    client.create_paylink("ada", "tok", 1, "", 1);
    assert_eq!(client.try_create_paylink("ada", "tok", 0, "", 1), Err(Ok(Error::InvalidAmount)));
    assert_eq!(
        client.try_create_paylink("ada", "tok", 1, "", u32::MAX),
        Err(Ok(Error::PayLinkAlreadyExists))
    );
}

#[test]
fn expiry_beyond_the_last_ledger_overflows() {
    let (env, client) = setup();
    env.ledger().set_min_persistent_entry_ttl(1);
    env.ledger().set_max_entry_ttl(0);
    env.ledger().set_sequence_number(u32::MAX - 5);
    env.as_contract(&client.id, || {
        let mut handle = env.clone();
        PayLinkContract::register_creator(&mut handle, b"ada".to_vec());
        let token = b"tok".to_vec();
        let refused = PayLinkContract::create_paylink(
            &mut handle,
            b"ada".to_vec(),
            token.clone(),
            1,
            Vec::new(),
            6,
        );
        assert_eq!(refused, Err(Error::LedgerOverflow));
        assert_eq!(PayLinkContract::get_paylink(&handle, token.clone()), None);
        let made = PayLinkContract::create_paylink(
            &mut handle,
            b"ada".to_vec(),
            token.clone(),
            1,
            Vec::new(),
            5,
        );
        assert_eq!(made, Ok(()));
        let link = PayLinkContract::get_paylink(&handle, token).unwrap();
        assert_eq!(link.expiration_ledger, u32::MAX);
    });
}

#[test]
fn lifetime_beyond_the_last_ledger_overflows_after_the_write() {
    let (env, client) = setup();
    client.register_creator("ada");

    // The host undoes what a refused call wrote.
    assert_eq!(
        client.try_create_paylink("ada", "tok", 1, "", u32::MAX),
        Err(Ok(Error::LedgerOverflow))
    );
    assert_eq!(client.get_paylink("tok"), None);

    env.as_contract(&client.id, || {
        let mut handle = env.clone();
        let refused = PayLinkContract::create_paylink(
            &mut handle,
            b"ada".to_vec(),
            b"tok".to_vec(),
            1,
            Vec::new(),
            u32::MAX - 16_383,
        );
        assert_eq!(refused, Err(Error::LedgerOverflow));
        let link = PayLinkContract::get_paylink(&handle, b"tok".to_vec()).unwrap();
        assert_eq!(link.expiration_ledger, u32::MAX - 16_383);
        let made = PayLinkContract::create_paylink(
            &mut handle,
            b"ada".to_vec(),
            b"tok-2".to_vec(),
            1,
            Vec::new(),
            u32::MAX - 16_384,
        );
        assert_eq!(made, Ok(()));
    });
}

#[test]
fn balance_that_cannot_be_kept_is_not_credited() {
    let (env, client) = setup();
    env.mock_all_auths();
    client.set_admin(&Address::generate(&env));
    client.register_creator("ada");
    client.credit_yield("ada", i128::MAX - 2);
    client.credit_yield("ada", 1);
    assert_eq!(client.try_credit_yield("ada", 2), Err(Err(InvokeError::Abort)));
    assert_eq!(client.stake_balance("ada"), Some(i128::MAX - 1));
    client.credit_yield("ada", 1);
    assert_eq!(client.stake_balance("ada"), Some(i128::MAX));
    env.as_contract(&client.id, || {
        let mut handle = env.clone();
        assert_eq!(PayLinkContract::try_credit_yield(&mut handle, b"ada".to_vec(), 1), None);
        assert_eq!(
            PayLinkContract::try_credit_yield(&mut handle, b"eve".to_vec(), 1),
            Some(Err(Error::UserNotFound))
        );
    });
}

#[test]
fn credit_yield_credits_the_balance() {
    let (env, client) = setup();
    env.mock_all_auths();
    client.set_admin(&Address::generate(&env));
    client.register_creator("ada");
    env.as_contract(&client.id, || {
        let mut handle = env.clone();
        assert_eq!(PayLinkContract::credit_yield(&mut handle, b"ada".to_vec(), 9), Ok(()));
    });
    assert_eq!(client.stake_balance("ada"), Some(9));
}

#[test]
fn cancelling_changes_the_flag_alone() {
    let (env, client) = setup();
    env.mock_all_auths();
    client.register_creator("ada");
    client.create_paylink("ada", "tok", 6, "note", 2);
    client.create_paylink("ada", "other", 7, "kept", 3);
    let before = client.get_paylink("tok").unwrap();
    let other = client.get_paylink("other");
    client.cancel_paylink("ada", "tok");
    let after = client.get_paylink("tok").unwrap();
    assert_eq!(after, PayLinkData { cancelled: true, ..before });
    assert_eq!(client.get_paylink("other"), other);
    client.cancel_paylink("ada", "tok");
    assert_eq!(client.get_paylink("tok"), Some(after));
}

#[test]
fn refused_calls_change_nothing() {
    let (env, client) = setup();
    env.mock_all_auths();
    client.set_admin(&Address::generate(&env));
    client.register_creator("ada");
    client.create_paylink("ada", "tok", 6, "note", 2);
    client.credit_yield("ada", 4);
    let link = client.get_paylink("tok");

    assert!(client.try_create_paylink("ada", "tok", 9, "other", 9).is_err());
    assert!(client.try_cancel_paylink("eve", "tok").is_err());
    assert!(client.try_credit_yield("ada", -4).is_err());
    assert!(env.events().all().events().is_empty());

    assert_eq!(client.get_paylink("tok"), link);
    assert_eq!(client.stake_balance("ada"), Some(4));
}

#[test]
fn registering_again_keeps_the_creators_links() {
    let (_env, client) = setup();
    client.register_creator("ada");
    client.create_paylink("ada", "tok", 6, "note", 2);
    client.register_creator("ada");
    assert_eq!(client.get_paylink("tok").unwrap().amount, 6);
    client.create_paylink("ada", "tok-2", 7, "note", 2);
}
