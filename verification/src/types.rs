use vstd::prelude::*;

verus! {

/// Extra ledgers beyond a link's own time to live, so that its entry stays readable until after
/// the ledger in which the link expires.
pub const PAYLINK_TTL_BUFFER_LEDGERS: u32 = 16_384;

/// A storage key as the host sees it: the symbol that tells the kind of the key, and the text
/// that tells keys of one kind apart.
pub type Key = (Seq<char>, Seq<u8>);

/// What the contract keeps in storage, by what it is kept under. Texts are bytes.
#[derive(Clone, Debug)]
pub enum DataKey {
    /// Present for a registered creator.
    Creator(Vec<u8>),
    /// The link with this token id.
    PayLink(Vec<u8>),
    /// The administrator's address.
    Admin,
    /// The staked balance of this user.
    StakeBalance(Vec<u8>),
}

impl View for DataKey {
    type V = Key;

    open spec fn view(&self) -> Key {
        match self {
            DataKey::Creator(username) => ("Creator"@, username@),
            DataKey::PayLink(token_id) => ("PayLink"@, token_id@),
            DataKey::Admin => ("Admin"@, Seq::<u8>::empty()),
            DataKey::StakeBalance(username) => ("StakeBalance"@, username@),
        }
    }
}

impl DataKey {
    /// The symbol that stands first in the stored form of the key.
    pub fn tag(&self) -> (r: &'static str)
        ensures
            r@ == self@.0,
    {
        match self {
            DataKey::Creator(_) => "Creator",
            DataKey::PayLink(_) => "PayLink",
            DataKey::Admin => "Admin",
            DataKey::StakeBalance(_) => "StakeBalance",
        }
    }

    /// The text that stands second in the stored form of the key.
    pub fn name(&self) -> (r: &Vec<u8>)
        requires
            !(self is Admin),
        ensures
            r@ == self@.1,
    {
        match self {
            DataKey::Creator(username) => username,
            DataKey::PayLink(token_id) => token_id,
            DataKey::Admin => vstd::pervasive::unreached(),
            DataKey::StakeBalance(username) => username,
        }
    }
}

/// A payment link.
#[derive(Clone, Debug, Eq, PartialEq)]
pub struct PayLinkData {
    pub creator_username: Vec<u8>,
    /// USDC amount in stroops (1 USDC = 10_000_000 stroops, 7 decimal places).
    pub amount: i128,
    pub note: Vec<u8>,
    pub expiration_ledger: u32,
    /// Enforces single payment: set to true once the link is claimed or settled.
    pub paid: bool,
    pub cancelled: bool,
}

/// A payment link, with its texts as sequences of bytes.
#[verifier::ext_equal]
pub struct PayLinkView {
    pub creator_username: Seq<u8>,
    pub amount: i128,
    pub note: Seq<u8>,
    pub expiration_ledger: u32,
    pub paid: bool,
    pub cancelled: bool,
}

impl View for PayLinkData {
    type V = PayLinkView;

    open spec fn view(&self) -> PayLinkView {
        PayLinkView {
            creator_username: self.creator_username@,
            amount: self.amount,
            note: self.note@,
            expiration_ledger: self.expiration_ledger,
            paid: self.paid,
            cancelled: self.cancelled,
        }
    }
}

/// What a refused call answers.
#[derive(Copy, Clone, Debug, PartialEq, Eq, PartialOrd, Ord, Structural)]
pub enum Error {
    PayLinkAlreadyExists,
    InvalidAmount,
    CreatorNotFound,
    LedgerOverflow,
    PayLinkNotFound,
    NotPayLinkCreator,
    PayLinkAlreadyPaid,
    Unauthorized,
    UserNotFound,
}

/// The number by which an error is known to the contract's callers.
pub open spec fn error_code(error: Error) -> u32 {
    match error {
        Error::PayLinkAlreadyExists => 1,
        Error::InvalidAmount => 2,
        Error::CreatorNotFound => 3,
        Error::LedgerOverflow => 4,
        Error::PayLinkNotFound => 5,
        Error::NotPayLinkCreator => 6,
        Error::PayLinkAlreadyPaid => 7,
        Error::Unauthorized => 8,
        Error::UserNotFound => 9,
    }
}

impl Error {
    /// The error's number.
    pub fn code(self) -> (r: u32)
        ensures
            r == error_code(self),
    {
        match self {
            Error::PayLinkAlreadyExists => 1,
            Error::InvalidAmount => 2,
            Error::CreatorNotFound => 3,
            Error::LedgerOverflow => 4,
            Error::PayLinkNotFound => 5,
            Error::NotPayLinkCreator => 6,
            Error::PayLinkAlreadyPaid => 7,
            Error::Unauthorized => 8,
            Error::UserNotFound => 9,
        }
    }
}

} // verus!
