//! The plain values that cross the boundary between contract and host.

use vstd::prelude::*;

verus! {

/// Fungible amount of a token.
pub type Quantity = u64;

/// Identifies a class of tokens.
pub type ClassId = u32;

/// Identifies a token within its class.
pub type TokenId = u64;

/// Bytes attached to a class or a token; the contract never looks inside.
pub type Metadata = Vec<u8>;

/// UTF-8 text kept as bytes.
pub type Chars = Vec<u8>;

/// Amount of the chain's currency.
pub type Balance = u128;

/// Height of a block.
pub type BlockNumber = u32;

/// Identity of an account: 32 bytes that only the host interprets.
#[derive(Clone, Copy, Debug, PartialEq, Eq)]
pub struct AccountId(pub [u8; 32]);

impl AccountId {
    /// The account whose bytes are all zero.
    pub open spec fn zero() -> AccountId {
        AccountId(vstd::array::spec_array_fill_for_copy_type::<u8, 32>(0u8))
    }
}

impl View for AccountId {
    type V = Seq<u8>;

    open spec fn view(&self) -> Seq<u8> {
        self.0@
    }
}

impl Default for AccountId {
    fn default() -> (r: AccountId)
        ensures
            r == AccountId::zero(),
    {
        AccountId([0u8; 32])
    }
}

/// What the host recorded when a token was minted.
#[derive(Clone, Copy, Debug, PartialEq, Eq)]
pub struct TokenData {
    pub deposit: Balance,
    pub create_block: BlockNumber,
    pub royalty: bool,
    pub creator: AccountId,
    pub royalty_beneficiary: AccountId,
}

impl TokenData {
    /// The value that stands for "no data": zero amounts, no royalty, zero accounts.
    pub open spec fn empty() -> TokenData {
        TokenData {
            deposit: 0,
            create_block: 0,
            royalty: false,
            creator: AccountId::zero(),
            royalty_beneficiary: AccountId::zero(),
        }
    }
}

impl Default for TokenData {
    fn default() -> (r: TokenData)
        ensures
            r == TokenData::empty(),
    {
        TokenData {
            deposit: 0,
            create_block: 0,
            royalty: false,
            creator: AccountId::default(),
            royalty_beneficiary: AccountId::default(),
        }
    }
}

/// A `TokenData` with its accounts as sequences of bytes.
pub struct TokenDataView {
    pub deposit: Balance,
    pub create_block: BlockNumber,
    pub royalty: bool,
    pub creator: Seq<u8>,
    pub royalty_beneficiary: Seq<u8>,
}

impl View for TokenData {
    type V = TokenDataView;

    open spec fn view(&self) -> TokenDataView {
        TokenDataView {
            deposit: self.deposit,
            create_block: self.create_block,
            royalty: self.royalty,
            creator: self.creator@,
            royalty_beneficiary: self.royalty_beneficiary@,
        }
    }
}

/// Snapshot of one token, as a query returns it.
#[derive(Clone, Debug, PartialEq, Eq)]
pub struct TokenInfo {
    pub metadata: Metadata,
    pub data: TokenData,
    pub quantity: Quantity,
}

/// A `TokenInfo` with its metadata and accounts as sequences of bytes.
pub struct TokenInfoView {
    pub metadata: Seq<u8>,
    pub data: TokenDataView,
    pub quantity: Quantity,
}

impl TokenInfoView {
    /// The snapshot that stands in for a token the host does not know.
    pub open spec fn empty() -> TokenInfoView {
        TokenInfoView { metadata: Seq::empty(), data: TokenData::empty()@, quantity: 0 }
    }
}

impl View for TokenInfo {
    type V = TokenInfoView;

    open spec fn view(&self) -> TokenInfoView {
        TokenInfoView { metadata: self.metadata@, data: self.data@, quantity: self.quantity }
    }
}

impl Default for TokenInfo {
    fn default() -> (r: TokenInfo)
        ensures
            r@ == TokenInfoView::empty(),
    {
        TokenInfo { metadata: Vec::new(), data: TokenData::default(), quantity: 0 }
    }
}

/// Names the environment this contract runs in: the one whose accounts are 32
/// bytes, whose balances are `u128`, whose block numbers are `u32`, and whose
/// chain extension is NFTMart.
#[derive(Clone, Copy, Debug, PartialEq, Eq)]
pub enum CustomEnvironment {
    NFTMart,
}

} // verus!
