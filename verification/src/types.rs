//! The records of a collection and their mathematical views.

use vstd::prelude::*;

verus! {

/// Version number reported by the collection.
pub const VERSION: u32 = 1;

/// Longest collection name, in bytes.
pub const MAX_NAME_LENGTH: u32 = 128;

/// Longest collection description, in bytes.
pub const MAX_DESCRIPTION_LENGTH: u32 = 512;

/// Longest external link, in bytes.
pub const MAX_LINK_LENGTH: u32 = 100;

/// Largest royalty share, in basis points.
pub const MAX_ROYALTY_SHARE: u32 = 5000;

/// Number of tokens the collection can ever hold; also the largest token id.
pub const MAX_TOKENS: u32 = 10000;

/// Price of one paid token, in whole units of the payment asset.
pub const MINT_COST: i128 = 1;

/// Smallest parts of the payment asset in one whole unit.
pub const UNIT_SCALE: i128 = 10000000;

/// Token ids up to this one are minted without payment.
pub const FREE_MINT_LIMIT: u32 = 1000;

/// What an identity is in contracts: the characters of its key.
pub type Id = Seq<char>;

/// Why an operation was rejected. A rejected operation changes nothing.
#[derive(Clone, Copy, Debug, PartialEq, Eq, Structural)]
pub enum Error {
    /// The collection has been initialized before.
    AlreadyInitialized,
    /// The collection has not been initialized yet.
    NotInitialized,
    /// The caller is not the identity the operation asks for.
    NotAuthorized,
    /// No token has the given id.
    NotNFT,
    /// The collection is frozen.
    Frozen,
    /// The minter is locked and the update would change it.
    MinterFrozen,
    /// A field is out of bounds, or the update would change the creator.
    InvalidCollectionInfo,
    /// The supply cap would be exceeded.
    MaxTokensReached,
    /// The payer cannot afford the paid part of a bulk mint.
    InsufficientBalance,
}

/// An account or contract identity, held as its textual key.
///
/// Two identities are the same exactly when their keys are equal.
#[derive(Debug, PartialEq, Eq, Hash)]
pub struct Address {
    key: String,
}

impl View for Address {
    type V = Id;

    closed spec fn view(&self) -> Id {
        self.key@
    }
}

impl Address {
    /// The identity with the given key.
    pub fn new(key: String) -> (a: Address)
        ensures
            a@ == key@,
    {
        Address { key }
    }

    /// The key of the identity.
    pub fn as_str(&self) -> (s: &str)
        ensures
            s@ == self@,
    {
        self.key.as_str()
    }

    /// Whether `self` and `other` are the same identity.
    pub fn same(&self, other: &Address) -> (r: bool)
        ensures
            r == (self@ == other@),
    {
        self.key == other.key
    }
}

impl Clone for Address {
    fn clone(&self) -> (r: Address)
        ensures
            r@ == self@,
    {
        Address { key: self.key.clone() }
    }
}

/// The royalty a collection asks for.
#[derive(Clone, Copy, Debug, PartialEq, Eq, Structural)]
pub struct RoyaltyInfo {
    /// Share of a sale, in basis points.
    pub share: u32,
}

/// Number of bytes that a text takes.
pub open spec fn byte_len(s: Seq<char>) -> nat {
    vstd::utf8::encode_utf8(s).len()
}

/// Whether an optional text takes at most `max` bytes.
pub open spec fn text_fits(s: Option<Seq<char>>, max: nat) -> bool {
    s matches Some(t) ==> byte_len(t) <= max
}

/// What a [`CollectionInfo`] is in contracts.
pub struct CollectionInfoView {
    pub creator: Id,
    pub admin: Id,
    pub minter: Id,
    pub payment_token: Id,
    pub name: Option<Seq<char>>,
    pub description: Option<Seq<char>>,
    pub external_link: Option<Seq<char>>,
    pub royalty_info: Option<RoyaltyInfo>,
}

impl CollectionInfoView {
    /// Every bounded field is within its bound.
    pub open spec fn valid(self) -> bool {
        &&& text_fits(self.name, MAX_NAME_LENGTH as nat)
        &&& text_fits(self.description, MAX_DESCRIPTION_LENGTH as nat)
        &&& text_fits(self.external_link, MAX_LINK_LENGTH as nat)
        &&& (self.royalty_info matches Some(r) ==> r.share <= MAX_ROYALTY_SHARE)
    }
}

/// Collection-wide configuration.
#[derive(Debug, PartialEq, Eq)]
pub struct CollectionInfo {
    /// Who created the collection and receives mint payments. Never changes.
    pub creator: Address,
    /// Who may change policy and metadata.
    pub admin: Address,
    /// Who is designated to mint.
    pub minter: Address,
    /// The asset in which paid mints are charged.
    pub payment_token: Address,
    pub name: Option<String>,
    pub description: Option<String>,
    pub external_link: Option<String>,
    pub royalty_info: Option<RoyaltyInfo>,
}

/// The characters of an optional text.
pub open spec fn text_view(s: Option<String>) -> Option<Seq<char>> {
    match s {
        Some(t) => Some(t@),
        None => None,
    }
}

impl View for CollectionInfo {
    type V = CollectionInfoView;

    open spec fn view(&self) -> CollectionInfoView {
        CollectionInfoView {
            creator: self.creator@,
            admin: self.admin@,
            minter: self.minter@,
            payment_token: self.payment_token@,
            name: text_view(self.name),
            description: text_view(self.description),
            external_link: text_view(self.external_link),
            royalty_info: self.royalty_info,
        }
    }
}

fn clone_text(s: &Option<String>) -> (r: Option<String>)
    ensures
        text_view(r) == text_view(*s),
{
    match s {
        Some(t) => Some(t.clone()),
        None => None,
    }
}

fn text_within(s: &Option<String>, max: u32) -> (r: bool)
    ensures
        r == text_fits(text_view(*s), max as nat),
{
    match s {
        Some(t) => t.as_str().as_bytes().len() <= max as usize,
        None => true,
    }
}

impl CollectionInfo {
    /// Whether every bounded field is within its bound.
    pub fn is_valid(&self) -> (r: bool)
        ensures
            r == self@.valid(),
    {
        let royalty_ok = match self.royalty_info {
            Some(royalty) => royalty.share <= MAX_ROYALTY_SHARE,
            None => true,
        };
        text_within(&self.name, MAX_NAME_LENGTH) && text_within(
            &self.description,
            MAX_DESCRIPTION_LENGTH,
        ) && text_within(&self.external_link, MAX_LINK_LENGTH) && royalty_ok
    }
}

impl Clone for CollectionInfo {
    fn clone(&self) -> (r: CollectionInfo)
        ensures
            r@ == self@,
    {
        CollectionInfo {
            creator: self.creator.clone(),
            admin: self.admin.clone(),
            minter: self.minter.clone(),
            payment_token: self.payment_token.clone(),
            name: clone_text(&self.name),
            description: clone_text(&self.description),
            external_link: clone_text(&self.external_link),
            royalty_info: self.royalty_info,
        }
    }
}

/// What a [`TokenInfo`] is in contracts.
pub struct TokenView {
    pub owner: Id,
    pub approvals: Seq<Id>,
    pub token_uri: Seq<char>,
}

/// The record of one token.
#[derive(Debug, PartialEq, Eq)]
pub struct TokenInfo {
    /// Who owns the token.
    pub owner: Address,
    /// Identities approved for the token. Kept with the record; no
    /// operation consults it.
    pub approvals: Vec<Address>,
    /// Where the token's metadata lives.
    pub token_uri: String,
}

/// The keys of a list of identities.
pub open spec fn ids_view(v: Seq<Address>) -> Seq<Id> {
    Seq::new(v.len(), |i: int| v[i]@)
}

impl View for TokenInfo {
    type V = TokenView;

    open spec fn view(&self) -> TokenView {
        TokenView {
            owner: self.owner@,
            approvals: ids_view(self.approvals@),
            token_uri: self.token_uri@,
        }
    }
}

/// A copy of a list of identities.
pub(crate) fn clone_ids(v: &Vec<Address>) -> (r: Vec<Address>)
    ensures
        ids_view(r@) == ids_view(v@),
{
    let mut out: Vec<Address> = Vec::new();
    let mut i: usize = 0;
    while i < v.len()
        invariant
            i <= v.len(),
            out.len() == i,
            forall|j: int| 0 <= j < i ==> out[j]@ == v[j]@,
        decreases v.len() - i,
    {
        out.push(v[i].clone());
        i += 1;
    }
    assert(ids_view(out@) =~= ids_view(v@));
    out
}

impl Clone for TokenInfo {
    fn clone(&self) -> (r: TokenInfo)
        ensures
            r@ == self@,
    {
        TokenInfo {
            owner: self.owner.clone(),
            approvals: clone_ids(&self.approvals),
            token_uri: self.token_uri.clone(),
        }
    }
}

} // verus!
