//! The collection as a mathematical value, and what each operation makes of
//! it: when a call is rejected and why, and what an accepted call leaves.

use crate::effects::{EventView, PaymentView, ReceiptView};
use crate::types::{
    CollectionInfoView, Error, Id, TokenView, FREE_MINT_LIMIT, MAX_TOKENS, MINT_COST, UNIT_SCALE,
};
use vstd::prelude::*;

verus! {

/// One line of a token listing: id, metadata location, owner.
pub type Entry = (u32, Seq<char>, Id);

/// How many of `requested` tokens must be paid for when `current` tokens
/// have been minted: those that fall past the free-mint threshold.
pub open spec fn paid_count(current: nat, requested: nat) -> nat {
    let free: nat = if current < FREE_MINT_LIMIT {
        (FREE_MINT_LIMIT - current) as nat
    } else {
        0
    };
    if requested > free {
        (requested - free) as nat
    } else {
        0
    }
}

/// The price of `paid` tokens, in the payment asset's smallest parts.
pub open spec fn price(paid: nat) -> int {
    paid * MINT_COST * UNIT_SCALE
}

/// The smaller of two numbers.
pub open spec fn lesser(a: int, b: int) -> int {
    if a <= b {
        a
    } else {
        b
    }
}

/// A call of one of the operations that can change a collection, with its
/// arguments.
pub enum Op {
    Initialize { caller: Id, info: CollectionInfoView, freeze_minter: bool },
    Transfer { caller: Id, from: Id, to: Id, token_id: u32 },
    Mint { caller: Id, owner: Id, token_uri: Seq<char> },
    BulkMint { caller: Id, owner: Id, token_uris: Seq<Seq<char>>, owner_balance: int },
    FreezeCollection { caller: Id },
    UpdateTokenUrl { caller: Id, token_id: u32, token_uri: Seq<char> },
    UpdateCollectionInfo { caller: Id, new_info: CollectionInfoView },
}

/// A collection: its configuration, its two irreversible flags, its two
/// counters and its token records by id.
#[verifier::ext_equal]
pub struct CollectionState {
    pub info: Option<CollectionInfoView>,
    pub minter_frozen: bool,
    pub frozen: bool,
    pub tokens_count: nat,
    pub max_token_id: nat,
    pub tokens: Map<u32, TokenView>,
}

impl CollectionState {
    /// The collection before initialization.
    pub open spec fn empty() -> CollectionState {
        CollectionState {
            info: None,
            minter_frozen: false,
            frozen: false,
            tokens_count: 0,
            max_token_id: 0,
            tokens: Map::empty(),
        }
    }

    /// What holds of every collection: the counters are ordered and capped,
    /// token ids run from 1 to the count, the configuration is within its
    /// bounds, and nothing happened before initialization.
    pub open spec fn wf(self) -> bool {
        &&& self.tokens_count <= self.max_token_id <= MAX_TOKENS
        &&& forall|id: u32| #[trigger]
            self.tokens.contains_key(id) ==> 1 <= id <= self.tokens_count
        &&& (self.info matches Some(info) ==> info.valid())
        &&& (self.tokens_count > 0 || self.frozen || self.minter_frozen ==> self.info is Some)
    }

    /// Why `initialize` is rejected, if it is.
    pub open spec fn initialize_error(self, caller: Id, info: CollectionInfoView) -> Option<Error> {
        if self.info is Some {
            Some(Error::AlreadyInitialized)
        } else if caller != info.creator {
            Some(Error::NotAuthorized)
        } else if !info.valid() {
            Some(Error::InvalidCollectionInfo)
        } else {
            None
        }
    }

    /// The collection once initialized with `info`.
    pub open spec fn after_initialize(
        self,
        info: CollectionInfoView,
        freeze_minter: bool,
    ) -> CollectionState {
        CollectionState {
            info: Some(info),
            minter_frozen: self.minter_frozen || freeze_minter,
            ..self
        }
    }

    /// Why `transfer` is rejected, if it is.
    pub open spec fn transfer_error(self, caller: Id, from: Id, token_id: u32) -> Option<Error> {
        if !self.tokens.contains_key(token_id) {
            Some(Error::NotNFT)
        } else if self.tokens[token_id].owner != from {
            Some(Error::NotAuthorized)
        } else if caller != from {
            Some(Error::NotAuthorized)
        } else {
            None
        }
    }

    /// The collection once token `token_id` belongs to `to`. The approvals
    /// of the token stay as they are.
    pub open spec fn after_transfer(self, to: Id, token_id: u32) -> CollectionState {
        CollectionState {
            tokens: self.tokens.insert(
                token_id,
                TokenView { owner: to, ..self.tokens[token_id] },
            ),
            ..self
        }
    }

    /// The id that the next single mint assigns.
    pub open spec fn next_id(self) -> nat {
        self.tokens_count + 1
    }

    /// Why `mint` is rejected, if it is.
    pub open spec fn mint_error(self, caller: Id, owner: Id) -> Option<Error> {
        if caller != owner {
            Some(Error::NotAuthorized)
        } else if self.next_id() > MAX_TOKENS {
            Some(Error::MaxTokensReached)
        } else if self.info is None {
            Some(Error::NotInitialized)
        } else {
            None
        }
    }

    /// The order to pay for `paid` tokens that `owner` mints: nothing for
    /// none, else their price from `owner` to the creator.
    pub open spec fn charge(self, owner: Id, paid: nat) -> Option<PaymentView> {
        if paid > 0 {
            Some(
                PaymentView {
                    asset: self.info->0.payment_token,
                    from: owner,
                    to: self.info->0.creator,
                    amount: price(paid),
                },
            )
        } else {
            None
        }
    }

    /// What `mint` returns when it succeeds.
    pub open spec fn mint_receipt(self, owner: Id) -> ReceiptView {
        ReceiptView {
            payment: self.charge(owner, paid_count(self.tokens_count, 1)),
            event: EventView::Mint { owner, token_id: self.next_id() as u32 },
        }
    }

    /// The collection once `owner` has minted one token.
    pub open spec fn after_mint(self, owner: Id, token_uri: Seq<char>) -> CollectionState {
        CollectionState {
            tokens: self.tokens.insert(
                self.next_id() as u32,
                TokenView { owner, approvals: Seq::empty(), token_uri },
            ),
            tokens_count: self.next_id(),
            max_token_id: if self.max_token_id < self.next_id() {
                self.next_id()
            } else {
                self.max_token_id
            },
            ..self
        }
    }

    /// Why `bulk_mint` is rejected, if it is.
    pub open spec fn bulk_mint_error(
        self,
        caller: Id,
        owner: Id,
        requested: nat,
        owner_balance: int,
    ) -> Option<Error> {
        if caller != owner {
            Some(Error::NotAuthorized)
        } else if self.tokens_count + requested > MAX_TOKENS {
            Some(Error::MaxTokensReached)
        } else if self.info is None {
            Some(Error::NotInitialized)
        } else if paid_count(self.tokens_count, requested) > 0 && owner_balance < price(
            paid_count(self.tokens_count, requested),
        ) {
            Some(Error::InsufficientBalance)
        } else {
            None
        }
    }

    /// Whether a bulk mint of `requested` tokens assigns `id`.
    pub open spec fn in_batch(self, requested: nat, id: u32) -> bool {
        self.tokens_count < id <= self.tokens_count + requested
    }

    /// The ids and metadata locations that a bulk mint of `token_uris`
    /// assigns, in order.
    pub open spec fn batch(self, token_uris: Seq<Seq<char>>) -> Seq<(u32, Seq<char>)> {
        Seq::new(
            token_uris.len(),
            |i: int| ((self.tokens_count + 1 + i) as u32, token_uris[i]),
        )
    }

    /// What `bulk_mint` returns when it succeeds.
    pub open spec fn bulk_mint_receipt(self, owner: Id, token_uris: Seq<Seq<char>>) -> ReceiptView {
        ReceiptView {
            payment: self.charge(owner, paid_count(self.tokens_count, token_uris.len())),
            event: EventView::BulkMint { owner, tokens: self.batch(token_uris) },
        }
    }

    /// The collection once `owner` has minted one token for each of
    /// `token_uris`, with consecutive ids.
    pub open spec fn after_bulk_mint(
        self,
        owner: Id,
        token_uris: Seq<Seq<char>>,
    ) -> CollectionState {
        CollectionState {
            tokens: Map::new(
                |id: u32| self.tokens.contains_key(id) || self.in_batch(token_uris.len(), id),
                |id: u32|
                    if self.in_batch(token_uris.len(), id) {
                        TokenView {
                            owner,
                            approvals: Seq::empty(),
                            token_uri: token_uris[id - self.tokens_count - 1],
                        }
                    } else {
                        self.tokens[id]
                    },
            ),
            tokens_count: self.tokens_count + token_uris.len(),
            max_token_id: self.tokens_count + token_uris.len(),
            ..self
        }
    }

    /// Why an operation of the admin is rejected before it looks at its
    /// arguments, when a frozen collection rejects it.
    pub open spec fn admin_error(self, caller: Id) -> Option<Error> {
        if self.frozen {
            Some(Error::Frozen)
        } else if self.info is None {
            Some(Error::NotInitialized)
        } else if caller != self.info->0.admin {
            Some(Error::NotAuthorized)
        } else {
            None
        }
    }

    /// Why `freeze_collection` is rejected, if it is.
    pub open spec fn freeze_error(self, caller: Id) -> Option<Error> {
        if self.info is None {
            Some(Error::NotInitialized)
        } else if caller != self.info->0.admin {
            Some(Error::NotAuthorized)
        } else {
            None
        }
    }

    /// The collection once frozen.
    pub open spec fn after_freeze(self) -> CollectionState {
        CollectionState { frozen: true, ..self }
    }

    /// Why `update_token_url` is rejected, if it is.
    pub open spec fn update_token_url_error(self, caller: Id, token_id: u32) -> Option<Error> {
        if self.admin_error(caller) is Some {
            self.admin_error(caller)
        } else if !self.tokens.contains_key(token_id) {
            Some(Error::NotNFT)
        } else {
            None
        }
    }

    /// The collection once token `token_id` points to `token_uri`.
    pub open spec fn after_update_token_url(
        self,
        token_id: u32,
        token_uri: Seq<char>,
    ) -> CollectionState {
        CollectionState {
            tokens: self.tokens.insert(
                token_id,
                TokenView { token_uri, ..self.tokens[token_id] },
            ),
            ..self
        }
    }

    /// Why `update_collection_info` is rejected, if it is.
    pub open spec fn update_collection_info_error(
        self,
        caller: Id,
        new_info: CollectionInfoView,
    ) -> Option<Error> {
        if self.admin_error(caller) is Some {
            self.admin_error(caller)
        } else if self.info->0.minter != new_info.minter && self.minter_frozen {
            Some(Error::MinterFrozen)
        } else if self.info->0.creator != new_info.creator {
            Some(Error::InvalidCollectionInfo)
        } else if !new_info.valid() {
            Some(Error::InvalidCollectionInfo)
        } else {
            None
        }
    }

    /// The collection once its configuration is `new_info`.
    pub open spec fn after_update_collection_info(
        self,
        new_info: CollectionInfoView,
    ) -> CollectionState {
        CollectionState { info: Some(new_info), ..self }
    }

    /// Why the call `op` is rejected, if it is.
    pub open spec fn rejection(self, op: Op) -> Option<Error> {
        match op {
            Op::Initialize { caller, info, freeze_minter } => self.initialize_error(caller, info),
            Op::Transfer { caller, from, to, token_id } => self.transfer_error(
                caller,
                from,
                token_id,
            ),
            Op::Mint { caller, owner, token_uri } => self.mint_error(caller, owner),
            Op::BulkMint { caller, owner, token_uris, owner_balance } => self.bulk_mint_error(
                caller,
                owner,
                token_uris.len(),
                owner_balance,
            ),
            Op::FreezeCollection { caller } => self.freeze_error(caller),
            Op::UpdateTokenUrl { caller, token_id, token_uri } => self.update_token_url_error(
                caller,
                token_id,
            ),
            Op::UpdateCollectionInfo { caller, new_info } => self.update_collection_info_error(
                caller,
                new_info,
            ),
        }
    }

    /// The collection after the call `op`: as it was if the call is
    /// rejected, else what the operation makes of it.
    pub open spec fn apply(self, op: Op) -> CollectionState {
        if self.rejection(op) is Some {
            self
        } else {
            match op {
                Op::Initialize { caller, info, freeze_minter } => self.after_initialize(
                    info,
                    freeze_minter,
                ),
                Op::Transfer { caller, from, to, token_id } => self.after_transfer(to, token_id),
                Op::Mint { caller, owner, token_uri } => self.after_mint(owner, token_uri),
                Op::BulkMint { caller, owner, token_uris, owner_balance } => self.after_bulk_mint(
                    owner,
                    token_uris,
                ),
                Op::FreezeCollection { caller } => self.after_freeze(),
                Op::UpdateTokenUrl { caller, token_id, token_uri } => self.after_update_token_url(
                    token_id,
                    token_uri,
                ),
                Op::UpdateCollectionInfo { caller, new_info } => self.after_update_collection_info(
                    new_info,
                ),
            }
        }
    }

    /// The collection after the calls `ops`, one after the other.
    pub open spec fn run(self, ops: Seq<Op>) -> CollectionState
        decreases ops.len(),
    {
        if ops.len() == 0 {
            self
        } else {
            self.run(ops.drop_last()).apply(ops.last())
        }
    }

    /// The last id of the range that starts at `start_after` and spans
    /// `limit` further ids, cut at the largest id assigned.
    pub open spec fn range_end(self, start_after: u32, limit: u32) -> int {
        lesser(start_after + limit, self.max_token_id as int)
    }

    /// Whether token `id` exists and, if an owner is asked for, belongs to
    /// that owner.
    pub open spec fn listed(self, owner: Option<Id>, id: int) -> bool {
        &&& 0 <= id <= u32::MAX
        &&& self.tokens.contains_key(id as u32)
        &&& (owner matches Some(o) ==> self.tokens[id as u32].owner == o)
    }

    /// The line of token `id` in a listing.
    pub open spec fn entry(self, id: int) -> Entry {
        (id as u32, self.tokens[id as u32].token_uri, self.tokens[id as u32].owner)
    }

    /// The listed tokens with ids from `lo` to `hi`, both included, highest
    /// id first.
    pub open spec fn listing(self, owner: Option<Id>, lo: int, hi: int) -> Seq<Entry>
        decreases hi - lo + 1,
    {
        if hi < lo {
            Seq::empty()
        } else if self.listed(owner, lo) {
            self.listing(owner, lo + 1, hi).push(self.entry(lo))
        } else {
            self.listing(owner, lo + 1, hi)
        }
    }

    /// What `get_tokens` returns.
    pub open spec fn tokens_page(self, owner: Option<Id>, start_after: u32, limit: u32) -> Seq<
        Entry,
    > {
        self.listing(owner, start_after as int, self.range_end(start_after, limit))
    }

    /// The ids of the tokens that exist from `lo` to `hi`, both included,
    /// lowest first.
    pub open spec fn existing(self, lo: int, hi: int) -> Seq<u32>
        decreases hi - lo + 1,
    {
        if hi < lo {
            Seq::empty()
        } else if self.listed(None, hi) {
            self.existing(lo, hi - 1).push(hi as u32)
        } else {
            self.existing(lo, hi - 1)
        }
    }

    /// The tokens whose records `extend_ttl_collection` keeps alive.
    pub open spec fn tokens_to_extend(self, start_after: u32, limit: u32) -> Seq<u32> {
        if limit > 0 {
            self.existing(start_after as int, self.range_end(start_after, limit))
        } else {
            Seq::empty()
        }
    }
}

} // verus!
