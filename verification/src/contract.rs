//! The collection and its operations.

use crate::effects::{minted_view, Event, EventView, Payment, Receipt};
use crate::model::{paid_count, CollectionState, Entry, Op};
use crate::types::{
    clone_ids, Address, CollectionInfo, CollectionInfoView, Error, Id, TokenInfo, TokenView,
    FREE_MINT_LIMIT, MAX_TOKENS, MINT_COST, UNIT_SCALE, VERSION,
};
use std::collections::HashMap;
use vstd::prelude::*;

verus! {

broadcast use vstd::std_specs::hash::group_hash_axioms;

/// The records of a token table as the model sees them.
pub open spec fn tokens_view(m: Map<u32, TokenInfo>) -> Map<u32, TokenView> {
    Map::new(|id: u32| m.contains_key(id), |id: u32| m[id]@)
}

/// An optional configuration as the model sees it.
pub open spec fn info_view(info: Option<CollectionInfo>) -> Option<CollectionInfoView> {
    match info {
        Some(i) => Some(i@),
        None => None,
    }
}

/// The characters of each text of a list.
pub open spec fn texts_view(v: Seq<String>) -> Seq<Seq<char>> {
    Seq::new(v.len(), |i: int| v[i]@)
}

/// The lines of a token listing as the model sees them.
pub open spec fn entries_view(v: Seq<(u32, String, Address)>) -> Seq<Entry> {
    Seq::new(v.len(), |i: int| (v[i].0, v[i].1@, v[i].2@))
}

/// The key of an optional identity.
pub open spec fn owner_view(owner: Option<Address>) -> Option<Id> {
    match owner {
        Some(o) => Some(o@),
        None => None,
    }
}

/// Stored token records as the model sees them.
pub open spec fn records_view(v: Seq<(u32, TokenInfo)>) -> Seq<(u32, TokenView)> {
    Seq::new(v.len(), |i: int| (v[i].0, v[i].1@))
}

/// The token table that a list of stored records makes: each record under
/// its id, a later record replacing an earlier one with the same id.
pub open spec fn table(records: Seq<(u32, TokenView)>) -> Map<u32, TokenView>
    decreases records.len(),
{
    if records.len() == 0 {
        Map::empty()
    } else {
        table(records.drop_last()).insert(records.last().0, records.last().1)
    }
}

/// The collection that stored parts make.
pub open spec fn assembled(
    info: Option<CollectionInfo>,
    minter_frozen: bool,
    frozen: bool,
    tokens_count: u32,
    max_token_id: u32,
    records: Seq<(u32, TokenInfo)>,
) -> CollectionState {
    CollectionState {
        info: info_view(info),
        minter_frozen,
        frozen,
        tokens_count: tokens_count as nat,
        max_token_id: max_token_id as nat,
        tokens: table(records_view(records)),
    }
}

/// Every id of a list of records is an id of the table that the list makes.
pub proof fn lemma_table_holds_every_record(records: Seq<(u32, TokenView)>, i: int)
    requires
        0 <= i < records.len(),
    ensures
        table(records).contains_key(records[i].0),
    decreases records.len(),
{
    if i < records.len() - 1 {
        lemma_table_holds_every_record(records.drop_last(), i);
    }
}

/// A collection of tokens: configuration, flags, counters and token records.
///
/// Every value of this type satisfies [`StellarLogos::wf`]: the only ways to
/// make one are [`StellarLogos::new`] and [`StellarLogos::restore`], and
/// every operation keeps it.
///
/// An operation that answers `Ok` has changed the collection, and one that
/// answers `Err` has left it as it was. A host that cannot authenticate the
/// caller, or cannot settle the payment of a receipt, goes on with the
/// collection it had before the call.
#[derive(Debug)]
pub struct StellarLogos {
    info: Option<CollectionInfo>,
    minter_frozen: bool,
    frozen: bool,
    tokens_count: u32,
    max_token_id: u32,
    tokens: HashMap<u32, TokenInfo>,
}

impl View for StellarLogos {
    type V = CollectionState;

    closed spec fn view(&self) -> CollectionState {
        CollectionState {
            info: info_view(self.info),
            minter_frozen: self.minter_frozen,
            frozen: self.frozen,
            tokens_count: self.tokens_count as nat,
            max_token_id: self.max_token_id as nat,
            tokens: tokens_view(self.tokens@),
        }
    }
}

impl Clone for StellarLogos {
    fn clone(&self) -> (c: StellarLogos)
        ensures
            c@ == self@,
    {
        let c = StellarLogos {
            info: match &self.info {
                Some(info) => Some(info.clone()),
                None => None,
            },
            minter_frozen: self.minter_frozen,
            frozen: self.frozen,
            tokens_count: self.tokens_count,
            max_token_id: self.max_token_id,
            tokens: self.tokens.clone(),
        };
        assert(c@.tokens =~= self@.tokens);
        c
    }
}

/// How many of `requested` tokens must be paid for when `current` tokens
/// have been minted.
pub fn paid_tokens_count(current: u32, requested: u32) -> (paid: u32)
    ensures
        paid == paid_count(current as nat, requested as nat),
{
    let free: u32 = if current < FREE_MINT_LIMIT {
        FREE_MINT_LIMIT - current
    } else {
        0
    };
    if requested > free {
        requested - free
    } else {
        0
    }
}

impl StellarLogos {
    /// The invariant of the collection.
    pub open spec fn wf(&self) -> bool {
        self@.wf()
    }

    /// A collection that has not been initialized.
    pub fn new() -> (c: StellarLogos)
        ensures
            c.wf(),
            c@ == CollectionState::empty(),
    {
        let c = StellarLogos {
            info: None,
            minter_frozen: false,
            frozen: false,
            tokens_count: 0,
            max_token_id: 0,
            tokens: HashMap::new(),
        };
        assert(c@.tokens =~= Map::empty());
        c
    }

    /// The collection made of stored parts: configuration, flags, counters
    /// and token records; nothing if the parts do not make a collection.
    ///
    /// The records may be any part of the tokens of the collection: an
    /// operation looks only at the tokens it is asked about.
    pub fn restore(
        info: Option<CollectionInfo>,
        minter_frozen: bool,
        frozen: bool,
        tokens_count: u32,
        max_token_id: u32,
        records: Vec<(u32, TokenInfo)>,
    ) -> (r: Option<StellarLogos>)
        ensures
            match r {
                Some(c) => c.wf() && c@ == assembled(
                    info,
                    minter_frozen,
                    frozen,
                    tokens_count,
                    max_token_id,
                    records@,
                ),
                None => !assembled(
                    info,
                    minter_frozen,
                    frozen,
                    tokens_count,
                    max_token_id,
                    records@,
                ).wf(),
            },
    {
        if tokens_count > max_token_id || max_token_id > MAX_TOKENS {
            return None;
        }
        match &info {
            Some(i) => {
                if !i.is_valid() {
                    return None;
                }
            },
            None => {
                if tokens_count > 0 || frozen || minter_frozen {
                    return None;
                }
            },
        }
        let ghost stored = records_view(records@);
        let mut tokens: HashMap<u32, TokenInfo> = HashMap::new();
        let mut i: usize = 0;
        assert(tokens_view(tokens@) =~= table(stored.take(0)));
        while i < records.len()
            invariant
                i <= records.len(),
                stored == records_view(records@),
                tokens_view(tokens@) == table(stored.take(i as int)),
                forall|id: u32| #[trigger]
                    tokens@.contains_key(id) ==> 1 <= id <= tokens_count,
            decreases records.len() - i,
        {
            let token_id = records[i].0;
            if token_id < 1 || token_id > tokens_count {
                proof {
                    lemma_table_holds_every_record(stored, i as int);
                    assert(assembled(
                        info,
                        minter_frozen,
                        frozen,
                        tokens_count,
                        max_token_id,
                        records@,
                    ).tokens.contains_key(token_id));
                }
                return None;
            }
            tokens.insert(token_id, records[i].1.clone());
            proof {
                assert(stored.take(i + 1).drop_last() =~= stored.take(i as int));
                assert(tokens_view(tokens@) =~= table(stored.take(i + 1)));
            }
            i += 1;
        }
        proof {
            assert(stored.take(records.len() as int) =~= stored);
        }
        Some(StellarLogos { info, minter_frozen, frozen, tokens_count, max_token_id, tokens })
    }

    /// Stores the record of token `token_id`.
    fn set_token_info(&mut self, token_id: u32, token: TokenInfo)
        ensures
            final(self)@ == (CollectionState {
                tokens: old(self)@.tokens.insert(token_id, token@),
                ..old(self)@
            }),
    {
        self.tokens.insert(token_id, token);
        assert(tokens_view(self.tokens@) =~= tokens_view(old(self).tokens@).insert(
            token_id,
            token@,
        ));
    }

    /// Moves the count of minted tokens by one, down if `decrease`, else up.
    fn change_tokens_count(&mut self, decrease: bool)
        requires
            decrease ==> old(self)@.tokens_count > 0,
            !decrease ==> old(self)@.tokens_count < u32::MAX,
        ensures
            final(self)@ == (CollectionState {
                tokens_count: if decrease {
                    (old(self)@.tokens_count - 1) as nat
                } else {
                    old(self)@.tokens_count + 1
                },
                ..old(self)@
            }),
    {
        if decrease {
            self.tokens_count = self.tokens_count - 1;
        } else {
            self.tokens_count = self.tokens_count + 1;
        }
    }

    /// Mints one token for each of `token_uris` to `owner`, with consecutive
    /// ids after the last one assigned.
    ///
    /// `caller` is the identity that the host authenticates, and
    /// `owner_balance` what the payment asset says `owner` holds; it is read
    /// only when part of the batch falls past the free-mint threshold. The
    /// paid part is charged in one payment, returned in the receipt. Nothing
    /// is minted unless the whole batch fits under the cap and can be paid.
    pub fn bulk_mint(
        &mut self,
        caller: &Address,
        owner: Address,
        token_uris: Vec<String>,
        owner_balance: i128,
    ) -> (r: Result<Receipt, Error>)
        requires
            old(self).wf(),
        ensures
            final(self).wf(),
            final(self)@ == old(self)@.apply(
                Op::BulkMint {
                    caller: caller@,
                    owner: owner@,
                    token_uris: texts_view(token_uris@),
                    owner_balance: owner_balance as int,
                },
            ),
            match r {
                Ok(receipt) => {
                    &&& old(self)@.bulk_mint_error(
                        caller@,
                        owner@,
                        token_uris@.len(),
                        owner_balance as int,
                    ) is None
                    &&& final(self)@ == old(self)@.after_bulk_mint(
                        owner@,
                        texts_view(token_uris@),
                    )
                    &&& receipt@ == old(self)@.bulk_mint_receipt(owner@, texts_view(token_uris@))
                },
                Err(e) => {
                    &&& old(self)@.bulk_mint_error(
                        caller@,
                        owner@,
                        token_uris@.len(),
                        owner_balance as int,
                    ) == Some(e)
                    &&& final(self)@ == old(self)@
                },
            },
    {
        if !caller.same(&owner) {
            return Err(Error::NotAuthorized);
        }
        let current_count = self.tokens_count;
        let requested = token_uris.len();
        if requested > (MAX_TOKENS - current_count) as usize {
            return Err(Error::MaxTokensReached);
        }
        let payment = match &self.info {
            None => {
                return Err(Error::NotInitialized);
            },
            Some(info) => {
                let paid_tokens_count = paid_tokens_count(current_count, requested as u32);
                if paid_tokens_count > 0 {
                    let required_amount = paid_tokens_count as i128 * MINT_COST * UNIT_SCALE;
                    if owner_balance < required_amount {
                        return Err(Error::InsufficientBalance);
                    }
                    Some(
                        Payment {
                            asset: info.payment_token.clone(),
                            from: owner.clone(),
                            to: info.creator.clone(),
                            amount: required_amount,
                        },
                    )
                } else {
                    None
                }
            },
        };

        let ghost before = self@;
        let ghost texts = texts_view(token_uris@);
        let mut minted_tokens: Vec<(u32, String)> = Vec::new();
        let mut i: usize = 0;
        while i < requested
            invariant
                i <= requested == token_uris.len(),
                current_count + requested <= MAX_TOKENS,
                texts == texts_view(token_uris@),
                before.tokens_count == current_count,
                self@ == (CollectionState {
                    tokens: before.after_bulk_mint(owner@, texts.take(i as int)).tokens,
                    ..before
                }),
                minted_tokens@.len() == i,
                minted_view(minted_tokens@) == before.batch(texts.take(i as int)),
            decreases requested - i,
        {
            let token_id = current_count + 1 + i as u32;
            let token = TokenInfo {
                owner: owner.clone(),
                approvals: Vec::new(),
                token_uri: token_uris[i].clone(),
            };
            proof {
                assert(crate::types::ids_view(token.approvals@) =~= Seq::empty());
            }
            self.set_token_info(token_id, token);
            let ghost minted_before = minted_tokens@;
            minted_tokens.push((token_id, token_uris[i].clone()));
            i += 1;
            proof {
                assert(self@.tokens =~= before.after_bulk_mint(
                    owner@,
                    texts.take(i as int),
                ).tokens);
                let shorter = before.batch(texts.take(i - 1));
                let longer = before.batch(texts.take(i as int));
                assert forall|j: int| 0 <= j < i implies minted_view(minted_tokens@)[j]
                    == longer[j] by {
                    if j < i - 1 {
                        assert(minted_tokens@[j] == minted_before[j]);
                        assert(minted_view(minted_before)[j] == shorter[j]);
                    }
                }
                assert(minted_view(minted_tokens@) =~= longer);
            }
        }
        self.max_token_id = current_count + requested as u32;
        self.tokens_count = current_count + requested as u32;
        proof {
            assert(texts.take(requested as int) =~= texts);
        }
        Ok(Receipt { payment, event: Event::BulkMint { owner, tokens: minted_tokens } })
    }

    /// Mints one token to `owner`, with the id after the last one assigned.
    ///
    /// `caller` is the identity that the host authenticates. A token
    /// past the free-mint threshold is charged: the receipt then holds the
    /// payment from `owner` to the creator.
    pub fn mint(&mut self, caller: &Address, owner: Address, token_uri: String) -> (r: Result<
        Receipt,
        Error,
    >)
        requires
            old(self).wf(),
        ensures
            final(self).wf(),
            final(self)@ == old(self)@.apply(
                Op::Mint { caller: caller@, owner: owner@, token_uri: token_uri@ },
            ),
            match r {
                Ok(receipt) => {
                    &&& old(self)@.mint_error(caller@, owner@) is None
                    &&& final(self)@ == old(self)@.after_mint(owner@, token_uri@)
                    &&& receipt@ == old(self)@.mint_receipt(owner@)
                },
                Err(e) => {
                    &&& old(self)@.mint_error(caller@, owner@) == Some(e)
                    &&& final(self)@ == old(self)@
                },
            },
    {
        if !caller.same(&owner) {
            return Err(Error::NotAuthorized);
        }
        let token_id = match self.tokens_count.checked_add(1) {
            Some(id) => id,
            None => {
                return Err(Error::MaxTokensReached);
            },
        };
        if token_id > MAX_TOKENS {
            return Err(Error::MaxTokensReached);
        }
        let payment = match &self.info {
            None => {
                return Err(Error::NotInitialized);
            },
            Some(info) => {
                if token_id > FREE_MINT_LIMIT {
                    let required_amount = MINT_COST * UNIT_SCALE;
                    Some(
                        Payment {
                            asset: info.payment_token.clone(),
                            from: owner.clone(),
                            to: info.creator.clone(),
                            amount: required_amount,
                        },
                    )
                } else {
                    None
                }
            },
        };
        let token = TokenInfo { owner: owner.clone(), approvals: Vec::new(), token_uri };
        proof {
            assert(crate::types::ids_view(token.approvals@) =~= Seq::empty());
        }
        self.set_token_info(token_id, token);
        self.change_tokens_count(false);
        if self.max_token_id < token_id {
            self.max_token_id = token_id;
        }
        Ok(Receipt { payment, event: Event::Mint { owner, token_id } })
    }

    /// Stores `collection_info` as the configuration if every bounded field
    /// of it is within its bound.
    fn set_collection_info(&mut self, collection_info: CollectionInfo) -> (r: Result<(), Error>)
        ensures
            match r {
                Ok(_) => {
                    &&& collection_info@.valid()
                    &&& final(self)@ == (CollectionState {
                        info: Some(collection_info@),
                        ..old(self)@
                    })
                },
                Err(e) => {
                    &&& !collection_info@.valid()
                    &&& e == Error::InvalidCollectionInfo
                    &&& final(self)@ == old(self)@
                },
            },
    {
        if !collection_info.is_valid() {
            return Err(Error::InvalidCollectionInfo);
        }
        self.info = Some(collection_info);
        Ok(())
    }

    /// Whether the collection is initialized and `caller` is its admin;
    /// the rejection otherwise.
    fn check_admin(&self, caller: &Address) -> (r: Result<(), Error>)
        ensures
            match r {
                Ok(_) => self@.freeze_error(caller@) is None,
                Err(e) => self@.freeze_error(caller@) == Some(e),
            },
    {
        match &self.info {
            None => Err(Error::NotInitialized),
            Some(info) => {
                if caller.same(&info.admin) {
                    Ok(())
                } else {
                    Err(Error::NotAuthorized)
                }
            },
        }
    }

    /// Initializes the collection with `collection_info`, and locks the
    /// minter for good if `freeze_minter`.
    ///
    /// `caller` is the identity that the host authenticates; it has to
    /// be the creator named in `collection_info`.
    pub fn initialize(
        &mut self,
        caller: &Address,
        collection_info: CollectionInfo,
        freeze_minter: bool,
    ) -> (r: Result<Event, Error>)
        requires
            old(self).wf(),
        ensures
            final(self).wf(),
            final(self)@ == old(self)@.apply(
                Op::Initialize { caller: caller@, info: collection_info@, freeze_minter },
            ),
            match r {
                Ok(event) => {
                    &&& old(self)@.initialize_error(caller@, collection_info@) is None
                    &&& final(self)@ == old(self)@.after_initialize(
                        collection_info@,
                        freeze_minter,
                    )
                    &&& event@ == EventView::Initialized
                },
                Err(e) => {
                    &&& old(self)@.initialize_error(caller@, collection_info@) == Some(e)
                    &&& final(self)@ == old(self)@
                },
            },
    {
        if self.info.is_some() {
            return Err(Error::AlreadyInitialized);
        }
        if !caller.same(&collection_info.creator) {
            return Err(Error::NotAuthorized);
        }
        match self.set_collection_info(collection_info) {
            Err(e) => {
                return Err(e);
            },
            Ok(_) => {},
        }
        if freeze_minter {
            self.minter_frozen = true;
        }
        Ok(Event::Initialized)
    }

    /// A greeting to publish.
    pub fn hello(&self) -> (event: Event)
        ensures
            event@ == EventView::Hello,
    {
        Event::Hello
    }

    /// A greeting to publish.
    pub fn hello2(&self) -> (event: Event)
        ensures
            event@ == EventView::Hello,
    {
        Event::Hello
    }

    /// Hands token `token_id` from `from` to `to`.
    ///
    /// `from` has to own the token, and `caller`, the identity that the host
    /// authenticates, has to be `from`. The approvals of the token stay
    /// as they are.
    pub fn transfer(&mut self, caller: &Address, from: Address, to: Address, token_id: u32) -> (r:
        Result<Event, Error>)
        requires
            old(self).wf(),
        ensures
            final(self).wf(),
            final(self)@ == old(self)@.apply(
                Op::Transfer { caller: caller@, from: from@, to: to@, token_id },
            ),
            match r {
                Ok(event) => {
                    &&& old(self)@.transfer_error(caller@, from@, token_id) is None
                    &&& final(self)@ == old(self)@.after_transfer(to@, token_id)
                    &&& event@ == (EventView::Transfer { token_id, to: to@ })
                },
                Err(e) => {
                    &&& old(self)@.transfer_error(caller@, from@, token_id) == Some(e)
                    &&& final(self)@ == old(self)@
                },
            },
    {
        let token = match self.tokens.get(&token_id) {
            None => {
                return Err(Error::NotNFT);
            },
            Some(token) => {
                if !token.owner.same(&from) {
                    return Err(Error::NotAuthorized);
                }
                if !caller.same(&from) {
                    return Err(Error::NotAuthorized);
                }
                TokenInfo {
                    owner: to.clone(),
                    approvals: clone_ids(&token.approvals),
                    token_uri: token.token_uri.clone(),
                }
            },
        };
        self.set_token_info(token_id, token);
        Ok(Event::Transfer { token_id, to })
    }

    /// Freezes the collection for good: from now on its configuration, the
    /// metadata locations of its tokens and its code stay as they are.
    /// Minting and transfers go on.
    ///
    /// `caller` is the identity that the host authenticates; it has to
    /// be the admin.
    pub fn freeze_collection(&mut self, caller: &Address) -> (r: Result<Event, Error>)
        requires
            old(self).wf(),
        ensures
            final(self).wf(),
            final(self)@ == old(self)@.apply(Op::FreezeCollection { caller: caller@ }),
            match r {
                Ok(event) => {
                    &&& old(self)@.freeze_error(caller@) is None
                    &&& final(self)@ == old(self)@.after_freeze()
                    &&& event@ == EventView::Freeze
                },
                Err(e) => {
                    &&& old(self)@.freeze_error(caller@) == Some(e)
                    &&& final(self)@ == old(self)@
                },
            },
    {
        match self.check_admin(caller) {
            Err(e) => {
                return Err(e);
            },
            Ok(_) => {},
        }
        self.frozen = true;
        Ok(Event::Freeze)
    }

    /// Replaces the metadata location of token `token_id` by `token_uri`.
    ///
    /// `caller` is the identity that the host authenticates; it has to
    /// be the admin, not the owner of the token.
    pub fn update_token_url(&mut self, caller: &Address, token_id: u32, token_uri: String) -> (r:
        Result<Event, Error>)
        requires
            old(self).wf(),
        ensures
            final(self).wf(),
            final(self)@ == old(self)@.apply(
                Op::UpdateTokenUrl { caller: caller@, token_id, token_uri: token_uri@ },
            ),
            match r {
                Ok(event) => {
                    &&& old(self)@.update_token_url_error(caller@, token_id) is None
                    &&& final(self)@ == old(self)@.after_update_token_url(token_id, token_uri@)
                    &&& event@ == (EventView::TokenUpdated { token_id, token_uri: token_uri@ })
                },
                Err(e) => {
                    &&& old(self)@.update_token_url_error(caller@, token_id) == Some(e)
                    &&& final(self)@ == old(self)@
                },
            },
    {
        if self.frozen {
            return Err(Error::Frozen);
        }
        match self.check_admin(caller) {
            Err(e) => {
                return Err(e);
            },
            Ok(_) => {},
        }
        let token = match self.tokens.get(&token_id) {
            None => {
                return Err(Error::NotNFT);
            },
            Some(token) => TokenInfo {
                owner: token.owner.clone(),
                approvals: clone_ids(&token.approvals),
                token_uri: token_uri.clone(),
            },
        };
        self.set_token_info(token_id, token);
        Ok(Event::TokenUpdated { token_id, token_uri })
    }

    /// Replaces the configuration of the collection by `new_collection_info`.
    ///
    /// `caller` is the identity that the host authenticates; it has to
    /// be the admin. The creator cannot change, and the minter cannot once
    /// it is locked.
    pub fn update_collection_info(
        &mut self,
        caller: &Address,
        new_collection_info: CollectionInfo,
    ) -> (r: Result<Event, Error>)
        requires
            old(self).wf(),
        ensures
            final(self).wf(),
            final(self)@ == old(self)@.apply(
                Op::UpdateCollectionInfo { caller: caller@, new_info: new_collection_info@ },
            ),
            match r {
                Ok(event) => {
                    &&& old(self)@.update_collection_info_error(caller@, new_collection_info@)
                        is None
                    &&& final(self)@ == old(self)@.after_update_collection_info(
                        new_collection_info@,
                    )
                    &&& event@ == EventView::CollectionUpdated
                },
                Err(e) => {
                    &&& old(self)@.update_collection_info_error(caller@, new_collection_info@)
                        == Some(e)
                    &&& final(self)@ == old(self)@
                },
            },
    {
        if self.frozen {
            return Err(Error::Frozen);
        }
        match &self.info {
            None => {
                return Err(Error::NotInitialized);
            },
            Some(collection_info) => {
                if !caller.same(&collection_info.admin) {
                    return Err(Error::NotAuthorized);
                }
                if !collection_info.minter.same(&new_collection_info.minter) {
                    if self.minter_frozen {
                        return Err(Error::MinterFrozen);
                    }
                }
                if !collection_info.creator.same(&new_collection_info.creator) {
                    return Err(Error::InvalidCollectionInfo);
                }
            },
        }
        match self.set_collection_info(new_collection_info) {
            Err(e) => {
                return Err(e);
            },
            Ok(_) => {},
        }
        Ok(Event::CollectionUpdated)
    }

    /// Decides whether the code of the collection may be replaced by the
    /// code with the given hash; the replacement itself is the host's.
    ///
    /// `caller` is the identity that the host authenticates; it has to
    /// be the admin.
    pub fn upgrade(&self, caller: &Address, hash: [u8; 32]) -> (r: Result<Event, Error>)
        ensures
            match r {
                Ok(event) => {
                    &&& self@.admin_error(caller@) is None
                    &&& event@ == (EventView::Upgraded { hash: hash@ })
                },
                Err(e) => self@.admin_error(caller@) == Some(e),
            },
    {
        if self.frozen {
            return Err(Error::Frozen);
        }
        match self.check_admin(caller) {
            Err(e) => {
                return Err(e);
            },
            Ok(_) => {},
        }
        Ok(Event::Upgraded { hash })
    }

    /// Whether the collection is frozen.
    pub fn is_collection_frozen(&self) -> (frozen: bool)
        ensures
            frozen == self@.frozen,
    {
        self.frozen
    }

    /// Whether the minter is locked.
    pub fn is_minter_frozen(&self) -> (frozen: bool)
        ensures
            frozen == self@.minter_frozen,
    {
        self.minter_frozen
    }

    /// The configuration of the collection.
    pub fn get_collection_info(&self) -> (r: Result<CollectionInfo, Error>)
        ensures
            match r {
                Ok(info) => self@.info == Some(info@),
                Err(e) => self@.info is None && e == Error::NotInitialized,
            },
    {
        match &self.info {
            Some(info) => Ok(info.clone()),
            None => Err(Error::NotInitialized),
        }
    }

    /// The record of token `token_id`.
    pub fn get_token_info(&self, token_id: u32) -> (r: Result<TokenInfo, Error>)
        ensures
            match r {
                Ok(token) => self@.tokens.contains_key(token_id) && self@.tokens[token_id]
                    == token@,
                Err(e) => !self@.tokens.contains_key(token_id) && e == Error::NotNFT,
            },
    {
        match self.tokens.get(&token_id) {
            Some(token) => Ok(token.clone()),
            None => Err(Error::NotNFT),
        }
    }

    /// The largest token id assigned so far; 0 before the first mint.
    pub fn get_max_token_id(&self) -> (id: u32)
        ensures
            id == self@.max_token_id,
    {
        self.max_token_id
    }

    /// The number of tokens minted so far.
    pub fn get_tokens_count(&self) -> (count: u32)
        ensures
            count == self@.tokens_count,
    {
        self.tokens_count
    }

    /// The last id of the range that starts at `start_after` and spans
    /// `limit` further ids, cut at the largest id assigned.
    fn range_end(&self, start_after: u32, limit: u32) -> (end: u32)
        ensures
            end == self@.range_end(start_after, limit),
    {
        let reach: u64 = start_after as u64 + limit as u64;
        if reach > self.max_token_id as u64 {
            self.max_token_id
        } else {
            reach as u32
        }
    }

    /// The tokens with ids from `start_after` to `end`, highest id first,
    /// of `owner` if one is given.
    fn list_tokens(&self, owner: &Option<Address>, start_after: u32, end: u32) -> (output: Vec<
        (u32, String, Address),
    >)
        ensures
            entries_view(output@) == self@.listing(
                owner_view(*owner),
                start_after as int,
                end as int,
            ),
    {
        let mut output: Vec<(u32, String, Address)> = Vec::new();
        if end < start_after {
            assert(entries_view(output@) =~= Seq::empty());
            return output;
        }
        let ghost wanted = owner_view(*owner);
        let span: u64 = (end - start_after) as u64 + 1;
        let mut done: u64 = 0;
        assert(entries_view(output@) =~= Seq::empty());
        while done < span
            invariant
                start_after <= end,
                span == end - start_after + 1,
                done <= span,
                wanted == owner_view(*owner),
                entries_view(output@) == self@.listing(wanted, end - done + 1, end as int),
            decreases span - done,
        {
            let n: u32 = end - done as u32;
            let ghost listed_before = entries_view(output@);
            match self.tokens.get(&n) {
                Some(token) => {
                    let of_owner = match owner {
                        Some(o) => token.owner.same(o),
                        None => true,
                    };
                    if of_owner {
                        output.push((n, token.token_uri.clone(), token.owner.clone()));
                        assert(entries_view(output@) =~= listed_before.push(
                            self@.entry(n as int),
                        ));
                    }
                },
                None => {},
            }
            done += 1;
        }
        output
    }

    /// The tokens with ids from `start_after` to `start_after + limit`, or
    /// to the largest id assigned if that comes first: id, metadata location
    /// and owner of each that exists, highest id first.
    pub fn get_all_minted_tokens(&self, start_after: u32, limit: u32) -> (output: Vec<
        (u32, String, Address),
    >)
        ensures
            entries_view(output@) == self@.tokens_page(None, start_after, limit),
    {
        let end = self.range_end(start_after, limit);
        self.list_tokens(&None, start_after, end)
    }

    /// The tokens with ids from `start_after` to `start_after + limit`, or
    /// to the largest id assigned if that comes first: id, metadata location
    /// and owner of each that exists and, if `owner` is given, belongs to
    /// `owner`, highest id first.
    pub fn get_tokens(&self, owner: Option<Address>, start_after: u32, limit: u32) -> (output: Vec<
        (u32, String, Address),
    >)
        ensures
            entries_view(output@) == self@.tokens_page(owner_view(owner), start_after, limit),
    {
        let end = self.range_end(start_after, limit);
        self.list_tokens(&owner, start_after, end)
    }

    /// The ids of the tokens whose records are to be kept alive: with a
    /// positive `limit`, those that exist from `start_after` to
    /// `start_after + limit` or to the largest id assigned, lowest first;
    /// with `limit` zero, none. The record of the collection itself is to be
    /// kept alive whatever the arguments.
    pub fn extend_ttl_collection(&self, start_after: u32, limit: u32) -> (ids: Vec<u32>)
        ensures
            ids@ == self@.tokens_to_extend(start_after, limit),
    {
        let mut ids: Vec<u32> = Vec::new();
        if limit > 0 {
            let end = self.range_end(start_after, limit);
            if end < start_after {
                return ids;
            }
            let span: u64 = (end - start_after) as u64 + 1;
            let mut done: u64 = 0;
            while done < span
                invariant
                    start_after <= end,
                    span == end - start_after + 1,
                    done <= span,
                    ids@ == self@.existing(start_after as int, start_after + done - 1),
                decreases span - done,
            {
                let n: u32 = start_after + done as u32;
                if self.tokens.contains_key(&n) {
                    ids.push(n);
                }
                done += 1;
            }
        }
        ids
    }

    /// Whether the record of token `token_id` is to be kept alive: whether
    /// the token exists.
    pub fn extend_ttl_item(&self, token_id: u32) -> (exists: bool)
        ensures
            exists == self@.tokens.contains_key(token_id),
    {
        self.tokens.contains_key(&token_id)
    }

    /// The version of the collection's rules.
    pub fn version() -> (v: u32)
        ensures
            v == VERSION,
    {
        VERSION
    }
}

} // verus!
