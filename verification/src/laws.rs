//! What holds of every collection and of every sequence of calls.

use crate::model::{paid_count, price, CollectionState, Entry, Op};
use crate::types::{
    CollectionInfoView, Error, Id, FREE_MINT_LIMIT, MAX_TOKENS, MINT_COST, UNIT_SCALE,
};
use vstd::prelude::*;

verus! {

/// Every call keeps the invariant of the collection.
pub proof fn law_apply_keeps_wf(s: CollectionState, op: Op)
    requires
        s.wf(),
    ensures
        s.apply(op).wf(),
{
}

/// A collection that starts well-formed stays so, whatever is called.
pub proof fn law_run_keeps_wf(s: CollectionState, ops: Seq<Op>)
    requires
        s.wf(),
    ensures
        s.run(ops).wf(),
    decreases ops.len(),
{
    if ops.len() > 0 {
        law_run_keeps_wf(s, ops.drop_last());
        law_apply_keeps_wf(s.run(ops.drop_last()), ops.last());
    }
}

/// The collection before initialization is well-formed, so every collection
/// that calls can make of it is.
pub proof fn law_reachable_is_wf(ops: Seq<Op>)
    ensures
        CollectionState::empty().wf(),
        CollectionState::empty().run(ops).wf(),
{
    law_run_keeps_wf(CollectionState::empty(), ops);
}

/// A successful mint raises the count of tokens by exactly one, a successful
/// bulk mint by the number of tokens asked for, and afterwards the largest
/// id assigned is at least the count.
pub proof fn law_mint_counts(
    s: CollectionState,
    caller: Id,
    owner: Id,
    token_uri: Seq<char>,
    token_uris: Seq<Seq<char>>,
    owner_balance: int,
)
    requires
        s.wf(),
    ensures
        s.mint_error(caller, owner) is None ==> {
            &&& s.after_mint(owner, token_uri).tokens_count == s.tokens_count + 1
            &&& s.after_mint(owner, token_uri).max_token_id >= s.after_mint(
                owner,
                token_uri,
            ).tokens_count
        },
        s.bulk_mint_error(caller, owner, token_uris.len(), owner_balance) is None ==> {
            &&& s.after_bulk_mint(owner, token_uris).tokens_count == s.tokens_count
                + token_uris.len()
            &&& s.after_bulk_mint(owner, token_uris).max_token_id >= s.after_bulk_mint(
                owner,
                token_uris,
            ).tokens_count
        },
{
}

/// A mint is charged exactly when the id it assigns lies past the free-mint
/// threshold, and then one unit of the payment asset, from the owner to the
/// creator.
pub proof fn law_mint_payment(s: CollectionState, caller: Id, owner: Id)
    requires
        s.mint_error(caller, owner) is None,
    ensures
        s.mint_receipt(owner).payment is Some <==> s.next_id() > FREE_MINT_LIMIT,
        s.mint_receipt(owner).payment matches Some(p) ==> {
            &&& p.amount == MINT_COST * UNIT_SCALE
            &&& p.from == owner
            &&& p.to == s.info->0.creator
            &&& p.asset == s.info->0.payment_token
        },
{
}

/// A bulk mint is charged for the tokens whose ids lie past the free-mint
/// threshold, and for no others: one payment of their price, or none.
pub proof fn law_bulk_mint_payment(
    s: CollectionState,
    caller: Id,
    owner: Id,
    token_uris: Seq<Seq<char>>,
    owner_balance: int,
)
    requires
        s.bulk_mint_error(caller, owner, token_uris.len(), owner_balance) is None,
    ensures
        paid_count(s.tokens_count, token_uris.len()) == if s.tokens_count + token_uris.len()
            <= FREE_MINT_LIMIT {
            0
        } else if s.tokens_count >= FREE_MINT_LIMIT {
            token_uris.len() as int
        } else {
            s.tokens_count + token_uris.len() - FREE_MINT_LIMIT
        },
        s.bulk_mint_receipt(owner, token_uris).payment is Some <==> s.tokens_count
            + token_uris.len() > FREE_MINT_LIMIT && token_uris.len() > 0,
        s.bulk_mint_receipt(owner, token_uris).payment matches Some(p) ==> {
            &&& p.amount == price(paid_count(s.tokens_count, token_uris.len()))
            &&& p.amount <= owner_balance
            &&& p.from == owner
            &&& p.to == s.info->0.creator
        },
{
}

/// Once every id up to the cap is assigned, a mint by its authenticated
/// owner is rejected with `MaxTokensReached`, and so is a bulk mint that
/// would pass the cap, whatever the payer holds and whether or not the
/// collection is initialized.
pub proof fn law_cap(
    s: CollectionState,
    owner: Id,
    requested: nat,
    owner_balance: int,
)
    ensures
        s.tokens_count >= MAX_TOKENS ==> s.mint_error(owner, owner) == Some(
            Error::MaxTokensReached,
        ),
        s.tokens_count + requested > MAX_TOKENS ==> s.bulk_mint_error(
            owner,
            owner,
            requested,
            owner_balance,
        ) == Some(Error::MaxTokensReached),
{
}

/// No call makes the count of tokens pass the cap, and no token has an id
/// of 0 or past the largest id assigned.
pub proof fn law_supply(s: CollectionState, id: u32)
    requires
        s.wf(),
    ensures
        s.tokens_count <= MAX_TOKENS,
        id == 0 || id > s.max_token_id ==> !s.tokens.contains_key(id),
{
}

/// A transfer of an existing token from anyone but its owner is rejected
/// with `NotAuthorized`, whoever calls.
pub proof fn law_transfer_by_non_owner(s: CollectionState, caller: Id, from: Id, token_id: u32)
    requires
        s.tokens.contains_key(token_id),
        s.tokens[token_id].owner != from,
    ensures
        s.transfer_error(caller, from, token_id) == Some(Error::NotAuthorized),
{
}

/// A transfer by the authenticated owner of a token succeeds, and makes the
/// receiver its owner; the rest of the record and every other token stay.
pub proof fn law_transfer_by_owner(s: CollectionState, from: Id, to: Id, token_id: u32)
    requires
        s.tokens.contains_key(token_id),
        s.tokens[token_id].owner == from,
    ensures
        s.transfer_error(from, from, token_id) is None,
        s.after_transfer(to, token_id).tokens[token_id].owner == to,
        s.after_transfer(to, token_id).tokens[token_id].token_uri == s.tokens[token_id].token_uri,
        s.after_transfer(to, token_id).tokens[token_id].approvals
            == s.tokens[token_id].approvals,
        s.after_transfer(to, token_id).tokens.dom() == s.tokens.dom(),
        forall|other: u32|
            other != token_id && s.tokens.contains_key(other) ==> s.after_transfer(
                to,
                token_id,
            ).tokens[other] == s.tokens[other],
{
    assert(s.after_transfer(to, token_id).tokens.dom() =~= s.tokens.dom());
}

/// A frozen collection rejects every update of its configuration, every
/// update of a token's metadata location and every upgrade with `Frozen`,
/// whoever calls and whatever the arguments.
pub proof fn law_frozen_rejects(
    s: CollectionState,
    caller: Id,
    new_info: CollectionInfoView,
    token_id: u32,
)
    requires
        s.frozen,
    ensures
        s.update_collection_info_error(caller, new_info) == Some(Error::Frozen),
        s.update_token_url_error(caller, token_id) == Some(Error::Frozen),
        s.admin_error(caller) == Some(Error::Frozen),
{
}

/// Freezing does not touch minting or transfers: each is rejected in the
/// frozen collection exactly when it is in the unfrozen one, and does the
/// same to the tokens and the counters.
pub proof fn law_frozen_permits(
    s: CollectionState,
    caller: Id,
    owner: Id,
    to: Id,
    token_id: u32,
    token_uri: Seq<char>,
    token_uris: Seq<Seq<char>>,
    owner_balance: int,
)
    ensures
        s.after_freeze().frozen,
        s.after_freeze().mint_error(caller, owner) == s.mint_error(caller, owner),
        s.after_freeze().bulk_mint_error(caller, owner, token_uris.len(), owner_balance)
            == s.bulk_mint_error(caller, owner, token_uris.len(), owner_balance),
        s.after_freeze().transfer_error(caller, owner, token_id) == s.transfer_error(
            caller,
            owner,
            token_id,
        ),
        s.after_freeze().after_mint(owner, token_uri) == s.after_mint(
            owner,
            token_uri,
        ).after_freeze(),
        s.after_freeze().after_bulk_mint(owner, token_uris) == s.after_bulk_mint(
            owner,
            token_uris,
        ).after_freeze(),
        s.after_freeze().after_transfer(to, token_id) == s.after_transfer(
            to,
            token_id,
        ).after_freeze(),
{
    assert(s.after_freeze().after_bulk_mint(owner, token_uris).tokens =~= s.after_bulk_mint(
        owner,
        token_uris,
    ).after_freeze().tokens);
}

/// What a call cannot undo: a frozen collection stays frozen, a locked
/// minter stays locked and stays who it is, an initialized collection keeps
/// its creator, the count of tokens does not fall, and a token that exists
/// goes on existing.
pub proof fn law_apply_is_monotone(s: CollectionState, op: Op, id: u32)
    ensures
        s.frozen ==> s.apply(op).frozen,
        s.minter_frozen ==> s.apply(op).minter_frozen,
        s.info is Some ==> s.apply(op).info is Some && s.apply(op).info->0.creator
            == s.info->0.creator,
        s.info is Some && s.minter_frozen ==> s.apply(op).info->0.minter == s.info->0.minter,
        s.tokens_count <= s.apply(op).tokens_count,
        s.tokens.contains_key(id) ==> s.apply(op).tokens.contains_key(id),
{
}

/// The same of every sequence of calls.
pub proof fn law_run_is_monotone(s: CollectionState, ops: Seq<Op>, id: u32)
    ensures
        s.frozen ==> s.run(ops).frozen,
        s.minter_frozen ==> s.run(ops).minter_frozen,
        s.info is Some ==> s.run(ops).info is Some && s.run(ops).info->0.creator
            == s.info->0.creator,
        s.info is Some && s.minter_frozen ==> s.run(ops).info->0.minter == s.info->0.minter,
        s.tokens_count <= s.run(ops).tokens_count,
        s.tokens.contains_key(id) ==> s.run(ops).tokens.contains_key(id),
    decreases ops.len(),
{
    if ops.len() > 0 {
        law_run_is_monotone(s, ops.drop_last(), id);
        law_apply_is_monotone(s.run(ops.drop_last()), ops.last(), id);
    }
}

/// Once a collection is frozen, whatever is called afterwards, every later
/// update of its configuration, of a token's metadata location, and every
/// upgrade is rejected with `Frozen`.
pub proof fn law_freeze_is_final(
    s: CollectionState,
    ops: Seq<Op>,
    caller: Id,
    new_info: CollectionInfoView,
    token_id: u32,
)
    requires
        s.frozen,
    ensures
        s.run(ops).update_collection_info_error(caller, new_info) == Some(Error::Frozen),
        s.run(ops).update_token_url_error(caller, token_id) == Some(Error::Frozen),
        s.run(ops).admin_error(caller) == Some(Error::Frozen),
{
    law_run_is_monotone(s, ops, token_id);
}

/// An update of the configuration that names another creator never
/// succeeds. When the admin makes it on a collection that is not frozen, and
/// it does not also change a locked minter, it is rejected with
/// `InvalidCollectionInfo`.
pub proof fn law_creator_is_fixed(s: CollectionState, caller: Id, new_info: CollectionInfoView)
    requires
        s.info is Some,
        new_info.creator != s.info->0.creator,
    ensures
        s.update_collection_info_error(caller, new_info) is Some,
        s.admin_error(caller) is None && !(s.minter_frozen && new_info.minter
            != s.info->0.minter) ==> s.update_collection_info_error(caller, new_info) == Some(
            Error::InvalidCollectionInfo,
        ),
{
}

/// With the minter locked, an update of the configuration by the admin that
/// names another minter is rejected with `MinterFrozen`, frozen collection
/// or not.
pub proof fn law_minter_lock(s: CollectionState, caller: Id, new_info: CollectionInfoView)
    requires
        s.admin_error(caller) is None,
        s.minter_frozen,
        new_info.minter != s.info->0.minter,
    ensures
        !s.frozen,
        s.update_collection_info_error(caller, new_info) == Some(Error::MinterFrozen),
{
}

/// Every line of a listing is the line of a listed token of the range: the
/// token exists, has its id between the bounds, belongs to the owner asked
/// for, and the line gives its metadata location and owner as recorded.
pub proof fn law_listing_lines(s: CollectionState, owner: Option<Id>, lo: int, hi: int, i: int)
    requires
        0 <= i < s.listing(owner, lo, hi).len(),
    ensures
        lo <= s.listing(owner, lo, hi)[i].0 <= hi,
        s.listed(owner, s.listing(owner, lo, hi)[i].0 as int),
        s.listing(owner, lo, hi)[i] == s.entry(s.listing(owner, lo, hi)[i].0 as int),
        owner matches Some(o) ==> s.listing(owner, lo, hi)[i].2 == o,
    decreases hi - lo + 1,
{
    if lo <= hi {
        if i < s.listing(owner, lo + 1, hi).len() {
            law_listing_lines(s, owner, lo + 1, hi, i);
        }
    }
}

/// A listing runs in strictly descending order of id.
pub proof fn law_listing_descends(
    s: CollectionState,
    owner: Option<Id>,
    lo: int,
    hi: int,
    i: int,
    j: int,
)
    requires
        0 <= i < j < s.listing(owner, lo, hi).len(),
    ensures
        s.listing(owner, lo, hi)[i].0 > s.listing(owner, lo, hi)[j].0,
    decreases hi - lo + 1,
{
    if lo <= hi {
        let rest = s.listing(owner, lo + 1, hi);
        if j < rest.len() {
            law_listing_descends(s, owner, lo + 1, hi, i, j);
        } else {
            law_listing_lines(s, owner, lo + 1, hi, i);
        }
    }
}

/// A listing leaves out no listed token of the range.
pub proof fn law_listing_is_complete(
    s: CollectionState,
    owner: Option<Id>,
    lo: int,
    hi: int,
    id: int,
)
    requires
        lo <= id <= hi,
        s.listed(owner, id),
    ensures
        s.listing(owner, lo, hi).contains(s.entry(id)),
    decreases hi - lo + 1,
{
    let all = s.listing(owner, lo, hi);
    if id == lo {
        assert(all[all.len() - 1] == s.entry(id));
    } else {
        law_listing_is_complete(s, owner, lo + 1, hi, id);
        let rest = s.listing(owner, lo + 1, hi);
        let k = choose|k: int| 0 <= k < rest.len() && rest[k] == s.entry(id);
        assert(all[k] == s.entry(id));
    }
}

/// The listing of one owner's tokens is the listing of all tokens of the
/// same range with the lines of other owners taken out: the same lines in
/// the same order.
pub proof fn law_listing_of_owner(s: CollectionState, owner: Id, lo: int, hi: int)
    ensures
        s.listing(Some(owner), lo, hi) == s.listing(None, lo, hi).filter(
            |line: Entry| line.2 == owner,
        ),
    decreases hi - lo + 1,
{
    reveal(Seq::filter);
    let of_owner = |line: Entry| line.2 == owner;
    if lo <= hi {
        law_listing_of_owner(s, owner, lo + 1, hi);
        let rest = s.listing(None, lo + 1, hi);
        if s.listed(None, lo) {
            assert(rest.push(s.entry(lo)).drop_last() =~= rest);
        }
    }
}

/// The tokens whose records `extend_ttl_collection` keeps alive are the
/// tokens that exist in the range, each once, lowest id first.
pub proof fn law_existing(s: CollectionState, lo: int, hi: int, i: int, j: int, id: int)
    ensures
        0 <= i < s.existing(lo, hi).len() ==> lo <= s.existing(lo, hi)[i] <= hi
            && s.tokens.contains_key(s.existing(lo, hi)[i]),
        0 <= i < j < s.existing(lo, hi).len() ==> s.existing(lo, hi)[i] < s.existing(lo, hi)[j],
        lo <= id <= hi && s.listed(None, id) ==> s.existing(lo, hi).contains(id as u32),
    decreases hi - lo + 1,
{
    if lo <= hi {
        law_existing(s, lo, hi - 1, i, j, id);
        let all = s.existing(lo, hi);
        let rest = s.existing(lo, hi - 1);
        if lo <= id <= hi && s.listed(None, id) {
            if id == hi {
                assert(all[all.len() - 1] == id as u32);
            } else {
                let k = choose|k: int| 0 <= k < rest.len() && rest[k] == id as u32;
                assert(all[k] == id as u32);
            }
        }
    }
}

/// Every line of what `get_tokens` returns for an owner is a token that
/// this owner holds now, and a line of what `get_all_minted_tokens` returns
/// for the same range.
pub proof fn law_tokens_page_lines(
    s: CollectionState,
    owner: Id,
    start_after: u32,
    limit: u32,
    i: int,
)
    requires
        0 <= i < s.tokens_page(Some(owner), start_after, limit).len(),
    ensures
        s.tokens_page(Some(owner), start_after, limit)[i].2 == owner,
        s.tokens.contains_key(s.tokens_page(Some(owner), start_after, limit)[i].0),
        s.tokens[s.tokens_page(Some(owner), start_after, limit)[i].0].owner == owner,
        s.tokens_page(None, start_after, limit).contains(
            s.tokens_page(Some(owner), start_after, limit)[i],
        ),
{
    let lo = start_after as int;
    let hi = s.range_end(start_after, limit);
    law_listing_lines(s, Some(owner), lo, hi, i);
    law_listing_is_complete(s, None, lo, hi, s.listing(Some(owner), lo, hi)[i].0 as int);
}

/// What `get_tokens` and `get_all_minted_tokens` return runs in strictly
/// descending order of id.
pub proof fn law_tokens_page_descends(
    s: CollectionState,
    owner: Option<Id>,
    start_after: u32,
    limit: u32,
    i: int,
    j: int,
)
    requires
        0 <= i < j < s.tokens_page(owner, start_after, limit).len(),
    ensures
        s.tokens_page(owner, start_after, limit)[i].0 > s.tokens_page(
            owner,
            start_after,
            limit,
        )[j].0,
{
    law_listing_descends(
        s,
        owner,
        start_after as int,
        s.range_end(start_after, limit),
        i,
        j,
    );
}

/// What `get_tokens` returns for an owner is what `get_all_minted_tokens`
/// returns for the same range without the tokens of others.
pub proof fn law_tokens_page_of_owner(s: CollectionState, owner: Id, start_after: u32, limit: u32)
    ensures
        s.tokens_page(Some(owner), start_after, limit) == s.tokens_page(
            None,
            start_after,
            limit,
        ).filter(|line: Entry| line.2 == owner),
{
    law_listing_of_owner(s, owner, start_after as int, s.range_end(start_after, limit));
}

} // verus!
