use stellar_logos::contract::paid_tokens_count;
use stellar_logos::{
    Address, CollectionInfo, Error, Event, Payment, Receipt, StellarLogos, TokenInfo,
};

const UNIT: i128 = 10_000_000;

fn id(key: &str) -> Address {
    Address::new(key.to_string())
}

fn info() -> CollectionInfo {
    CollectionInfo {
        creator: id("creator"),
        admin: id("admin"),
        minter: id("minter"),
        payment_token: id("asset"),
        name: None,
        description: None,
        external_link: None,
        royalty_info: None,
    }
}

fn uris(first: u32, count: u32) -> Vec<String> {
    (first..first + count).map(|n| format!("uri-{}", n)).collect()
}

/// An initialized collection in which `owner` has minted `count` tokens.
fn with_tokens(owner: &str, count: u32) -> StellarLogos {
    let mut c = StellarLogos::new();
    c.initialize(&id("creator"), info(), false).unwrap();
    if count > 0 {
        c.bulk_mint(&id(owner), id(owner), uris(1, count), i128::MAX).unwrap();
    }
    c
}

fn charge(from: &str, amount: i128) -> Option<Payment> {
    Some(Payment { asset: id("asset"), from: id(from), to: id("creator"), amount })
}

#[test]
fn first_mint_assigns_id_one_free_of_charge() {
    let mut c = with_tokens("alice", 0);
    assert_eq!(
        c.mint(&id("alice"), id("alice"), "uri-1".to_string()),
        Ok(Receipt { payment: None, event: Event::Mint { owner: id("alice"), token_id: 1 } })
    );
    assert_eq!(c.get_tokens_count(), 1);
    assert_eq!(c.get_max_token_id(), 1);
    assert_eq!(
        c.get_token_info(1),
        Ok(TokenInfo { owner: id("alice"), approvals: vec![], token_uri: "uri-1".to_string() })
    );
}

#[test]
fn each_mint_raises_the_count_by_one() {
    let mut c = with_tokens("alice", 0);
    for expected in 1..=20u32 {
        let receipt = c.mint(&id("bob"), id("bob"), format!("uri-{}", expected)).unwrap();
        assert_eq!(receipt.event, Event::Mint { owner: id("bob"), token_id: expected });
        assert_eq!(c.get_tokens_count(), expected);
        assert!(c.get_max_token_id() >= c.get_tokens_count());
    }
}

#[test]
fn mint_before_initialization_is_rejected() {
    let mut c = StellarLogos::new();
    assert_eq!(
        c.mint(&id("alice"), id("alice"), "uri".to_string()),
        Err(Error::NotInitialized)
    );
    assert_eq!(c.get_tokens_count(), 0);
    assert_eq!(c.get_token_info(1), Err(Error::NotNFT));
}

#[test]
fn mint_for_another_than_the_caller_is_rejected() {
    let mut c = with_tokens("alice", 0);
    assert_eq!(c.mint(&id("mallory"), id("alice"), "uri".to_string()), Err(Error::NotAuthorized));
    assert_eq!(c.get_tokens_count(), 0);
}

#[test]
fn thousandth_mint_is_free() {
    let mut c = with_tokens("alice", 999);
    let receipt = c.mint(&id("bob"), id("bob"), "uri-1000".to_string()).unwrap();
    assert_eq!(receipt.payment, None);
    assert_eq!(receipt.event, Event::Mint { owner: id("bob"), token_id: 1000 });
}

#[test]
fn thousand_and_first_mint_is_paid() {
    let mut c = with_tokens("alice", 1000);
    let receipt = c.mint(&id("bob"), id("bob"), "uri-1001".to_string()).unwrap();
    assert_eq!(receipt.payment, charge("bob", UNIT));
    assert_eq!(receipt.event, Event::Mint { owner: id("bob"), token_id: 1001 });
    assert_eq!(c.get_token_info(1001).unwrap().owner, id("bob"));
}

#[test]
fn every_mint_past_the_threshold_is_paid() {
    let mut c = with_tokens("alice", 1000);
    for _ in 0..25 {
        let receipt = c.mint(&id("bob"), id("bob"), "uri".to_string()).unwrap();
        assert_eq!(receipt.payment, charge("bob", 10_000_000));
    }
    assert_eq!(c.get_tokens_count(), 1025);
}

#[test]
fn last_token_under_the_cap_can_be_minted() {
    let mut c = with_tokens("alice", 9999);
    let receipt = c.mint(&id("bob"), id("bob"), "last".to_string()).unwrap();
    assert_eq!(receipt.event, Event::Mint { owner: id("bob"), token_id: 10000 });
    assert_eq!(c.get_tokens_count(), 10000);
    assert_eq!(c.get_max_token_id(), 10000);
}

#[test]
fn mint_past_the_cap_is_rejected() {
    let mut c = with_tokens("alice", 10000);
    assert_eq!(
        c.mint(&id("bob"), id("bob"), "one too many".to_string()),
        Err(Error::MaxTokensReached)
    );
    assert_eq!(c.get_tokens_count(), 10000);
    assert_eq!(c.get_max_token_id(), 10000);
    assert_eq!(c.get_token_info(10001), Err(Error::NotNFT));
}

#[test]
fn cap_is_checked_before_initialization() {
    let full = StellarLogos::restore(Some(info()), false, false, 10000, 10000, vec![]).unwrap();
    let mut c = full;
    assert_eq!(c.bulk_mint(&id("a"), id("a"), uris(1, 1), 0), Err(Error::MaxTokensReached));
    let mut fresh = StellarLogos::new();
    assert_eq!(
        fresh.bulk_mint(&id("a"), id("a"), uris(1, 10001), i128::MAX),
        Err(Error::MaxTokensReached)
    );
    assert_eq!(fresh.bulk_mint(&id("a"), id("a"), uris(1, 10000), 0), Err(Error::NotInitialized));
}

#[test]
fn paid_tokens_count_counts_the_tokens_past_the_threshold() {
    assert_eq!(paid_tokens_count(0, 0), 0);
    assert_eq!(paid_tokens_count(0, 1000), 0);
    assert_eq!(paid_tokens_count(0, 1001), 1);
    assert_eq!(paid_tokens_count(500, 1500), 1000);
    assert_eq!(paid_tokens_count(999, 1), 0);
    assert_eq!(paid_tokens_count(999, 2), 1);
    assert_eq!(paid_tokens_count(1000, 1), 1);
    assert_eq!(paid_tokens_count(1000, 0), 0);
    assert_eq!(paid_tokens_count(4000, 6000), 6000);
}

#[test]
fn bulk_mint_of_1500_after_500_charges_1000_tokens_once() {
    let mut c = with_tokens("alice", 500);
    let batch = uris(501, 1500);
    let receipt = c.bulk_mint(&id("bob"), id("bob"), batch.clone(), 1000 * UNIT).unwrap();
    assert_eq!(receipt.payment, charge("bob", 1000 * UNIT));
    assert_eq!(receipt.payment.unwrap().amount, 10_000_000_000);
    let expected: Vec<(u32, String)> = (501..=2000u32).zip(batch).collect();
    assert_eq!(receipt.event, Event::BulkMint { owner: id("bob"), tokens: expected });
    assert_eq!(c.get_tokens_count(), 2000);
    assert_eq!(c.get_max_token_id(), 2000);
}

#[test]
fn bulk_mint_raises_the_count_by_the_number_of_tokens() {
    let mut c = with_tokens("alice", 7);
    c.bulk_mint(&id("bob"), id("bob"), uris(8, 5), 0).unwrap();
    assert_eq!(c.get_tokens_count(), 12);
    assert_eq!(c.get_max_token_id(), 12);
    for n in 8..=12u32 {
        assert_eq!(
            c.get_token_info(n),
            Ok(TokenInfo { owner: id("bob"), approvals: vec![], token_uri: format!("uri-{}", n) })
        );
    }
    assert_eq!(c.get_token_info(7).unwrap().owner, id("alice"));
    assert_eq!(c.get_token_info(13), Err(Error::NotNFT));
}

#[test]
fn bulk_mint_under_the_threshold_reads_no_balance() {
    let mut c = with_tokens("alice", 0);
    let receipt = c.bulk_mint(&id("bob"), id("bob"), uris(1, 1000), 0).unwrap();
    assert_eq!(receipt.payment, None);
    assert_eq!(c.get_tokens_count(), 1000);
}

#[test]
fn bulk_mint_of_nothing_changes_nothing() {
    let mut c = with_tokens("alice", 3);
    let receipt = c.bulk_mint(&id("bob"), id("bob"), vec![], 0).unwrap();
    assert_eq!(
        receipt,
        Receipt { payment: None, event: Event::BulkMint { owner: id("bob"), tokens: vec![] } }
    );
    assert_eq!(c.get_tokens_count(), 3);
    assert_eq!(c.get_max_token_id(), 3);
}

#[test]
fn bulk_mint_with_too_low_a_balance_mints_nothing() {
    let mut c = with_tokens("alice", 990);
    assert_eq!(
        c.bulk_mint(&id("bob"), id("bob"), uris(991, 20), 10 * UNIT - 1),
        Err(Error::InsufficientBalance)
    );
    assert_eq!(c.get_tokens_count(), 990);
    assert_eq!(c.get_max_token_id(), 990);
    assert_eq!(c.get_token_info(991), Err(Error::NotNFT));
    // The exact price is enough.
    let receipt = c.bulk_mint(&id("bob"), id("bob"), uris(991, 20), 10 * UNIT).unwrap();
    assert_eq!(receipt.payment, charge("bob", 10 * UNIT));
    assert_eq!(c.get_tokens_count(), 1010);
}

#[test]
fn bulk_mint_past_the_cap_mints_nothing() {
    let mut c = with_tokens("alice", 9990);
    assert_eq!(
        c.bulk_mint(&id("bob"), id("bob"), uris(9991, 11), i128::MAX),
        Err(Error::MaxTokensReached)
    );
    assert_eq!(c.get_tokens_count(), 9990);
    assert_eq!(c.get_token_info(9991), Err(Error::NotNFT));
    // Exactly up to the cap is accepted.
    c.bulk_mint(&id("bob"), id("bob"), uris(9991, 10), i128::MAX).unwrap();
    assert_eq!(c.get_tokens_count(), 10000);
}

#[test]
fn bulk_mint_for_another_than_the_caller_is_rejected() {
    let mut c = with_tokens("alice", 0);
    assert_eq!(
        c.bulk_mint(&id("mallory"), id("alice"), uris(1, 2), i128::MAX),
        Err(Error::NotAuthorized)
    );
    assert_eq!(c.get_tokens_count(), 0);
}

#[test]
fn transfer_by_the_owner_changes_the_owner() {
    let mut c = with_tokens("alice", 3);
    assert_eq!(
        c.transfer(&id("alice"), id("alice"), id("bob"), 2),
        Ok(Event::Transfer { token_id: 2, to: id("bob") })
    );
    assert_eq!(
        c.get_token_info(2),
        Ok(TokenInfo { owner: id("bob"), approvals: vec![], token_uri: "uri-2".to_string() })
    );
    assert_eq!(c.get_token_info(1).unwrap().owner, id("alice"));
    assert_eq!(c.get_token_info(3).unwrap().owner, id("alice"));
    assert_eq!(c.get_tokens_count(), 3);
}

#[test]
fn transfer_from_a_non_owner_is_rejected() {
    let mut c = with_tokens("alice", 1);
    assert_eq!(c.transfer(&id("bob"), id("bob"), id("bob"), 1), Err(Error::NotAuthorized));
    assert_eq!(c.get_token_info(1).unwrap().owner, id("alice"));
}

#[test]
fn transfer_needs_the_owner_to_be_the_caller() {
    let mut c = with_tokens("alice", 1);
    assert_eq!(c.transfer(&id("bob"), id("alice"), id("bob"), 1), Err(Error::NotAuthorized));
    // The receiver's authentication is of no use either.
    assert_eq!(c.transfer(&id("carol"), id("alice"), id("carol"), 1), Err(Error::NotAuthorized));
    assert_eq!(c.get_token_info(1).unwrap().owner, id("alice"));
}

#[test]
fn transfer_of_a_missing_token_is_rejected() {
    let mut c = with_tokens("alice", 1);
    assert_eq!(c.transfer(&id("alice"), id("alice"), id("bob"), 2), Err(Error::NotNFT));
    assert_eq!(c.transfer(&id("alice"), id("alice"), id("bob"), 0), Err(Error::NotNFT));
}

#[test]
fn former_owner_cannot_transfer_again() {
    let mut c = with_tokens("alice", 1);
    c.transfer(&id("alice"), id("alice"), id("bob"), 1).unwrap();
    assert_eq!(c.transfer(&id("alice"), id("alice"), id("carol"), 1), Err(Error::NotAuthorized));
    assert_eq!(
        c.transfer(&id("bob"), id("bob"), id("carol"), 1),
        Ok(Event::Transfer { token_id: 1, to: id("carol") })
    );
}

#[test]
fn transfer_keeps_the_approvals_of_the_token() {
    let record = TokenInfo {
        owner: id("alice"),
        approvals: vec![id("broker"), id("agent")],
        token_uri: "uri-1".to_string(),
    };
    let mut c =
        StellarLogos::restore(Some(info()), false, false, 1, 1, vec![(1, record)]).unwrap();
    c.transfer(&id("alice"), id("alice"), id("bob"), 1).unwrap();
    assert_eq!(
        c.get_token_info(1),
        Ok(TokenInfo {
            owner: id("bob"),
            approvals: vec![id("broker"), id("agent")],
            token_uri: "uri-1".to_string(),
        })
    );
}

#[test]
fn unminted_ids_are_not_tokens() {
    let c = with_tokens("alice", 5);
    assert_eq!(c.get_token_info(0), Err(Error::NotNFT));
    assert_eq!(c.get_token_info(6), Err(Error::NotNFT));
    assert_eq!(c.get_token_info(c.get_max_token_id() + 1), Err(Error::NotNFT));
    assert_eq!(c.get_token_info(u32::MAX), Err(Error::NotNFT));
    assert!(c.get_token_info(5).is_ok());
}

#[test]
fn copy_taken_before_a_mint_stands_when_the_payment_fails() {
    let mut c = with_tokens("alice", 1000);
    let before = c.clone();
    let receipt = c.mint(&id("bob"), id("bob"), "uri-1001".to_string()).unwrap();
    assert!(receipt.payment.is_some());
    // The host could not settle the payment: it goes on with the copy.
    let mut c = before;
    assert_eq!(c.get_tokens_count(), 1000);
    assert_eq!(c.get_max_token_id(), 1000);
    assert_eq!(c.get_token_info(1001), Err(Error::NotNFT));
    assert_eq!(c.get_token_info(1000).unwrap().owner, id("alice"));
    let again = c.mint(&id("carol"), id("carol"), "uri-1001".to_string()).unwrap();
    assert_eq!(again.event, Event::Mint { owner: id("carol"), token_id: 1001 });
}
