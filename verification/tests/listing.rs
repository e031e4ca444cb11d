use stellar_logos::{Address, CollectionInfo, StellarLogos, TokenInfo};

fn id(key: &str) -> Address {
    Address::new(key.to_string())
}

fn info() -> CollectionInfo {
    CollectionInfo {
        creator: id("creator"),
        admin: id("admin"),
        minter: id("minter"),
        payment_token: id("asset"),
        name: None,
        description: None,
        external_link: None,
        royalty_info: None,
    }
}

fn line(n: u32, owner: &str) -> (u32, String, Address) {
    (n, format!("uri-{}", n), id(owner))
}

fn record(n: u32, owner: &str) -> (u32, TokenInfo) {
    (n, TokenInfo { owner: id(owner), approvals: vec![], token_uri: format!("uri-{}", n) })
}

/// Tokens 1 to 6; alice holds the odd ones, bob the even ones.
fn six_tokens() -> StellarLogos {
    let mut c = StellarLogos::new();
    c.initialize(&id("creator"), info(), false).unwrap();
    for n in 1..=6u32 {
        let owner = if n % 2 == 1 { "alice" } else { "bob" };
        c.mint(&id(owner), id(owner), format!("uri-{}", n)).unwrap();
    }
    c
}

#[test]
fn all_tokens_are_listed_highest_id_first() {
    let c = six_tokens();
    assert_eq!(
        c.get_all_minted_tokens(0, 100),
        vec![
            line(6, "bob"),
            line(5, "alice"),
            line(4, "bob"),
            line(3, "alice"),
            line(2, "bob"),
            line(1, "alice")
        ]
    );
    assert_eq!(c.get_tokens(None, 0, 100), c.get_all_minted_tokens(0, 100));
}

#[test]
fn range_starts_at_start_after_and_spans_limit_further_ids() {
    let c = six_tokens();
    assert_eq!(
        c.get_all_minted_tokens(2, 2),
        vec![line(4, "bob"), line(3, "alice"), line(2, "bob")]
    );
    assert_eq!(c.get_all_minted_tokens(0, 2), vec![line(2, "bob"), line(1, "alice")]);
    assert_eq!(c.get_all_minted_tokens(5, 100), vec![line(6, "bob"), line(5, "alice")]);
}

#[test]
fn limit_zero_lists_the_token_at_start_after() {
    let c = six_tokens();
    assert_eq!(c.get_all_minted_tokens(3, 0), vec![line(3, "alice")]);
    assert_eq!(c.get_all_minted_tokens(0, 0), vec![]);
    assert_eq!(c.get_tokens(Some(id("bob")), 3, 0), vec![]);
}

#[test]
fn range_past_the_largest_id_is_empty() {
    let c = six_tokens();
    assert_eq!(c.get_all_minted_tokens(7, 10), vec![]);
    assert_eq!(c.get_all_minted_tokens(u32::MAX, u32::MAX), vec![]);
    assert_eq!(StellarLogos::new().get_all_minted_tokens(0, 10), vec![]);
}

#[test]
fn large_limit_is_cut_at_the_largest_id() {
    let c = six_tokens();
    assert_eq!(c.get_all_minted_tokens(1, u32::MAX).len(), 6);
    assert_eq!(c.get_all_minted_tokens(6, u32::MAX), vec![line(6, "bob")]);
}

#[test]
fn tokens_of_an_owner_are_listed_highest_id_first() {
    let c = six_tokens();
    assert_eq!(
        c.get_tokens(Some(id("alice")), 0, 100),
        vec![line(5, "alice"), line(3, "alice"), line(1, "alice")]
    );
    assert_eq!(c.get_tokens(Some(id("bob")), 0, 3), vec![line(2, "bob")]);
    assert_eq!(c.get_tokens(Some(id("carol")), 0, 100), vec![]);
}

#[test]
fn tokens_of_an_owner_are_among_all_tokens_of_the_range() {
    let c = six_tokens();
    for limit in 0..8u32 {
        let all = c.get_all_minted_tokens(0, limit);
        let mine = c.get_tokens(Some(id("alice")), 0, limit);
        let kept: Vec<(u32, String, Address)> =
            all.into_iter().filter(|l| l.2 == id("alice")).collect();
        assert_eq!(mine, kept);
        for pair in mine.windows(2) {
            assert!(pair[0].0 > pair[1].0);
        }
    }
}

#[test]
fn listing_follows_a_transfer() {
    let mut c = six_tokens();
    c.transfer(&id("bob"), id("bob"), id("alice"), 4).unwrap();
    assert_eq!(
        c.get_tokens(Some(id("alice")), 0, 100),
        vec![line(5, "alice"), line(4, "alice"), line(3, "alice"), line(1, "alice")]
    );
    assert_eq!(c.get_tokens(Some(id("bob")), 0, 100), vec![line(6, "bob"), line(2, "bob")]);
}

#[test]
fn listing_skips_ids_without_a_record() {
    let c = StellarLogos::restore(
        Some(info()),
        false,
        false,
        6,
        6,
        vec![record(2, "alice"), record(5, "bob"), record(6, "alice")],
    )
    .unwrap();
    assert_eq!(
        c.get_all_minted_tokens(0, 10),
        vec![line(6, "alice"), line(5, "bob"), line(2, "alice")]
    );
    assert_eq!(c.get_tokens(Some(id("alice")), 3, 10), vec![line(6, "alice")]);
    assert_eq!(c.extend_ttl_collection(0, 10), vec![2, 5, 6]);
}

#[test]
fn extend_ttl_collection_names_the_existing_tokens_lowest_first() {
    let c = six_tokens();
    assert_eq!(c.extend_ttl_collection(0, 100), vec![1, 2, 3, 4, 5, 6]);
    assert_eq!(c.extend_ttl_collection(2, 2), vec![2, 3, 4]);
    assert_eq!(c.extend_ttl_collection(6, 1), vec![6]);
    assert_eq!(c.extend_ttl_collection(7, 5), Vec::<u32>::new());
}

#[test]
fn extend_ttl_collection_with_limit_zero_names_no_token() {
    let c = six_tokens();
    assert_eq!(c.extend_ttl_collection(3, 0), Vec::<u32>::new());
    assert_eq!(c.extend_ttl_collection(0, 0), Vec::<u32>::new());
}

#[test]
fn extend_ttl_item_tells_whether_the_token_exists() {
    let c = six_tokens();
    assert!(c.extend_ttl_item(1));
    assert!(c.extend_ttl_item(6));
    assert!(!c.extend_ttl_item(0));
    assert!(!c.extend_ttl_item(7));
}

#[test]
fn restore_rebuilds_a_collection_from_its_parts() {
    let c = StellarLogos::restore(
        Some(info()),
        true,
        true,
        3,
        4,
        vec![record(1, "alice"), record(3, "bob")],
    )
    .unwrap();
    assert_eq!(c.get_collection_info(), Ok(info()));
    assert!(c.is_minter_frozen());
    assert!(c.is_collection_frozen());
    assert_eq!(c.get_tokens_count(), 3);
    assert_eq!(c.get_max_token_id(), 4);
    assert_eq!(c.get_token_info(1).unwrap().owner, id("alice"));
    assert_eq!(c.get_token_info(3).unwrap().owner, id("bob"));
    assert!(c.get_token_info(2).is_err());
}

#[test]
fn restore_takes_the_later_of_two_records_of_one_token() {
    let c = StellarLogos::restore(
        Some(info()),
        false,
        false,
        1,
        1,
        vec![record(1, "alice"), record(1, "bob")],
    )
    .unwrap();
    assert_eq!(c.get_token_info(1).unwrap().owner, id("bob"));
}

#[test]
fn restore_refuses_parts_that_make_no_collection() {
    // The count passes the largest id.
    assert!(StellarLogos::restore(Some(info()), false, false, 2, 1, vec![]).is_none());
    // The largest id passes the cap.
    assert!(StellarLogos::restore(Some(info()), false, false, 0, 10001, vec![]).is_none());
    // Tokens, or a flag, without a configuration.
    assert!(StellarLogos::restore(None, false, false, 1, 1, vec![]).is_none());
    assert!(StellarLogos::restore(None, true, false, 0, 0, vec![]).is_none());
    assert!(StellarLogos::restore(None, false, true, 0, 0, vec![]).is_none());
    // A configuration out of bounds.
    let mut bad = info();
    bad.external_link = Some("l".repeat(101));
    assert!(StellarLogos::restore(Some(bad), false, false, 0, 0, vec![]).is_none());
    // A record with id 0, or past the count.
    assert!(StellarLogos::restore(Some(info()), false, false, 1, 1, vec![record(0, "a")])
        .is_none());
    assert!(StellarLogos::restore(Some(info()), false, false, 1, 2, vec![record(2, "a")])
        .is_none());
    // Nothing at all is the collection before initialization.
    assert!(StellarLogos::restore(None, false, false, 0, 0, vec![]).is_some());
}
