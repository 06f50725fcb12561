//! Admin surface: lifecycle transitions, withdrawal, configuration
//! replacement, whitelist edits, migration, and the query surface.

use whitelist_minter::contract::{instantiate, migrate};
use whitelist_minter::decimal::{u128_to_dec, u64_to_dec};
use whitelist_minter::error::ContractError;
use whitelist_minter::execute::{
    execute_enable_normal_whitelist, execute_enable_public_mint, execute_enable_reveal,
    execute_init, execute_mint, execute_private_whitelist_approve,
    execute_private_whitelist_remove, execute_public_whitelist_approve,
    execute_public_whitelist_remove, execute_update_config, execute_withdraw_funds,
};
use whitelist_minter::msg::{
    Coin, EnablePublicMintMsg, EnableRevealMsg, EnableWhitelistMintMsg, InitMsg, InstantiateMsg,
    MintMsg, QueryMsg, WhitelistApproveMsg, WhitelistRemoveMsg, WithdrawMsg,
};
use whitelist_minter::query::{
    Metadata, NftInfo, QueryAnswer, query, query_config, query_token_statuses,
    query_whitelist_member,
};
use whitelist_minter::response::Instruction;
use whitelist_minter::state::{Ledger, Phase, State};

const DENOM: &str = "aarch";
const NAME_PREFIX: &str = "Token #";

fn fresh_minter(owner: &str, artist: &str, members: Vec<String>) -> Ledger {
    let msg = InstantiateMsg {
        cw721: "nft_contract".to_string(),
        supply: 3333,
        public_whitelist_allowance: 5,
        public_whitelist_members: members.clone(),
        private_whitelist_allowance: 5,
        private_whitelist_members: members,
        reserved_recipient: artist.to_string(),
        price: 10000000000000000000,
        naming_prefix: NAME_PREFIX.to_string(),
    };
    let (ledger, _resp) = instantiate(&owner.to_string(), msg).unwrap();
    ledger
}

/// Instantiation followed by the configuration update that patches in
/// the real registry address.
#[test]
fn test_initialize() {
    let wlm_admin = "whitelist_minter_owner".to_string();
    let wlm_artist = "cw721_artist".to_string();
    let supply: u64 = 3333;
    let whitelist_allowance: u64 = 5;
    let msg = InstantiateMsg {
        cw721: "temp_value".to_string(),
        supply,
        public_whitelist_allowance: whitelist_allowance,
        public_whitelist_members: vec![wlm_admin.clone(), wlm_artist.clone()],
        private_whitelist_allowance: whitelist_allowance,
        private_whitelist_members: vec![wlm_admin.clone(), wlm_artist.clone()],
        reserved_recipient: wlm_artist.clone(),
        price: 10000000000000000000,
        naming_prefix: NAME_PREFIX.to_string(),
    };
    let (mut ledger, resp) = instantiate(&wlm_admin, msg).unwrap();
    assert_eq!(ledger.state.owner, wlm_admin);
    assert_eq!(ledger.state.phase, Phase::Disabled);
    assert_eq!(resp.attributes.len(), 4);
    assert_eq!(resp.attributes[3].key, "supply");
    assert_eq!(resp.attributes[3].value, "3333");

    // patch in the real registry address, then run the one-time setup
    let config_update = State {
        owner: wlm_admin.clone(),
        cw721: "contract1".to_string(),
        artist: wlm_artist.clone(),
        supply,
        phase: Phase::default(),
        private_whitelist_allowance: whitelist_allowance,
        public_whitelist_allowance: whitelist_allowance,
        price: 10000000000000000000,
        name_prefix: NAME_PREFIX.to_string(),
    };
    execute_update_config(&mut ledger, &wlm_admin, config_update).unwrap();
    assert_eq!(ledger.state.cw721, "contract1");
    execute_init(&mut ledger, &wlm_admin, InitMsg {}).unwrap();
    assert_eq!(ledger.state.phase, Phase::PrivateWhitelist);
}

/// A duplicate address in an initial member list is rejected.
#[test]
fn test_instantiate_duplicate_member() {
    let msg = InstantiateMsg {
        cw721: "nft_contract".to_string(),
        supply: 10,
        public_whitelist_allowance: 1,
        public_whitelist_members: vec!["dup".to_string(), "dup".to_string()],
        private_whitelist_allowance: 1,
        private_whitelist_members: vec![],
        reserved_recipient: "artist".to_string(),
        price: 0,
        naming_prefix: NAME_PREFIX.to_string(),
    };
    let err = instantiate(&"owner".to_string(), msg).unwrap_err();
    assert_eq!(err, ContractError::InvalidInput {});
}

/// The lifecycle is strictly forward and idempotent-failing, and every
/// transition by a non-owner fails `Unauthorized`.
#[test]
fn test_phase_lifecycle() {
    let owner = "owner".to_string();
    let stranger = "stranger".to_string();
    let mut ledger = fresh_minter(&owner, "artist", vec![]);

    // nothing can be enabled while the contract is disabled
    let err = execute_enable_public_mint(&mut ledger, &owner, EnablePublicMintMsg {}).unwrap_err();
    assert_eq!(err, ContractError::Unauthorized {});

    // double setup is rejected
    execute_init(&mut ledger, &owner, InitMsg {}).unwrap();
    let err = execute_init(&mut ledger, &owner, InitMsg {}).unwrap_err();
    assert_eq!(err, ContractError::Initialized {});

    // non-owner transitions always fail Unauthorized
    let err = execute_enable_normal_whitelist(&mut ledger, &stranger, EnableWhitelistMintMsg {})
        .unwrap_err();
    assert_eq!(err, ContractError::Unauthorized {});
    let err = execute_enable_public_mint(&mut ledger, &stranger, EnablePublicMintMsg {})
        .unwrap_err();
    assert_eq!(err, ContractError::Unauthorized {});
    let err = execute_enable_reveal(&mut ledger, &stranger, EnableRevealMsg {}).unwrap_err();
    assert_eq!(err, ContractError::Unauthorized {});

    // forward transitions succeed once and fail when repeated
    execute_enable_normal_whitelist(&mut ledger, &owner, EnableWhitelistMintMsg {}).unwrap();
    assert_eq!(ledger.state.phase, Phase::NormalWhitelist);
    let err = execute_enable_normal_whitelist(&mut ledger, &owner, EnableWhitelistMintMsg {})
        .unwrap_err();
    assert_eq!(err, ContractError::PublicWhitelistMintEnabled {});

    execute_enable_public_mint(&mut ledger, &owner, EnablePublicMintMsg {}).unwrap();
    assert_eq!(ledger.state.phase, Phase::Public);
    let err = execute_enable_public_mint(&mut ledger, &owner, EnablePublicMintMsg {}).unwrap_err();
    assert_eq!(err, ContractError::PublicMintEnabled {});

    // no going back to the whitelist phase from the public phase
    let err = execute_enable_normal_whitelist(&mut ledger, &owner, EnableWhitelistMintMsg {})
        .unwrap_err();
    assert_eq!(err, ContractError::PublicWhitelistMintEnabled {});
    assert_eq!(ledger.state.phase, Phase::Public);

    execute_enable_reveal(&mut ledger, &owner, EnableRevealMsg {}).unwrap();
    assert_eq!(ledger.state.phase, Phase::Reveal);
    let err = execute_enable_reveal(&mut ledger, &owner, EnableRevealMsg {}).unwrap_err();
    assert_eq!(err, ContractError::RevealEnabled {});
}

/// Withdrawal: rejected for anyone but the artist; the artist gets a
/// transfer instruction over exactly the requested amount.
#[test]
fn test_withdraw() {
    let owner = "owner".to_string();
    let artist = "artist".to_string();
    let ledger = fresh_minter(&owner, &artist, vec![]);

    let err = execute_withdraw_funds(&ledger, &owner, WithdrawMsg { amount: 777 }).unwrap_err();
    assert_eq!(err, ContractError::Unauthorized {});

    let resp = execute_withdraw_funds(&ledger, &artist, WithdrawMsg { amount: 777 }).unwrap();
    assert_eq!(resp.messages.len(), 1);
    match &resp.messages[0] {
        Instruction::SendFunds { to_address, amount } => {
            assert_eq!(to_address, &artist);
            assert_eq!(amount, &Coin { denom: DENOM.to_string(), amount: 777 });
        },
        other => panic!("unexpected instruction: {:?}", other),
    }
    assert_eq!(resp.attributes[1].key, "amount");
    assert_eq!(resp.attributes[1].value, "777");
}

/// The configuration replace is owner-only and verbatim.
#[test]
fn test_update_config() {
    let owner = "owner".to_string();
    let mut ledger = fresh_minter(&owner, "artist", vec![]);
    let new_config = State {
        owner: "new_owner".to_string(),
        cw721: "other_registry".to_string(),
        artist: "new_artist".to_string(),
        supply: 42,
        phase: Phase::Public,
        private_whitelist_allowance: 1,
        public_whitelist_allowance: 2,
        price: 3,
        name_prefix: "N".to_string(),
    };
    let err = execute_update_config(&mut ledger, &"stranger".to_string(), new_config.clone())
        .unwrap_err();
    assert_eq!(err, ContractError::Unauthorized {});
    execute_update_config(&mut ledger, &owner, new_config.clone()).unwrap();
    assert_eq!(ledger.state, new_config);
}

/// Whitelist approve and remove on both tracks: owner-only, approval is
/// an idempotent upsert, removal deletes the record, and a removed
/// member's counter history survives re-approval.
#[test]
fn test_whitelist_edits() {
    let owner = "owner".to_string();
    let member = "member".to_string();
    let mut ledger = fresh_minter(&owner, "artist", vec![]);
    execute_init(&mut ledger, &owner, InitMsg {}).unwrap();

    let approve = WhitelistApproveMsg { whitelist_members: vec![member.clone()] };
    let remove = WhitelistRemoveMsg { whitelist_members: vec![member.clone()] };

    // owner-only on all four operations
    let stranger = "stranger".to_string();
    assert!(execute_public_whitelist_approve(&mut ledger, &stranger, approve.clone()).is_err());
    assert!(execute_public_whitelist_remove(&mut ledger, &stranger, remove.clone()).is_err());
    assert!(execute_private_whitelist_approve(&mut ledger, &stranger, approve.clone()).is_err());
    assert!(execute_private_whitelist_remove(&mut ledger, &stranger, remove.clone()).is_err());

    // approve, twice (idempotent upsert), then look it up
    execute_public_whitelist_approve(&mut ledger, &owner, approve.clone()).unwrap();
    execute_public_whitelist_approve(&mut ledger, &owner, approve.clone()).unwrap();
    assert!(query_whitelist_member(&ledger, &member).whitelisted);

    // removal deletes the record
    execute_public_whitelist_remove(&mut ledger, &owner, remove.clone()).unwrap();
    assert!(!query_whitelist_member(&ledger, &member).whitelisted);

    // counter history survives removal: mint once on the private track
    // with allowance 5 lowered to 1 via config, remove, re-approve, and
    // the next mint still counts as the second
    let mut config = ledger.state.clone();
    config.private_whitelist_allowance = 1;
    config.price = 0;
    execute_update_config(&mut ledger, &owner, config).unwrap();
    execute_private_whitelist_approve(&mut ledger, &owner, approve.clone()).unwrap();
    execute_mint(&mut ledger, &member, &vec![], 0, MintMsg {}).unwrap();
    execute_private_whitelist_remove(&mut ledger, &owner, remove).unwrap();
    execute_private_whitelist_approve(&mut ledger, &owner, approve).unwrap();
    let err = execute_mint(&mut ledger, &member, &vec![], 1, MintMsg {}).unwrap_err();
    assert_eq!(err, ContractError::WhitelistAllowance { minted: 1 });
}

/// Migration is permitted exactly for a matching name and a strictly
/// lower stored version.
#[test]
fn test_migrate() {
    let name = "whitelist-minter".to_string();
    let other = "other-contract".to_string();
    let v1 = "0.1.0".to_string();
    let v2 = "0.2.0".to_string();

    assert!(migrate(&name, &v1, &name, &v2).is_ok());
    let err = migrate(&other, &v1, &name, &v2).unwrap_err();
    assert_eq!(err, ContractError::InvalidInput {});
    let err = migrate(&name, &v2, &name, &v2).unwrap_err();
    assert_eq!(err, ContractError::InvalidInput {});
    let err = migrate(&name, &v2, &name, &v1).unwrap_err();
    assert_eq!(err, ContractError::InvalidInput {});
    // lexicographic, as the host's version strings are compared
    assert!(migrate(&name, &"0.1.9".to_string(), &name, &"0.10.0".to_string()).is_ok());
}

/// The configuration projection flattens the phase into flags and
/// reports the reserved counts as zero.
#[test]
fn test_query_config() {
    let owner = "owner".to_string();
    let mut ledger = fresh_minter(&owner, "artist", vec![]);
    let q = query_config(&ledger);
    assert!(!q.initialized);
    assert!(!q.public_whitelist && !q.public_mint && !q.reveal);
    assert_eq!(q.owner, owner);
    assert_eq!(q.cw721, "nft_contract");
    assert_eq!(q.artist, "artist");
    assert_eq!(q.supply, 3333);
    assert_eq!(q.whitelist_allowance, 5);
    assert_eq!(q.private_whitelist_allowance, 5);
    assert_eq!(q.total_reserved, 0);
    assert_eq!(q.total_reserved_founders, 0);
    assert_eq!(q.price, 10000000000000000000);
    assert_eq!(q.name_prefix, NAME_PREFIX);

    execute_init(&mut ledger, &owner, InitMsg {}).unwrap();
    execute_enable_public_mint(&mut ledger, &owner, EnablePublicMintMsg {}).unwrap();
    let q = query_config(&ledger);
    assert!(q.initialized && q.public_mint);
    assert!(!q.public_whitelist && !q.reveal);

    // the owned conversion agrees with the projection
    let q2 = whitelist_minter::state::QueriedState::from(ledger.state.clone());
    assert_eq!(q2, q);
}

/// Token statuses are partitioned by metadata presence, keeping order.
#[test]
fn test_query_token_statuses() {
    let ids = vec!["1".to_string(), "2".to_string(), "3".to_string()];
    let meta = Metadata {
        name: Some("Token #2".to_string()),
        description: None,
        image: Some("ipfs://x".to_string()),
    };
    let infos = vec![
        NftInfo { token_uri: None, extension: None },
        NftInfo { token_uri: Some("uri2".to_string()), extension: Some(meta) },
        NftInfo { token_uri: None, extension: None },
    ];
    let ts = query_token_statuses(ids, infos);
    assert_eq!(ts.revealed.len(), 1);
    assert_eq!(ts.revealed[0].token_id, "2");
    assert_eq!(ts.revealed[0].token_uri, Some("uri2".to_string()));
    assert_eq!(ts.unrevealed.len(), 2);
    assert_eq!(ts.unrevealed[0].token_id, "1");
    assert_eq!(ts.unrevealed[1].token_id, "3");

    let empty = query_token_statuses(vec![], vec![]);
    assert_eq!(empty.revealed.len(), 0);
    assert_eq!(empty.unrevealed.len(), 0);
}

/// The query dispatcher routes the three queries.
#[test]
fn test_query_dispatch() {
    let owner = "owner".to_string();
    let member = "member".to_string();
    let ledger = fresh_minter(&owner, "artist", vec![member.clone()]);
    match query(&ledger, QueryMsg::Config {}, vec![]) {
        QueryAnswer::Config(q) => assert_eq!(q.supply, 3333),
        other => panic!("unexpected answer: {:?}", other),
    }
    match query(&ledger, QueryMsg::Whitelist { address: member }, vec![]) {
        QueryAnswer::Whitelist(m) => assert!(m.whitelisted),
        other => panic!("unexpected answer: {:?}", other),
    }
    match query(&ledger, QueryMsg::Whitelist { address: "nobody".to_string() }, vec![]) {
        QueryAnswer::Whitelist(m) => assert!(!m.whitelisted),
        other => panic!("unexpected answer: {:?}", other),
    }
    match query(
        &ledger,
        QueryMsg::TokenStatuses { token_ids: vec!["1".to_string()] },
        vec![NftInfo { token_uri: None, extension: None }],
    ) {
        QueryAnswer::TokenStatuses(ts) => {
            assert_eq!(ts.unrevealed.len(), 1);
            assert_eq!(ts.revealed.len(), 0);
        },
        other => panic!("unexpected answer: {:?}", other),
    }
}

/// Decimal rendering used in response attributes.
#[test]
fn test_decimal_rendering() {
    assert_eq!(u64_to_dec(0), "0");
    assert_eq!(u64_to_dec(1), "1");
    assert_eq!(u64_to_dec(3333), "3333");
    assert_eq!(u64_to_dec(u64::MAX), "18446744073709551615");
    assert_eq!(u128_to_dec(10000000000000000000), "10000000000000000000");
    assert_eq!(u128_to_dec(u128::MAX), "340282366920938463463374607431768211455");
}
