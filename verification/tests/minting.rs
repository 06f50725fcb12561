//! Mint-path scenarios: whitelist gating, allowances, sequential ids,
//! supply cap, and payment validation.

use whitelist_minter::contract::{execute, instantiate};
use whitelist_minter::error::ContractError;
use whitelist_minter::execute::{
    check_sent_required_payment, execute_enable_public_mint, execute_init, execute_mint,
    execute_reveal,
};
use whitelist_minter::msg::{
    Coin, EnablePublicMintMsg, ExecuteMsg, InitMsg, InstantiateMsg, MintMsg, RevealMsg,
};
use whitelist_minter::response::Instruction;
use whitelist_minter::state::{Ledger, Phase, State, WhitelistMember};
use whitelist_minter::table::Table;

const DENOM: &str = "aarch";
const NAME_PREFIX: &str = "Token #";
const PRICE: u128 = 10000000000000000000;

fn make_minter(
    owner: &str,
    supply: u64,
    allowance: u64,
    members: Vec<String>,
    artist: &str,
    price: u128,
) -> Ledger {
    let msg = InstantiateMsg {
        cw721: "nft_contract".to_string(),
        supply,
        public_whitelist_allowance: allowance,
        public_whitelist_members: members.clone(),
        private_whitelist_allowance: allowance,
        private_whitelist_members: members,
        reserved_recipient: artist.to_string(),
        price,
        naming_prefix: NAME_PREFIX.to_string(),
    };
    let (ledger, _resp) = instantiate(&owner.to_string(), msg).unwrap();
    ledger
}

fn funds(amount: u128) -> Vec<Coin> {
    vec![Coin { denom: DENOM.to_string(), amount }]
}

fn mint_as(
    ledger: &mut Ledger,
    sender: &str,
    amount: u128,
    num_tokens: u64,
) -> Result<whitelist_minter::response::Response, ContractError> {
    execute_mint(ledger, &sender.to_string(), &funds(amount), num_tokens, MintMsg {})
}

/// End-to-end: a whitelisted user exhausts the private-track allowance
/// getting ids 1..=5, the sixth attempt fails carrying the count, a
/// non-whitelisted user is rejected in that phase, and after the public
/// phase opens the same user mints id 6.
#[test]
fn test_private_whitelist_scenario() {
    let owner = "whitelist_minter_owner".to_string();
    let user = "wlm_customer".to_string();
    let outsider = "public_customer".to_string();
    let mut ledger = make_minter(&owner, 3333, 5, vec![user.clone()], "cw721_artist", PRICE);
    execute_init(&mut ledger, &owner, InitMsg {}).unwrap();
    assert_eq!(ledger.state.phase, Phase::PrivateWhitelist);

    // the registry's token count, as the host would report it
    let mut num_tokens: u64 = 0;
    for expected_id in 1..=5u64 {
        let resp = mint_as(&mut ledger, &user, PRICE, num_tokens).unwrap();
        assert_eq!(resp.messages.len(), 1);
        match &resp.messages[0] {
            Instruction::MintToken { contract, recipient, token_id } => {
                assert_eq!(contract, "nft_contract");
                assert_eq!(recipient, &user);
                assert_eq!(*token_id, expected_id);
            },
            other => panic!("unexpected instruction: {:?}", other),
        }
        num_tokens += 1;
    }

    // the sixth mint fails with the count, and the ledger is unchanged
    let err = mint_as(&mut ledger, &user, PRICE, num_tokens).unwrap_err();
    assert_eq!(err, ContractError::WhitelistAllowance { minted: 5 });

    // a non-whitelisted sender has no membership record
    let err = mint_as(&mut ledger, &outsider, PRICE, num_tokens).unwrap_err();
    assert_eq!(err, ContractError::NotFound {});

    // open public minting; now the outsider mints and receives id 6
    execute_enable_public_mint(&mut ledger, &owner, EnablePublicMintMsg {}).unwrap();
    let resp = mint_as(&mut ledger, &outsider, PRICE, num_tokens).unwrap();
    match &resp.messages[0] {
        Instruction::MintToken { recipient, token_id, .. } => {
            assert_eq!(recipient, &outsider);
            assert_eq!(*token_id, 6);
        },
        other => panic!("unexpected instruction: {:?}", other),
    }
}

/// The whole collection can be minted in the public phase, and the
/// mint after the last one fails with `SoldOut`.
#[test]
fn test_mint_all_nfts() {
    let owner = "whitelist_minter_owner".to_string();
    let user = "some_customer".to_string();
    let supply: u64 = 3333;
    let price: u128 = 10000;
    let mut ledger = make_minter(
        &owner,
        supply,
        5,
        vec![owner.clone(), "cw721_artist".to_string(), user.clone()],
        "cw721_artist",
        price,
    );
    execute_init(&mut ledger, &owner, InitMsg {}).unwrap();
    execute(
        &mut ledger,
        &owner,
        &vec![],
        0,
        ExecuteMsg::EnableNormalWhitelist(whitelist_minter::msg::EnableWhitelistMintMsg {}),
    )
    .unwrap();
    execute(&mut ledger, &owner, &vec![], 0, ExecuteMsg::EnablePublicMint(EnablePublicMintMsg {}))
        .unwrap();

    let mut num_tokens: u64 = 0;
    for _ in 0..supply {
        let res = mint_as(&mut ledger, &user, price, num_tokens);
        assert!(res.is_ok());
        num_tokens += 1;
    }
    let err = mint_as(&mut ledger, &user, price, num_tokens).unwrap_err();
    assert_eq!(err, ContractError::SoldOut {});
}

/// The allowance boundary on the public whitelist track: with
/// allowance N, the Nth mint succeeds and the (N+1)th fails carrying N.
#[test]
fn test_public_whitelist_allowance_boundary() {
    let owner = "owner".to_string();
    let user = "member".to_string();
    for allowance in [1u64, 2, 5] {
        let mut ledger = make_minter(&owner, 100, allowance, vec![user.clone()], "artist", 10);
        execute_init(&mut ledger, &owner, InitMsg {}).unwrap();
        execute(
            &mut ledger,
            &owner,
            &vec![],
            0,
            ExecuteMsg::EnableNormalWhitelist(whitelist_minter::msg::EnableWhitelistMintMsg {}),
        )
        .unwrap();
        let mut num_tokens: u64 = 0;
        for _ in 0..allowance {
            assert!(mint_as(&mut ledger, &user, 10, num_tokens).is_ok());
            num_tokens += 1;
        }
        let err = mint_as(&mut ledger, &user, 10, num_tokens).unwrap_err();
        assert_eq!(err, ContractError::WhitelistAllowance { minted: allowance });
        // the failing call left the counter at exactly the allowance
        let err = mint_as(&mut ledger, &user, 10, num_tokens).unwrap_err();
        assert_eq!(err, ContractError::WhitelistAllowance { minted: allowance });
    }
}

/// Payment validation: below the price fails, exactly the price and
/// above succeed, a wrong denomination fails, and a zero price skips
/// the check.
#[test]
fn test_payment_boundaries() {
    let owner = "owner".to_string();
    let user = "anyone".to_string();
    let mut ledger = make_minter(&owner, 10, 5, vec![], "artist", 100);
    execute_init(&mut ledger, &owner, InitMsg {}).unwrap();
    execute_enable_public_mint(&mut ledger, &owner, EnablePublicMintMsg {}).unwrap();

    // below the price
    let err = mint_as(&mut ledger, &user, 99, 0).unwrap_err();
    assert_eq!(err, ContractError::Unauthorized {});
    // exactly the price
    assert!(mint_as(&mut ledger, &user, 100, 0).is_ok());
    // above the price
    assert!(mint_as(&mut ledger, &user, 101, 1).is_ok());
    // the right amount in the wrong denomination
    let wrong = vec![Coin { denom: "uatom".to_string(), amount: 100 }];
    let err = execute_mint(&mut ledger, &user, &wrong, 2, MintMsg {}).unwrap_err();
    assert_eq!(err, ContractError::Unauthorized {});

    // a zero price needs no funds at all
    let mut free = make_minter(&owner, 10, 5, vec![], "artist", 0);
    execute_init(&mut free, &owner, InitMsg {}).unwrap();
    execute_enable_public_mint(&mut free, &owner, EnablePublicMintMsg {}).unwrap();
    let res = execute_mint(&mut free, &user, &vec![], 0, MintMsg {});
    assert!(res.is_ok());
}

/// The payment helper on its own: no requirement passes, a zero
/// required amount passes, and a matching coin among several counts.
#[test]
fn test_check_sent_required_payment() {
    assert!(check_sent_required_payment(&vec![], None).is_ok());
    let zero = Coin { denom: DENOM.to_string(), amount: 0 };
    assert!(check_sent_required_payment(&vec![], Some(zero)).is_ok());
    let req = Coin { denom: DENOM.to_string(), amount: 50 };
    let sent = vec![
        Coin { denom: "uatom".to_string(), amount: 500 },
        Coin { denom: DENOM.to_string(), amount: 50 },
    ];
    assert!(check_sent_required_payment(&sent, Some(req)).is_ok());
    let req = Coin { denom: DENOM.to_string(), amount: 51 };
    let err = check_sent_required_payment(&sent, Some(req)).unwrap_err();
    assert_eq!(err, ContractError::Unauthorized {});
}

/// Minting before initialization and after reveal is rejected, and the
/// reveal entrypoint itself is disabled in this variant.
#[test]
fn test_mint_window() {
    let owner = "owner".to_string();
    let user = "member".to_string();
    let mut ledger = make_minter(&owner, 10, 5, vec![user.clone()], "artist", 10);

    // still disabled
    let err = mint_as(&mut ledger, &user, 10, 0).unwrap_err();
    assert_eq!(err, ContractError::Unauthorized {});

    execute_init(&mut ledger, &owner, InitMsg {}).unwrap();
    assert!(mint_as(&mut ledger, &user, 10, 0).is_ok());

    // after reveal the window is closed
    whitelist_minter::execute::execute_enable_reveal(
        &mut ledger,
        &owner,
        whitelist_minter::msg::EnableRevealMsg {},
    )
    .unwrap();
    let err = mint_as(&mut ledger, &user, 10, 1).unwrap_err();
    assert_eq!(err, ContractError::MintExpired {});

    // the reveal operation is not built in this variant
    let err = execute_reveal(&mut ledger, &user, RevealMsg { token_id: "1".to_string() })
        .unwrap_err();
    assert_eq!(err, ContractError::EntrypointDisabled {});
}

/// A membership record whose flag is off fails differently from a
/// missing record.
#[test]
fn test_switched_off_member() {
    let owner = "owner".to_string();
    let user = "member".to_string();
    let mut whitelist: Table<WhitelistMember> = Table::new();
    whitelist.set(&user, WhitelistMember { whitelisted: false });
    let mut ledger = Ledger {
        state: State {
            owner: owner.clone(),
            cw721: "nft_contract".to_string(),
            artist: "artist".to_string(),
            supply: 10,
            phase: Phase::PrivateWhitelist,
            private_whitelist_allowance: 5,
            public_whitelist_allowance: 5,
            price: 10,
            name_prefix: NAME_PREFIX.to_string(),
        },
        public_whitelist: Table::new(),
        public_whitelist_counter: Table::new(),
        private_whitelist: whitelist,
        private_whitelist_counter: Table::new(),
    };
    let err = mint_as(&mut ledger, &user, 10, 0).unwrap_err();
    assert_eq!(err, ContractError::NotWhitelisted {});
}

/// The dispatcher routes a mint like the handler and reports the same
/// attributes.
#[test]
fn test_execute_dispatch_mint() {
    let owner = "owner".to_string();
    let user = "anyone".to_string();
    let mut ledger = make_minter(&owner, 10, 5, vec![], "artist", 10);
    execute_init(&mut ledger, &owner, InitMsg {}).unwrap();
    execute_enable_public_mint(&mut ledger, &owner, EnablePublicMintMsg {}).unwrap();
    let resp = execute(&mut ledger, &user, &funds(10), 0, ExecuteMsg::Mint(MintMsg {})).unwrap();
    assert_eq!(resp.attributes.len(), 3);
    assert_eq!(resp.attributes[0].key, "action");
    assert_eq!(resp.attributes[0].value, "mint");
    assert_eq!(resp.attributes[1].key, "token_id");
    assert_eq!(resp.attributes[1].value, "1");
    assert_eq!(resp.attributes[2].key, "owner");
    assert_eq!(resp.attributes[2].value, user);
}
