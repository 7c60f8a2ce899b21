use rps_wager::contract::{handle, init, query, DEFAULT_FEE_RATE};
use rps_wager::error::ContractError;
use rps_wager::hand::{Hand, Hands};
use rps_wager::msg::{Env, Externals, HandleMsg, InitMsg, OutboundMsg, QueryMsg};
use rps_wager::state::{Ledger, Offer};
use rps_wager::utils::calculate_fee;

fn mock_env(sender: &str) -> Env {
    Env { block_height: 12345, block_time: 1571797419, sender: sender.to_string() }
}

fn get_offer(
    ledger: &Ledger,
    id: u64,
    address: Option<String>,
    viewing_key: Option<String>,
) -> Option<Offer> {
    rps_wager::contract::query_offer(ledger, id, address, viewing_key)
}

/// The owners the asset registry would report in these tests:
/// nft_id_1 belongs to nft_owner_1, nft_id_2 to nft_owner_2.
fn registry_owner(token_id: &str) -> Option<String> {
    match token_id {
        "nft_id_1" => Some("nft_owner_1".to_string()),
        "nft_id_2" => Some("nft_owner_2".to_string()),
        "nft_id_3" => Some("nft_owner_3".to_string()),
        _ => None,
    }
}

fn externals_for_offer(offeror_nft: &str, offeree_nft: &str) -> Externals {
    Externals {
        offeror_nft_owner: registry_owner(offeror_nft),
        offeree_nft_owner: registry_owner(offeree_nft),
        sender_balance: 0,
        banker_balance: 0,
    }
}

fn externals_for_bet(sender_balance: u128, banker_balance: u128) -> Externals {
    Externals {
        offeror_nft_owner: None,
        offeree_nft_owner: None,
        sender_balance,
        banker_balance,
    }
}

fn initialize() -> Ledger {
    let msg = InitMsg { prng_seed: "prng_seed".to_string() };
    init(&mock_env("bank_wallet"), msg)
}

fn valid_sample_offer_msg(id: u64) -> HandleMsg {
    HandleMsg::MakeOffer {
        id,
        offeree: "nft_owner_2".to_string(),
        offeror_nft_contract: "offeror_contract".to_string(),
        offeror_nft: "nft_id_1".to_string(),
        offeror_code_hash: "offeror_code_hash".to_string(),
        offeree_nft_contract: "offeree_contract".to_string(),
        offeree_nft: "nft_id_2".to_string(),
        offeree_code_hash: "offeree_code_hash".to_string(),
        offeror_hands: vec![1, 2, 3],
        offeror_draw_point: -1,
    }
}

#[test]
fn proper_initialization() {
    let msg = InitMsg { prng_seed: "prng_seed".to_string() };
    let ledger = init(&mock_env("creator"), msg);
    assert_eq!(None, get_offer(&ledger, 1, None, None));
}

#[test]
fn try_offer() {
    let mut ledger = initialize();

    let offer_id = 100;
    let env = mock_env("nft_owner_1");
    let msg = valid_sample_offer_msg(offer_id);

    // succeed
    handle(&mut ledger, &env, msg, externals_for_offer("nft_id_1", "nft_id_2")).unwrap();

    // failed by duplicated id
    let msg = valid_sample_offer_msg(offer_id);
    let res = handle(&mut ledger, &env, msg, externals_for_offer("nft_id_1", "nft_id_2"));
    assert_eq!(Some(ContractError::DuplicateOffer { id: offer_id }), res.err());

    // failed by invalid nft_id
    let msg = HandleMsg::MakeOffer {
        id: offer_id + 1,
        offeree: "nft_owner_2".to_string(),
        offeror_nft_contract: "contract".to_string(),
        offeror_nft: "invalid_nft_id".to_string(),
        offeror_code_hash: "code_hash".to_string(),
        offeree_nft_contract: "contract".to_string(),
        offeree_nft: "nft_id_2".to_string(),
        offeree_code_hash: "code_hash".to_string(),
        offeror_hands: vec![1, 2, 3],
        offeror_draw_point: 2,
    };

    let res = handle(&mut ledger, &env, msg, externals_for_offer("invalid_nft_id", "nft_id_2"));
    assert_eq!(true, res.is_err());
}

#[test]
fn try_accept() {
    let mut ledger = initialize();

    let offer_id = 100;
    let env = mock_env("nft_owner_1");
    let msg = valid_sample_offer_msg(offer_id);
    handle(&mut ledger, &env, msg, externals_for_offer("nft_id_1", "nft_id_2")).unwrap();

    // failed by invalid sender
    let msg = HandleMsg::AcceptOffer { id: offer_id, offeree_hands: vec![3, 2, 1] };
    let env = mock_env("invalid_sender");
    let res = handle(&mut ledger, &env, msg, externals_for_bet(0, 0));
    assert_eq!(
        Some(ContractError::Unauthorized { offeree: "nft_owner_2".to_string() }),
        res.err()
    );

    // succeed
    let msg = HandleMsg::AcceptOffer { id: offer_id, offeree_hands: vec![3, 2, 1] };
    let env = mock_env("nft_owner_2");
    let res = handle(&mut ledger, &env, msg, externals_for_bet(0, 0)).unwrap();
    assert_eq!(1, res.messages.len());

    let expected = OutboundMsg::TransferNft {
        contract_addr: "offeree_contract".to_string(),
        callback_code_hash: "offeree_code_hash".to_string(),
        recipient: "nft_owner_1".to_string(),
        token_id: "nft_id_2".to_string(),
    };
    assert_eq!(expected, res.messages[0]);
}

#[test]
fn query_offer() {
    let mut ledger = initialize();

    let offer_id = 100;
    let env = mock_env("nft_owner_1");
    let msg = valid_sample_offer_msg(offer_id);
    handle(&mut ledger, &env, msg, externals_for_offer("nft_id_1", "nft_id_2")).unwrap();

    // offeror hands hidden
    let offer = get_offer(&ledger, offer_id, None, None).unwrap();
    let expected: Hands = Hands::new(vec![]);
    assert_eq!(expected, offer.offeror_hands);

    // offeror hands shown
    let msg = HandleMsg::GenerateViewingKey { entropy: "entropy".to_string(), padding: None };
    let res = handle(&mut ledger, &env, msg, externals_for_bet(0, 0)).unwrap();
    let key = res.data.unwrap();

    let offer =
        get_offer(&ledger, offer_id, Some("nft_owner_1".to_string()), Some(key.clone())).unwrap();
    let expected: Hands = Hands::new(vec![Hand::Rock, Hand::Paper, Hand::Scissors]);
    assert_eq!(expected, offer.offeror_hands);

    // a wrong credential silently degrades to hidden hands
    let offer = get_offer(
        &ledger,
        offer_id,
        Some("nft_owner_1".to_string()),
        Some("not_the_key".to_string()),
    )
    .unwrap();
    assert_eq!(Hands::new(vec![]), offer.offeror_hands);

    // a key claimed without an identity is ignored
    let offer = get_offer(&ledger, offer_id, None, Some(key)).unwrap();
    assert_eq!(Hands::new(vec![]), offer.offeror_hands);

    // both hands shown after acceptance, no credential needed
    let env = mock_env("nft_owner_2");
    let msg = HandleMsg::AcceptOffer { id: offer_id, offeree_hands: vec![2, 3, 3] };
    handle(&mut ledger, &env, msg, externals_for_bet(0, 0)).unwrap();

    let offer = get_offer(&ledger, offer_id, None, None).unwrap();
    let offeror_expected: Hands = Hands::new(vec![Hand::Rock, Hand::Paper, Hand::Scissors]);
    assert_eq!(offeror_expected, offer.offeror_hands);
    let offeree_expected: Hands = Hands::new(vec![Hand::Paper, Hand::Scissors, Hand::Scissors]);
    assert_eq!(offeree_expected, offer.offeree_hands);
}

#[test]
fn bet_token() {
    let mut ledger = initialize();
    let denom = "uscrt".to_string();

    let mut pass_win = false;
    let mut pass_draw = false;
    let mut pass_lose = false;
    while !pass_win || !pass_draw || !pass_lose {
        let env = mock_env("bettor_1");
        let amount = 100;
        let fee = calculate_fee(amount, DEFAULT_FEE_RATE);

        let msg = HandleMsg::BetToken {
            denom: denom.clone(),
            amount,
            hand: 1,
            entropy: "entropy".to_string(),
        };
        let res = handle(&mut ledger, &env, msg, externals_for_bet(10000, 10000)).unwrap();

        assert_eq!(2, res.log.len());
        assert_eq!(1, res.messages.len());

        let result = &res.log[1].value;
        let msg_amount = match &res.messages[0] {
            OutboundMsg::BankSend { amount, .. } => *amount,
            _ => panic!("unexpected"),
        };

        if result == "win" {
            pass_win = true;
            assert_eq!(msg_amount, amount - fee);
        } else if result == "draw" {
            pass_draw = true;
            assert_eq!(msg_amount, fee);
        } else if result == "lose" {
            pass_lose = true;
            assert_eq!(msg_amount, amount);
        }
    }
}

#[test]
fn scenario_draw_at_zero_draw_point() {
    // Rock/Paper/Scissors against Scissors/Paper/Rock scores +1, 0, -1:
    // at draw point zero the match draws and nothing is transferred.
    let mut ledger = initialize();
    let env = mock_env("nft_owner_1");
    let msg = HandleMsg::MakeOffer {
        id: 1,
        offeree: "nft_owner_2".to_string(),
        offeror_nft_contract: "offeror_contract".to_string(),
        offeror_nft: "nft_id_1".to_string(),
        offeror_code_hash: "offeror_code_hash".to_string(),
        offeree_nft_contract: "offeree_contract".to_string(),
        offeree_nft: "nft_id_2".to_string(),
        offeree_code_hash: "offeree_code_hash".to_string(),
        offeror_hands: vec![1, 2, 3],
        offeror_draw_point: 0,
    };
    handle(&mut ledger, &env, msg, externals_for_offer("nft_id_1", "nft_id_2")).unwrap();

    let env = mock_env("nft_owner_2");
    let msg = HandleMsg::AcceptOffer { id: 1, offeree_hands: vec![3, 2, 1] };
    let res = handle(&mut ledger, &env, msg, externals_for_bet(0, 0)).unwrap();
    assert_eq!(0, res.messages.len());
    assert_eq!("winner", res.log[1].key);
    assert_eq!("draw", res.log[1].value);

    let offer = get_offer(&ledger, 1, None, None).unwrap();
    assert_eq!("draw", offer.winner);
}

#[test]
fn scenario_offeror_wins_below_zero_draw_point() {
    // The same hands at draw point minus one: zero exceeds the threshold,
    // so the offeror wins and the offeree's staked asset moves over.
    let mut ledger = initialize();
    let env = mock_env("nft_owner_1");
    let msg = valid_sample_offer_msg(1);
    handle(&mut ledger, &env, msg, externals_for_offer("nft_id_1", "nft_id_2")).unwrap();

    let env = mock_env("nft_owner_2");
    let msg = HandleMsg::AcceptOffer { id: 1, offeree_hands: vec![3, 2, 1] };
    let res = handle(&mut ledger, &env, msg, externals_for_bet(0, 0)).unwrap();
    assert_eq!(1, res.messages.len());
    let expected = OutboundMsg::TransferNft {
        contract_addr: "offeree_contract".to_string(),
        callback_code_hash: "offeree_code_hash".to_string(),
        recipient: "nft_owner_1".to_string(),
        token_id: "nft_id_2".to_string(),
    };
    assert_eq!(expected, res.messages[0]);

    let offer = get_offer(&ledger, 1, None, None).unwrap();
    assert_eq!("offeror", offer.winner);
}

#[test]
fn scenario_duplicate_offer_mutates_nothing() {
    let mut ledger = initialize();
    let env = mock_env("nft_owner_1");
    let msg = valid_sample_offer_msg(7);
    handle(&mut ledger, &env, msg, externals_for_offer("nft_id_1", "nft_id_2")).unwrap();
    let before = get_offer(&ledger, 7, None, None).unwrap();

    let msg = HandleMsg::MakeOffer {
        id: 7,
        offeree: "nft_owner_3".to_string(),
        offeror_nft_contract: "other_contract".to_string(),
        offeror_nft: "nft_id_1".to_string(),
        offeror_code_hash: "other_hash".to_string(),
        offeree_nft_contract: "other_contract".to_string(),
        offeree_nft: "nft_id_3".to_string(),
        offeree_code_hash: "other_hash".to_string(),
        offeror_hands: vec![2, 2],
        offeror_draw_point: 1,
    };
    let res = handle(&mut ledger, &env, msg, externals_for_offer("nft_id_1", "nft_id_3"));
    assert_eq!(Some(ContractError::DuplicateOffer { id: 7 }), res.err());

    let after = get_offer(&ledger, 7, None, None).unwrap();
    assert_eq!(before, after);
}

#[test]
fn scenario_win_pays_amount_minus_fee() {
    // At a rate of three hundred basis points a winning hundred-token bet
    // pays out ninety-seven: the fee is floor(100 * 300 / 10000) = 3.
    let mut ledger = initialize();
    assert_eq!(3, calculate_fee(100, DEFAULT_FEE_RATE));

    loop {
        let env = mock_env("bettor_1");
        let msg = HandleMsg::BetToken {
            denom: "uscrt".to_string(),
            amount: 100,
            hand: 2,
            entropy: "nonce".to_string(),
        };
        let res = handle(&mut ledger, &env, msg, externals_for_bet(10000, 10000)).unwrap();
        if res.log[1].value == "win" {
            match &res.messages[0] {
                OutboundMsg::BankSend { from_address, to_address, denom, amount } => {
                    assert_eq!("bank_wallet", from_address);
                    assert_eq!("bettor_1", to_address);
                    assert_eq!("uscrt", denom);
                    assert_eq!(&97, amount);
                },
                _ => panic!("unexpected"),
            }
            break;
        }
    }
}

#[test]
fn bet_rejections_change_no_state() {
    let mut ledger = initialize();
    let env = mock_env("bettor_1");

    // the caller cannot cover the bet
    let msg = HandleMsg::BetToken {
        denom: "uscrt".to_string(),
        amount: 20000,
        hand: 1,
        entropy: "entropy".to_string(),
    };
    let res = handle(&mut ledger, &env, msg, externals_for_bet(10000, 100000));
    assert_eq!(
        Some(ContractError::InsufficientFunds { address: "bettor_1".to_string() }),
        res.err()
    );

    // the house cannot cover the payout
    let msg = HandleMsg::BetToken {
        denom: "uscrt".to_string(),
        amount: 5000,
        hand: 1,
        entropy: "entropy".to_string(),
    };
    let res = handle(&mut ledger, &env, msg, externals_for_bet(10000, 100));
    assert_eq!(
        Some(ContractError::InsufficientFunds { address: "bank_wallet".to_string() }),
        res.err()
    );

    // a malformed hand byte is rejected before any entropy is consumed
    let msg = HandleMsg::BetToken {
        denom: "uscrt".to_string(),
        amount: 100,
        hand: 7,
        entropy: "entropy".to_string(),
    };
    let res = handle(&mut ledger, &env, msg, externals_for_bet(10000, 10000));
    assert_eq!(Some(ContractError::MalformedHand { code: 7 }), res.err());

    // a rejected bet left the accumulator untouched: a fresh ledger
    // resolves the next bet identically
    let mut fresh = initialize();
    let msg = HandleMsg::BetToken {
        denom: "uscrt".to_string(),
        amount: 100,
        hand: 1,
        entropy: "entropy".to_string(),
    };
    let res = handle(&mut ledger, &env, msg, externals_for_bet(10000, 10000)).unwrap();
    let msg = HandleMsg::BetToken {
        denom: "uscrt".to_string(),
        amount: 100,
        hand: 1,
        entropy: "entropy".to_string(),
    };
    let fresh_res = handle(&mut fresh, &env, msg, externals_for_bet(10000, 10000)).unwrap();
    assert_eq!(fresh_res, res);
}

#[test]
fn bets_are_deterministic_and_advance_the_accumulator() {
    // Identical prior state and identical entropy resolve identically.
    let mut a = initialize();
    let mut b = initialize();
    let env = mock_env("bettor_1");
    for _ in 0..5 {
        let msg = HandleMsg::BetToken {
            denom: "uscrt".to_string(),
            amount: 100,
            hand: 3,
            entropy: "same_nonce".to_string(),
        };
        let ra = handle(&mut a, &env, msg, externals_for_bet(10000, 10000)).unwrap();
        let msg = HandleMsg::BetToken {
            denom: "uscrt".to_string(),
            amount: 100,
            hand: 3,
            entropy: "same_nonce".to_string(),
        };
        let rb = handle(&mut b, &env, msg, externals_for_bet(10000, 10000)).unwrap();
        assert_eq!(ra, rb);
    }
}

#[test]
fn accept_rejections_are_typed() {
    let mut ledger = initialize();
    let env = mock_env("nft_owner_1");
    let msg = valid_sample_offer_msg(5);
    handle(&mut ledger, &env, msg, externals_for_offer("nft_id_1", "nft_id_2")).unwrap();

    // no such offer
    let env = mock_env("nft_owner_2");
    let msg = HandleMsg::AcceptOffer { id: 999, offeree_hands: vec![1, 2, 3] };
    let res = handle(&mut ledger, &env, msg, externals_for_bet(0, 0));
    assert_eq!(Some(ContractError::NotFound { id: 999 }), res.err());

    // wrong number of hands
    let msg = HandleMsg::AcceptOffer { id: 5, offeree_hands: vec![3, 2] };
    let res = handle(&mut ledger, &env, msg, externals_for_bet(0, 0));
    assert_eq!(Some(ContractError::HandCountMismatch { expected: 3, got: 2 }), res.err());

    // a malformed byte in the commitment
    let msg = HandleMsg::AcceptOffer { id: 5, offeree_hands: vec![3, 2, 4] };
    let res = handle(&mut ledger, &env, msg, externals_for_bet(0, 0));
    assert_eq!(Some(ContractError::MalformedHand { code: 4 }), res.err());

    // a settled offer only moves forward; accepting twice is refused
    let msg = HandleMsg::AcceptOffer { id: 5, offeree_hands: vec![3, 2, 1] };
    handle(&mut ledger, &env, msg, externals_for_bet(0, 0)).unwrap();
    let msg = HandleMsg::AcceptOffer { id: 5, offeree_hands: vec![3, 2, 1] };
    let res = handle(&mut ledger, &env, msg, externals_for_bet(0, 0));
    assert_eq!(Some(ContractError::OfferClosed { id: 5 }), res.err());
}

#[test]
fn decline_keeps_both_assets() {
    let mut ledger = initialize();
    let env = mock_env("nft_owner_1");
    let msg = valid_sample_offer_msg(9);
    handle(&mut ledger, &env, msg, externals_for_offer("nft_id_1", "nft_id_2")).unwrap();

    let env = mock_env("nft_owner_2");
    let msg = HandleMsg::DeclineOffer { id: 9 };
    let res = handle(&mut ledger, &env, msg, externals_for_bet(0, 0)).unwrap();
    assert_eq!(0, res.messages.len());
    assert_eq!("declined", res.log[0].value);

    let offer = get_offer(&ledger, 9, None, None).unwrap();
    assert_eq!("", offer.winner);

    // declining again is refused: the status only moves forward
    let msg = HandleMsg::DeclineOffer { id: 9 };
    let res = handle(&mut ledger, &env, msg, externals_for_bet(0, 0));
    assert_eq!(Some(ContractError::OfferClosed { id: 9 }), res.err());
}

#[test]
fn staking_an_asset_one_does_not_own_is_invalid() {
    let mut ledger = initialize();
    // nft_id_1 belongs to nft_owner_1, but nft_owner_2 tries to stake it.
    let env = mock_env("nft_owner_2");
    let msg = HandleMsg::MakeOffer {
        id: 11,
        offeree: "nft_owner_1".to_string(),
        offeror_nft_contract: "offeror_contract".to_string(),
        offeror_nft: "nft_id_1".to_string(),
        offeror_code_hash: "offeror_code_hash".to_string(),
        offeree_nft_contract: "offeree_contract".to_string(),
        offeree_nft: "nft_id_3".to_string(),
        offeree_code_hash: "offeree_code_hash".to_string(),
        offeror_hands: vec![1],
        offeror_draw_point: 0,
    };
    let res = handle(&mut ledger, &env, msg, externals_for_offer("nft_id_1", "nft_id_3"));
    assert_eq!(
        Some(ContractError::InvalidAsset { token_id: "nft_id_1".to_string() }),
        res.err()
    );
    assert_eq!(None, get_offer(&ledger, 11, None, None));
}

#[test]
fn query_through_the_message_enum() {
    let mut ledger = initialize();
    let env = mock_env("nft_owner_1");
    let msg = valid_sample_offer_msg(3);
    handle(&mut ledger, &env, msg, externals_for_offer("nft_id_1", "nft_id_2")).unwrap();

    let res = query(&ledger, QueryMsg::Offer { id: 3, address: None, viewing_key: None });
    assert_eq!(3, res.unwrap().id);
    let res = query(&ledger, QueryMsg::Offer { id: 4, address: None, viewing_key: None });
    assert_eq!(None, res);
}
