use rps_wager::contract::{handle, init};
use rps_wager::msg::{Env, Externals, HandleMsg, InitMsg};
use rps_wager::utils::{
    base64_encode, calculate_fee, concat_bytes, create_hashed_password, ct_slice_compare,
    new_rand_bytes, sha_256, u64_to_be_bytes,
};
use rps_wager::validation::{validate_sent_funds, Coin};
use rps_wager::error::ContractError;
use rps_wager::viewing_key::ViewingKey;

/// The canonical SHA-256 digest of the empty input.
const EMPTY_SHA256: [u8; 32] = [
    0xe3, 0xb0, 0xc4, 0x42, 0x98, 0xfc, 0x1c, 0x14, 0x9a, 0xfb, 0xf4, 0xc8, 0x99, 0x6f, 0xb9,
    0x24, 0x27, 0xae, 0x41, 0xe4, 0x64, 0x9b, 0x93, 0x4c, 0xa4, 0x95, 0x99, 0x1b, 0x78, 0x52,
    0xb8, 0x55,
];

#[test]
fn sha_256_matches_the_reference_digest() {
    assert_eq!(EMPTY_SHA256.to_vec(), sha_256(b""));
    assert_eq!(EMPTY_SHA256.to_vec(), create_hashed_password(""));
    // "abc" has a well-known digest; check its first bytes.
    let digest = sha_256(b"abc");
    assert_eq!(32, digest.len());
    assert_eq!([0xba, 0x78, 0x16, 0xbf], digest[0..4]);
}

#[test]
fn base64_encodes_with_the_standard_alphabet() {
    assert_eq!("aGVsbG8=", base64_encode(b"hello"));
    assert_eq!("", base64_encode(b""));
}

#[test]
fn constant_time_compare_is_equality() {
    assert!(ct_slice_compare(b"secret", b"secret"));
    assert!(!ct_slice_compare(b"secret", b"secreT"));
    assert!(!ct_slice_compare(b"secret", b"secre"));
    assert!(ct_slice_compare(b"", b""));
}

#[test]
fn rand_bytes_are_deterministic_and_not_a_plain_hash() {
    let a = new_rand_bytes(b"seed", b"entropy");
    let b = new_rand_bytes(b"seed", b"entropy");
    assert_eq!(a, b);
    assert_eq!(32, a.len());

    // Distinct entropy gives a distinct draw.
    let c = new_rand_bytes(b"seed", b"other");
    assert_ne!(a, c);

    // The ChaCha draw really transforms its seed: skipping it would
    // collapse the derivation to a double hash.
    let mixed = concat_bytes(b"seed", b"entropy");
    let double_hash = sha_256(&sha_256(&mixed));
    assert_ne!(double_hash, a);
}

#[test]
fn big_endian_bytes_of_a_u64() {
    assert_eq!(vec![1, 2, 3, 4, 5, 6, 7, 8], u64_to_be_bytes(0x0102030405060708));
    assert_eq!(vec![0, 0, 0, 0, 0, 0, 0, 0], u64_to_be_bytes(0));
    assert_eq!(vec![0xff; 8], u64_to_be_bytes(u64::MAX));
}

#[test]
fn fee_is_floored_and_monotone() {
    assert_eq!(3, calculate_fee(100, 300));
    assert_eq!(0, calculate_fee(0, 300));
    assert_eq!(0, calculate_fee(100, 0));
    assert_eq!(0, calculate_fee(33, 300));
    assert_eq!(30, calculate_fee(1000, 300));
    let mut last = 0;
    for amount in [0u64, 1, 33, 34, 100, 1000, 12345] {
        let fee = calculate_fee(amount, 300);
        assert!(fee >= last);
        last = fee;
    }
}

#[test]
fn viewing_key_hash_round_trips() {
    let env = Env { block_height: 12345, block_time: 1571797419, sender: "alice".to_string() };
    let key = ViewingKey::new(&env, b"seed", "entropy");
    let hashed = key.to_hashed();
    assert!(key.check_viewing_key(&hashed));
    assert!(!key.check_viewing_key(&EMPTY_SHA256));

    let other = ViewingKey::new(&env, b"seed", "entropy2");
    assert_ne!(key.0, other.0);
    assert!(!other.check_viewing_key(&hashed));
}

#[test]
fn generated_keys_differ_per_caller() {
    let msg = InitMsg { prng_seed: "prng_seed".to_string() };
    let mut ledger = init(
        &Env { block_height: 1, block_time: 2, sender: "creator".to_string() },
        msg,
    );
    let ext = Externals {
        offeror_nft_owner: None,
        offeree_nft_owner: None,
        sender_balance: 0,
        banker_balance: 0,
    };
    let env = Env { block_height: 1, block_time: 2, sender: "alice".to_string() };
    let msg = HandleMsg::GenerateViewingKey { entropy: "e".to_string(), padding: None };
    let key_a = handle(&mut ledger, &env, msg, ext).unwrap().data.unwrap();

    let ext = Externals {
        offeror_nft_owner: None,
        offeree_nft_owner: None,
        sender_balance: 0,
        banker_balance: 0,
    };
    let env = Env { block_height: 1, block_time: 2, sender: "bob".to_string() };
    let msg = HandleMsg::GenerateViewingKey { entropy: "e".to_string(), padding: None };
    let key_b = handle(&mut ledger, &env, msg, ext).unwrap().data.unwrap();

    assert_ne!(key_a, key_b);
    // A 32-byte draw encodes to 44 base64 characters.
    assert_eq!(44, key_a.len());
}

#[test]
fn sent_funds_must_be_one_nonzero_coin() {
    let ok = validate_sent_funds(vec![Coin { denom: "uscrt".to_string(), amount: 5 }]).unwrap();
    assert_eq!("uscrt", ok.denom);
    assert_eq!(5, ok.amount);

    let res = validate_sent_funds(vec![]);
    assert_eq!(Err(ContractError::MultipleCoins { count: 0 }), res);
    let res = validate_sent_funds(vec![
        Coin { denom: "uscrt".to_string(), amount: 5 },
        Coin { denom: "uatom".to_string(), amount: 5 },
    ]);
    assert_eq!(Err(ContractError::MultipleCoins { count: 2 }), res);
    let res = validate_sent_funds(vec![Coin { denom: "uscrt".to_string(), amount: 0 }]);
    assert_eq!(Err(ContractError::ZeroAmount { denom: "uscrt".to_string() }), res);
}
