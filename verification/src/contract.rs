//! The command handlers: the offer lifecycle, the token wager resolver,
//! the viewing-key generator, and the query gate.
//!
//! Each handler takes the ledger by mutable reference together with the
//! decoded command and the facts the host observed outside the engine,
//! and either commits exactly the mutation its contract describes or
//! fails with a structured error and leaves the ledger untouched.

use vstd::prelude::*;

use crate::error::ContractError;
use crate::hand::{spec_decode, spec_hands_compete, Hand, Hands, MatchResult};
use crate::msg::{Env, Externals, HandleMsg, HandleResponse, InitMsg, LogEntry, OutboundMsg, QueryMsg};
use crate::state::{
    spec_has_offer, spec_has_vk, spec_offer_index, spec_vk_hash, vk_written, write_viewing_key,
    Ledger, Offer, OfferStatus, State,
};
use crate::utils::{
    base64_encode, base64_of, calculate_fee, lemma_fee_at_most_amount, new_rand_bytes, sha_256,
    sha256_of, spec_hashed_password, spec_new_rand_bytes,
};
use crate::validation::{validate_balance, validate_nft, validate_offer_id, validate_offeree};
use crate::viewing_key::{spec_viewing_key, ViewingKey};
use vstd::pervasive::VecAdditionalExecFns;
use vstd::utf8::encode_utf8;

verus! {

/// The fee-rate denominator: rates are expressed in basis points.
pub const INVERSE_BASIS_POINT: u64 = 10000;

/// The fee rate installed at initialization, in basis points.
pub const DEFAULT_FEE_RATE: u64 = 300;

/// The house's hand for a randomness value: a second hash-and-map step,
/// taking the first byte of the value's SHA-256 digest modulo three.
pub open spec fn spec_house_hand(rand: Seq<u8>) -> Hand {
    let b = sha256_of(rand)[0] % 3;
    if b == 0 {
        Hand::Rock
    } else if b == 1 {
        Hand::Paper
    } else {
        Hand::Scissors
    }
}

/// Maps a randomness value onto one of the three hands.
pub fn rand_hand(rand: &[u8]) -> (h: Hand)
    ensures
        h == spec_house_hand(rand@),
{
    let digest = sha_256(rand);
    let b = digest[0] % 3;
    if b == 0 {
        Hand::Rock
    } else if b == 1 {
        Hand::Paper
    } else {
        Hand::Scissors
    }
}

/// The label recorded for a resolved offer: the winning party, or a
/// draw.
pub open spec fn spec_winner_label(r: MatchResult) -> Seq<char> {
    match r {
        MatchResult::Win => "offeror"@,
        MatchResult::Lose => "offeree"@,
        MatchResult::Draw => "draw"@,
    }
}

/// The winner label as a string.
fn winner_label(r: &MatchResult) -> (s: String)
    ensures
        s@ == spec_winner_label(*r),
{
    match r {
        MatchResult::Win => String::from_str("offeror"),
        MatchResult::Lose => String::from_str("offeree"),
        MatchResult::Draw => String::from_str("draw"),
    }
}

/// Builds one log entry from two literals.
fn log_entry(key: &str, value: &str) -> (e: LogEntry)
    ensures
        e.key@ == key@,
        e.value@ == value@,
{
    LogEntry { key: String::from_str(key), value: String::from_str(value) }
}

/// Creates the initial ledger: the caller becomes the house and the fee
/// recipient, the seed is the hash of the base64 form of the supplied
/// seed string, and the entropy accumulator starts as the seed string's
/// bytes.
pub fn init(env: &Env, msg: InitMsg) -> (l: Ledger)
    ensures
        l.wf(),
        l.state.prng_seed@ == sha256_of(encode_utf8(base64_of(encode_utf8(msg.prng_seed@)))),
        l.state.entropy@ == encode_utf8(msg.prng_seed@),
        l.state.banker_wallet@ == env.sender@,
        l.state.fee_recipient@ == env.sender@,
        l.state.fee_rate == DEFAULT_FEE_RATE,
        l.offers@.len() == 0,
        l.viewing_keys@.len() == 0,
{
    let encoded = base64_encode(msg.prng_seed.as_str().as_bytes());
    let prng_seed = sha_256(encoded.as_str().as_bytes());
    let entropy = vstd::slice::slice_to_vec(msg.prng_seed.as_str().as_bytes());
    Ledger {
        state: State {
            prng_seed,
            entropy,
            banker_wallet: env.sender.clone(),
            fee_recipient: env.sender.clone(),
            fee_rate: DEFAULT_FEE_RATE,
        },
        offers: Vec::new(),
        viewing_keys: Vec::new(),
    }
}

/// What `MakeOffer` does. The id must be fresh, each staked asset must
/// be owned by the party staking it as the registry reports it, and the
/// committed hand bytes must decode; then a fresh offer in `Offered`
/// status is appended and an "offered" event is logged. Any failure
/// leaves the ledger untouched.
pub open spec fn offer_post(
    pre: Ledger,
    post: Ledger,
    env: Env,
    id: u64,
    offeree: String,
    offeror_nft_contract: String,
    offeror_nft: String,
    offeror_code_hash: String,
    offeree_nft_contract: String,
    offeree_nft: String,
    offeree_code_hash: String,
    hands: Seq<u8>,
    draw_point: i8,
    offeror_nft_owner: Option<String>,
    offeree_nft_owner: Option<String>,
    r: Result<HandleResponse, ContractError>,
) -> bool {
    let dup = spec_has_offer(pre.offers@, id);
    let own1 = offeror_nft_owner matches Some(o) && o@ == env.sender@;
    let own2 = offeree_nft_owner matches Some(o) && o@ == offeree@;
    let dec = spec_decode(hands);
    &&& (r is Ok <==> !dup && own1 && own2 && dec is Some)
    &&& dup ==> (r matches Err(e) && e == (ContractError::DuplicateOffer { id })) && post == pre
    &&& !dup && !own1 ==> (r matches Err(e) && e == (ContractError::InvalidAsset {
        token_id: offeror_nft,
    })) && post == pre
    &&& !dup && own1 && !own2 ==> (r matches Err(e) && e == (ContractError::InvalidAsset {
        token_id: offeree_nft,
    })) && post == pre
    &&& !dup && own1 && own2 && dec is None ==> (r matches Err(e) && e matches
        ContractError::MalformedHand { code: _ }) && post == pre
    &&& r matches Ok(resp) ==> {
        &&& post.state == pre.state
        &&& post.viewing_keys == pre.viewing_keys
        &&& post.offers@.len() == pre.offers@.len() + 1
        &&& post.offers@.take(pre.offers@.len() as int) == pre.offers@
        &&& ({
            let o = post.offers@.last();
            &&& o.id == id
            &&& o.status is Offered
            &&& o.offeror@ == env.sender@
            &&& o.offeree == offeree
            &&& o.offeror_nft_contract == offeror_nft_contract
            &&& o.offeror_nft == offeror_nft
            &&& o.offeror_code_hash == offeror_code_hash
            &&& o.offeree_nft_contract == offeree_nft_contract
            &&& o.offeree_nft == offeree_nft
            &&& o.offeree_code_hash == offeree_code_hash
            &&& o.offeror_hands@ == dec.unwrap()
            &&& o.offeree_hands@.len() == 0
            &&& o.offeror_draw_point == draw_point
            &&& o.winner@ == ""@
        })
        &&& resp.messages@.len() == 0
        &&& resp.log@.len() == 1
        &&& resp.log@[0].key@ == "action"@
        &&& resp.log@[0].value@ == "offered"@
        &&& resp.data is None
    }
}

/// Creates a new offer over two staked assets. The engine never takes
/// custody: it validates ownership now and, on a decisive win at
/// acceptance time, emits a single transfer instruction. Ownership is
/// not re-validated at acceptance; that narrow front-running window is a
/// documented, accepted risk of the design.
pub fn try_offer(
    ledger: &mut Ledger,
    env: &Env,
    id: u64,
    offeree: String,
    offeror_nft_contract: String,
    offeror_nft: String,
    offeror_code_hash: String,
    offeree_nft_contract: String,
    offeree_nft: String,
    offeree_code_hash: String,
    hands: Vec<u8>,
    draw_point: i8,
    offeror_nft_owner: Option<String>,
    offeree_nft_owner: Option<String>,
) -> (r: Result<HandleResponse, ContractError>)
    requires
        old(ledger).wf(),
    ensures
        final(ledger).wf(),
        offer_post(
            *old(ledger),
            *final(ledger),
            *env,
            id,
            offeree,
            offeror_nft_contract,
            offeror_nft,
            offeror_code_hash,
            offeree_nft_contract,
            offeree_nft,
            offeree_code_hash,
            hands@,
            draw_point,
            offeror_nft_owner,
            offeree_nft_owner,
            r,
        ),
{
    if let Err(e) = validate_offer_id(ledger, id) {
        return Err(e);
    }
    if let Err(e) = validate_nft(offeror_nft.clone(), &env.sender, &offeror_nft_owner) {
        return Err(e);
    }
    if let Err(e) = validate_nft(offeree_nft.clone(), &offeree, &offeree_nft_owner) {
        return Err(e);
    }
    let decoded = match Hands::from_u8_vec(&hands) {
        Ok(h) => h,
        Err(e) => {
            return Err(e);
        },
    };

    let offer = Offer::new(
        id,
        env.sender.clone(),
        offeree,
        offeror_nft_contract,
        offeror_nft,
        offeror_code_hash,
        offeree_nft_contract,
        offeree_nft,
        offeree_code_hash,
        decoded,
        draw_point,
    );
    ledger.offers.push(offer);

    proof {
        let pre = old(ledger).offers@;
        let post = ledger.offers@;
        assert(forall|k: int| 0 <= k < pre.len() ==> (#[trigger] pre[k]).id != id);
        assert forall|a: int, b: int| #![trigger post[a], post[b]]
            0 <= a < b < post.len() implies post[a].id != post[b].id by {
            if b < pre.len() {
                assert(pre[a].id != pre[b].id);
            } else {
                assert(pre[a].id != id);
            }
        }
        assert(post.take(pre.len() as int) =~= pre);
    }

    Ok(HandleResponse {
        messages: Vec::new(),
        log: vec![log_entry("action", "offered")],
        data: None,
    })
}

/// What a successful `AcceptOffer` does: the offer flips to `Accepted`,
/// the offeree's commitment and the winner label are recorded, and on a
/// decisive result exactly one instruction transfers the loser's staked
/// asset to the winner; a draw transfers nothing.
pub open spec fn accept_ok(
    pre: Ledger,
    post: Ledger,
    i: int,
    o: Offer,
    offeree_hands: Seq<Hand>,
    resp: HandleResponse,
) -> bool {
    let result = spec_hands_compete(o.offeror_hands@, offeree_hands, o.offeror_draw_point as int);
    let label = spec_winner_label(result);
    &&& post.state == pre.state
    &&& post.viewing_keys == pre.viewing_keys
    &&& post.offers@.len() == pre.offers@.len()
    &&& (forall|j: int| 0 <= j < pre.offers@.len() && j != i ==> post.offers@[j] == pre.offers@[j])
    &&& ({
        let u = post.offers@[i];
        &&& u.id == o.id
        &&& u.status is Accepted
        &&& u.offeror == o.offeror
        &&& u.offeree@ == o.offeree@
        &&& u.offeror_nft_contract == o.offeror_nft_contract
        &&& u.offeror_nft == o.offeror_nft
        &&& u.offeror_code_hash == o.offeror_code_hash
        &&& u.offeree_nft_contract == o.offeree_nft_contract
        &&& u.offeree_nft == o.offeree_nft
        &&& u.offeree_code_hash == o.offeree_code_hash
        &&& u.offeror_hands@ == o.offeror_hands@
        &&& u.offeree_hands@ == offeree_hands
        &&& u.offeror_draw_point == o.offeror_draw_point
        &&& u.winner@ == label
    })
    &&& resp.data is None
    &&& resp.log@.len() == 2
    &&& resp.log@[0].key@ == "action"@ && resp.log@[0].value@ == "accepted"@
    &&& resp.log@[1].key@ == "winner"@ && resp.log@[1].value@ == label
    &&& (result is Draw ==> resp.messages@.len() == 0)
    &&& (result is Win ==> resp.messages@.len() == 1 && resp.messages@[0]
        == (OutboundMsg::TransferNft {
            contract_addr: o.offeree_nft_contract,
            callback_code_hash: o.offeree_code_hash,
            recipient: o.offeror,
            token_id: o.offeree_nft,
        }))
    &&& (result is Lose ==> resp.messages@.len() == 1 && resp.messages@[0]
        == (OutboundMsg::TransferNft {
            contract_addr: o.offeror_nft_contract,
            callback_code_hash: o.offeror_code_hash,
            recipient: o.offeree,
            token_id: o.offeror_nft,
        }))
}

/// What `AcceptOffer` does. Only the designated offeree of a still-open
/// offer may accept; the committed bytes must decode into as many hands
/// as the offeror committed. Any failure leaves the ledger untouched.
pub open spec fn accept_post(
    pre: Ledger,
    post: Ledger,
    env: Env,
    id: u64,
    hands: Seq<u8>,
    r: Result<HandleResponse, ContractError>,
) -> bool {
    let found = spec_has_offer(pre.offers@, id);
    let i = spec_offer_index(pre.offers@, id);
    let o = pre.offers@[i];
    let auth = found && o.offeree@ == env.sender@;
    let still_open = auth && o.status is Offered;
    let dec = spec_decode(hands);
    let len_ok = dec is Some && dec.unwrap().len() == o.offeror_hands@.len();
    &&& (r is Ok <==> still_open && len_ok)
    &&& !found ==> (r matches Err(e) && e == (ContractError::NotFound { id })) && post == pre
    &&& found && !auth ==> (r matches Err(e) && e == (ContractError::Unauthorized {
        offeree: o.offeree,
    })) && post == pre
    &&& auth && !(o.status is Offered) ==> (r matches Err(e) && e == (ContractError::OfferClosed {
        id,
    })) && post == pre
    &&& still_open && dec is None ==> (r matches Err(e) && e matches ContractError::MalformedHand {
        code: _,
    }) && post == pre
    &&& still_open && dec is Some && !len_ok ==> (r matches Err(e) && e matches
        ContractError::HandCountMismatch {
            expected: ex,
            got: g,
        } && ex == o.offeror_hands@.len() && g == hands.len()) && post == pre
    &&& r matches Ok(resp) ==> accept_ok(pre, post, i, o, dec.unwrap(), resp)
}

/// Accepts an offer: resolves the match between the two commitments
/// under the offer's draw point, records the verdict, and emits the
/// transfer instruction for the loser's asset unless the match drew.
pub fn try_accept(ledger: &mut Ledger, env: &Env, id: u64, hands: Vec<u8>) -> (r: Result<
    HandleResponse,
    ContractError,
>)
    requires
        old(ledger).wf(),
    ensures
        final(ledger).wf(),
        accept_post(*old(ledger), *final(ledger), *env, id, hands@, r),
{
    let idx = match validate_offeree(ledger, &env.sender, id) {
        Ok(i) => i,
        Err(e) => {
            return Err(e);
        },
    };
    match ledger.offers[idx].status {
        OfferStatus::Offered => {},
        _ => {
            return Err(ContractError::OfferClosed { id });
        },
    }
    let offeree_hands = match Hands::from_u8_vec(&hands) {
        Ok(h) => h,
        Err(e) => {
            return Err(e);
        },
    };
    let offeror_len = ledger.offers[idx].offeror_hands.len();
    if offeree_hands.len() != offeror_len {
        return Err(ContractError::HandCountMismatch { expected: offeror_len, got: hands.len() });
    }

    let result = ledger.offers[idx].offeror_hands.compete(
        &offeree_hands,
        ledger.offers[idx].offeror_draw_point,
    );
    let winner = winner_label(&result);

    let mut messages: Vec<OutboundMsg> = Vec::new();
    match result {
        MatchResult::Draw => {},
        MatchResult::Win => {
            messages.push(OutboundMsg::TransferNft {
                contract_addr: ledger.offers[idx].offeree_nft_contract.clone(),
                callback_code_hash: ledger.offers[idx].offeree_code_hash.clone(),
                recipient: ledger.offers[idx].offeror.clone(),
                token_id: ledger.offers[idx].offeree_nft.clone(),
            });
        },
        MatchResult::Lose => {
            messages.push(OutboundMsg::TransferNft {
                contract_addr: ledger.offers[idx].offeror_nft_contract.clone(),
                callback_code_hash: ledger.offers[idx].offeror_code_hash.clone(),
                recipient: ledger.offers[idx].offeree.clone(),
                token_id: ledger.offers[idx].offeror_nft.clone(),
            });
        },
    }

    let mut updated = ledger.offers[idx].clone();
    updated.accept_offer(env.sender.clone(), offeree_hands);
    updated.winner = winner.clone();
    ledger.offers.set(idx, updated);

    proof {
        let pre = old(ledger).offers@;
        let post = ledger.offers@;
        assert forall|a: int, b: int| #![trigger post[a], post[b]]
            0 <= a < b < post.len() implies post[a].id != post[b].id by {
            assert(pre[a].id != pre[b].id);
        }
    }

    let mut log: Vec<LogEntry> = Vec::new();
    log.push(log_entry("action", "accepted"));
    log.push(LogEntry { key: String::from_str("winner"), value: winner });
    Ok(HandleResponse { messages, log, data: None })
}

/// What `DeclineOffer` does. Only the designated offeree of a
/// still-open offer may decline; the offer flips to `Declined`, nothing
/// is transferred, and both staked assets stay with their holders. Any
/// failure leaves the ledger untouched.
pub open spec fn decline_post(
    pre: Ledger,
    post: Ledger,
    env: Env,
    id: u64,
    r: Result<HandleResponse, ContractError>,
) -> bool {
    let found = spec_has_offer(pre.offers@, id);
    let i = spec_offer_index(pre.offers@, id);
    let o = pre.offers@[i];
    let auth = found && o.offeree@ == env.sender@;
    &&& (r is Ok <==> auth && o.status is Offered)
    &&& !found ==> (r matches Err(e) && e == (ContractError::NotFound { id })) && post == pre
    &&& found && !auth ==> (r matches Err(e) && e == (ContractError::Unauthorized {
        offeree: o.offeree,
    })) && post == pre
    &&& auth && !(o.status is Offered) ==> (r matches Err(e) && e == (ContractError::OfferClosed {
        id,
    })) && post == pre
    &&& r matches Ok(resp) ==> {
        &&& post.state == pre.state
        &&& post.viewing_keys == pre.viewing_keys
        &&& post.offers@.len() == pre.offers@.len()
        &&& (forall|j: int| 0 <= j < pre.offers@.len() && j != i ==> post.offers@[j]
            == pre.offers@[j])
        &&& ({
            let u = post.offers@[i];
            &&& u.id == o.id
            &&& u.status is Declined
            &&& u.offeror == o.offeror
            &&& u.offeree@ == o.offeree@
            &&& u.offeror_nft_contract == o.offeror_nft_contract
            &&& u.offeror_nft == o.offeror_nft
            &&& u.offeror_code_hash == o.offeror_code_hash
            &&& u.offeree_nft_contract == o.offeree_nft_contract
            &&& u.offeree_nft == o.offeree_nft
            &&& u.offeree_code_hash == o.offeree_code_hash
            &&& u.offeror_hands@ == o.offeror_hands@
            &&& u.offeree_hands@ == o.offeree_hands@
            &&& u.offeror_draw_point == o.offeror_draw_point
            &&& u.winner == o.winner
        })
        &&& resp.messages@.len() == 0
        &&& resp.log@.len() == 1
        &&& resp.log@[0].key@ == "action"@ && resp.log@[0].value@ == "declined"@
        &&& resp.data is None
    }
}

/// Declines an offer; the engine emits no transfer, as it never took
/// custody of either asset.
pub fn try_decline(ledger: &mut Ledger, env: &Env, id: u64) -> (r: Result<
    HandleResponse,
    ContractError,
>)
    requires
        old(ledger).wf(),
    ensures
        final(ledger).wf(),
        decline_post(*old(ledger), *final(ledger), *env, id, r),
{
    let idx = match validate_offeree(ledger, &env.sender, id) {
        Ok(i) => i,
        Err(e) => {
            return Err(e);
        },
    };
    match ledger.offers[idx].status {
        OfferStatus::Offered => {},
        _ => {
            return Err(ContractError::OfferClosed { id });
        },
    }

    let mut updated = ledger.offers[idx].clone();
    updated.decline_offer(env.sender.clone());
    ledger.offers.set(idx, updated);

    proof {
        let pre = old(ledger).offers@;
        let post = ledger.offers@;
        assert forall|a: int, b: int| #![trigger post[a], post[b]]
            0 <= a < b < post.len() implies post[a].id != post[b].id by {
            assert(pre[a].id != pre[b].id);
        }
    }

    Ok(HandleResponse {
        messages: Vec::new(),
        log: vec![log_entry("action", "declined")],
        data: None,
    })
}

/// What `BetToken` does. Both the caller and the house must cover the
/// amount, and the declared hand byte must decode; only then does the
/// entropy accumulator advance — a rejected bet consumes no entropy.
/// The house's hand is derived deterministically from the new
/// accumulator value, a single round is resolved, and exactly one
/// balance transfer is emitted: on a win the house pays the caller the
/// amount less the fee, on a draw the caller pays the fee, on a loss the
/// caller pays the amount.
pub open spec fn bet_post(
    pre: Ledger,
    post: Ledger,
    env: Env,
    denom: String,
    amount: u64,
    hand: u8,
    entropy: Seq<char>,
    sender_balance: u128,
    banker_balance: u128,
    r: Result<HandleResponse, ContractError>,
) -> bool {
    let hd = Hand::spec_from_code(hand);
    let sender_ok = sender_balance >= amount as u128;
    let banker_ok = banker_balance >= amount as u128;
    &&& (r is Ok <==> sender_ok && banker_ok && hd is Some)
    &&& !sender_ok ==> (r matches Err(e) && e == (ContractError::InsufficientFunds {
        address: env.sender,
    })) && post == pre
    &&& sender_ok && !banker_ok ==> (r matches Err(e) && e == (ContractError::InsufficientFunds {
        address: pre.state.banker_wallet,
    })) && post == pre
    &&& sender_ok && banker_ok && hd is None ==> (r matches Err(e) && e
        == (ContractError::MalformedHand { code: hand })) && post == pre
    &&& r matches Ok(resp) ==> {
        let acc = spec_new_rand_bytes(pre.state.entropy@, encode_utf8(entropy));
        let house = spec_house_hand(acc);
        let result = hd.unwrap().spec_compete(house);
        let fee = amount * pre.state.fee_rate / (INVERSE_BASIS_POINT as int);
        &&& post.offers == pre.offers
        &&& post.viewing_keys == pre.viewing_keys
        &&& post.state.entropy@ == acc
        &&& post.state.prng_seed == pre.state.prng_seed
        &&& post.state.banker_wallet == pre.state.banker_wallet
        &&& post.state.fee_recipient == pre.state.fee_recipient
        &&& post.state.fee_rate == pre.state.fee_rate
        &&& resp.data is None
        &&& resp.log@.len() == 2
        &&& resp.log@[0].key@ == "action"@ && resp.log@[0].value@ == "bet"@
        &&& resp.log@[1].key@ == "result"@ && resp.log@[1].value@ == result.spec_label()
        &&& resp.messages@.len() == 1
        &&& (result is Win ==> (resp.messages@[0] matches OutboundMsg::BankSend {
            from_address,
            to_address,
            denom: d,
            amount: a,
        } && from_address == pre.state.banker_wallet && to_address@ == env.sender@ && d == denom
            && a == amount - fee))
        &&& (result is Draw ==> (resp.messages@[0] matches OutboundMsg::BankSend {
            from_address,
            to_address,
            denom: d,
            amount: a,
        } && from_address@ == env.sender@ && to_address == pre.state.banker_wallet && d == denom
            && a == fee))
        &&& (result is Lose ==> (resp.messages@[0] matches OutboundMsg::BankSend {
            from_address,
            to_address,
            denom: d,
            amount: a,
        } && from_address@ == env.sender@ && to_address == pre.state.banker_wallet && d == denom
            && a == amount))
    }
}

/// Resolves a token wager against the house. The accumulator mixes in
/// the caller's fresh entropy before the house's hand is drawn, so the
/// caller cannot pre-compute the outcome from public state, yet the
/// whole resolution is replayable from the entropy history.
pub fn try_bet_token(
    ledger: &mut Ledger,
    env: &Env,
    denom: String,
    amount: u64,
    hand: u8,
    entropy: String,
    sender_balance: u128,
    banker_balance: u128,
) -> (r: Result<HandleResponse, ContractError>)
    requires
        old(ledger).wf(),
    ensures
        final(ledger).wf(),
        bet_post(
            *old(ledger),
            *final(ledger),
            *env,
            denom,
            amount,
            hand,
            entropy@,
            sender_balance,
            banker_balance,
            r,
        ),
{
    if let Err(e) = validate_balance(&env.sender, sender_balance, amount as u128) {
        return Err(e);
    }
    if let Err(e) = validate_balance(&ledger.state.banker_wallet, banker_balance, amount as u128) {
        return Err(e);
    }
    let player = match Hand::from_code(hand) {
        Ok(h) => h,
        Err(e) => {
            return Err(e);
        },
    };

    let rng = new_rand_bytes(ledger.state.entropy.as_slice(), entropy.as_str().as_bytes());
    ledger.state.entropy = rng;

    let opponent = rand_hand(ledger.state.entropy.as_slice());
    let result = player.compete(&opponent);

    proof {
        lemma_fee_at_most_amount(amount, ledger.state.fee_rate);
    }
    let fee = calculate_fee(amount, ledger.state.fee_rate);

    let mut messages: Vec<OutboundMsg> = Vec::new();
    match result {
        MatchResult::Win => {
            messages.push(OutboundMsg::BankSend {
                from_address: ledger.state.banker_wallet.clone(),
                to_address: env.sender.clone(),
                denom,
                amount: amount - fee,
            });
        },
        MatchResult::Draw => {
            messages.push(OutboundMsg::BankSend {
                from_address: env.sender.clone(),
                to_address: ledger.state.banker_wallet.clone(),
                denom,
                amount: fee,
            });
        },
        MatchResult::Lose => {
            messages.push(OutboundMsg::BankSend {
                from_address: env.sender.clone(),
                to_address: ledger.state.banker_wallet.clone(),
                denom,
                amount,
            });
        },
    }

    let mut log: Vec<LogEntry> = Vec::new();
    log.push(log_entry("action", "bet"));
    log.push(LogEntry { key: String::from_str("result"), value: result.to_str() });
    Ok(HandleResponse { messages, log, data: None })
}

/// What `GenerateViewingKey` does: a fresh credential is derived from
/// the process seed, the call context and the caller's entropy, its
/// salted hash replaces any earlier entry for the caller, and the
/// plaintext is returned once in the response data.
pub open spec fn vk_post(
    pre: Ledger,
    post: Ledger,
    env: Env,
    entropy: Seq<char>,
    resp: HandleResponse,
) -> bool {
    let key = spec_viewing_key(pre.state.prng_seed@, env, entropy);
    let hash = spec_hashed_password(key);
    &&& post.state == pre.state
    &&& post.offers == pre.offers
    &&& vk_written(pre.viewing_keys@, post.viewing_keys@, env.sender@, hash)
    &&& spec_has_vk(post.viewing_keys@, env.sender@)
    &&& spec_vk_hash(post.viewing_keys@, env.sender@) == hash
    &&& resp.messages@.len() == 0
    &&& resp.log@.len() == 1
    &&& resp.log@[0].key@ == "action"@ && resp.log@[0].value@ == "generated"@
    &&& (resp.data matches Some(d) && d@ == key)
}

/// Generates a viewing key for the caller and stores only its salted
/// hash; the plaintext is never recoverable from storage.
pub fn try_generate_viewing_key(ledger: &mut Ledger, env: &Env, entropy: String) -> (resp:
    HandleResponse)
    requires
        old(ledger).wf(),
    ensures
        final(ledger).wf(),
        vk_post(*old(ledger), *final(ledger), *env, entropy@, resp),
{
    let key = ViewingKey::new(env, ledger.state.prng_seed.as_slice(), entropy.as_str());
    let hashed = key.to_hashed();
    write_viewing_key(ledger, &env.sender, hashed);

    HandleResponse {
        messages: Vec::new(),
        log: vec![log_entry("action", "generated")],
        data: Some(key.0),
    }
}

/// Whether a claimed credential authorizes a view of hidden hands: both
/// an identity and a key must be claimed, a hash must be stored for that
/// identity, and the claimed key's hash must equal the stored one.
pub open spec fn spec_can_view(
    l: Ledger,
    address: Option<String>,
    viewing_key: Option<String>,
) -> bool {
    match (address, viewing_key) {
        (Some(a), Some(k)) => spec_has_vk(l.viewing_keys@, a@) && spec_hashed_password(k@)
            == spec_vk_hash(l.viewing_keys@, a@),
        _ => false,
    }
}

/// What the offer query returns: the stored offer, except that while the
/// offer is still `Offered` and the credential check does not pass, the
/// offeror's hand sequence is blanked out. Once an offer has left
/// `Offered`, both hand sequences are returned unmasked regardless of
/// credential. A missing or wrong credential is never an error; it only
/// hides the hands.
pub open spec fn query_offer_post(
    l: Ledger,
    id: u64,
    address: Option<String>,
    viewing_key: Option<String>,
    r: Option<Offer>,
) -> bool {
    let found = spec_has_offer(l.offers@, id);
    let o = l.offers@[spec_offer_index(l.offers@, id)];
    let hide = o.status is Offered && !spec_can_view(l, address, viewing_key);
    &&& (r is Some <==> found)
    &&& r matches Some(v) ==> {
        &&& v.id == o.id
        &&& v.status == o.status
        &&& v.offeror == o.offeror
        &&& v.offeree == o.offeree
        &&& v.offeror_nft_contract == o.offeror_nft_contract
        &&& v.offeror_nft == o.offeror_nft
        &&& v.offeror_code_hash == o.offeror_code_hash
        &&& v.offeree_nft_contract == o.offeree_nft_contract
        &&& v.offeree_nft == o.offeree_nft
        &&& v.offeree_code_hash == o.offeree_code_hash
        &&& v.offeror_hands@ == (if hide {
            Seq::<Hand>::empty()
        } else {
            o.offeror_hands@
        })
        &&& v.offeree_hands@ == o.offeree_hands@
        &&& v.offeror_draw_point == o.offeror_draw_point
        &&& v.winner == o.winner
    }
}

/// Answers an offer query, masking the offeror's hands unless the offer
/// is resolved or a valid credential is presented. The credential check
/// compares hashes in constant time.
pub fn query_offer(
    ledger: &Ledger,
    id: u64,
    address: Option<String>,
    viewing_key: Option<String>,
) -> (r: Option<Offer>)
    requires
        ledger.wf(),
    ensures
        query_offer_post(*ledger, id, address, viewing_key, r),
{
    let can_view: bool = match (&address, &viewing_key) {
        (Some(a), Some(k)) => {
            match ledger.find_vk(a) {
                Some(i) => {
                    let claimed = ViewingKey(k.clone());
                    claimed.check_viewing_key(ledger.viewing_keys[i].hash.as_slice())
                },
                None => false,
            }
        },
        _ => false,
    };
    match ledger.find_offer(id) {
        Some(i) => {
            let mut o = ledger.offers[i].clone();
            let still_offered = match o.status {
                OfferStatus::Offered => true,
                _ => false,
            };
            if still_offered && !can_view {
                o.offeror_hands = Hands::new(Vec::new());
            }
            Some(o)
        },
        None => None,
    }
}

/// Answers a query.
pub fn query(ledger: &Ledger, msg: QueryMsg) -> (r: Option<Offer>)
    requires
        ledger.wf(),
    ensures
        match msg {
            QueryMsg::Offer { id, address, viewing_key } => query_offer_post(
                *ledger,
                id,
                address,
                viewing_key,
                r,
            ),
        },
{
    match msg {
        QueryMsg::Offer { id, address, viewing_key } => query_offer(
            ledger,
            id,
            address,
            viewing_key,
        ),
    }
}

/// Routes one decoded command to its handler. The host's observations —
/// registry answers and balances — ride along and are consumed by the
/// handler that needs them.
pub fn handle(ledger: &mut Ledger, env: &Env, msg: HandleMsg, ext: Externals) -> (r: Result<
    HandleResponse,
    ContractError,
>)
    requires
        old(ledger).wf(),
    ensures
        final(ledger).wf(),
        match msg {
            HandleMsg::MakeOffer {
                id,
                offeree,
                offeror_nft_contract,
                offeror_nft,
                offeror_code_hash,
                offeree_nft_contract,
                offeree_nft,
                offeree_code_hash,
                offeror_hands,
                offeror_draw_point,
            } => offer_post(
                *old(ledger),
                *final(ledger),
                *env,
                id,
                offeree,
                offeror_nft_contract,
                offeror_nft,
                offeror_code_hash,
                offeree_nft_contract,
                offeree_nft,
                offeree_code_hash,
                offeror_hands@,
                offeror_draw_point,
                ext.offeror_nft_owner,
                ext.offeree_nft_owner,
                r,
            ),
            HandleMsg::AcceptOffer { id, offeree_hands } => accept_post(
                *old(ledger),
                *final(ledger),
                *env,
                id,
                offeree_hands@,
                r,
            ),
            HandleMsg::DeclineOffer { id } => decline_post(
                *old(ledger),
                *final(ledger),
                *env,
                id,
                r,
            ),
            HandleMsg::BetToken { denom, amount, hand, entropy } => bet_post(
                *old(ledger),
                *final(ledger),
                *env,
                denom,
                amount,
                hand,
                entropy@,
                ext.sender_balance,
                ext.banker_balance,
                r,
            ),
            HandleMsg::GenerateViewingKey { entropy, .. } => r matches Ok(resp) && vk_post(
                *old(ledger),
                *final(ledger),
                *env,
                entropy@,
                resp,
            ),
        },
{
    match msg {
        HandleMsg::MakeOffer {
            id,
            offeree,
            offeror_nft_contract,
            offeror_nft,
            offeror_code_hash,
            offeree_nft_contract,
            offeree_nft,
            offeree_code_hash,
            offeror_hands,
            offeror_draw_point,
        } => try_offer(
            ledger,
            env,
            id,
            offeree,
            offeror_nft_contract,
            offeror_nft,
            offeror_code_hash,
            offeree_nft_contract,
            offeree_nft,
            offeree_code_hash,
            offeror_hands,
            offeror_draw_point,
            ext.offeror_nft_owner,
            ext.offeree_nft_owner,
        ),
        HandleMsg::AcceptOffer { id, offeree_hands } => try_accept(ledger, env, id, offeree_hands),
        HandleMsg::DeclineOffer { id } => try_decline(ledger, env, id),
        HandleMsg::BetToken { denom, amount, hand, entropy } => try_bet_token(
            ledger,
            env,
            denom,
            amount,
            hand,
            entropy,
            ext.sender_balance,
            ext.banker_balance,
        ),
        HandleMsg::GenerateViewingKey { entropy, padding: _ } => Ok(
            try_generate_viewing_key(ledger, env, entropy),
        ),
    }
}

/// Law: token-wager resolution is deterministic. Two bets placed with
/// identical prior accumulator state, identical caller entropy and the
/// same declared hand derive the same fresh accumulator, the same house
/// hand, and the same outcome.
pub proof fn lemma_bet_determinism(
    acc1: Seq<u8>,
    acc2: Seq<u8>,
    e1: Seq<char>,
    e2: Seq<char>,
    h: Hand,
)
    requires
        acc1 == acc2,
        e1 == e2,
    ensures
        spec_new_rand_bytes(acc1, encode_utf8(e1)) == spec_new_rand_bytes(acc2, encode_utf8(e2)),
        spec_house_hand(spec_new_rand_bytes(acc1, encode_utf8(e1))) == spec_house_hand(
            spec_new_rand_bytes(acc2, encode_utf8(e2)),
        ),
        h.spec_compete(spec_house_hand(spec_new_rand_bytes(acc1, encode_utf8(e1))))
            == h.spec_compete(spec_house_hand(spec_new_rand_bytes(acc2, encode_utf8(e2)))),
{
}

} // verus!
