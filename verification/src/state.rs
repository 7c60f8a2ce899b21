//! The persisted state of the engine.
//!
//! The host ledger is modelled as a plain value: a singleton
//! configuration record, the collection of offers keyed by their numeric
//! id, and the per-identity viewing-key hashes. Each invocation receives
//! the ledger, and either commits its mutation or leaves it untouched.

use vstd::prelude::*;

use crate::contract::INVERSE_BASIS_POINT;
use crate::hand::Hands;
use vstd::pervasive::VecAdditionalExecFns;

verus! {

/// Process-wide configuration created once at initialization: the seed
/// for all future randomness, the running entropy accumulator advanced by
/// every token wager, the house identity, the fee recipient, and the fee
/// rate in basis points.
#[derive(Debug, PartialEq, Eq)]
pub struct State {
    pub prng_seed: Vec<u8>,
    pub entropy: Vec<u8>,
    pub banker_wallet: String,
    pub fee_recipient: String,
    pub fee_rate: u64,
}

/// The lifecycle status of an offer; it only ever moves forward, from
/// `Offered` to exactly one of `Accepted` or `Declined`.
#[derive(Clone, Copy, Debug, PartialEq, Eq, Structural)]
pub enum OfferStatus {
    Offered,
    Accepted,
    Declined,
}

/// A wager between two parties over two identified assets.
#[derive(Debug, PartialEq, Eq)]
pub struct Offer {
    pub id: u64,
    pub status: OfferStatus,
    pub offeror: String,
    pub offeree: String,
    pub offeror_nft_contract: String,
    pub offeror_nft: String,
    pub offeror_code_hash: String,
    pub offeree_nft_contract: String,
    pub offeree_nft: String,
    pub offeree_code_hash: String,
    pub offeror_hands: Hands,
    pub offeree_hands: Hands,
    pub offeror_draw_point: i8,
    pub winner: String,
}

impl Clone for Offer {
    /// Cloning an offer keeps every field; the hand commitments keep
    /// their sequences.
    fn clone(&self) -> (r: Self)
        ensures
            r.id == self.id,
            r.status == self.status,
            r.offeror == self.offeror,
            r.offeree == self.offeree,
            r.offeror_nft_contract == self.offeror_nft_contract,
            r.offeror_nft == self.offeror_nft,
            r.offeror_code_hash == self.offeror_code_hash,
            r.offeree_nft_contract == self.offeree_nft_contract,
            r.offeree_nft == self.offeree_nft,
            r.offeree_code_hash == self.offeree_code_hash,
            r.offeror_hands@ == self.offeror_hands@,
            r.offeree_hands@ == self.offeree_hands@,
            r.offeror_draw_point == self.offeror_draw_point,
            r.winner == self.winner,
    {
        Offer {
            id: self.id,
            status: self.status,
            offeror: self.offeror.clone(),
            offeree: self.offeree.clone(),
            offeror_nft_contract: self.offeror_nft_contract.clone(),
            offeror_nft: self.offeror_nft.clone(),
            offeror_code_hash: self.offeror_code_hash.clone(),
            offeree_nft_contract: self.offeree_nft_contract.clone(),
            offeree_nft: self.offeree_nft.clone(),
            offeree_code_hash: self.offeree_code_hash.clone(),
            offeror_hands: self.offeror_hands.clone(),
            offeree_hands: self.offeree_hands.clone(),
            offeror_draw_point: self.offeror_draw_point,
            winner: self.winner.clone(),
        }
    }
}

impl Offer {
    /// Creates a fresh offer in `Offered` status: the offeree's
    /// commitment is empty until acceptance, the winner label is empty
    /// until resolution.
    pub fn new(
        id: u64,
        offeror: String,
        offeree: String,
        offeror_nft_contract: String,
        offeror_nft: String,
        offeror_code_hash: String,
        offeree_nft_contract: String,
        offeree_nft: String,
        offeree_code_hash: String,
        hands: Hands,
        draw_point: i8,
    ) -> (o: Offer)
        ensures
            o.id == id,
            o.status is Offered,
            o.offeror == offeror,
            o.offeree == offeree,
            o.offeror_nft_contract == offeror_nft_contract,
            o.offeror_nft == offeror_nft,
            o.offeror_code_hash == offeror_code_hash,
            o.offeree_nft_contract == offeree_nft_contract,
            o.offeree_nft == offeree_nft,
            o.offeree_code_hash == offeree_code_hash,
            o.offeror_hands@ == hands@,
            o.offeree_hands@ == Seq::<crate::hand::Hand>::empty(),
            o.offeror_draw_point == draw_point,
            o.winner@ == ""@,
    {
        Offer {
            id,
            status: OfferStatus::Offered,
            offeror,
            offeree,
            offeror_nft_contract,
            offeror_nft,
            offeror_code_hash,
            offeree_nft_contract,
            offeree_nft,
            offeree_code_hash,
            offeror_hands: hands,
            offeree_hands: Hands::new(Vec::new()),
            offeror_draw_point: draw_point,
            winner: String::from_str(""),
        }
    }

    /// Marks the offer accepted and records the offeree's commitment.
    pub fn accept_offer(&mut self, offeree: String, hands: Hands)
        ensures
            final(self).status is Accepted,
            final(self).offeree == offeree,
            final(self).offeree_hands@ == hands@,
            final(self).id == old(self).id,
            final(self).offeror == old(self).offeror,
            final(self).offeror_nft_contract == old(self).offeror_nft_contract,
            final(self).offeror_nft == old(self).offeror_nft,
            final(self).offeror_code_hash == old(self).offeror_code_hash,
            final(self).offeree_nft_contract == old(self).offeree_nft_contract,
            final(self).offeree_nft == old(self).offeree_nft,
            final(self).offeree_code_hash == old(self).offeree_code_hash,
            final(self).offeror_hands@ == old(self).offeror_hands@,
            final(self).offeror_draw_point == old(self).offeror_draw_point,
            final(self).winner == old(self).winner,
    {
        self.status = OfferStatus::Accepted;
        self.offeree = offeree;
        self.offeree_hands = hands;
    }

    /// Marks the offer declined; both staked assets stay with their
    /// holders, as the engine never took custody.
    pub fn decline_offer(&mut self, offeree: String)
        ensures
            final(self).status is Declined,
            final(self).offeree == offeree,
            final(self).id == old(self).id,
            final(self).offeror == old(self).offeror,
            final(self).offeror_nft_contract == old(self).offeror_nft_contract,
            final(self).offeror_nft == old(self).offeror_nft,
            final(self).offeror_code_hash == old(self).offeror_code_hash,
            final(self).offeree_nft_contract == old(self).offeree_nft_contract,
            final(self).offeree_nft == old(self).offeree_nft,
            final(self).offeree_code_hash == old(self).offeree_code_hash,
            final(self).offeror_hands@ == old(self).offeror_hands@,
            final(self).offeree_hands@ == old(self).offeree_hands@,
            final(self).offeror_draw_point == old(self).offeror_draw_point,
            final(self).winner == old(self).winner,
    {
        self.status = OfferStatus::Declined;
        self.offeree = offeree;
    }
}

/// An audit record of a resolved token wager.
#[derive(Debug, PartialEq, Eq)]
pub struct TokenBet {
    pub id: u64,
    pub denom: String,
    pub amount: u64,
    pub hand: crate::hand::Hand,
    pub result: String,
}

/// One stored viewing-key hash, keyed by the identity that generated it.
#[derive(Debug, PartialEq, Eq)]
pub struct VkEntry {
    pub owner: String,
    pub hash: Vec<u8>,
}

/// No two stored offers share an id.
pub open spec fn offers_unique(s: Seq<Offer>) -> bool {
    forall|i: int, j: int| #![trigger s[i], s[j]] 0 <= i < j < s.len() ==> s[i].id != s[j].id
}

/// Some stored offer carries this id.
pub open spec fn spec_has_offer(s: Seq<Offer>, id: u64) -> bool {
    exists|i: int| 0 <= i < s.len() && (#[trigger] s[i]).id == id
}

/// The position of the offer carrying this id; meaningful only when such
/// an offer exists and ids are unique.
pub open spec fn spec_offer_index(s: Seq<Offer>, id: u64) -> int {
    choose|i: int| 0 <= i < s.len() && (#[trigger] s[i]).id == id
}

/// No two stored viewing-key entries share an owner.
pub open spec fn vks_unique(s: Seq<VkEntry>) -> bool {
    forall|i: int, j: int| #![trigger s[i], s[j]] 0 <= i < j < s.len() ==> s[i].owner@ != s[j].owner@
}

/// Some entry stores a key hash for this owner.
pub open spec fn spec_has_vk(s: Seq<VkEntry>, owner: Seq<char>) -> bool {
    exists|i: int| 0 <= i < s.len() && (#[trigger] s[i]).owner@ == owner
}

/// The position of the entry for this owner; meaningful only when such an
/// entry exists and owners are unique.
pub open spec fn spec_vk_index(s: Seq<VkEntry>, owner: Seq<char>) -> int {
    choose|i: int| 0 <= i < s.len() && (#[trigger] s[i]).owner@ == owner
}

/// The key hash stored for this owner.
pub open spec fn spec_vk_hash(s: Seq<VkEntry>, owner: Seq<char>) -> Seq<u8> {
    s[spec_vk_index(s, owner)].hash@
}

/// How writing a key hash changes the stored entries: the owner's
/// existing entry is overwritten, or a fresh entry is appended, and no
/// other entry moves.
pub open spec fn vk_written(pre: Seq<VkEntry>, post: Seq<VkEntry>, owner: Seq<char>, hash: Seq<u8>) -> bool {
    if spec_has_vk(pre, owner) {
        let i = spec_vk_index(pre, owner);
        &&& post.len() == pre.len()
        &&& forall|j: int| 0 <= j < pre.len() && j != i ==> post[j] == pre[j]
        &&& post[i].owner@ == owner
        &&& post[i].hash@ == hash
    } else {
        &&& post.len() == pre.len() + 1
        &&& post.take(pre.len() as int) == pre
        &&& post.last().owner@ == owner
        &&& post.last().hash@ == hash
    }
}

/// The whole persisted state: the configuration singleton, the offers,
/// and the viewing-key hashes.
#[derive(Debug)]
pub struct Ledger {
    pub state: State,
    pub offers: Vec<Offer>,
    pub viewing_keys: Vec<VkEntry>,
}

impl Ledger {
    /// The ledger's invariant: offer ids are unique, viewing-key owners
    /// are unique, and the fee rate never exceeds the basis-point
    /// denominator. Initialization establishes it and every handler
    /// preserves it.
    pub open spec fn wf(self) -> bool {
        &&& offers_unique(self.offers@)
        &&& vks_unique(self.viewing_keys@)
        &&& self.state.fee_rate <= INVERSE_BASIS_POINT
    }

    /// Locates the offer carrying an id.
    pub fn find_offer(&self, id: u64) -> (r: Option<usize>)
        requires
            offers_unique(self.offers@),
        ensures
            match r {
                None => !spec_has_offer(self.offers@, id),
                Some(i) => {
                    &&& spec_has_offer(self.offers@, id)
                    &&& i < self.offers@.len()
                    &&& self.offers@[i as int].id == id
                    &&& i == spec_offer_index(self.offers@, id)
                },
            },
    {
        let n = self.offers.len();
        for i in 0..n
            invariant
                n == self.offers@.len(),
                offers_unique(self.offers@),
                forall|j: int| 0 <= j < i ==> (#[trigger] self.offers@[j]).id != id,
        {
            if self.offers[i].id == id {
                proof {
                    assert(spec_has_offer(self.offers@, id));
                    let w = spec_offer_index(self.offers@, id);
                    assert(0 <= w < self.offers@.len() && self.offers@[w].id == id);
                    assert(w == i);
                }
                return Some(i);
            }
        }
        proof {
            assert(!spec_has_offer(self.offers@, id));
        }
        None
    }

    /// Locates the viewing-key entry of an owner.
    pub fn find_vk(&self, owner: &String) -> (r: Option<usize>)
        requires
            vks_unique(self.viewing_keys@),
        ensures
            match r {
                None => !spec_has_vk(self.viewing_keys@, owner@),
                Some(i) => {
                    &&& spec_has_vk(self.viewing_keys@, owner@)
                    &&& i < self.viewing_keys@.len()
                    &&& self.viewing_keys@[i as int].owner@ == owner@
                    &&& i == spec_vk_index(self.viewing_keys@, owner@)
                },
            },
    {
        let n = self.viewing_keys.len();
        for i in 0..n
            invariant
                n == self.viewing_keys@.len(),
                vks_unique(self.viewing_keys@),
                forall|j: int| 0 <= j < i ==> (#[trigger] self.viewing_keys@[j]).owner@ != owner@,
        {
            if self.viewing_keys[i].owner == *owner {
                proof {
                    assert(spec_has_vk(self.viewing_keys@, owner@));
                    let w = spec_vk_index(self.viewing_keys@, owner@);
                    assert(0 <= w < self.viewing_keys@.len() && self.viewing_keys@[w].owner@ == owner@);
                    assert(w == i);
                }
                return Some(i);
            }
        }
        proof {
            assert(!spec_has_vk(self.viewing_keys@, owner@));
        }
        None
    }
}


/// Stores a key hash for an owner, overwriting any earlier entry; the
/// hash is the only thing persisted, never the plaintext key.
pub fn write_viewing_key(ledger: &mut Ledger, owner: &String, key_hash: Vec<u8>)
    requires
        vks_unique(old(ledger).viewing_keys@),
    ensures
        vks_unique(final(ledger).viewing_keys@),
        vk_written(old(ledger).viewing_keys@, final(ledger).viewing_keys@, owner@, key_hash@),
        spec_has_vk(final(ledger).viewing_keys@, owner@),
        spec_vk_hash(final(ledger).viewing_keys@, owner@) == key_hash@,
        final(ledger).state == old(ledger).state,
        final(ledger).offers == old(ledger).offers,
{
    let entry = VkEntry { owner: owner.clone(), hash: key_hash };
    match ledger.find_vk(owner) {
        Some(i) => {
            ledger.viewing_keys.set(i, entry);
            proof {
                let pre = old(ledger).viewing_keys@;
                let post = ledger.viewing_keys@;
                assert forall|a: int, b: int| #![trigger post[a], post[b]]
                    0 <= a < b < post.len() implies post[a].owner@ != post[b].owner@ by {
                    assert(pre[a].owner@ != pre[b].owner@);
                }
                assert(post[i as int].owner@ == owner@);
                assert(spec_has_vk(post, owner@));
                let w = spec_vk_index(post, owner@);
                assert(0 <= w < post.len() && post[w].owner@ == owner@);
                assert(w == i as int);
            }
        },
        None => {
            ledger.viewing_keys.push(entry);
            proof {
                let pre = old(ledger).viewing_keys@;
                let post = ledger.viewing_keys@;
                assert(forall|k: int| 0 <= k < pre.len() ==> (#[trigger] pre[k]).owner@ != owner@);
                assert forall|a: int, b: int| #![trigger post[a], post[b]]
                    0 <= a < b < post.len() implies post[a].owner@ != post[b].owner@ by {
                    if b < pre.len() {
                        assert(pre[a].owner@ != pre[b].owner@);
                    } else {
                        assert(pre[a].owner@ != owner@);
                    }
                }
                assert(post.take(pre.len() as int) =~= pre);
                assert(post[post.len() - 1].owner@ == owner@);
                assert(spec_has_vk(post, owner@));
                let w = spec_vk_index(post, owner@);
                assert(0 <= w < post.len() && post[w].owner@ == owner@);
                assert(w == post.len() - 1);
            }
        },
    }
}

/// Reads the key hash stored for an owner, if any.
pub fn read_viewing_key<'a>(ledger: &'a Ledger, owner: &String) -> (r: Option<&'a Vec<u8>>)
    requires
        vks_unique(ledger.viewing_keys@),
    ensures
        r is Some <==> spec_has_vk(ledger.viewing_keys@, owner@),
        r matches Some(h) ==> h@ == spec_vk_hash(ledger.viewing_keys@, owner@),
{
    match ledger.find_vk(owner) {
        Some(i) => Some(&ledger.viewing_keys[i].hash),
        None => None,
    }
}

} // verus!
