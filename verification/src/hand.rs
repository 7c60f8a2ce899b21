//! The hand-competition engine.
//!
//! A `Hand` is one of three cyclically ordered choices; a `Hands` value is
//! one party's full multi-round commitment, compared positionally against
//! an opponent sequence of equal length. The accumulated score (one point
//! for a win, zero for a draw, minus one for a loss at each position) is
//! compared against a signed tie-break threshold, the draw point.
//!
//! The signed one-point-per-round scale is the canonical convention here,
//! and every position is always evaluated: the walk never exits early,
//! even when the threshold is already out of reach.

use vstd::prelude::*;

use crate::error::ContractError;

verus! {

/// One of the three cyclically ordered choices.
#[derive(Clone, Copy, Debug, PartialEq, Eq, Structural)]
pub enum Hand {
    Rock,
    Paper,
    Scissors,
}

/// The verdict of a competition, single-round or multi-round.
#[derive(Clone, Copy, Debug, PartialEq, Eq, Structural)]
pub enum MatchResult {
    Lose,
    Draw,
    Win,
}

impl Hand {
    /// The single byte that stands for this hand on the wire.
    pub open spec fn spec_code(self) -> u8 {
        match self {
            Hand::Rock => 1,
            Hand::Paper => 2,
            Hand::Scissors => 3,
        }
    }

    /// The hand a wire byte stands for, if the byte is in range.
    pub open spec fn spec_from_code(code: u8) -> Option<Hand> {
        match code {
            1u8 => Some(Hand::Rock),
            2u8 => Some(Hand::Paper),
            3u8 => Some(Hand::Scissors),
            _ => None,
        }
    }

    /// True when `self` defeats `other`: each hand beats exactly the hand
    /// it precedes in the cycle Rock -> Scissors -> Paper -> Rock.
    pub open spec fn spec_beats(self, other: Hand) -> bool {
        ||| (self is Rock && other is Scissors)
        ||| (self is Paper && other is Rock)
        ||| (self is Scissors && other is Paper)
    }

    /// The single-round rule: equal hands draw, otherwise the cyclic
    /// successor wins.
    pub open spec fn spec_compete(self, other: Hand) -> MatchResult {
        if self == other {
            MatchResult::Draw
        } else if self.spec_beats(other) {
            MatchResult::Win
        } else {
            MatchResult::Lose
        }
    }

    /// The wire byte of this hand.
    pub fn u8(&self) -> (code: u8)
        ensures
            code == self.spec_code(),
    {
        match self {
            Hand::Rock => 1,
            Hand::Paper => 2,
            Hand::Scissors => 3,
        }
    }

    /// Decodes a wire byte; a byte outside the wire range is a recoverable
    /// `MalformedHand` failure, never an abort.
    pub fn from_code(code: u8) -> (r: Result<Hand, ContractError>)
        ensures
            match r {
                Ok(h) => Hand::spec_from_code(code) == Some(h),
                Err(e) => Hand::spec_from_code(code) is None && e == (ContractError::MalformedHand { code }),
            },
            r is Ok <==> Hand::spec_from_code(code) is Some,
    {
        match code {
            1 => Ok(Hand::Rock),
            2 => Ok(Hand::Paper),
            3 => Ok(Hand::Scissors),
            _ => Err(ContractError::MalformedHand { code }),
        }
    }

    /// Resolves one round against an opponent hand.
    pub fn compete(&self, opponent: &Hand) -> (r: MatchResult)
        ensures
            r == self.spec_compete(*opponent),
    {
        match (self, opponent) {
            (Hand::Rock, Hand::Rock) => MatchResult::Draw,
            (Hand::Paper, Hand::Paper) => MatchResult::Draw,
            (Hand::Scissors, Hand::Scissors) => MatchResult::Draw,
            (Hand::Rock, Hand::Scissors) => MatchResult::Win,
            (Hand::Paper, Hand::Rock) => MatchResult::Win,
            (Hand::Scissors, Hand::Paper) => MatchResult::Win,
            (Hand::Rock, Hand::Paper) => MatchResult::Lose,
            (Hand::Paper, Hand::Scissors) => MatchResult::Lose,
            (Hand::Scissors, Hand::Rock) => MatchResult::Lose,
        }
    }
}

impl MatchResult {
    /// The score a position contributes: a win counts one, a draw zero,
    /// a loss minus one.
    pub open spec fn spec_point(self) -> int {
        match self {
            MatchResult::Lose => -1,
            MatchResult::Draw => 0,
            MatchResult::Win => 1,
        }
    }

    /// The score of one position as a machine integer.
    pub fn to_point(&self) -> (p: i8)
        ensures
            p == self.spec_point(),
    {
        match self {
            MatchResult::Lose => -1,
            MatchResult::Draw => 0,
            MatchResult::Win => 1,
        }
    }

    /// The textual label of this verdict.
    pub open spec fn spec_label(self) -> Seq<char> {
        match self {
            MatchResult::Lose => "lose"@,
            MatchResult::Draw => "draw"@,
            MatchResult::Win => "win"@,
        }
    }

    /// The textual label of this verdict, for logs and audit records.
    pub fn to_str(&self) -> (s: String)
        ensures
            s@ == self.spec_label(),
    {
        match self {
            MatchResult::Lose => String::from_str("lose"),
            MatchResult::Draw => String::from_str("draw"),
            MatchResult::Win => String::from_str("win"),
        }
    }
}

/// An ordered sequence of hands: one party's full multi-round commitment.
#[derive(Debug, PartialEq, Eq)]
pub struct Hands(Vec<Hand>);

impl View for Hands {
    type V = Seq<Hand>;

    closed spec fn view(&self) -> Seq<Hand> {
        self.0@
    }
}

impl Clone for Hands {
    /// Cloning a commitment keeps its sequence of hands.
    fn clone(&self) -> (r: Self)
        ensures
            r@ == self@,
    {
        let mut v: Vec<Hand> = Vec::new();
        let n = self.0.len();
        for i in 0..n
            invariant
                n == self.0.len(),
                v@ =~= self.0@.take(i as int),
        {
            v.push(self.0[i]);
        }
        assert(v@ =~= self.0@);
        Hands(v)
    }
}

/// The accumulated score of the first `n` positions of `a` against `b`.
pub open spec fn spec_score_prefix(a: Seq<Hand>, b: Seq<Hand>, n: int) -> int
    decreases n,
{
    if n <= 0 {
        0
    } else {
        spec_score_prefix(a, b, n - 1) + a[n - 1].spec_compete(b[n - 1]).spec_point()
    }
}

/// The accumulated score of the whole of `a` against `b`.
pub open spec fn spec_score(a: Seq<Hand>, b: Seq<Hand>) -> int
    recommends
        a.len() == b.len(),
{
    spec_score_prefix(a, b, a.len() as int)
}

/// The multi-round rule: the accumulated score is compared against the
/// draw point; above it the first party wins, at it the round draws,
/// below it the first party loses.
pub open spec fn spec_hands_compete(a: Seq<Hand>, b: Seq<Hand>, draw_point: int) -> MatchResult
    recommends
        a.len() == b.len(),
{
    let score = spec_score(a, b);
    if score > draw_point {
        MatchResult::Win
    } else if score == draw_point {
        MatchResult::Draw
    } else {
        MatchResult::Lose
    }
}

/// The byte-array wire form of a hand sequence.
pub open spec fn spec_encode(s: Seq<Hand>) -> Seq<u8> {
    Seq::new(s.len(), |i: int| s[i].spec_code())
}

/// The hand sequence a byte array stands for, if every byte is in range.
pub open spec fn spec_decode(bytes: Seq<u8>) -> Option<Seq<Hand>> {
    if forall|i: int| 0 <= i < bytes.len() ==> Hand::spec_from_code(bytes[i]) is Some {
        Some(Seq::new(bytes.len(), |i: int| Hand::spec_from_code(bytes[i]).unwrap()))
    } else {
        None
    }
}

impl Hands {
    /// Wraps a sequence of decoded hands.
    pub fn new(hands: Vec<Hand>) -> (r: Hands)
        ensures
            r@ == hands@,
    {
        Hands(hands)
    }

    /// The number of rounds this commitment covers.
    pub fn len(&self) -> (n: usize)
        ensures
            n == self@.len(),
    {
        self.0.len()
    }

    /// Resolves a full match against an opponent commitment of equal
    /// length under the given draw point.
    pub fn compete(&self, opponent: &Hands, draw_point: i8) -> (r: MatchResult)
        requires
            self@.len() == opponent@.len(),
        ensures
            r == spec_hands_compete(self@, opponent@, draw_point as int),
    {
        let n = self.0.len();
        let mut point: i128 = 0;
        for i in 0..n
            invariant
                n == self@.len() == opponent@.len(),
                point == spec_score_prefix(self@, opponent@, i as int),
                -(i as int) <= point <= i as int,
        {
            let result = self.0[i].compete(&opponent.0[i]);
            point = point + result.to_point() as i128;
        }
        if point > draw_point as i128 {
            MatchResult::Win
        } else if point == draw_point as i128 {
            MatchResult::Draw
        } else {
            MatchResult::Lose
        }
    }

    /// Encodes this commitment into its byte-array wire form.
    pub fn to_u8_vec(&self) -> (r: Vec<u8>)
        ensures
            r@ == spec_encode(self@),
    {
        let mut result: Vec<u8> = Vec::new();
        let n = self.0.len();
        for i in 0..n
            invariant
                n == self.0.len(),
                result@.len() == i,
                forall|j: int| 0 <= j < i ==> result@[j] == self.0@[j].spec_code(),
        {
            result.push(self.0[i].u8());
        }
        assert(result@ =~= spec_encode(self@));
        result
    }

    /// Decodes a byte-array wire form; the first byte outside the wire
    /// range is reported as a `MalformedHand` failure.
    pub fn from_u8_vec(bytes: &Vec<u8>) -> (r: Result<Hands, ContractError>)
        ensures
            r is Ok <==> spec_decode(bytes@) is Some,
            match r {
                Ok(h) => spec_decode(bytes@) == Some(h@),
                Err(e) => exists|i: int|
                    0 <= i < bytes@.len() && Hand::spec_from_code(bytes@[i]) is None
                        && e == (ContractError::MalformedHand { code: bytes@[i] })
                        && forall|j: int| 0 <= j < i ==> Hand::spec_from_code(#[trigger] bytes@[j]) is Some,
            },
    {
        let mut hands: Vec<Hand> = Vec::new();
        let n = bytes.len();
        for i in 0..n
            invariant
                n == bytes@.len(),
                hands@.len() == i,
                forall|j: int| 0 <= j < i ==> Hand::spec_from_code(#[trigger] bytes@[j]) is Some,
                forall|j: int| 0 <= j < i ==> hands@[j] == Hand::spec_from_code(#[trigger] bytes@[j]).unwrap(),
        {
            match Hand::from_code(bytes[i]) {
                Ok(h) => hands.push(h),
                Err(e) => {
                    return Err(e);
                },
            }
        }
        proof {
            assert(spec_decode(bytes@) == Some(hands@)) by {
                assert(hands@ =~= Seq::new(bytes@.len(), |i: int| Hand::spec_from_code(bytes@[i]).unwrap()));
            }
        }
        Ok(Hands(hands))
    }
}

/// Law: every hand drawn against itself is a draw, and no hand beats
/// itself.
pub proof fn lemma_self_match_draws(h: Hand)
    ensures
        h.spec_compete(h) is Draw,
        !h.spec_beats(h),
{
}

/// Law: for two distinct hands, exactly one of the two defeats the other;
/// there are no double wins and no winless pairs in the cycle.
pub proof fn lemma_one_winner(a: Hand, b: Hand)
    requires
        a != b,
    ensures
        a.spec_beats(b) <==> !b.spec_beats(a),
        a.spec_compete(b) is Win <==> b.spec_compete(a) is Lose,
{
}

/// Law: when every position of `a` defeats the matching position of `b`,
/// the accumulated score reaches its maximum, the length of the sequence;
/// the match is then won at any draw point below that maximum and drawn at
/// exactly that maximum, so for draw points up to the maximum the first
/// party cannot lose. (At a draw point above the sequence length the
/// verdict is a loss even for an all-winning sequence.)
pub proof fn lemma_all_wins_is_max(a: Seq<Hand>, b: Seq<Hand>, draw_point: int)
    requires
        a.len() == b.len(),
        forall|i: int| 0 <= i < a.len() ==> a[i].spec_beats(#[trigger] b[i]),
    ensures
        spec_score(a, b) == a.len(),
        draw_point < a.len() ==> spec_hands_compete(a, b, draw_point) is Win,
        draw_point == a.len() ==> spec_hands_compete(a, b, draw_point) is Draw,
        draw_point <= a.len() ==> !(spec_hands_compete(a, b, draw_point) is Lose),
{
    lemma_all_wins_prefix(a, b, a.len() as int);
}

proof fn lemma_all_wins_prefix(a: Seq<Hand>, b: Seq<Hand>, n: int)
    requires
        n <= a.len() == b.len(),
        forall|i: int| 0 <= i < a.len() ==> a[i].spec_beats(#[trigger] b[i]),
    ensures
        n >= 0 ==> spec_score_prefix(a, b, n) == n,
    decreases n,
{
    if n > 0 {
        lemma_all_wins_prefix(a, b, n - 1);
        assert(a[n - 1].spec_beats(b[n - 1]));
    }
}

/// Law: encoding a hand sequence to its byte-array wire form and decoding
/// the bytes back yields the original sequence; in particular every
/// encoded form decodes successfully.
pub proof fn lemma_encode_decode_roundtrip(s: Seq<Hand>)
    ensures
        spec_decode(spec_encode(s)) == Some(s),
{
    let bytes = spec_encode(s);
    assert(forall|i: int| 0 <= i < bytes.len() ==> Hand::spec_from_code(#[trigger] bytes[i]) is Some);
    assert(Seq::new(bytes.len(), |i: int| Hand::spec_from_code(bytes[i]).unwrap()) =~= s);
}

} // verus!
