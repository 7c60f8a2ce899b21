use rps_wager::error::ContractError;
use rps_wager::hand::{Hand, Hands, MatchResult};

#[test]
fn hand_compete() {
    let rock = Hand::Rock;
    let paper = Hand::Paper;
    let scissors = Hand::Scissors;

    assert_eq!(MatchResult::Draw, rock.compete(&rock));
    assert_eq!(MatchResult::Draw, paper.compete(&paper));
    assert_eq!(MatchResult::Draw, scissors.compete(&scissors));

    assert_eq!(MatchResult::Win, paper.compete(&rock));
    assert_eq!(MatchResult::Win, scissors.compete(&paper));
    assert_eq!(MatchResult::Win, rock.compete(&scissors));

    assert_eq!(MatchResult::Lose, rock.compete(&paper));
    assert_eq!(MatchResult::Lose, paper.compete(&scissors));
    assert_eq!(MatchResult::Lose, scissors.compete(&rock));
}

#[test]
fn hands_compete() {
    let player1: Hands =
        Hands::new(vec![Hand::Rock, Hand::Paper, Hand::Scissors, Hand::Rock]);
    let player2: Hands =
        Hands::new(vec![Hand::Scissors, Hand::Paper, Hand::Rock, Hand::Scissors]);

    assert_eq!(MatchResult::Draw, player1.compete(&player2, 1));
    assert_eq!(MatchResult::Win, player1.compete(&player2, 0));
    assert_eq!(MatchResult::Lose, player1.compete(&player2, 2));

    assert_eq!(MatchResult::Draw, player2.compete(&player1, -1));
    assert_eq!(MatchResult::Win, player2.compete(&player1, -2));
    assert_eq!(MatchResult::Lose, player2.compete(&player1, 0));
}

#[test]
fn every_self_match_draws() {
    for h in [Hand::Rock, Hand::Paper, Hand::Scissors] {
        assert_eq!(MatchResult::Draw, h.compete(&h));
    }
}

#[test]
fn distinct_hands_have_one_winner() {
    let all = [Hand::Rock, Hand::Paper, Hand::Scissors];
    for a in all {
        for b in all {
            if a != b {
                let forward = a.compete(&b) == MatchResult::Win;
                let backward = b.compete(&a) == MatchResult::Win;
                assert_ne!(forward, backward);
            }
        }
    }
}

#[test]
fn all_wins_reaches_the_maximum_score() {
    // Three straight wins score three: won below the maximum, drawn at it.
    let winners = Hands::new(vec![Hand::Rock, Hand::Paper, Hand::Scissors]);
    let losers = Hands::new(vec![Hand::Scissors, Hand::Rock, Hand::Paper]);
    assert_eq!(MatchResult::Win, winners.compete(&losers, 0));
    assert_eq!(MatchResult::Win, winners.compete(&losers, 2));
    assert_eq!(MatchResult::Draw, winners.compete(&losers, 3));
}

#[test]
fn wire_roundtrip_preserves_hands() {
    let bytes: Vec<u8> = vec![1, 2, 3, 1, 3];
    let hands = Hands::from_u8_vec(&bytes).unwrap();
    assert_eq!(bytes, hands.to_u8_vec());

    let direct = Hands::new(vec![Hand::Rock, Hand::Paper, Hand::Scissors]);
    let reencoded = Hands::from_u8_vec(&direct.to_u8_vec()).unwrap();
    assert_eq!(direct, reencoded);
}

#[test]
fn hand_codes_map_to_the_wire_bytes() {
    assert_eq!(1, Hand::Rock.u8());
    assert_eq!(2, Hand::Paper.u8());
    assert_eq!(3, Hand::Scissors.u8());
    assert_eq!(Ok(Hand::Rock), Hand::from_code(1));
    assert_eq!(Ok(Hand::Paper), Hand::from_code(2));
    assert_eq!(Ok(Hand::Scissors), Hand::from_code(3));
}

#[test]
fn malformed_hand_byte_is_a_typed_error() {
    assert_eq!(Err(ContractError::MalformedHand { code: 0 }), Hand::from_code(0));
    assert_eq!(Err(ContractError::MalformedHand { code: 7 }), Hand::from_code(7));
    let res = Hands::from_u8_vec(&vec![1, 9, 3]);
    assert_eq!(Err(ContractError::MalformedHand { code: 9 }), res);
}

#[test]
fn match_result_points_and_labels() {
    assert_eq!(-1, MatchResult::Lose.to_point());
    assert_eq!(0, MatchResult::Draw.to_point());
    assert_eq!(1, MatchResult::Win.to_point());
    assert_eq!("lose", MatchResult::Lose.to_str());
    assert_eq!("draw", MatchResult::Draw.to_str());
    assert_eq!("win", MatchResult::Win.to_str());
}
