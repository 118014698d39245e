use chohan::dice::{is_bet_correct, mod_dice, Parity};
use chohan::numerals::{get_japanese_number, Number};
use chohan::parse::{parse_command_from_input, parse_parity_from_input, parse_u64, Command};
use chohan::purse::Purse;
use chohan::round::{play_round, resolve_round};

#[test]
fn parity_holds_for_every_pair() {
    for a in 1u8..=6 {
        for b in 1u8..=6 {
            let even = (a + b) % 2 == 0;
            let parity = mod_dice((a, b));
            assert_eq!(parity == Parity::CHO, even);
            assert_eq!(is_bet_correct((a, b), Parity::CHO), even);
            assert_eq!(is_bet_correct((a, b), Parity::HAN), !even);
        }
    }
}

#[test]
fn numeral_parses_exactly() {
    assert_eq!(parse_u64("0"), Some(0));
    assert_eq!(parse_u64("+42"), Some(42));
    assert_eq!(parse_u64("007"), Some(7));
    assert_eq!(parse_u64("18446744073709551615"), Some(u64::MAX));
    assert_eq!(parse_u64("18446744073709551616"), None);
    assert_eq!(parse_u64(""), None);
    assert_eq!(parse_u64("+"), None);
    assert_eq!(parse_u64("-1"), None);
    assert_eq!(parse_u64("1 2"), None);
    assert_eq!(parse_u64("1.5"), None);
}

#[test]
fn command_edges() {
    let purse = Purse(500);
    assert_eq!(
        parse_command_from_input("0".to_string(), &purse),
        Command::PROMPT
    );
    assert_eq!(
        parse_command_from_input("500".to_string(), &purse),
        Command::BET(500)
    );
    assert_eq!(
        parse_command_from_input("1".to_string(), &purse),
        Command::BET(1)
    );
    assert_eq!(
        parse_command_from_input("".to_string(), &purse),
        Command::PROMPT
    );
    let broke = Purse(0);
    assert_eq!(
        parse_command_from_input("Q".to_string(), &broke),
        Command::QUIT
    );
    assert_eq!(
        parse_command_from_input("1".to_string(), &broke),
        Command::PROMPT
    );
}

#[test]
fn parity_rejects_near_misses() {
    assert_eq!(parse_parity_from_input("CHO ".to_string()), None);
    assert_eq!(parse_parity_from_input("cho".to_string()), None);
    assert_eq!(parse_parity_from_input("HA".to_string()), None);
    assert_eq!(parse_parity_from_input("xyz".to_string()), None);
}

#[test]
fn numeral_tokens_are_distinct() {
    let names: Vec<&str> = (1u8..=6).map(|n| get_japanese_number(n).unwrap().name()).collect();
    for i in 0..names.len() {
        for j in 0..names.len() {
            if i != j {
                assert_ne!(names[i], names[j]);
            }
        }
    }
    assert_eq!(Number::ICHI.name(), "ICHI");
    assert_eq!(Number::ROKU.name(), "ROKU");
}

#[test]
fn winning_round_pays_bet_less_fee() {
    let mut purse = Purse(5000);
    let outcome = resolve_round(&mut purse, 1000, (2, 4), Parity::CHO);
    assert!(outcome.win);
    assert_eq!(outcome.fee, 100);
    assert_eq!(purse.0, 5900);
    assert!(!outcome.game_over);
}

#[test]
fn losing_round_forfeits_bet() {
    let mut purse = Purse(5000);
    let outcome = resolve_round(&mut purse, 1000, (2, 4), Parity::HAN);
    assert!(!outcome.win);
    assert_eq!(outcome.fee, 0);
    assert_eq!(purse.0, 4000);
    assert!(!outcome.game_over);
}

#[test]
fn small_win_fee_truncates_to_zero() {
    let mut purse = Purse(100);
    let outcome = resolve_round(&mut purse, 5, (3, 3), Parity::CHO);
    assert!(outcome.win);
    assert_eq!(outcome.fee, 0);
    assert_eq!(purse.0, 105);
}

#[test]
fn bankruptcy_ends_game() {
    let mut purse = Purse(500);
    let outcome = resolve_round(&mut purse, 500, (2, 3), Parity::CHO);
    assert!(!outcome.win);
    assert_eq!(purse.0, 0);
    assert!(outcome.game_over);
}

#[test]
fn played_round_obeys_the_rules() {
    let mut purse = Purse(1000);
    let outcome = play_round(&mut purse, 10, Parity::CHO);
    assert!((1..=6).contains(&outcome.dice.0));
    assert!((1..=6).contains(&outcome.dice.1));
    assert!(get_japanese_number(outcome.dice.0).is_some());
    assert!(get_japanese_number(outcome.dice.1).is_some());
    let even = (outcome.dice.0 + outcome.dice.1) % 2 == 0;
    assert_eq!(outcome.win, even);
    if outcome.win {
        assert_eq!(outcome.fee, 1);
        assert_eq!(purse.0, 1009);
    } else {
        assert_eq!(outcome.fee, 0);
        assert_eq!(purse.0, 990);
    }
    assert!(!outcome.game_over);
}
