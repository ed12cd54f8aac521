use duel_game::counter::CounterResult;
use duel_game::errors::GameError;
use duel_game::game::{
    defeated, finish_turn, poison_due, generate_objectives, is_replay_answer, new_duelists,
    parse_poison_input, parse_replay_input, poison_for_choice, resolve_round, score_objective,
    GameConfig, ObjectiveDetail, RoundOutcome, Side,
};
use duel_game::player::{Combatant, Player, Poison};

#[test]
fn test_generate_objectives_valid() {
    let obj = generate_objectives(5).unwrap();
    assert_eq!(obj.len(), 5);
    for &v in &obj {
        assert!(v >= 0 && v <= 100);
    }
}

#[test]
fn test_generate_objectives_zero() {
    assert!(generate_objectives(0).is_err());
}

#[test]
fn test_game_config_default() {
    let cfg = GameConfig::default_with_names("Michel", "Jacque");
    assert_eq!(cfg.name1, "Michel");
    assert_eq!(cfg.name2, "Jacque");
    assert_eq!(cfg.vitality, 50);
    assert_eq!(cfg.vitesse, 50);
    assert_eq!(cfg.force, 50);
    assert_eq!(cfg.objectives, 5);
}

#[test]
fn objectives_stay_on_the_dial() {
    let obj = generate_objectives(200).unwrap();
    assert_eq!(obj.len(), 200);
    assert!(obj.iter().all(|&v| (0..=100).contains(&v)));
    match generate_objectives(0) {
        Err(GameError::GameLogicError(m)) => assert_eq!(m, "Nombre d'objectifs = 0"),
        _ => panic!("expected a game logic error"),
    }
}

#[test]
fn scoring_a_turn() {
    let d1 = score_objective(82, CounterResult { value: 80, miss: 0 }, 50).unwrap();
    assert_eq!(d1.score, 130);
    assert_eq!(d1.target, 82);
    assert_eq!(d1.counter_value, 80);
    assert_eq!(d1.miss, 0);
    let d2 = score_objective(50, CounterResult { value: 36, miss: 1 }, 50).unwrap();
    assert_eq!(d2.score, 45);
    assert!(score_objective(50, CounterResult { value: 36, miss: -1 }, 50).is_err());
    let turn = finish_turn(vec![d1, d2]).unwrap();
    assert_eq!(turn.average_score, 88);
    assert_eq!(turn.objective_details.len(), 2);
    let empty: Vec<ObjectiveDetail> = Vec::new();
    assert!(finish_turn(empty).is_err());
}

#[test]
fn poison_choice() {
    assert_eq!(poison_for_choice("1"), Some(Poison::Reductionvitesse));
    assert_eq!(poison_for_choice("2"), Some(Poison::Reductionforce));
    assert_eq!(poison_for_choice("3"), None);
    assert_eq!(poison_for_choice(" 1"), None);
    assert_eq!(parse_poison_input("  2\n"), Some(Poison::Reductionforce));
    assert_eq!(parse_poison_input("1\r\n"), Some(Poison::Reductionvitesse));
    assert_eq!(parse_poison_input("12\n"), None);
    assert_eq!(parse_poison_input("\n"), None);
    assert_eq!(parse_poison_input("\u{3000}1\u{a0}\t"), Some(Poison::Reductionvitesse));
    assert_eq!(parse_poison_input("1 2"), None);
}

#[test]
fn replay_answers() {
    for a in ["y", "yes", "o", "oui"] {
        assert!(is_replay_answer(a));
    }
    for a in ["n", "no", "Y", "", "ye", "ouii"] {
        assert!(!is_replay_answer(a));
    }
    assert!(parse_replay_input(" YES\n"));
    assert!(parse_replay_input("Oui\n"));
    assert!(parse_replay_input("o"));
    assert!(!parse_replay_input("non\n"));
    assert!(!parse_replay_input("\n"));
}

#[test]
fn duelists_from_config() {
    let cfg = GameConfig::default_with_names("Tommy", "Christine");
    let (p1, p2) = new_duelists(&cfg).unwrap();
    assert_eq!(p1.get_name(), "Tommy");
    assert_eq!(p2.get_name(), "Christine");
    assert_eq!(p2.get_vitality(), 50);
    let bad = GameConfig::default_with_names("Tommy", "");
    match new_duelists(&bad) {
        Err(GameError::PlayerError(m)) => assert_eq!(m, "Le nom ne peut pas être vide"),
        _ => panic!("expected a player error"),
    }
}

#[test]
fn a_round_damages_the_loser() {
    let mut p1 = Player::new("Tommy", 50, 50, 50).unwrap();
    let mut p2 = Player::new("Christine", 50, 50, 50).unwrap();
    let outcome = resolve_round(&mut p1, &mut p2, 90, 75);
    assert_eq!(outcome, RoundOutcome::Won { winner: Side::First, damage: 15 });
    assert_eq!(p1.get_vitality(), 50);
    assert_eq!(p2.get_vitality(), 35);
    assert_eq!(defeated(&p1, &p2), None);

    let outcome = resolve_round(&mut p1, &mut p2, 60, 60);
    assert_eq!(outcome, RoundOutcome::Draw);
    assert_eq!(p1.get_vitality(), 50);
    assert_eq!(p2.get_vitality(), 35);

    let outcome = resolve_round(&mut p1, &mut p2, 10, 130);
    assert_eq!(outcome, RoundOutcome::Won { winner: Side::Second, damage: 120 });
    assert_eq!(p1.get_vitality(), 0);
    assert_eq!(p2.get_vitality(), 35);
    assert_eq!(defeated(&p1, &p2), Some(Side::First));
}

#[test]
fn poison_goes_to_a_surviving_loser() {
    let mut p1 = Player::new("Tommy", 50, 50, 50).unwrap();
    let mut p2 = Player::new("Christine", 20, 50, 50).unwrap();
    let outcome = resolve_round(&mut p1, &mut p2, 90, 75);
    assert_eq!(poison_due(outcome, &p1, &p2), Some(Side::Second));
    let outcome = resolve_round(&mut p1, &mut p2, 70, 70);
    assert_eq!(poison_due(outcome, &p1, &p2), None);
    let outcome = resolve_round(&mut p1, &mut p2, 40, 45);
    assert_eq!(poison_due(outcome, &p1, &p2), Some(Side::First));
    let outcome = resolve_round(&mut p1, &mut p2, 130, 10);
    assert_eq!(p2.get_vitality(), 0);
    assert_eq!(poison_due(outcome, &p1, &p2), None);
}
