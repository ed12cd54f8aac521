use duel_game::errors::GameError;
use duel_game::player::{Combatant, Player, Poison};

#[test]
fn test_new_player_valid() {
    let player = Player::new("Tommy", 50, 50, 50);
    assert!(player.is_ok());
    let p = player.unwrap();
    assert_eq!(p.get_name(), "Tommy");
    assert_eq!(p.get_vitality(), 50);
}

#[test]
fn test_new_player_empty_name() {
    assert!(Player::new("", 50, 50, 50).is_err());
}

#[test]
fn test_new_player_negative_vitality() {
    assert!(Player::new("Test", -10, 50, 50).is_err());
}

#[test]
fn test_new_player_zero_vitesse() {
    assert!(Player::new("Test", 50, 0, 50).is_err());
}

#[test]
fn test_take_damage() {
    let mut p = Player::new("Tommy", 50, 50, 50).unwrap();
    assert!(p.take_damage(13).is_ok());
    assert_eq!(p.get_vitality(), 37);
}

#[test]
fn test_poison_vitesse() {
    let mut p = Player::new("Tommy", 50, 50, 50).unwrap();
    p.apply_poison(Poison::Reductionvitesse);
    assert_eq!(p.get_vitesse(), 45);
}

#[test]
fn test_poison_force() {
    let mut p = Player::new("Tommy", 50, 50, 50).unwrap();
    p.apply_poison(Poison::Reductionforce);
    assert_eq!(p.get_force(), 45);
}

#[test]
fn test_vivant() {
    let p = Player::new("Tommy", 50, 50, 50).unwrap();
    assert!(p.is_alive());
}

#[test]
fn test_mort() {
    let mut p = Player::new("Tommy", 10, 50, 50).unwrap();
    let _ = p.take_damage(10);
    assert!(!p.is_alive());
}

fn player_error_text(r: Result<Player, GameError>) -> String {
    match r {
        Err(GameError::PlayerError(m)) => m,
        _ => panic!("expected a player error"),
    }
}

#[test]
fn new_player_errors_name_each_check() {
    assert_eq!(player_error_text(Player::new("", 50, 50, 50)), "Le nom ne peut pas être vide");
    assert_eq!(player_error_text(Player::new("A", 0, 50, 50)), "La vitalité doit être positive");
    assert_eq!(player_error_text(Player::new("A", 50, -1, 50)), "La vitesse doit être positive");
    assert_eq!(player_error_text(Player::new("A", 50, 50, -1)), "La force ne peut pas être négative");
    // The first failed check wins.
    assert_eq!(player_error_text(Player::new("", 0, 0, -1)), "Le nom ne peut pas être vide");
    assert!(Player::new("A", 1, 1, 0).is_ok());
}

#[test]
fn new_player_keeps_its_settings() {
    let p = Player::new("Christine", 30, 20, 10).unwrap();
    assert_eq!(p.get_name(), "Christine");
    assert_eq!(p.get_vitality(), 30);
    assert_eq!(p.get_vitesse(), 20);
    assert_eq!(p.get_force(), 10);
}

#[test]
fn damage_stops_at_zero() {
    let mut p = Player::new("Tommy", 10, 50, 50).unwrap();
    assert!(p.take_damage(25).is_ok());
    assert_eq!(p.get_vitality(), 0);
    assert!(!p.is_alive());
}

#[test]
fn negative_damage_is_refused() {
    let mut p = Player::new("Tommy", 10, 50, 50).unwrap();
    match p.take_damage(-3) {
        Err(GameError::PlayerError(m)) => assert_eq!(m, "Les dégâts ne peuvent pas être négatifs"),
        _ => panic!("expected a player error"),
    }
    assert_eq!(p.get_vitality(), 10);
}

#[test]
fn poison_has_a_floor() {
    let mut p = Player::new("Tommy", 50, 3, 2).unwrap();
    p.apply_poison(Poison::Reductionvitesse);
    assert_eq!(p.get_vitesse(), 1);
    assert_eq!(p.get_force(), 2);
    p.apply_poison(Poison::Reductionforce);
    assert_eq!(p.get_force(), 0);
    assert_eq!(p.get_vitesse(), 1);
    assert_eq!(p.get_vitality(), 50);
}

#[test]
fn reset_sets_the_three_traits() {
    let mut p = Player::new("Tommy", 50, 50, 50).unwrap();
    p.reset(7, 8, 9);
    assert_eq!(p.get_vitality(), 7);
    assert_eq!(p.get_vitesse(), 8);
    assert_eq!(p.get_force(), 9);
    assert_eq!(p.get_name(), "Tommy");
}

#[test]
fn player_is_described_with_its_traits() {
    let p = Player::new("Tommy", 50, 45, 0).unwrap();
    assert_eq!(p.describe(), "Tommy (Vitality=50, vitesse=45, force=0)");
    let mut q = Player::new("Christine", 7, 1, 2).unwrap();
    q.reset(-12, 2147483647, -2147483648);
    assert_eq!(
        q.describe(),
        "Christine (Vitality=-12, vitesse=2147483647, force=-2147483648)"
    );
}
