use duel_game::errors::GameError;

#[test]
fn test_player_error_display() {
    let err = GameError::PlayerError("vitalité insuffisante".to_string());
    assert_eq!(err.message(), "Erreur Player: vitalité insuffisante");
}

#[test]
fn test_from_io_error() {
    let io_err = std::io::Error::new(std::io::ErrorKind::NotFound, "fichier absent");
    let game_err: GameError = GameError::from(io_err);
    match game_err {
        GameError::InputError(msg) => assert!(msg.contains("fichier absent")),
        _ => panic!("Mauvais type d'erreur"),
    }
}

#[test]
fn test_input_error_display() {
    let err = GameError::InputError("touche invalide".to_string());
    assert_eq!(err.message(), "Erreur Input: touche pas valide");
}

#[test]
fn test_game_logic_error_display() {
    let err = GameError::GameLogicError("thread panic".to_string());
    assert_eq!(err.message(), "Erreur game: thread panique");
}

#[test]
fn other_messages_are_shown_unchanged() {
    assert_eq!(
        GameError::InputError("Erreur stdin: broken pipe".to_string()).message(),
        "Erreur Input: Erreur stdin: broken pipe"
    );
    assert_eq!(GameError::InputError("invalide".to_string()).message(), "Erreur Input: invalide");
    assert_eq!(
        GameError::InputError("touche invalide ".to_string()).message(),
        "Erreur Input: touche invalide "
    );
    assert_eq!(
        GameError::PlayerError("coup invalide".to_string()).message(),
        "Erreur Player: coup invalide"
    );
    assert_eq!(
        GameError::PlayerError("touche invalide".to_string()).message(),
        "Erreur Player: touche invalide"
    );
    assert_eq!(
        GameError::GameLogicError("Miss négatif".to_string()).message(),
        "Erreur game: Miss négatif"
    );
    assert_eq!(
        GameError::GameLogicError("worker panic".to_string()).message(),
        "Erreur game: worker panic"
    );
    assert_eq!(
        GameError::InputError("thread panic".to_string()).message(),
        "Erreur Input: thread panic"
    );
}
