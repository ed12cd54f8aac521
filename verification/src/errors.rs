use vstd::prelude::*;

verus! {

/// The errors that the game reports: bad input, an invalid player, or a broken game rule.
#[derive(Debug)]
pub enum GameError {
    InputError(String),
    PlayerError(String),
    GameLogicError(String),
}

/// The message of an input error as it is shown: "touche invalide" reads
/// "touche pas valide"; every other message is shown as it is.
pub open spec fn shown_input_message(msg: Seq<char>) -> Seq<char> {
    if msg == "touche invalide"@ {
        "touche pas valide"@
    } else {
        msg
    }
}

/// The message of a game-logic error as it is shown: "thread panic" reads
/// "thread panique"; every other message is shown as it is.
pub open spec fn shown_logic_message(msg: Seq<char>) -> Seq<char> {
    if msg == "thread panic"@ {
        "thread panique"@
    } else {
        msg
    }
}

/// The text that describes an error: a prefix naming its kind, then its message.
pub open spec fn error_text(err: GameError) -> Seq<char> {
    match err {
        GameError::InputError(msg) => "Erreur Input: "@ + shown_input_message(msg@),
        GameError::PlayerError(msg) => "Erreur Player: "@ + msg@,
        GameError::GameLogicError(msg) => "Erreur game: "@ + shown_logic_message(msg@),
    }
}

/// `msg`, except that the message `from` is shown as `to`.
fn shown_as(msg: &String, from: &str, to: &str) -> (text: String)
    ensures
        text@ == (if msg@ == from@ {
            to@
        } else {
            msg@
        }),
{
    let special = String::from_str(from);
    if *msg == special {
        String::from_str(to)
    } else {
        msg.clone()
    }
}

impl GameError {
    /// The text of the error, as it is shown to the players.
    pub fn message(&self) -> (text: String)
        ensures
            text@ == error_text(*self),
    {
        match self {
            GameError::InputError(msg) => String::from_str("Erreur Input: ").concat(
                shown_as(msg, "touche invalide", "touche pas valide").as_str(),
            ),
            GameError::PlayerError(msg) => String::from_str("Erreur Player: ").concat(
                msg.as_str(),
            ),
            GameError::GameLogicError(msg) => String::from_str("Erreur game: ").concat(
                shown_as(msg, "thread panic", "thread panique").as_str(),
            ),
        }
    }
}

/// `std::io::Error`, carried through as an opaque value.
#[verifier::external_type_specification]
#[verifier::external_body]
pub struct ExIoError(std::io::Error);

/// Calls `ToString::to_string` on a `std::io::Error`, i.e. its `Display` text.
/// Nothing is claimed of the text: std's documentation does not state what it holds.
#[verifier::external_body]
fn io_error_text(err: &std::io::Error) -> (text: String) {
    err.to_string()
}

impl From<std::io::Error> for GameError {
    /// An input/output failure becomes an input error that carries its text.
    fn from(err: std::io::Error) -> (res: Self)
        ensures
            res is InputError,
    {
        GameError::InputError(io_error_text(&err))
    }
}

impl vstd::std_specs::convert::FromSpecImpl<std::io::Error> for GameError {
    open spec fn obeys_from_spec() -> bool {
        false
    }

    open spec fn from_spec(v: std::io::Error) -> Self {
        vstd::pervasive::arbitrary()
    }
}

} // verus!
