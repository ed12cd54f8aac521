use vstd::prelude::*;
use crate::decimal::{decimal_text, push_decimal};
use crate::errors::GameError;

verus! {

/// The handicap that the winner of a round inflicts on a surviving loser.
#[derive(Debug, Clone, Copy, PartialEq, Eq, Structural)]
pub enum Poison {
    Reductionvitesse,
    Reductionforce,
}

/// What a fighter shows to the game: a name, vitality, speed (`vitesse`) and force.
pub trait Combatant {
    fn get_name(&self) -> &str;

    fn get_vitality(&self) -> i32;

    fn get_vitesse(&self) -> i32;

    fn get_force(&self) -> i32;

    fn is_alive(&self) -> bool;
}

/// A fighter of the duel.
#[derive(Debug, Clone)]
pub struct Player {
    name: String,
    vitality: i32,
    vitesse: i32,
    force: i32,
}

/// The abstract state of a player.
pub struct PlayerView {
    pub name: Seq<char>,
    pub vitality: i32,
    pub vitesse: i32,
    pub force: i32,
}

impl PlayerView {
    /// A player in play: named, with no negative vitality, a positive speed and no
    /// negative force.
    pub open spec fn valid(self) -> bool {
        &&& self.name.len() > 0
        &&& self.vitality >= 0
        &&& self.vitesse >= 1
        &&& self.force >= 0
    }

    pub open spec fn alive(self) -> bool {
        self.vitality > 0
    }
}

impl View for Player {
    type V = PlayerView;

    closed spec fn view(&self) -> PlayerView {
        PlayerView {
            name: self.name@,
            vitality: self.vitality,
            vitesse: self.vitesse,
            force: self.force,
        }
    }
}

pub open spec fn max_int(a: int, b: int) -> int {
    if a >= b {
        a
    } else {
        b
    }
}

/// A player after taking `damage` points: vitality goes down, but not below zero.
pub open spec fn spec_take_damage(p: PlayerView, damage: int) -> PlayerView {
    PlayerView { vitality: max_int(p.vitality - damage, 0) as i32, ..p }
}

/// A player after a poison: speed loses 5 but stays at least 1, or force loses 5 but
/// stays at least 0.
pub open spec fn spec_apply_poison(p: PlayerView, poison: Poison) -> PlayerView {
    match poison {
        Poison::Reductionvitesse => PlayerView { vitesse: max_int(p.vitesse - 5, 1) as i32, ..p },
        Poison::Reductionforce => PlayerView { force: max_int(p.force - 5, 0) as i32, ..p },
    }
}

/// The arithmetic of a poison stays within `i32`.
pub open spec fn poison_fits(p: PlayerView, poison: Poison) -> bool {
    match poison {
        Poison::Reductionvitesse => p.vitesse - 5 >= i32::MIN,
        Poison::Reductionforce => p.force - 5 >= i32::MIN,
    }
}

pub open spec fn empty_name_message() -> Seq<char> {
    "Le nom ne peut pas être vide"@
}

pub open spec fn vitality_message() -> Seq<char> {
    "La vitalité doit être positive"@
}

pub open spec fn vitesse_message() -> Seq<char> {
    "La vitesse doit être positive"@
}

pub open spec fn force_message() -> Seq<char> {
    "La force ne peut pas être négative"@
}

pub open spec fn negative_damage_message() -> Seq<char> {
    "Les dégâts ne peuvent pas être négatifs"@
}

/// The outcome of `Player::new`: the first failed check, in the order name, vitality,
/// speed, force, gives the error.
pub open spec fn player_error_for(name: Seq<char>, vitality: int, vitesse: int, force: int) -> Option<
    Seq<char>,
> {
    if name.len() == 0 {
        Some(empty_name_message())
    } else if vitality <= 0 {
        Some(vitality_message())
    } else if vitesse <= 0 {
        Some(vitesse_message())
    } else if force < 0 {
        Some(force_message())
    } else {
        None
    }
}

/// How a player is shown: "name (Vitality=v, vitesse=s, force=f)".
pub open spec fn player_text(p: PlayerView) -> Seq<char> {
    p.name + " (Vitality="@ + decimal_text(p.vitality as int) + ", vitesse="@ + decimal_text(
        p.vitesse as int,
    ) + ", force="@ + decimal_text(p.force as int) + ")"@
}

impl Player {
    /// The player as shown on screen: name, vitality, speed and force.
    pub fn describe(&self) -> (text: String)
        ensures
            text@ == player_text(self@),
    {
        let mut text = String::from_str(self.name.as_str());
        text.append(" (Vitality=");
        push_decimal(&mut text, self.vitality);
        text.append(", vitesse=");
        push_decimal(&mut text, self.vitesse);
        text.append(", force=");
        push_decimal(&mut text, self.force);
        text.append(")");
        text
    }

    /// A new player; refused when the name is empty, the vitality or speed is not positive,
    /// or the force is negative.
    pub fn new(name: &str, vitality: i32, vitesse: i32, force: i32) -> (r: Result<Self, GameError>)
        ensures
            r is Ok <==> player_error_for(name@, vitality as int, vitesse as int, force as int)
                is None,
            r matches Ok(p) ==> p@ == (PlayerView { name: name@, vitality, vitesse, force }),
            r matches Ok(p) ==> p@.valid() && p@.alive(),
            r matches Err(e) ==> e matches GameError::PlayerError(m) && Some(m@)
                == player_error_for(name@, vitality as int, vitesse as int, force as int),
    {
        if name.is_empty() {
            return Err(GameError::PlayerError(String::from_str("Le nom ne peut pas être vide")));
        }
        if vitality <= 0 {
            return Err(GameError::PlayerError(String::from_str("La vitalité doit être positive")));
        }
        if vitesse <= 0 {
            return Err(GameError::PlayerError(String::from_str("La vitesse doit être positive")));
        }
        if force < 0 {
            return Err(
                GameError::PlayerError(String::from_str("La force ne peut pas être négative")),
            );
        }
        Ok(Player { name: String::from_str(name), vitality, vitesse, force })
    }

    /// Takes `damage` points of vitality, never going below zero; negative damage is refused
    /// and leaves the player unchanged.
    pub fn take_damage(&mut self, damage: i32) -> (r: Result<(), GameError>)
        requires
            damage >= 0 ==> old(self)@.vitality - damage >= i32::MIN,
        ensures
            r is Ok <==> damage >= 0,
            r is Ok ==> final(self)@ == spec_take_damage(old(self)@, damage as int),
            r is Err ==> final(self)@ == old(self)@,
            r matches Err(e) ==> e matches GameError::PlayerError(m) && m@
                == negative_damage_message(),
    {
        if damage < 0 {
            return Err(
                GameError::PlayerError(String::from_str("Les dégâts ne peuvent pas être négatifs")),
            );
        }
        let left = self.vitality - damage;
        self.vitality = if left >= 0 {
            left
        } else {
            0
        };
        Ok(())
    }

    /// Applies a poison: 5 less speed (at least 1 remains) or 5 less force (at least 0
    /// remains).
    pub fn apply_poison(&mut self, poison: Poison)
        requires
            poison_fits(old(self)@, poison),
        ensures
            final(self)@ == spec_apply_poison(old(self)@, poison),
    {
        match poison {
            Poison::Reductionvitesse => {
                let lowered = self.vitesse - 5;
                self.vitesse = if lowered >= 1 {
                    lowered
                } else {
                    1
                };
            },
            Poison::Reductionforce => {
                let lowered = self.force - 5;
                self.force = if lowered >= 0 {
                    lowered
                } else {
                    0
                };
            },
        }
    }

    /// Sets vitality, speed and force, keeping the name.
    pub fn reset(&mut self, vitality: i32, vitesse: i32, force: i32)
        ensures
            final(self)@ == (PlayerView { name: old(self)@.name, vitality, vitesse, force }),
    {
        self.vitality = vitality;
        self.vitesse = vitesse;
        self.force = force;
    }
}

impl Combatant for Player {
    fn get_name(&self) -> (name: &str)
        ensures
            name@ == self@.name,
    {
        self.name.as_str()
    }

    fn get_vitality(&self) -> (v: i32)
        ensures
            v == self@.vitality,
    {
        self.vitality
    }

    fn get_vitesse(&self) -> (v: i32)
        ensures
            v == self@.vitesse,
    {
        self.vitesse
    }

    fn get_force(&self) -> (f: i32)
        ensures
            f == self@.force,
    {
        self.force
    }

    fn is_alive(&self) -> (alive: bool)
        ensures
            alive == self@.alive(),
    {
        self.vitality > 0
    }
}

/// Damage and poison keep a player in play: a valid player stays valid, damage never
/// raises vitality, and damage kills exactly when it reaches the whole vitality.
pub proof fn law_damage_and_poison_keep_player_valid(p: PlayerView, damage: int, poison: Poison)
    requires
        p.valid(),
        damage >= 0,
    ensures
        spec_take_damage(p, damage).valid(),
        spec_take_damage(p, damage).vitality <= p.vitality,
        spec_take_damage(p, damage).alive() <==> damage < p.vitality,
        spec_take_damage(p, damage).alive() ==> spec_take_damage(p, damage).vitality == p.vitality
            - damage,
        spec_apply_poison(p, poison).valid(),
        spec_apply_poison(p, poison).vitality == p.vitality,
{
}

/// A poison lowers exactly one of speed and force, by at most 5, and leaves the rest as it was.
pub proof fn law_poison_lowers_one_trait(p: PlayerView, poison: Poison)
    requires
        p.valid(),
    ensures
        poison == Poison::Reductionvitesse ==> {
            &&& spec_apply_poison(p, poison).force == p.force
            &&& p.vitesse - 5 <= spec_apply_poison(p, poison).vitesse <= p.vitesse
            &&& (p.vitesse > 5 ==> spec_apply_poison(p, poison).vitesse == p.vitesse - 5)
        },
        poison == Poison::Reductionforce ==> {
            &&& spec_apply_poison(p, poison).vitesse == p.vitesse
            &&& p.force - 5 <= spec_apply_poison(p, poison).force <= p.force
            &&& (p.force >= 5 ==> spec_apply_poison(p, poison).force == p.force - 5)
        },
        spec_apply_poison(p, poison).name == p.name,
{
}

/// `Player::new` accepts exactly the settings with a non-empty name, a positive vitality,
/// a positive speed and a non-negative force, however large; otherwise it names the first
/// check that fails, in the order name, vitality, speed, force.
pub proof fn law_new_player_accepts_exactly_valid_settings(
    name: Seq<char>,
    vitality: int,
    vitesse: int,
    force: int,
)
    ensures
        player_error_for(name, vitality, vitesse, force) is None <==> (name.len() > 0 && vitality
            > 0 && vitesse > 0 && force >= 0),
        name.len() == 0 ==> player_error_for(name, vitality, vitesse, force) == Some(
            "Le nom ne peut pas être vide"@,
        ),
        name.len() > 0 && vitality <= 0 ==> player_error_for(name, vitality, vitesse, force)
            == Some("La vitalité doit être positive"@),
        name.len() > 0 && vitality > 0 && vitesse <= 0 ==> player_error_for(
            name,
            vitality,
            vitesse,
            force,
        ) == Some("La vitesse doit être positive"@),
        name.len() > 0 && vitality > 0 && vitesse > 0 && force < 0 ==> player_error_for(
            name,
            vitality,
            vitesse,
            force,
        ) == Some("La force ne peut pas être négative"@),
{
}

} // verus!
