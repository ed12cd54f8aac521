use vstd::prelude::*;
use rand::Rng;
use crate::counter::CounterResult;
use crate::errors::GameError;
use crate::player::{
    Combatant,
    Player,
    PlayerView,
    Poison,
    player_error_for,
    spec_take_damage,
};
use crate::scoring::{
    calculate_round_average,
    compute_full_score,
    running_sums_fit,
    spec_base_score,
    spec_circular_difference,
    spec_full_score,
    spec_round_average,
    empty_scores_message,
};

verus! {

/// The settings of a game: the two names, and the vitality, speed (`vitesse`) and force
/// that both players start with, and the number of objectives per turn.
#[derive(Debug, Clone)]
pub struct GameConfig {
    pub name1: String,
    pub name2: String,
    pub vitality: i32,
    pub vitesse: i32,
    pub force: i32,
    pub objectives: usize,
}

impl GameConfig {
    /// The default settings for two named players: vitality, speed and force 50,
    /// five objectives per turn.
    pub fn default_with_names(name1: &str, name2: &str) -> (cfg: Self)
        ensures
            cfg.name1@ == name1@,
            cfg.name2@ == name2@,
            cfg.vitality == 50,
            cfg.vitesse == 50,
            cfg.force == 50,
            cfg.objectives == 5,
    {
        GameConfig {
            name1: String::from_str(name1),
            name2: String::from_str(name2),
            vitality: 50,
            vitesse: 50,
            force: 50,
            objectives: 5,
        }
    }
}

/// The outcome of one player's turn: the average score, and each objective's detail.
#[derive(Debug, Clone)]
pub struct TurnResult {
    pub average_score: i32,
    pub objective_details: Vec<ObjectiveDetail>,
}

/// One objective of a turn: the target, where the counter stopped, its misses, the score.
#[derive(Debug, Clone)]
pub struct ObjectiveDetail {
    pub target: i32,
    pub counter_value: i32,
    pub miss: i32,
    pub score: i32,
}

/// `rand::rngs::ThreadRng`, carried through as an opaque value.
#[verifier::external_type_specification]
#[verifier::external_body]
pub struct ExThreadRng(rand::rngs::ThreadRng);

/// Calls `rand::rng()`, the thread-local random generator. Nothing is claimed of it.
#[verifier::external_body]
fn thread_rng() -> (rng: rand::rngs::ThreadRng) {
    rand::rng()
}

/// Calls `Rng::random_range` with the inclusive range `low..=high`: the value drawn lies in
/// that range, which rand's documentation promises (and which must not be empty).
#[verifier::external_body]
fn random_between(rng: &mut rand::rngs::ThreadRng, low: i32, high: i32) -> (v: i32)
    requires
        low <= high,
    ensures
        low <= v <= high,
{
    rng.random_range(low..=high)
}

pub open spec fn no_objective_message() -> Seq<char> {
    "Nombre d'objectifs = 0"@
}

/// Draws `count` targets for a turn, each between 0 and 100; none at all is refused.
pub fn generate_objectives(count: usize) -> (r: Result<Vec<i32>, GameError>)
    ensures
        r is Ok <==> count > 0,
        r matches Ok(objectives) ==> objectives@.len() == count && forall|i: int|
            0 <= i < count ==> 0 <= #[trigger] objectives@[i] <= 100,
        r matches Err(e) ==> e matches GameError::GameLogicError(m) && m@
            == no_objective_message(),
{
    if count == 0 {
        return Err(GameError::GameLogicError(String::from_str("Nombre d'objectifs = 0")));
    }
    let mut rng = thread_rng();
    let mut objectives: Vec<i32> = Vec::new();
    let mut i: usize = 0;
    while i < count
        invariant
            i <= count,
            objectives@.len() == i,
            forall|j: int| 0 <= j < i ==> 0 <= #[trigger] objectives@[j] <= 100,
        decreases count - i,
    {
        let target = random_between(&mut rng, 0, 100);
        objectives.push(target);
        i = i + 1;
    }
    Ok(objectives)
}

/// Scores one objective of a turn from where the player stopped the counter.
pub fn score_objective(target: i32, result: CounterResult, force: i32) -> (r: Result<
    ObjectiveDetail,
    GameError,
>)
    requires
        i32::MIN < result.value - target <= i32::MAX,
        result.miss >= 0 ==> spec_base_score(
            spec_circular_difference(result.value as int, target as int),
        ) + force <= i32::MAX && result.miss < i32::MAX,
    ensures
        r is Ok <==> result.miss >= 0,
        r matches Ok(detail) ==> {
            &&& detail.target == target
            &&& detail.counter_value == result.value
            &&& detail.miss == result.miss
            &&& detail.score == spec_full_score(
                result.value as int,
                target as int,
                force as int,
                result.miss as int,
            )
        },
        r matches Err(e) ==> e matches GameError::GameLogicError(m) && m@
            == crate::scoring::negative_miss_message(),
{
    let score = compute_full_score(result.value, target, force, result.miss)?;
    Ok(ObjectiveDetail { target, counter_value: result.value, miss: result.miss, score })
}

/// The scores of a turn's objectives, in order.
pub open spec fn detail_scores(details: Seq<ObjectiveDetail>) -> Seq<i32> {
    details.map_values(|d: ObjectiveDetail| d.score)
}

/// Closes a turn: its average is the mean of the objectives' scores, rounded up; a turn
/// without objectives is refused.
pub fn finish_turn(details: Vec<ObjectiveDetail>) -> (r: Result<TurnResult, GameError>)
    requires
        running_sums_fit(detail_scores(details@)),
    ensures
        r is Ok <==> details@.len() > 0,
        r matches Ok(turn) ==> turn.average_score == spec_round_average(detail_scores(details@))
            && turn.objective_details@ == details@,
        r matches Err(e) ==> e matches GameError::GameLogicError(m) && m@
            == empty_scores_message(),
{
    let mut scores: Vec<i32> = Vec::new();
    let mut i: usize = 0;
    while i < details.len()
        invariant
            i <= details@.len(),
            scores@ == detail_scores(details@).take(i as int),
        decreases details@.len() - i,
    {
        scores.push(details[i].score);
        i = i + 1;
        assert(scores@ =~= detail_scores(details@).take(i as int));
    }
    assert(scores@ =~= detail_scores(details@));
    let average = calculate_round_average(scores.as_slice())?;
    Ok(TurnResult { average_score: average, objective_details: details })
}

/// The characters with the Unicode property White_Space, which `str::trim` removes:
/// U+0009 to U+000D, U+0020, U+0085, U+00A0, U+1680, U+2000 to U+200A, U+2028, U+2029,
/// U+202F, U+205F and U+3000.
pub open spec fn is_white_space(c: char) -> bool {
    let n = c as u32;
    ||| 0x9 <= n <= 0xd
    ||| n == 0x20
    ||| n == 0x85
    ||| n == 0xa0
    ||| n == 0x1680
    ||| 0x2000 <= n <= 0x200a
    ||| n == 0x2028
    ||| n == 0x2029
    ||| n == 0x202f
    ||| n == 0x205f
    ||| n == 0x3000
}

/// A text without its leading white space.
pub open spec fn trim_start_chars(text: Seq<char>) -> Seq<char>
    decreases text.len(),
{
    if text.len() > 0 && is_white_space(text[0]) {
        trim_start_chars(text.drop_first())
    } else {
        text
    }
}

/// A text without its trailing white space.
pub open spec fn trim_end_chars(text: Seq<char>) -> Seq<char>
    decreases text.len(),
{
    if text.len() > 0 && is_white_space(text.last()) {
        trim_end_chars(text.drop_last())
    } else {
        text
    }
}

/// What `str::trim` gives back for a text: the text without its leading and trailing
/// white space.
pub open spec fn trimmed(text: Seq<char>) -> Seq<char> {
    trim_end_chars(trim_start_chars(text))
}

/// What `str::to_lowercase` gives back for a text.
pub uninterp spec fn lowercased(text: Seq<char>) -> Seq<char>;

/// Calls `str::trim`: std documents it as the text without its leading and trailing
/// white space, white space being the Unicode property White_Space (`trimmed`).
#[verifier::external_body]
fn trim_text(text: &str) -> (t: &str)
    ensures
        t@ == trimmed(text@),
{
    text.trim()
}

/// Calls `str::to_lowercase`: the text in lower case, named by `lowercased`.
#[verifier::external_body]
fn lowercase_text(text: &str) -> (t: String)
    ensures
        t@ == lowercased(text@),
{
    text.to_lowercase()
}

/// The poison that a winner's answer selects: "1" for speed, "2" for force, none otherwise.
pub open spec fn spec_poison_choice(answer: Seq<char>) -> Option<Poison> {
    if answer == seq!['1'] {
        Some(Poison::Reductionvitesse)
    } else if answer == seq!['2'] {
        Some(Poison::Reductionforce)
    } else {
        None
    }
}

/// The answers that ask for another game: "y", "yes", "o" and "oui".
pub open spec fn spec_is_replay_answer(answer: Seq<char>) -> bool {
    ||| answer == seq!['y']
    ||| answer == seq!['y', 'e', 's']
    ||| answer == seq!['o']
    ||| answer == seq!['o', 'u', 'i']
}

/// Whether a text is exactly the one character `c`.
fn is_single(text: &str, c: char) -> (b: bool)
    ensures
        b == (text@ == seq![c]),
{
    let n = text.unicode_len();
    if n != 1 {
        assert(text@.len() != 1);
        return false;
    }
    let first = text.get_char(0);
    if first == c {
        assert(text@ =~= seq![c]);
        true
    } else {
        false
    }
}

/// Whether a text is exactly the three characters `a`, `b`, `c`.
fn is_triple(text: &str, a: char, b: char, c: char) -> (r: bool)
    ensures
        r == (text@ == seq![a, b, c]),
{
    let n = text.unicode_len();
    if n != 3 {
        assert(text@.len() != 3);
        return false;
    }
    if text.get_char(0) == a && text.get_char(1) == b && text.get_char(2) == c {
        assert(text@ =~= seq![a, b, c]);
        true
    } else {
        false
    }
}

/// The poison that a winner's (trimmed) answer selects.
pub fn poison_for_choice(answer: &str) -> (r: Option<Poison>)
    ensures
        r == spec_poison_choice(answer@),
{
    if is_single(answer, '1') {
        Some(Poison::Reductionvitesse)
    } else if is_single(answer, '2') {
        Some(Poison::Reductionforce)
    } else {
        None
    }
}

/// The poison that a line typed by the winner selects, ignoring surrounding white space;
/// `None` asks for the choice again.
pub fn parse_poison_input(line: &str) -> (r: Option<Poison>)
    ensures
        r == spec_poison_choice(trimmed(line@)),
{
    let answer = trim_text(line);
    poison_for_choice(answer)
}

/// Whether a (trimmed, lower-case) answer asks for another game.
pub fn is_replay_answer(answer: &str) -> (replay: bool)
    ensures
        replay == spec_is_replay_answer(answer@),
{
    is_single(answer, 'y') || is_triple(answer, 'y', 'e', 's') || is_single(answer, 'o')
        || is_triple(answer, 'o', 'u', 'i')
}

/// Whether a line typed after a game asks for another one, ignoring surrounding white
/// space and case.
pub fn parse_replay_input(line: &str) -> (replay: bool)
    ensures
        replay == spec_is_replay_answer(lowercased(trimmed(line@))),
{
    let answer = trim_text(line);
    let lower = lowercase_text(answer);
    is_replay_answer(lower.as_str())
}

/// One of the two players of a duel.
#[derive(Debug, Clone, Copy, PartialEq, Eq, Structural)]
pub enum Side {
    First,
    Second,
}

/// How a round ended: a draw, or a winner whose score gap is the damage the loser took.
#[derive(Debug, Clone, Copy, PartialEq, Eq, Structural)]
pub enum RoundOutcome {
    Draw,
    Won { winner: Side, damage: i32 },
}

/// The two players after a round with the given average scores: the loser takes the score
/// gap as damage; a draw changes nothing.
pub open spec fn spec_round(p1: PlayerView, p2: PlayerView, score1: int, score2: int) -> (
    PlayerView,
    PlayerView,
) {
    if score1 > score2 {
        (p1, spec_take_damage(p2, score1 - score2))
    } else if score2 > score1 {
        (spec_take_damage(p1, score2 - score1), p2)
    } else {
        (p1, p2)
    }
}

/// The outcome that a round with the given average scores reports.
pub open spec fn spec_round_outcome(score1: int, score2: int) -> RoundOutcome {
    if score1 > score2 {
        RoundOutcome::Won { winner: Side::First, damage: (score1 - score2) as i32 }
    } else if score2 > score1 {
        RoundOutcome::Won { winner: Side::Second, damage: (score2 - score1) as i32 }
    } else {
        RoundOutcome::Draw
    }
}

/// The arithmetic of a round stays within `i32`.
pub open spec fn round_fits(p1: PlayerView, p2: PlayerView, score1: int, score2: int) -> bool {
    &&& i32::MIN <= score1 - score2 <= i32::MAX
    &&& i32::MIN <= score2 - score1 <= i32::MAX
    &&& (score1 > score2 ==> p2.vitality - (score1 - score2) >= i32::MIN)
    &&& (score2 > score1 ==> p1.vitality - (score2 - score1) >= i32::MIN)
}

/// The two players of a game, both built from the game's settings; the first player's
/// error comes first.
pub fn new_duelists(config: &GameConfig) -> (r: Result<(Player, Player), GameError>)
    ensures
        r is Ok <==> player_error_for(
            config.name1@,
            config.vitality as int,
            config.vitesse as int,
            config.force as int,
        ) is None && player_error_for(
            config.name2@,
            config.vitality as int,
            config.vitesse as int,
            config.force as int,
        ) is None,
        r matches Ok(players) ==> {
            &&& players.0@ == (PlayerView {
                name: config.name1@,
                vitality: config.vitality,
                vitesse: config.vitesse,
                force: config.force,
            })
            &&& players.1@ == (PlayerView {
                name: config.name2@,
                vitality: config.vitality,
                vitesse: config.vitesse,
                force: config.force,
            })
        },
        r matches Err(e) ==> e matches GameError::PlayerError(m) && {
            let first = player_error_for(
                config.name1@,
                config.vitality as int,
                config.vitesse as int,
                config.force as int,
            );
            let second = player_error_for(
                config.name2@,
                config.vitality as int,
                config.vitesse as int,
                config.force as int,
            );
            if first is Some {
                first == Some(m@)
            } else {
                second == Some(m@)
            }
        },
{
    let player1 = match Player::new(config.name1.as_str(), config.vitality, config.vitesse, config.force) {
        Ok(p) => p,
        Err(e) => return Err(e),
    };
    let player2 = match Player::new(config.name2.as_str(), config.vitality, config.vitesse, config.force) {
        Ok(p) => p,
        Err(e) => return Err(e),
    };
    Ok((player1, player2))
}

/// Settles a round from the two players' average scores: the one with the higher score wins
/// and the other loses the difference in vitality; equal scores change nothing.
pub fn resolve_round(player1: &mut Player, player2: &mut Player, score1: i32, score2: i32) -> (outcome: RoundOutcome)
    requires
        round_fits(old(player1)@, old(player2)@, score1 as int, score2 as int),
    ensures
        (final(player1)@, final(player2)@) == spec_round(
            old(player1)@,
            old(player2)@,
            score1 as int,
            score2 as int,
        ),
        outcome == spec_round_outcome(score1 as int, score2 as int),
{
    if score1 > score2 {
        let damage = score1 - score2;
        let _ = player2.take_damage(damage);
        RoundOutcome::Won { winner: Side::First, damage }
    } else if score2 > score1 {
        let damage = score2 - score1;
        let _ = player1.take_damage(damage);
        RoundOutcome::Won { winner: Side::Second, damage }
    } else {
        RoundOutcome::Draw
    }
}

/// The player killed at the end of a round, if any; the first player is looked at first.
pub fn defeated(player1: &Player, player2: &Player) -> (side: Option<Side>)
    ensures
        side == (if !player1@.alive() {
            Some(Side::First)
        } else if !player2@.alive() {
            Some(Side::Second)
        } else {
            None
        }),
{
    if !player1.is_alive() {
        Some(Side::First)
    } else if !player2.is_alive() {
        Some(Side::Second)
    } else {
        None
    }
}

/// The player who gets a poison after a round: the loser, if still alive; nobody after a
/// draw or when the loser died.
pub open spec fn spec_poison_due(outcome: RoundOutcome, p1: PlayerView, p2: PlayerView) -> Option<
    Side,
> {
    match outcome {
        RoundOutcome::Draw => None,
        RoundOutcome::Won { winner: Side::First, .. } => if p2.alive() {
            Some(Side::Second)
        } else {
            None
        },
        RoundOutcome::Won { winner: Side::Second, .. } => if p1.alive() {
            Some(Side::First)
        } else {
            None
        },
    }
}

/// Which player, after a round with this outcome, must receive a poison.
pub fn poison_due(outcome: RoundOutcome, player1: &Player, player2: &Player) -> (side: Option<Side>)
    ensures
        side == spec_poison_due(outcome, player1@, player2@),
{
    match outcome {
        RoundOutcome::Draw => None,
        RoundOutcome::Won { winner: Side::First, .. } => if player2.is_alive() {
            Some(Side::Second)
        } else {
            None
        },
        RoundOutcome::Won { winner: Side::Second, .. } => if player1.is_alive() {
            Some(Side::First)
        } else {
            None
        },
    }
}

/// After a round, a poison goes to the loser exactly when the loser survived the damage,
/// never to the winner, and never after a draw.
pub proof fn law_poison_only_for_surviving_loser(
    p1: PlayerView,
    p2: PlayerView,
    score1: int,
    score2: int,
)
    ensures
        ({
            let after = spec_round(p1, p2, score1, score2);
            let due = spec_poison_due(spec_round_outcome(score1, score2), after.0, after.1);
            &&& (score1 == score2 ==> due is None)
            &&& (score1 > score2 ==> (due == Some(Side::Second) <==> after.1.alive()) && due
                != Some(Side::First))
            &&& (score2 > score1 ==> (due == Some(Side::First) <==> after.0.alive()) && due
                != Some(Side::Second))
        }),
{
}

/// A round keeps both players in play: valid players stay valid, only the loser loses
/// vitality, exactly the score gap (down to zero), and a draw leaves both as they were.
pub proof fn law_round_damages_only_the_loser(
    p1: PlayerView,
    p2: PlayerView,
    score1: int,
    score2: int,
)
    requires
        p1.valid(),
        p2.valid(),
    ensures
        spec_round(p1, p2, score1, score2).0.valid(),
        spec_round(p1, p2, score1, score2).1.valid(),
        score1 > score2 ==> spec_round(p1, p2, score1, score2).0 == p1 && spec_round(
            p1,
            p2,
            score1,
            score2,
        ).1.vitality == if p2.vitality > score1 - score2 {
            p2.vitality - (score1 - score2)
        } else {
            0
        },
        score2 > score1 ==> spec_round(p1, p2, score1, score2).1 == p2 && spec_round(
            p1,
            p2,
            score1,
            score2,
        ).0.vitality == if p1.vitality > score2 - score1 {
            p1.vitality - (score2 - score1)
        } else {
            0
        },
        score1 == score2 ==> spec_round(p1, p2, score1, score2) == (p1, p2),
        spec_round(p1, p2, score1, score2).0.vitality <= p1.vitality,
        spec_round(p1, p2, score1, score2).1.vitality <= p2.vitality,
{
}

} // verus!
