//! Controlled vocabularies of the feed: lookup values and the enumerations
//! that their display names are normalized into. Every normalizer is total:
//! a name outside the known vocabulary maps to a fallback, never to an error.

use vstd::prelude::*;
use crate::value::{Value, DecodeError, field, as_uint, as_text, is_absent, text_eq, read_uint, read_text};

verus! {

/// An (identifier, display name) pair referring to a vocabulary term: a
/// team, a player, a position, a body part, an outcome.
#[derive(Debug)]
pub struct EventSubType {
    pub id: u32,
    pub name: String,
}

impl Clone for EventSubType {
    fn clone(&self) -> (r: Self)
        ensures
            r == *self,
    {
        EventSubType { id: self.id, name: self.name.clone() }
    }
}

/// Whether `o` is an object whose `id` and `name` are those of `l`.
pub open spec fn lookup_is(o: Option<Value>, l: EventSubType) -> bool {
    match o {
        Some(x) => x is Object && as_uint(field(x, "id"@), u32::MAX as nat) == Some(l.id as nat)
            && as_text(field(x, "name"@)) == Some(l.name@),
        None => false,
    }
}

/// Whether `o` is an object with a 32-bit `id` and a textual `name`.
pub open spec fn lookup_ok(o: Option<Value>) -> bool {
    match o {
        Some(x) => x is Object && as_uint(field(x, "id"@), u32::MAX as nat) is Some
            && as_text(field(x, "name"@)) is Some,
        None => false,
    }
}

/// Whether `o` is absent or null (`l` is `None`) or a lookup value that `l` holds.
pub open spec fn opt_lookup_is(o: Option<Value>, l: Option<EventSubType>) -> bool {
    match l {
        None => is_absent(o),
        Some(x) => lookup_is(o, x),
    }
}

/// Whether `o` is absent, null, or a well-formed lookup value.
pub open spec fn opt_lookup_ok(o: Option<Value>) -> bool {
    is_absent(o) || lookup_ok(o)
}

impl EventSubType {
    /// Decodes a lookup value.
    pub fn decode(v: &Value) -> (r: Result<EventSubType, DecodeError>)
        ensures
            match r {
                Ok(l) => lookup_is(Some(*v), l),
                Err(_) => !lookup_ok(Some(*v)),
            },
    {
        if !matches!(v, Value::Object(_)) {
            return Err(DecodeError);
        }
        let id = read_uint(v, "id", 4294967295)?;
        let name = read_text(v, "name")?;
        Ok(EventSubType { id: id as u32, name })
    }

    /// Decodes the lookup value in field `key`, which must be present.
    pub fn decode_field(v: &Value, key: &str) -> (r: Result<EventSubType, DecodeError>)
        ensures
            match r {
                Ok(l) => lookup_is(field(*v, key@), l),
                Err(_) => !lookup_ok(field(*v, key@)),
            },
    {
        match v.get(key) {
            Some(x) => EventSubType::decode(x),
            None => Err(DecodeError),
        }
    }

    /// Decodes the lookup value in field `key`, where absent or null is `None`.
    pub fn decode_opt_field(v: &Value, key: &str) -> (r: Result<Option<EventSubType>, DecodeError>)
        ensures
            match r {
                Ok(l) => opt_lookup_is(field(*v, key@), l),
                Err(_) => !opt_lookup_ok(field(*v, key@)),
            },
    {
        match v.get(key) {
            None => Ok(None),
            Some(Value::Null) => Ok(None),
            Some(x) => {
                let l = EventSubType::decode(x)?;
                Ok(Some(l))
            },
        }
    }
}

/// The category of an event. Names outside the known vocabulary are kept
/// in `Unknown`.
#[derive(Debug)]
pub enum EventType {
    BallReceipt,
    BallRecovery,
    Dispossesed,
    Duel,
    CameraOn,
    Block,
    Offside,
    Clearance,
    Interception,
    Dribble,
    Shot,
    Pressure,
    HalfStart,
    Substitution,
    OwnGoalAgainst,
    FoulWon,
    FoulCommitted,
    GoalKeeper,
    BadBehaviour,
    OwnGoalFor,
    PlayerOn,
    PlayerOff,
    Shield,
    Pass,
    FiftyFifty,
    HalfEnd,
    StartingEleven,
    TacticalShift,
    Error,
    Miscontrol,
    DribbledPast,
    InjuryStoppage,
    RefereeBallDrop,
    Carry,
    Unknown(String),
}

/// The known category that a display name denotes, if any.
pub open spec fn known_event_type(s: Seq<char>) -> Option<EventType> {
    if s == "Ball Receipt*"@ {
        Some(EventType::BallReceipt)
    } else if s == "Ball Recovery"@ {
        Some(EventType::BallRecovery)
    } else if s == "Dispossessed"@ {
        Some(EventType::Dispossesed)
    } else if s == "Duel"@ {
        Some(EventType::Duel)
    } else if s == "Camera On"@ {
        Some(EventType::CameraOn)
    } else if s == "Block"@ {
        Some(EventType::Block)
    } else if s == "Offside"@ {
        Some(EventType::Offside)
    } else if s == "Clearance"@ {
        Some(EventType::Clearance)
    } else if s == "Interception"@ {
        Some(EventType::Interception)
    } else if s == "Dribble"@ {
        Some(EventType::Dribble)
    } else if s == "Shot"@ {
        Some(EventType::Shot)
    } else if s == "Pressure"@ {
        Some(EventType::Pressure)
    } else if s == "Half Start"@ {
        Some(EventType::HalfStart)
    } else if s == "Substitution"@ {
        Some(EventType::Substitution)
    } else if s == "Own Goal Against"@ {
        Some(EventType::OwnGoalAgainst)
    } else if s == "Foul Won"@ {
        Some(EventType::FoulWon)
    } else if s == "Foul Committed"@ {
        Some(EventType::FoulCommitted)
    } else if s == "Goal Keeper"@ {
        Some(EventType::GoalKeeper)
    } else if s == "Bad Behaviour"@ {
        Some(EventType::BadBehaviour)
    } else if s == "Own Goal For"@ {
        Some(EventType::OwnGoalFor)
    } else if s == "Player On"@ {
        Some(EventType::PlayerOn)
    } else if s == "Player Off"@ {
        Some(EventType::PlayerOff)
    } else if s == "Shield"@ {
        Some(EventType::Shield)
    } else if s == "Pass"@ {
        Some(EventType::Pass)
    } else if s == "50/50"@ {
        Some(EventType::FiftyFifty)
    } else if s == "Half End"@ {
        Some(EventType::HalfEnd)
    } else if s == "Starting XI"@ {
        Some(EventType::StartingEleven)
    } else if s == "Tactical Shift"@ {
        Some(EventType::TacticalShift)
    } else if s == "Error"@ {
        Some(EventType::Error)
    } else if s == "Miscontrol"@ {
        Some(EventType::Miscontrol)
    } else if s == "Dribbled Past"@ {
        Some(EventType::DribbledPast)
    } else if s == "Injury Stoppage"@ {
        Some(EventType::InjuryStoppage)
    } else if s == "Referee Ball-Drop"@ {
        Some(EventType::RefereeBallDrop)
    } else if s == "Carry"@ {
        Some(EventType::Carry)
    } else {
        None
    }
}

/// Whether `t` is the category that the display name `s` normalizes to.
pub open spec fn names_event_type(s: Seq<char>, t: EventType) -> bool {
    match known_event_type(s) {
        Some(k) => t == k,
        None => t matches EventType::Unknown(u) && u@ == s,
    }
}

impl EventType {
    /// Normalizes a display name; unknown names are kept as `Unknown`.
    pub fn from_name(input: &str) -> (r: EventType)
        ensures
            names_event_type(input@, r),
    {
        if text_eq(input, "Ball Receipt*") {
            EventType::BallReceipt
        } else if text_eq(input, "Ball Recovery") {
            EventType::BallRecovery
        } else if text_eq(input, "Dispossessed") {
            EventType::Dispossesed
        } else if text_eq(input, "Duel") {
            EventType::Duel
        } else if text_eq(input, "Camera On") {
            EventType::CameraOn
        } else if text_eq(input, "Block") {
            EventType::Block
        } else if text_eq(input, "Offside") {
            EventType::Offside
        } else if text_eq(input, "Clearance") {
            EventType::Clearance
        } else if text_eq(input, "Interception") {
            EventType::Interception
        } else if text_eq(input, "Dribble") {
            EventType::Dribble
        } else if text_eq(input, "Shot") {
            EventType::Shot
        } else if text_eq(input, "Pressure") {
            EventType::Pressure
        } else if text_eq(input, "Half Start") {
            EventType::HalfStart
        } else if text_eq(input, "Substitution") {
            EventType::Substitution
        } else if text_eq(input, "Own Goal Against") {
            EventType::OwnGoalAgainst
        } else if text_eq(input, "Foul Won") {
            EventType::FoulWon
        } else if text_eq(input, "Foul Committed") {
            EventType::FoulCommitted
        } else if text_eq(input, "Goal Keeper") {
            EventType::GoalKeeper
        } else if text_eq(input, "Bad Behaviour") {
            EventType::BadBehaviour
        } else if text_eq(input, "Own Goal For") {
            EventType::OwnGoalFor
        } else if text_eq(input, "Player On") {
            EventType::PlayerOn
        } else if text_eq(input, "Player Off") {
            EventType::PlayerOff
        } else if text_eq(input, "Shield") {
            EventType::Shield
        } else if text_eq(input, "Pass") {
            EventType::Pass
        } else if text_eq(input, "50/50") {
            EventType::FiftyFifty
        } else if text_eq(input, "Half End") {
            EventType::HalfEnd
        } else if text_eq(input, "Starting XI") {
            EventType::StartingEleven
        } else if text_eq(input, "Tactical Shift") {
            EventType::TacticalShift
        } else if text_eq(input, "Error") {
            EventType::Error
        } else if text_eq(input, "Miscontrol") {
            EventType::Miscontrol
        } else if text_eq(input, "Dribbled Past") {
            EventType::DribbledPast
        } else if text_eq(input, "Injury Stoppage") {
            EventType::InjuryStoppage
        } else if text_eq(input, "Referee Ball-Drop") {
            EventType::RefereeBallDrop
        } else if text_eq(input, "Carry") {
            EventType::Carry
        } else {
            EventType::Unknown(input.to_owned())
        }
    }
}

impl std::str::FromStr for EventType {
    type Err = ();

    fn from_str(input: &str) -> (r: Result<Self, Self::Err>)
        ensures
            r matches Ok(t) && names_event_type(input@, t),
    {
        Ok(EventType::from_name(input))
    }
}

/// Category equality: known categories by variant, `Unknown` ones by the
/// text they hold.
pub open spec fn same_event_type(a: EventType, b: EventType) -> bool {
    match a {
        EventType::Unknown(x) => b matches EventType::Unknown(y) && x@ == y@,
        _ => a == b,
    }
}

impl PartialEq for EventType {
    fn eq(&self, o: &EventType) -> (r: bool) {
        match self {
            EventType::BallReceipt => matches!(o, EventType::BallReceipt),
            EventType::BallRecovery => matches!(o, EventType::BallRecovery),
            EventType::Dispossesed => matches!(o, EventType::Dispossesed),
            EventType::Duel => matches!(o, EventType::Duel),
            EventType::CameraOn => matches!(o, EventType::CameraOn),
            EventType::Block => matches!(o, EventType::Block),
            EventType::Offside => matches!(o, EventType::Offside),
            EventType::Clearance => matches!(o, EventType::Clearance),
            EventType::Interception => matches!(o, EventType::Interception),
            EventType::Dribble => matches!(o, EventType::Dribble),
            EventType::Shot => matches!(o, EventType::Shot),
            EventType::Pressure => matches!(o, EventType::Pressure),
            EventType::HalfStart => matches!(o, EventType::HalfStart),
            EventType::Substitution => matches!(o, EventType::Substitution),
            EventType::OwnGoalAgainst => matches!(o, EventType::OwnGoalAgainst),
            EventType::FoulWon => matches!(o, EventType::FoulWon),
            EventType::FoulCommitted => matches!(o, EventType::FoulCommitted),
            EventType::GoalKeeper => matches!(o, EventType::GoalKeeper),
            EventType::BadBehaviour => matches!(o, EventType::BadBehaviour),
            EventType::OwnGoalFor => matches!(o, EventType::OwnGoalFor),
            EventType::PlayerOn => matches!(o, EventType::PlayerOn),
            EventType::PlayerOff => matches!(o, EventType::PlayerOff),
            EventType::Shield => matches!(o, EventType::Shield),
            EventType::Pass => matches!(o, EventType::Pass),
            EventType::FiftyFifty => matches!(o, EventType::FiftyFifty),
            EventType::HalfEnd => matches!(o, EventType::HalfEnd),
            EventType::StartingEleven => matches!(o, EventType::StartingEleven),
            EventType::TacticalShift => matches!(o, EventType::TacticalShift),
            EventType::Error => matches!(o, EventType::Error),
            EventType::Miscontrol => matches!(o, EventType::Miscontrol),
            EventType::DribbledPast => matches!(o, EventType::DribbledPast),
            EventType::InjuryStoppage => matches!(o, EventType::InjuryStoppage),
            EventType::RefereeBallDrop => matches!(o, EventType::RefereeBallDrop),
            EventType::Carry => matches!(o, EventType::Carry),
            EventType::Unknown(a) => match o {
                EventType::Unknown(b) => *a == *b,
                _ => false,
            },
        }
    }
}

impl vstd::std_specs::cmp::PartialEqSpecImpl for EventType {
    open spec fn obeys_eq_spec() -> bool {
        true
    }

    open spec fn eq_spec(&self, o: &EventType) -> bool {
        same_event_type(*self, *o)
    }
}

impl Clone for EventType {
    fn clone(&self) -> (r: Self)
        ensures
            r == *self,
    {
        match self {
            EventType::BallReceipt => EventType::BallReceipt,
            EventType::BallRecovery => EventType::BallRecovery,
            EventType::Dispossesed => EventType::Dispossesed,
            EventType::Duel => EventType::Duel,
            EventType::CameraOn => EventType::CameraOn,
            EventType::Block => EventType::Block,
            EventType::Offside => EventType::Offside,
            EventType::Clearance => EventType::Clearance,
            EventType::Interception => EventType::Interception,
            EventType::Dribble => EventType::Dribble,
            EventType::Shot => EventType::Shot,
            EventType::Pressure => EventType::Pressure,
            EventType::HalfStart => EventType::HalfStart,
            EventType::Substitution => EventType::Substitution,
            EventType::OwnGoalAgainst => EventType::OwnGoalAgainst,
            EventType::FoulWon => EventType::FoulWon,
            EventType::FoulCommitted => EventType::FoulCommitted,
            EventType::GoalKeeper => EventType::GoalKeeper,
            EventType::BadBehaviour => EventType::BadBehaviour,
            EventType::OwnGoalFor => EventType::OwnGoalFor,
            EventType::PlayerOn => EventType::PlayerOn,
            EventType::PlayerOff => EventType::PlayerOff,
            EventType::Shield => EventType::Shield,
            EventType::Pass => EventType::Pass,
            EventType::FiftyFifty => EventType::FiftyFifty,
            EventType::HalfEnd => EventType::HalfEnd,
            EventType::StartingEleven => EventType::StartingEleven,
            EventType::TacticalShift => EventType::TacticalShift,
            EventType::Error => EventType::Error,
            EventType::Miscontrol => EventType::Miscontrol,
            EventType::DribbledPast => EventType::DribbledPast,
            EventType::InjuryStoppage => EventType::InjuryStoppage,
            EventType::RefereeBallDrop => EventType::RefereeBallDrop,
            EventType::Carry => EventType::Carry,
            EventType::Unknown(a) => EventType::Unknown(a.clone()),
        }
    }
}

/// How the possession that an event belongs to began. Unknown names map to
/// `Other`.
#[derive(Debug, Clone, Copy, PartialEq, Eq, Structural)]
pub enum PlayPattern {
    RegularPlay,
    FromCorner,
    FromFreeKick,
    FromThrowIn,
    Other,
    FromCounter,
    FromGoalKick,
    FromKeeper,
    FromKickOff,
}

/// The play pattern that a display name denotes: `Other` for unknown names.
pub open spec fn play_pattern_of(s: Seq<char>) -> PlayPattern {
    match known_play_pattern(s) {
        Some(p) => p,
        None => PlayPattern::Other,
    }
}

pub open spec fn known_play_pattern(s: Seq<char>) -> Option<PlayPattern> {
    if s == "Regular Play"@ {
        Some(PlayPattern::RegularPlay)
    } else if s == "FromCorner"@ {
        Some(PlayPattern::FromCorner)
    } else if s == "From Free Kick"@ {
        Some(PlayPattern::FromFreeKick)
    } else if s == "From Throw In"@ {
        Some(PlayPattern::FromThrowIn)
    } else if s == "Other"@ {
        Some(PlayPattern::Other)
    } else if s == "From Counter"@ {
        Some(PlayPattern::FromCounter)
    } else if s == "From Goal Kick"@ {
        Some(PlayPattern::FromGoalKick)
    } else if s == "From Keeper"@ {
        Some(PlayPattern::FromKeeper)
    } else if s == "From KickOff"@ {
        Some(PlayPattern::FromKickOff)
    } else {
        None
    }
}

impl PlayPattern {
    /// Normalizes a display name; unknown names become `Other`.
    pub fn from_name(input: &str) -> (r: PlayPattern)
        ensures
            r == play_pattern_of(input@),
    {
        if text_eq(input, "Regular Play") {
            PlayPattern::RegularPlay
        } else if text_eq(input, "FromCorner") {
            PlayPattern::FromCorner
        } else if text_eq(input, "From Free Kick") {
            PlayPattern::FromFreeKick
        } else if text_eq(input, "From Throw In") {
            PlayPattern::FromThrowIn
        } else if text_eq(input, "Other") {
            PlayPattern::Other
        } else if text_eq(input, "From Counter") {
            PlayPattern::FromCounter
        } else if text_eq(input, "From Goal Kick") {
            PlayPattern::FromGoalKick
        } else if text_eq(input, "From Keeper") {
            PlayPattern::FromKeeper
        } else if text_eq(input, "From KickOff") {
            PlayPattern::FromKickOff
        } else {
            PlayPattern::Other
        }
    }
}

impl std::str::FromStr for PlayPattern {
    type Err = ();

    fn from_str(input: &str) -> (r: Result<Self, Self::Err>)
        ensures
            r == Ok::<PlayPattern, ()>(play_pattern_of(input@)),
    {
        Ok(PlayPattern::from_name(input))
    }
}

/// A disciplinary card.
#[derive(Debug)]
pub enum Card {
    YellowCard,
    SecondYellowCard,
    RedCard,
    Unknown(String),
}

pub open spec fn known_card(s: Seq<char>) -> Option<Card> {
    if s == "Yellow Card"@ {
        Some(Card::YellowCard)
    } else if s == "Second Yellow"@ {
        Some(Card::SecondYellowCard)
    } else if s == "Red Card"@ {
        Some(Card::RedCard)
    } else {
        None
    }
}

/// Whether `x` is what the display name `s` normalizes to: a known variant,
/// or `Unknown` holding `s`.
pub open spec fn names_card(s: Seq<char>, x: Card) -> bool {
    match known_card(s) {
        Some(k) => x == k,
        None => x matches Card::Unknown(u) && u@ == s,
    }
}

impl Card {
    /// Normalizes a display name; unknown names are kept as `Unknown`.
    pub fn from_name(input: &str) -> (r: Card)
        ensures
            names_card(input@, r),
    {
        if text_eq(input, "Yellow Card") {
            Card::YellowCard
        } else if text_eq(input, "Second Yellow") {
            Card::SecondYellowCard
        } else if text_eq(input, "Red Card") {
            Card::RedCard
        } else {
            Card::Unknown(input.to_owned())
        }
    }
}

impl Clone for Card {
    fn clone(&self) -> (r: Self)
        ensures
            r == *self,
    {
        match self {
            Card::YellowCard => Card::YellowCard,
            Card::SecondYellowCard => Card::SecondYellowCard,
            Card::RedCard => Card::RedCard,
            Card::Unknown(a) => Card::Unknown(a.clone()),
        }
    }
}

/// The outcome of a contested ball.
#[derive(Debug)]
pub enum FiftyFiftyOutcome {
    Won,
    Lost,
    SuccessToTeam,
    SuccessToOpposition,
    Unknown(String),
}

pub open spec fn known_fifty_fifty_outcome(s: Seq<char>) -> Option<FiftyFiftyOutcome> {
    if s == "Won"@ {
        Some(FiftyFiftyOutcome::Won)
    } else if s == "Lost"@ {
        Some(FiftyFiftyOutcome::Lost)
    } else if s == "Success To Team"@ {
        Some(FiftyFiftyOutcome::SuccessToTeam)
    } else if s == "Success To Opposition"@ {
        Some(FiftyFiftyOutcome::SuccessToOpposition)
    } else {
        None
    }
}

/// Whether `x` is what the display name `s` normalizes to: a known variant,
/// or `Unknown` holding `s`.
pub open spec fn names_fifty_fifty_outcome(s: Seq<char>, x: FiftyFiftyOutcome) -> bool {
    match known_fifty_fifty_outcome(s) {
        Some(k) => x == k,
        None => x matches FiftyFiftyOutcome::Unknown(u) && u@ == s,
    }
}

impl FiftyFiftyOutcome {
    /// Normalizes a display name; unknown names are kept as `Unknown`.
    pub fn from_name(input: &str) -> (r: FiftyFiftyOutcome)
        ensures
            names_fifty_fifty_outcome(input@, r),
    {
        if text_eq(input, "Won") {
            FiftyFiftyOutcome::Won
        } else if text_eq(input, "Lost") {
            FiftyFiftyOutcome::Lost
        } else if text_eq(input, "Success To Team") {
            FiftyFiftyOutcome::SuccessToTeam
        } else if text_eq(input, "Success To Opposition") {
            FiftyFiftyOutcome::SuccessToOpposition
        } else {
            FiftyFiftyOutcome::Unknown(input.to_owned())
        }
    }
}

impl Clone for FiftyFiftyOutcome {
    fn clone(&self) -> (r: Self)
        ensures
            r == *self,
    {
        match self {
            FiftyFiftyOutcome::Won => FiftyFiftyOutcome::Won,
            FiftyFiftyOutcome::Lost => FiftyFiftyOutcome::Lost,
            FiftyFiftyOutcome::SuccessToTeam => FiftyFiftyOutcome::SuccessToTeam,
            FiftyFiftyOutcome::SuccessToOpposition => FiftyFiftyOutcome::SuccessToOpposition,
            FiftyFiftyOutcome::Unknown(a) => FiftyFiftyOutcome::Unknown(a.clone()),
        }
    }
}

/// A phase of the match, written in the feed as its number from 1 to 5.
#[derive(Debug, Clone, Copy, PartialEq, Eq, Structural)]
pub enum Period {
    FirstHalf,
    SecondHalf,
    ThirdPeriod,
    FourthPeriod,
    PenaltyShootout,
}

/// The period that the number `n` denotes, if any.
pub open spec fn period_of(n: nat) -> Option<Period> {
    if n == 1 {
        Some(Period::FirstHalf)
    } else if n == 2 {
        Some(Period::SecondHalf)
    } else if n == 3 {
        Some(Period::ThirdPeriod)
    } else if n == 4 {
        Some(Period::FourthPeriod)
    } else if n == 5 {
        Some(Period::PenaltyShootout)
    } else {
        None
    }
}

impl Period {
    /// The period numbered `n`; numbers outside 1 to 5 denote none.
    pub fn from_number(n: u64) -> (r: Option<Period>)
        ensures
            r == period_of(n as nat),
    {
        if n == 1 {
            Some(Period::FirstHalf)
        } else if n == 2 {
            Some(Period::SecondHalf)
        } else if n == 3 {
            Some(Period::ThirdPeriod)
        } else if n == 4 {
            Some(Period::FourthPeriod)
        } else if n == 5 {
            Some(Period::PenaltyShootout)
        } else {
            None
        }
    }
}

} // verus!
