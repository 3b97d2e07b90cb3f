//! The event entity and its decoder. A handful of fields need special
//! handling: the category and the play pattern are lookup values whose names
//! are normalized, the contested-ball outcome sits under the key `50_50`,
//! and the card of a bad-behaviour record sits one level down.

use vstd::prelude::*;
use crate::value::{
    Value, DecodeError, Decimal, Location, field, as_text, as_uint, as_opt_flag, is_absent,
    is_point, opt_point_is, decimal_is, opt_val, read_text, read_uint, read_opt_flag,
    read_opt_point, read_decimal, parse_uint,
};
use crate::vocab::{
    EventSubType, EventType, PlayPattern, Period, Card, lookup_is, lookup_ok, opt_lookup_is,
    opt_lookup_ok, names_event_type, names_card, play_pattern_of, period_of,
};
use crate::payloads::{
    BallReceipt, BallRecovery, Block, Clearance, Pass, Carry, Duel, Dribble, DribbledPast,
    FoulCommitted, FoulWon, GoalKeeper, HalfEnd, HalfStart, InjuryStoppage, Interception,
    Miscontrol, PlayerOff, Pressure,
};
use crate::compound::{Tactics, FiftyFifty, Shot};

verus! {

/// The name held by the lookup value `o` (meaningful where `lookup_ok(o)`).
pub open spec fn name_of(o: Option<Value>) -> Seq<char> {
    as_text(field(o->0, "name"@))->0
}

/// Whether `o` is a lookup value whose name normalizes to the category `t`.
pub open spec fn category_is(o: Option<Value>, t: EventType) -> bool {
    lookup_ok(o) && names_event_type(name_of(o), t)
}

/// Whether `o` is a lookup value whose name normalizes to the pattern `p`.
pub open spec fn pattern_is(o: Option<Value>, p: PlayPattern) -> bool {
    lookup_ok(o) && p == play_pattern_of(name_of(o))
}

/// Whether `o` is the number of the period `p`.
pub open spec fn period_is(o: Option<Value>, p: Period) -> bool {
    as_uint(o, 5) is Some && period_of(as_uint(o, 5)->0) == Some(p)
}

/// Whether `o` is the number of some period.
pub open spec fn period_ok(o: Option<Value>) -> bool {
    as_uint(o, 5) is Some && period_of(as_uint(o, 5)->0) is Some
}

/// Decodes the category of the record `v`: the name of the lookup value
/// under `type`, normalized; an unknown name gives `Unknown`, not an error.
pub fn type_from_nested(v: &Value) -> (r: Result<EventType, DecodeError>)
    ensures
        r is Ok <==> lookup_ok(field(*v, "type"@)),
        r matches Ok(t) ==> category_is(field(*v, "type"@), t),
{
    let s = EventSubType::decode_field(v, "type")?;
    Ok(EventType::from_name(s.name.as_str()))
}

/// Decodes the play pattern of the record `v`: the name of the lookup value
/// under `play_pattern`, normalized.
pub fn playpattern_nested(v: &Value) -> (r: Result<PlayPattern, DecodeError>)
    ensures
        r is Ok <==> lookup_ok(field(*v, "play_pattern"@)),
        r matches Ok(p) ==> pattern_is(field(*v, "play_pattern"@), p),
{
    let s = EventSubType::decode_field(v, "play_pattern")?;
    Ok(PlayPattern::from_name(s.name.as_str()))
}

fn decode_period(v: &Value) -> (r: Result<Period, DecodeError>)
    ensures
        r is Ok <==> period_ok(field(*v, "period"@)),
        r matches Ok(p) ==> period_is(field(*v, "period"@), p),
{
    let n = read_uint(v, "period", 5)?;
    match Period::from_number(n) {
        Some(p) => Ok(p),
        None => Err(DecodeError),
    }
}

/// Whether `o` is absent or null (`x` is `None`) or a 16-bit number equal to `x`.
pub open spec fn opt_u16_is(o: Option<Value>, x: Option<u16>) -> bool {
    match x {
        None => is_absent(o),
        Some(n) => as_uint(o, u16::MAX as nat) == Some(n as nat),
    }
}

/// Whether `o` is absent, null, or a 16-bit number.
pub open spec fn opt_u16_ok(o: Option<Value>) -> bool {
    is_absent(o) || as_uint(o, u16::MAX as nat) is Some
}

fn decode_opt_u16(o: Option<&Value>) -> (r: Result<Option<u16>, DecodeError>)
    ensures
        r is Ok <==> opt_u16_ok(opt_val(o)),
        r matches Ok(x) ==> opt_u16_is(opt_val(o), x),
{
    match o {
        None => Ok(None),
        Some(Value::Null) => Ok(None),
        Some(Value::Number(t)) => match parse_uint(t.as_str(), 65535) {
            Some(n) => Ok(Some(n as u16)),
            None => Err(DecodeError),
        },
        _ => Err(DecodeError),
    }
}

/// Whether `o` is absent or null (`x` is `None`) or a number whose text `x` holds.
pub open spec fn opt_decimal_is(o: Option<Value>, x: Option<Decimal>) -> bool {
    match x {
        None => is_absent(o),
        Some(d) => decimal_is(o, d),
    }
}

fn decode_opt_decimal(o: Option<&Value>) -> (r: Result<Option<Decimal>, DecodeError>)
    ensures
        r is Ok <==> (is_absent(opt_val(o)) || opt_val(o) matches Some(Value::Number(_))),
        r matches Ok(x) ==> opt_decimal_is(opt_val(o), x),
{
    match o {
        None => Ok(None),
        Some(Value::Null) => Ok(None),
        Some(x) => {
            let d = read_decimal(Some(x))?;
            Ok(Some(d))
        },
    }
}

/// Whether `o` is absent or null (`x` is `None`) or a list of texts that `x` holds.
pub open spec fn opt_texts_is(o: Option<Value>, x: Option<Vec<String>>) -> bool {
    match x {
        None => is_absent(o),
        Some(ids) => match o {
            Some(Value::Array(items)) => items@.len() == ids@.len()
                && forall|i: int| 0 <= i < ids@.len() ==> as_text(Some(#[trigger] items@[i])) == Some(ids@[i]@),
            _ => false,
        },
    }
}

/// Whether `o` is absent, null, or a list of texts.
pub open spec fn opt_texts_ok(o: Option<Value>) -> bool {
    is_absent(o) || match o {
        Some(Value::Array(items)) => forall|i: int| 0 <= i < items@.len() ==> (#[trigger] items@[i]) is Text,
        _ => false,
    }
}

fn decode_opt_texts(o: Option<&Value>) -> (r: Result<Option<Vec<String>>, DecodeError>)
    ensures
        r is Ok <==> opt_texts_ok(opt_val(o)),
        r matches Ok(x) ==> opt_texts_is(opt_val(o), x),
{
    let items = match o {
        None => return Ok(None),
        Some(Value::Null) => return Ok(None),
        Some(Value::Array(items)) => items,
        _ => return Err(DecodeError),
    };
    let mut out: Vec<String> = Vec::new();
    let mut i: usize = 0;
    while i < items.len()
        invariant
            opt_val(o) == Some(Value::Array(*items)),
            i <= items@.len(),
            out@.len() == i,
            forall|j: int| 0 <= j < i ==> as_text(Some(#[trigger] items@[j])) == Some(out@[j]@),
            forall|j: int| 0 <= j < i ==> (#[trigger] items@[j]) is Text,
        decreases items.len() - i,
    {
        match &items[i] {
            Value::Text(t) => out.push(t.clone()),
            _ => {
                assert(!opt_texts_ok(opt_val(o))) by {
                    if opt_texts_ok(opt_val(o)) {
                        let ghost w = opt_val(o)->0->Array_0;
                        assert(w == *items);
                        assert(w@[i as int] is Text);
                    }
                }
                return Err(DecodeError);
            },
        }
        i += 1;
    }
    Ok(Some(out))
}

/// Whether `o` is absent (`x` is `None`) or a contested-ball record decoding to `x`.
pub open spec fn fifty_fifty_is(o: Option<Value>, x: Option<FiftyFifty>) -> bool {
    match x {
        None => o is None,
        Some(f) => o is Some && FiftyFifty::decodes(o->0, f),
    }
}

/// Whether `o` is absent or a contested-ball record that decodes.
pub open spec fn fifty_fifty_ok(o: Option<Value>) -> bool {
    o is None || FiftyFifty::decodable(o->0)
}

/// Decodes the contested-ball outcome of the record `v`, found under the key
/// `50_50`: absent when the key is, otherwise an outcome (unknown names kept)
/// with its optional counterpress flag.
pub fn fifty_fifty_parser(v: &Value) -> (r: Result<Option<FiftyFifty>, DecodeError>)
    ensures
        r is Ok <==> fifty_fifty_ok(field(*v, "50_50"@)),
        r matches Ok(x) ==> fifty_fifty_is(field(*v, "50_50"@), x),
{
    match v.get("50_50") {
        None => Ok(None),
        Some(x) => {
            let f = FiftyFifty::decode(x)?;
            Ok(Some(f))
        },
    }
}

/// Whether `o` is absent (`x` is `None`) or a bad-behaviour record whose
/// card normalizes to `x`.
pub open spec fn bad_behaviour_is(o: Option<Value>, x: Option<Card>) -> bool {
    match x {
        None => o is None,
        Some(c) => o is Some && o->0 is Object && lookup_ok(field(o->0, "card"@))
            && names_card(name_of(field(o->0, "card"@)), c),
    }
}

/// Whether `o` is absent or an object holding a well-formed card.
pub open spec fn bad_behaviour_ok(o: Option<Value>) -> bool {
    o is None || (o->0 is Object && lookup_ok(field(o->0, "card"@)))
}

/// Decodes the card of the record `v`, nested under `bad_behaviour`: absent
/// when that key is, otherwise the card's name normalized.
pub fn bad_behaviour_parser(v: &Value) -> (r: Result<Option<Card>, DecodeError>)
    ensures
        r is Ok <==> bad_behaviour_ok(field(*v, "bad_behaviour"@)),
        r matches Ok(x) ==> bad_behaviour_is(field(*v, "bad_behaviour"@), x),
{
    match v.get("bad_behaviour") {
        None => Ok(None),
        Some(x) => {
            if !matches!(x, Value::Object(_)) {
                return Err(DecodeError);
            }
            let card = EventSubType::decode_field(x, "card")?;
            Ok(Some(Card::from_name(card.name.as_str())))
        },
    }
}

/// One action of a match: shared context, its category, side channels
/// that may accompany any category, and the category-specific payload.
#[derive(Debug)]
pub struct Event {
    pub id: String,
    pub index: u16,
    pub period: Period,
    pub timestamp: String,
    pub minute: u8,
    pub second: u8,
    pub event_type: EventType,
    pub possession: Option<u16>,
    pub possession_team: Option<EventSubType>,
    pub play_pattern: PlayPattern,
    pub team: EventSubType,
    pub player: Option<EventSubType>,
    pub position: Option<EventSubType>,
    pub location: Option<Location>,
    pub duration: Option<Decimal>,
    pub tactics: Option<Tactics>,
    pub under_pressure: Option<bool>,
    pub out: Option<bool>,
    pub off_camera: Option<bool>,
    pub related_events: Option<Vec<String>>,
    pub fifty_fifty: Option<FiftyFifty>,
    pub bad_behaviour: Option<Card>,
    pub ball_receipt: Option<BallReceipt>,
    pub ball_recovery: Option<BallRecovery>,
    pub block: Option<Block>,
    pub clearance: Option<Clearance>,
    pub pass: Option<Pass>,
    pub carry: Option<Carry>,
    pub duel: Option<Duel>,
    pub dribble: Option<Dribble>,
    pub dribbled_past: Option<DribbledPast>,
    pub foul_committed: Option<FoulCommitted>,
    pub foul_won: Option<FoulWon>,
    pub goalkeeper: Option<GoalKeeper>,
    pub half_end: Option<HalfEnd>,
    pub half_start: Option<HalfStart>,
    pub injury_stoppage: Option<InjuryStoppage>,
    pub interception: Option<Interception>,
    pub miscontrol: Option<Miscontrol>,
    pub player_off: Option<PlayerOff>,
    pub pressure: Option<Pressure>,
    pub shot: Option<Shot>,
}

impl Event {
    /// Equality with lists compared by their contents.
    pub open spec fn same(self, o: Event) -> bool {
        &&& self.id == o.id
        &&& self.index == o.index
        &&& self.period == o.period
        &&& self.timestamp == o.timestamp
        &&& self.minute == o.minute
        &&& self.second == o.second
        &&& self.event_type == o.event_type
        &&& self.possession == o.possession
        &&& self.possession_team == o.possession_team
        &&& self.play_pattern == o.play_pattern
        &&& self.team == o.team
        &&& self.player == o.player
        &&& self.position == o.position
        &&& self.location == o.location
        &&& self.duration == o.duration
        &&& match (self.tactics, o.tactics) {
            (None, None) => true,
            (Some(a), Some(b)) => a.same(b),
            _ => false,
        }
        &&& self.under_pressure == o.under_pressure
        &&& self.out == o.out
        &&& self.off_camera == o.off_camera
        &&& match (self.related_events, o.related_events) {
            (None, None) => true,
            (Some(a), Some(b)) => a@ == b@,
            _ => false,
        }
        &&& self.fifty_fifty == o.fifty_fifty
        &&& self.bad_behaviour == o.bad_behaviour
        &&& self.ball_receipt == o.ball_receipt
        &&& self.ball_recovery == o.ball_recovery
        &&& self.block == o.block
        &&& self.clearance == o.clearance
        &&& self.pass == o.pass
        &&& self.carry == o.carry
        &&& self.duel == o.duel
        &&& self.dribble == o.dribble
        &&& self.dribbled_past == o.dribbled_past
        &&& self.foul_committed == o.foul_committed
        &&& self.foul_won == o.foul_won
        &&& self.goalkeeper == o.goalkeeper
        &&& self.half_end == o.half_end
        &&& self.half_start == o.half_start
        &&& self.injury_stoppage == o.injury_stoppage
        &&& self.interception == o.interception
        &&& self.miscontrol == o.miscontrol
        &&& self.player_off == o.player_off
        &&& self.pressure == o.pressure
        &&& match (self.shot, o.shot) {
            (None, None) => true,
            (Some(a), Some(b)) => a.same(b),
            _ => false,
        }
    }

    /// A copy of the event.
    pub fn duplicate(&self) -> (r: Event)
        ensures
            r.same(*self),
    {
        let tactics = match &self.tactics {
            None => None,
            Some(t) => Some(t.duplicate()),
        };
        let shot = match &self.shot {
            None => None,
            Some(s) => Some(s.duplicate()),
        };
        let related_events = match &self.related_events {
            None => None,
            Some(ids) => {
                let c = ids.clone();
                assert(c@ =~= ids@);
                Some(c)
            },
        };
        Event {
            id: self.id.clone(),
            index: self.index,
            period: self.period,
            timestamp: self.timestamp.clone(),
            minute: self.minute,
            second: self.second,
            event_type: self.event_type.clone(),
            possession: self.possession,
            possession_team: self.possession_team.clone(),
            play_pattern: self.play_pattern,
            team: self.team.clone(),
            player: self.player.clone(),
            position: self.position.clone(),
            location: self.location.clone(),
            duration: self.duration.clone(),
            tactics,
            under_pressure: self.under_pressure,
            out: self.out,
            off_camera: self.off_camera,
            related_events,
            fifty_fifty: self.fifty_fifty.clone(),
            bad_behaviour: self.bad_behaviour.clone(),
            ball_receipt: self.ball_receipt.clone(),
            ball_recovery: self.ball_recovery.clone(),
            block: self.block.clone(),
            clearance: self.clearance.clone(),
            pass: self.pass.clone(),
            carry: self.carry.clone(),
            duel: self.duel.clone(),
            dribble: self.dribble.clone(),
            dribbled_past: self.dribbled_past.clone(),
            foul_committed: self.foul_committed.clone(),
            foul_won: self.foul_won.clone(),
            goalkeeper: self.goalkeeper.clone(),
            half_end: self.half_end.clone(),
            half_start: self.half_start.clone(),
            injury_stoppage: self.injury_stoppage.clone(),
            interception: self.interception.clone(),
            miscontrol: self.miscontrol.clone(),
            player_off: self.player_off.clone(),
            pressure: self.pressure.clone(),
            shot,
        }
    }

    /// Whether `x` is what the raw record `v` decodes to.
    pub open spec fn decodes(v: Value, x: Event) -> bool {
        &&& v is Object
        &&& as_text(field(v, "id"@)) == Some(x.id@)
        &&& as_uint(field(v, "index"@), u16::MAX as nat) == Some(x.index as nat)
        &&& period_is(field(v, "period"@), x.period)
        &&& as_text(field(v, "timestamp"@)) == Some(x.timestamp@)
        &&& as_uint(field(v, "minute"@), u8::MAX as nat) == Some(x.minute as nat)
        &&& as_uint(field(v, "second"@), u8::MAX as nat) == Some(x.second as nat)
        &&& category_is(field(v, "type"@), x.event_type)
        &&& opt_u16_is(field(v, "possession"@), x.possession)
        &&& opt_lookup_is(field(v, "possession_team"@), x.possession_team)
        &&& pattern_is(field(v, "play_pattern"@), x.play_pattern)
        &&& lookup_is(field(v, "team"@), x.team)
        &&& opt_lookup_is(field(v, "player"@), x.player)
        &&& opt_lookup_is(field(v, "position"@), x.position)
        &&& opt_point_is(field(v, "location"@), x.location)
        &&& opt_decimal_is(field(v, "duration"@), x.duration)
        &&& Tactics::decodes_opt(field(v, "tactics"@), x.tactics)
        &&& as_opt_flag(field(v, "under_pressure"@)) == Some(x.under_pressure)
        &&& as_opt_flag(field(v, "out"@)) == Some(x.out)
        &&& as_opt_flag(field(v, "off_camera"@)) == Some(x.off_camera)
        &&& opt_texts_is(field(v, "related_events"@), x.related_events)
        &&& fifty_fifty_is(field(v, "50_50"@), x.fifty_fifty)
        &&& bad_behaviour_is(field(v, "bad_behaviour"@), x.bad_behaviour)
        &&& BallReceipt::decodes_opt(field(v, "ball_receipt"@), x.ball_receipt)
        &&& BallRecovery::decodes_opt(field(v, "ball_recovery"@), x.ball_recovery)
        &&& Block::decodes_opt(field(v, "block"@), x.block)
        &&& Clearance::decodes_opt(field(v, "clearance"@), x.clearance)
        &&& Pass::decodes_opt(field(v, "pass"@), x.pass)
        &&& Carry::decodes_opt(field(v, "carry"@), x.carry)
        &&& Duel::decodes_opt(field(v, "duel"@), x.duel)
        &&& Dribble::decodes_opt(field(v, "dribble"@), x.dribble)
        &&& DribbledPast::decodes_opt(field(v, "dribbled_past"@), x.dribbled_past)
        &&& FoulCommitted::decodes_opt(field(v, "foul_committed"@), x.foul_committed)
        &&& FoulWon::decodes_opt(field(v, "foul_won"@), x.foul_won)
        &&& GoalKeeper::decodes_opt(field(v, "goalkeeper"@), x.goalkeeper)
        &&& HalfEnd::decodes_opt(field(v, "half_end"@), x.half_end)
        &&& HalfStart::decodes_opt(field(v, "half_start"@), x.half_start)
        &&& InjuryStoppage::decodes_opt(field(v, "injury_stoppage"@), x.injury_stoppage)
        &&& Interception::decodes_opt(field(v, "interception"@), x.interception)
        &&& Miscontrol::decodes_opt(field(v, "miscontrol"@), x.miscontrol)
        &&& PlayerOff::decodes_opt(field(v, "player_off"@), x.player_off)
        &&& Pressure::decodes_opt(field(v, "pressure"@), x.pressure)
        &&& Shot::decodes_opt(field(v, "shot"@), x.shot)
    }

    /// Whether the raw record `v` decodes: each required field is present and
    /// well-formed, and each optional one is absent, null or well-formed.
    pub open spec fn decodable(v: Value) -> bool {
        &&& v is Object
        &&& as_text(field(v, "id"@)) is Some
        &&& as_uint(field(v, "index"@), u16::MAX as nat) is Some
        &&& period_ok(field(v, "period"@))
        &&& as_text(field(v, "timestamp"@)) is Some
        &&& as_uint(field(v, "minute"@), u8::MAX as nat) is Some
        &&& as_uint(field(v, "second"@), u8::MAX as nat) is Some
        &&& lookup_ok(field(v, "type"@))
        &&& opt_u16_ok(field(v, "possession"@))
        &&& opt_lookup_ok(field(v, "possession_team"@))
        &&& lookup_ok(field(v, "play_pattern"@))
        &&& lookup_ok(field(v, "team"@))
        &&& opt_lookup_ok(field(v, "player"@))
        &&& opt_lookup_ok(field(v, "position"@))
        &&& (is_absent(field(v, "location"@)) || is_point(field(v, "location"@)))
        &&& (is_absent(field(v, "duration"@)) || field(v, "duration"@) matches Some(Value::Number(_)))
        &&& Tactics::decodable_opt(field(v, "tactics"@))
        &&& as_opt_flag(field(v, "under_pressure"@)) is Some
        &&& as_opt_flag(field(v, "out"@)) is Some
        &&& as_opt_flag(field(v, "off_camera"@)) is Some
        &&& opt_texts_ok(field(v, "related_events"@))
        &&& fifty_fifty_ok(field(v, "50_50"@))
        &&& bad_behaviour_ok(field(v, "bad_behaviour"@))
        &&& BallReceipt::decodable_opt(field(v, "ball_receipt"@))
        &&& BallRecovery::decodable_opt(field(v, "ball_recovery"@))
        &&& Block::decodable_opt(field(v, "block"@))
        &&& Clearance::decodable_opt(field(v, "clearance"@))
        &&& Pass::decodable_opt(field(v, "pass"@))
        &&& Carry::decodable_opt(field(v, "carry"@))
        &&& Duel::decodable_opt(field(v, "duel"@))
        &&& Dribble::decodable_opt(field(v, "dribble"@))
        &&& DribbledPast::decodable_opt(field(v, "dribbled_past"@))
        &&& FoulCommitted::decodable_opt(field(v, "foul_committed"@))
        &&& FoulWon::decodable_opt(field(v, "foul_won"@))
        &&& GoalKeeper::decodable_opt(field(v, "goalkeeper"@))
        &&& HalfEnd::decodable_opt(field(v, "half_end"@))
        &&& HalfStart::decodable_opt(field(v, "half_start"@))
        &&& InjuryStoppage::decodable_opt(field(v, "injury_stoppage"@))
        &&& Interception::decodable_opt(field(v, "interception"@))
        &&& Miscontrol::decodable_opt(field(v, "miscontrol"@))
        &&& PlayerOff::decodable_opt(field(v, "player_off"@))
        &&& Pressure::decodable_opt(field(v, "pressure"@))
        &&& Shot::decodable_opt(field(v, "shot"@))
    }

    /// Decodes one raw event record.
    #[verifier::rlimit(50)]
    pub fn decode(v: &Value) -> (r: Result<Event, DecodeError>)
        ensures
            r is Ok <==> Event::decodable(*v),
            r matches Ok(x) ==> Event::decodes(*v, x),
    {
        if !matches!(v, Value::Object(_)) {
            return Err(DecodeError);
        }
        let id = read_text(v, "id")?;
        let index = read_uint(v, "index", 65535)? as u16;
        let period = decode_period(v)?;
        let timestamp = read_text(v, "timestamp")?;
        let minute = read_uint(v, "minute", 255)? as u8;
        let second = read_uint(v, "second", 255)? as u8;
        let event_type = type_from_nested(v)?;
        let possession = decode_opt_u16(v.get("possession"))?;
        let possession_team = EventSubType::decode_opt_field(v, "possession_team")?;
        let play_pattern = playpattern_nested(v)?;
        let team = EventSubType::decode_field(v, "team")?;
        let player = EventSubType::decode_opt_field(v, "player")?;
        let position = EventSubType::decode_opt_field(v, "position")?;
        let location = read_opt_point(v.get("location"))?;
        let duration = decode_opt_decimal(v.get("duration"))?;
        let tactics = Tactics::decode_opt(v.get("tactics"))?;
        let under_pressure = read_opt_flag(v, "under_pressure")?;
        let out = read_opt_flag(v, "out")?;
        let off_camera = read_opt_flag(v, "off_camera")?;
        let related_events = decode_opt_texts(v.get("related_events"))?;
        let fifty_fifty = fifty_fifty_parser(v)?;
        let bad_behaviour = bad_behaviour_parser(v)?;
        let ball_receipt = BallReceipt::decode_opt(v.get("ball_receipt"))?;
        let ball_recovery = BallRecovery::decode_opt(v.get("ball_recovery"))?;
        let block = Block::decode_opt(v.get("block"))?;
        let clearance = Clearance::decode_opt(v.get("clearance"))?;
        let pass = Pass::decode_opt(v.get("pass"))?;
        let carry = Carry::decode_opt(v.get("carry"))?;
        let duel = Duel::decode_opt(v.get("duel"))?;
        let dribble = Dribble::decode_opt(v.get("dribble"))?;
        let dribbled_past = DribbledPast::decode_opt(v.get("dribbled_past"))?;
        let foul_committed = FoulCommitted::decode_opt(v.get("foul_committed"))?;
        let foul_won = FoulWon::decode_opt(v.get("foul_won"))?;
        let goalkeeper = GoalKeeper::decode_opt(v.get("goalkeeper"))?;
        let half_end = HalfEnd::decode_opt(v.get("half_end"))?;
        let half_start = HalfStart::decode_opt(v.get("half_start"))?;
        let injury_stoppage = InjuryStoppage::decode_opt(v.get("injury_stoppage"))?;
        let interception = Interception::decode_opt(v.get("interception"))?;
        let miscontrol = Miscontrol::decode_opt(v.get("miscontrol"))?;
        let player_off = PlayerOff::decode_opt(v.get("player_off"))?;
        let pressure = Pressure::decode_opt(v.get("pressure"))?;
        let shot = Shot::decode_opt(v.get("shot"))?;
        Ok(Event {
            id,
            index,
            period,
            timestamp,
            minute,
            second,
            event_type,
            possession,
            possession_team,
            play_pattern,
            team,
            player,
            position,
            location,
            duration,
            tactics,
            under_pressure,
            out,
            off_camera,
            related_events,
            fifty_fifty,
            bad_behaviour,
            ball_receipt,
            ball_recovery,
            block,
            clearance,
            pass,
            carry,
            duel,
            dribble,
            dribbled_past,
            foul_committed,
            foul_won,
            goalkeeper,
            half_end,
            half_start,
            injury_stoppage,
            interception,
            miscontrol,
            player_off,
            pressure,
            shot,
        })
    }
}

impl Clone for Event {
    fn clone(&self) -> (r: Self)
        ensures
            r.same(*self),
    {
        self.duplicate()
    }
}

} // verus!
