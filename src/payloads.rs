//! The category-specific payloads of an event. Flags that the feed omits
//! when false decode to `false`; every decoder states exactly which records
//! it accepts and what it makes of them.

use vstd::prelude::*;
use crate::value::{
    Value, DecodeError, Decimal, Location, field, as_text, as_uint, as_flag, is_absent,
    decimal_is, point_is, is_point, read_flag, read_opt_text, read_decimal,
    read_point, read_uint, opt_val,
};
use crate::vocab::{
    EventSubType, Card, lookup_is, lookup_ok, opt_lookup_is, opt_lookup_ok, names_card,
};

verus! {

/// Whether `o` is absent or null (`t` is `None`) or text that `t` holds.
pub open spec fn opt_text_is(o: Option<Value>, t: Option<String>) -> bool {
    match t {
        None => is_absent(o),
        Some(s) => as_text(o) == Some(s@),
    }
}

/// Whether `o` is absent or null (`c` is `None`) or a lookup value whose
/// name normalizes to the card `c`.
pub open spec fn opt_card_is(o: Option<Value>, c: Option<Card>) -> bool {
    match c {
        None => is_absent(o),
        Some(k) => lookup_ok(o) && names_card(as_text(field(o->0, "name"@))->0, k),
    }
}

/// Decodes an optional card, written as a lookup value.
pub fn decode_opt_card(o: Option<&Value>) -> (r: Result<Option<Card>, DecodeError>)
    ensures
        r is Ok <==> opt_lookup_ok(opt_val(o)),
        r matches Ok(c) ==> opt_card_is(opt_val(o), c),
{
    match o {
        None => Ok(None),
        Some(Value::Null) => Ok(None),
        Some(x) => {
            let l = EventSubType::decode(x)?;
            Ok(Some(Card::from_name(l.name.as_str())))
        },
    }
}

/// A contest between two players for the ball.
#[derive(Debug)]
pub struct Duel {
    pub counterpress: bool,
    pub kind: EventSubType,
    pub outcome: Option<EventSubType>,
}

impl Clone for Duel {
    fn clone(&self) -> (r: Self)
        ensures
            r == *self,
    {
        Duel {
            counterpress: self.counterpress,
            kind: self.kind.clone(),
            outcome: self.outcome.clone(),
        }
    }
}

impl Duel {
    /// Whether `x` is what the record `v` decodes to.
    pub open spec fn decodes(v: Value, x: Duel) -> bool {
        &&& v is Object
        &&& as_flag(field(v, "counterpress"@)) == Some(x.counterpress)
        &&& lookup_is(field(v, "type"@), x.kind)
        &&& opt_lookup_is(field(v, "outcome"@), x.outcome)
    }

    /// Whether the record `v` decodes as this payload: an object whose fields
    /// are each absent or well-formed, as their kinds allow.
    pub open spec fn decodable(v: Value) -> bool {
        &&& v is Object
        &&& as_flag(field(v, "counterpress"@)) is Some
        &&& lookup_ok(field(v, "type"@))
        &&& opt_lookup_ok(field(v, "outcome"@))
    }

    /// Decodes one payload record.
    pub fn decode(v: &Value) -> (r: Result<Duel, DecodeError>)
        ensures
            r is Ok <==> Duel::decodable(*v),
            r matches Ok(x) ==> Duel::decodes(*v, x),
    {
        if !matches!(v, Value::Object(_)) {
            return Err(DecodeError);
        }
        let counterpress = read_flag(v, "counterpress")?;
        let kind = EventSubType::decode_field(v, "type")?;
        let outcome = EventSubType::decode_opt_field(v, "outcome")?;
        Ok(Duel { counterpress, kind, outcome })
    }

    /// Whether `o` is absent or null (`x` is `None`) or a record that decodes to `x`.
    pub open spec fn decodes_opt(o: Option<Value>, x: Option<Duel>) -> bool {
        match x {
            None => is_absent(o),
            Some(p) => o is Some && Duel::decodes(o->0, p),
        }
    }

    /// Whether `o` is absent, null, or a record of this payload's shape.
    pub open spec fn decodable_opt(o: Option<Value>) -> bool {
        is_absent(o) || (o is Some && Duel::decodable(o->0))
    }

    /// Decodes an optional payload slot: absent or null gives `None`.
    pub fn decode_opt(o: Option<&Value>) -> (r: Result<Option<Duel>, DecodeError>)
        ensures
            r is Ok <==> Duel::decodable_opt(opt_val(o)),
            r matches Ok(x) ==> Duel::decodes_opt(opt_val(o), x),
    {
        match o {
            None => Ok(None),
            Some(Value::Null) => Ok(None),
            Some(x) => {
                let p = Duel::decode(x)?;
                Ok(Some(p))
            },
        }
    }

}

/// A player being dribbled past.
#[derive(Debug)]
pub struct DribbledPast {
    pub counterpress: bool,
}

impl Clone for DribbledPast {
    fn clone(&self) -> (r: Self)
        ensures
            r == *self,
    {
        DribbledPast {
            counterpress: self.counterpress,
        }
    }
}

impl DribbledPast {
    /// Whether `x` is what the record `v` decodes to.
    pub open spec fn decodes(v: Value, x: DribbledPast) -> bool {
        &&& v is Object
        &&& as_flag(field(v, "counterpress"@)) == Some(x.counterpress)
    }

    /// Whether the record `v` decodes as this payload: an object whose fields
    /// are each absent or well-formed, as their kinds allow.
    pub open spec fn decodable(v: Value) -> bool {
        &&& v is Object
        &&& as_flag(field(v, "counterpress"@)) is Some
    }

    /// Decodes one payload record.
    pub fn decode(v: &Value) -> (r: Result<DribbledPast, DecodeError>)
        ensures
            r is Ok <==> DribbledPast::decodable(*v),
            r matches Ok(x) ==> DribbledPast::decodes(*v, x),
    {
        if !matches!(v, Value::Object(_)) {
            return Err(DecodeError);
        }
        let counterpress = read_flag(v, "counterpress")?;
        Ok(DribbledPast { counterpress })
    }

    /// Whether `o` is absent or null (`x` is `None`) or a record that decodes to `x`.
    pub open spec fn decodes_opt(o: Option<Value>, x: Option<DribbledPast>) -> bool {
        match x {
            None => is_absent(o),
            Some(p) => o is Some && DribbledPast::decodes(o->0, p),
        }
    }

    /// Whether `o` is absent, null, or a record of this payload's shape.
    pub open spec fn decodable_opt(o: Option<Value>) -> bool {
        is_absent(o) || (o is Some && DribbledPast::decodable(o->0))
    }

    /// Decodes an optional payload slot: absent or null gives `None`.
    pub fn decode_opt(o: Option<&Value>) -> (r: Result<Option<DribbledPast>, DecodeError>)
        ensures
            r is Ok <==> DribbledPast::decodable_opt(opt_val(o)),
            r matches Ok(x) ==> DribbledPast::decodes_opt(opt_val(o), x),
    {
        match o {
            None => Ok(None),
            Some(Value::Null) => Ok(None),
            Some(x) => {
                let p = DribbledPast::decode(x)?;
                Ok(Some(p))
            },
        }
    }

}

/// A foul committed by the acting player.
#[derive(Debug)]
pub struct FoulCommitted {
    pub counterpress: bool,
    pub offensive: bool,
    pub kind: EventSubType,
    pub advantage: bool,
    pub penalty: bool,
    pub card: Option<Card>,
}

impl Clone for FoulCommitted {
    fn clone(&self) -> (r: Self)
        ensures
            r == *self,
    {
        FoulCommitted {
            counterpress: self.counterpress,
            offensive: self.offensive,
            kind: self.kind.clone(),
            advantage: self.advantage,
            penalty: self.penalty,
            card: self.card.clone(),
        }
    }
}

impl FoulCommitted {
    /// Whether `x` is what the record `v` decodes to.
    pub open spec fn decodes(v: Value, x: FoulCommitted) -> bool {
        &&& v is Object
        &&& as_flag(field(v, "counterpress"@)) == Some(x.counterpress)
        &&& as_flag(field(v, "offensive"@)) == Some(x.offensive)
        &&& lookup_is(field(v, "type"@), x.kind)
        &&& as_flag(field(v, "advantage"@)) == Some(x.advantage)
        &&& as_flag(field(v, "penalty"@)) == Some(x.penalty)
        &&& opt_card_is(field(v, "card"@), x.card)
    }

    /// Whether the record `v` decodes as this payload: an object whose fields
    /// are each absent or well-formed, as their kinds allow.
    pub open spec fn decodable(v: Value) -> bool {
        &&& v is Object
        &&& as_flag(field(v, "counterpress"@)) is Some
        &&& as_flag(field(v, "offensive"@)) is Some
        &&& lookup_ok(field(v, "type"@))
        &&& as_flag(field(v, "advantage"@)) is Some
        &&& as_flag(field(v, "penalty"@)) is Some
        &&& opt_lookup_ok(field(v, "card"@))
    }

    /// Decodes one payload record.
    pub fn decode(v: &Value) -> (r: Result<FoulCommitted, DecodeError>)
        ensures
            r is Ok <==> FoulCommitted::decodable(*v),
            r matches Ok(x) ==> FoulCommitted::decodes(*v, x),
    {
        if !matches!(v, Value::Object(_)) {
            return Err(DecodeError);
        }
        let counterpress = read_flag(v, "counterpress")?;
        let offensive = read_flag(v, "offensive")?;
        let kind = EventSubType::decode_field(v, "type")?;
        let advantage = read_flag(v, "advantage")?;
        let penalty = read_flag(v, "penalty")?;
        let card = decode_opt_card(v.get("card"))?;
        Ok(FoulCommitted { counterpress, offensive, kind, advantage, penalty, card })
    }

    /// Whether `o` is absent or null (`x` is `None`) or a record that decodes to `x`.
    pub open spec fn decodes_opt(o: Option<Value>, x: Option<FoulCommitted>) -> bool {
        match x {
            None => is_absent(o),
            Some(p) => o is Some && FoulCommitted::decodes(o->0, p),
        }
    }

    /// Whether `o` is absent, null, or a record of this payload's shape.
    pub open spec fn decodable_opt(o: Option<Value>) -> bool {
        is_absent(o) || (o is Some && FoulCommitted::decodable(o->0))
    }

    /// Decodes an optional payload slot: absent or null gives `None`.
    pub fn decode_opt(o: Option<&Value>) -> (r: Result<Option<FoulCommitted>, DecodeError>)
        ensures
            r is Ok <==> FoulCommitted::decodable_opt(opt_val(o)),
            r matches Ok(x) ==> FoulCommitted::decodes_opt(opt_val(o), x),
    {
        match o {
            None => Ok(None),
            Some(Value::Null) => Ok(None),
            Some(x) => {
                let p = FoulCommitted::decode(x)?;
                Ok(Some(p))
            },
        }
    }

}

/// A foul suffered by the acting player.
#[derive(Debug)]
pub struct FoulWon {
    pub defensive: bool,
    pub advantage: bool,
    pub penalty: bool,
}

impl Clone for FoulWon {
    fn clone(&self) -> (r: Self)
        ensures
            r == *self,
    {
        FoulWon {
            defensive: self.defensive,
            advantage: self.advantage,
            penalty: self.penalty,
        }
    }
}

impl FoulWon {
    /// Whether `x` is what the record `v` decodes to.
    pub open spec fn decodes(v: Value, x: FoulWon) -> bool {
        &&& v is Object
        &&& as_flag(field(v, "defensive"@)) == Some(x.defensive)
        &&& as_flag(field(v, "advantage"@)) == Some(x.advantage)
        &&& as_flag(field(v, "penalty"@)) == Some(x.penalty)
    }

    /// Whether the record `v` decodes as this payload: an object whose fields
    /// are each absent or well-formed, as their kinds allow.
    pub open spec fn decodable(v: Value) -> bool {
        &&& v is Object
        &&& as_flag(field(v, "defensive"@)) is Some
        &&& as_flag(field(v, "advantage"@)) is Some
        &&& as_flag(field(v, "penalty"@)) is Some
    }

    /// Decodes one payload record.
    pub fn decode(v: &Value) -> (r: Result<FoulWon, DecodeError>)
        ensures
            r is Ok <==> FoulWon::decodable(*v),
            r matches Ok(x) ==> FoulWon::decodes(*v, x),
    {
        if !matches!(v, Value::Object(_)) {
            return Err(DecodeError);
        }
        let defensive = read_flag(v, "defensive")?;
        let advantage = read_flag(v, "advantage")?;
        let penalty = read_flag(v, "penalty")?;
        Ok(FoulWon { defensive, advantage, penalty })
    }

    /// Whether `o` is absent or null (`x` is `None`) or a record that decodes to `x`.
    pub open spec fn decodes_opt(o: Option<Value>, x: Option<FoulWon>) -> bool {
        match x {
            None => is_absent(o),
            Some(p) => o is Some && FoulWon::decodes(o->0, p),
        }
    }

    /// Whether `o` is absent, null, or a record of this payload's shape.
    pub open spec fn decodable_opt(o: Option<Value>) -> bool {
        is_absent(o) || (o is Some && FoulWon::decodable(o->0))
    }

    /// Decodes an optional payload slot: absent or null gives `None`.
    pub fn decode_opt(o: Option<&Value>) -> (r: Result<Option<FoulWon>, DecodeError>)
        ensures
            r is Ok <==> FoulWon::decodable_opt(opt_val(o)),
            r matches Ok(x) ==> FoulWon::decodes_opt(opt_val(o), x),
    {
        match o {
            None => Ok(None),
            Some(Value::Null) => Ok(None),
            Some(x) => {
                let p = FoulWon::decode(x)?;
                Ok(Some(p))
            },
        }
    }

}

/// An action of the goalkeeper.
#[derive(Debug)]
pub struct GoalKeeper {
    pub position: Option<EventSubType>,
    pub technique: Option<EventSubType>,
    pub body_part: Option<EventSubType>,
    pub kind: EventSubType,
    pub outcome: Option<EventSubType>,
}

impl Clone for GoalKeeper {
    fn clone(&self) -> (r: Self)
        ensures
            r == *self,
    {
        GoalKeeper {
            position: self.position.clone(),
            technique: self.technique.clone(),
            body_part: self.body_part.clone(),
            kind: self.kind.clone(),
            outcome: self.outcome.clone(),
        }
    }
}

impl GoalKeeper {
    /// Whether `x` is what the record `v` decodes to.
    pub open spec fn decodes(v: Value, x: GoalKeeper) -> bool {
        &&& v is Object
        &&& opt_lookup_is(field(v, "position"@), x.position)
        &&& opt_lookup_is(field(v, "technique"@), x.technique)
        &&& opt_lookup_is(field(v, "body_part"@), x.body_part)
        &&& lookup_is(field(v, "type"@), x.kind)
        &&& opt_lookup_is(field(v, "outcome"@), x.outcome)
    }

    /// Whether the record `v` decodes as this payload: an object whose fields
    /// are each absent or well-formed, as their kinds allow.
    pub open spec fn decodable(v: Value) -> bool {
        &&& v is Object
        &&& opt_lookup_ok(field(v, "position"@))
        &&& opt_lookup_ok(field(v, "technique"@))
        &&& opt_lookup_ok(field(v, "body_part"@))
        &&& lookup_ok(field(v, "type"@))
        &&& opt_lookup_ok(field(v, "outcome"@))
    }

    /// Decodes one payload record.
    pub fn decode(v: &Value) -> (r: Result<GoalKeeper, DecodeError>)
        ensures
            r is Ok <==> GoalKeeper::decodable(*v),
            r matches Ok(x) ==> GoalKeeper::decodes(*v, x),
    {
        if !matches!(v, Value::Object(_)) {
            return Err(DecodeError);
        }
        let position = EventSubType::decode_opt_field(v, "position")?;
        let technique = EventSubType::decode_opt_field(v, "technique")?;
        let body_part = EventSubType::decode_opt_field(v, "body_part")?;
        let kind = EventSubType::decode_field(v, "type")?;
        let outcome = EventSubType::decode_opt_field(v, "outcome")?;
        Ok(GoalKeeper { position, technique, body_part, kind, outcome })
    }

    /// Whether `o` is absent or null (`x` is `None`) or a record that decodes to `x`.
    pub open spec fn decodes_opt(o: Option<Value>, x: Option<GoalKeeper>) -> bool {
        match x {
            None => is_absent(o),
            Some(p) => o is Some && GoalKeeper::decodes(o->0, p),
        }
    }

    /// Whether `o` is absent, null, or a record of this payload's shape.
    pub open spec fn decodable_opt(o: Option<Value>) -> bool {
        is_absent(o) || (o is Some && GoalKeeper::decodable(o->0))
    }

    /// Decodes an optional payload slot: absent or null gives `None`.
    pub fn decode_opt(o: Option<&Value>) -> (r: Result<Option<GoalKeeper>, DecodeError>)
        ensures
            r is Ok <==> GoalKeeper::decodable_opt(opt_val(o)),
            r matches Ok(x) ==> GoalKeeper::decodes_opt(opt_val(o), x),
    {
        match o {
            None => Ok(None),
            Some(Value::Null) => Ok(None),
            Some(x) => {
                let p = GoalKeeper::decode(x)?;
                Ok(Some(p))
            },
        }
    }

}

/// The end of a period.
#[derive(Debug)]
pub struct HalfEnd {
    pub early_video_end: bool,
    pub match_suspended: bool,
}

impl Clone for HalfEnd {
    fn clone(&self) -> (r: Self)
        ensures
            r == *self,
    {
        HalfEnd {
            early_video_end: self.early_video_end,
            match_suspended: self.match_suspended,
        }
    }
}

impl HalfEnd {
    /// Whether `x` is what the record `v` decodes to.
    pub open spec fn decodes(v: Value, x: HalfEnd) -> bool {
        &&& v is Object
        &&& as_flag(field(v, "Early Video End"@)) == Some(x.early_video_end)
        &&& as_flag(field(v, "Match Suspended"@)) == Some(x.match_suspended)
    }

    /// Whether the record `v` decodes as this payload: an object whose fields
    /// are each absent or well-formed, as their kinds allow.
    pub open spec fn decodable(v: Value) -> bool {
        &&& v is Object
        &&& as_flag(field(v, "Early Video End"@)) is Some
        &&& as_flag(field(v, "Match Suspended"@)) is Some
    }

    /// Decodes one payload record.
    pub fn decode(v: &Value) -> (r: Result<HalfEnd, DecodeError>)
        ensures
            r is Ok <==> HalfEnd::decodable(*v),
            r matches Ok(x) ==> HalfEnd::decodes(*v, x),
    {
        if !matches!(v, Value::Object(_)) {
            return Err(DecodeError);
        }
        let early_video_end = read_flag(v, "Early Video End")?;
        let match_suspended = read_flag(v, "Match Suspended")?;
        Ok(HalfEnd { early_video_end, match_suspended })
    }

    /// Whether `o` is absent or null (`x` is `None`) or a record that decodes to `x`.
    pub open spec fn decodes_opt(o: Option<Value>, x: Option<HalfEnd>) -> bool {
        match x {
            None => is_absent(o),
            Some(p) => o is Some && HalfEnd::decodes(o->0, p),
        }
    }

    /// Whether `o` is absent, null, or a record of this payload's shape.
    pub open spec fn decodable_opt(o: Option<Value>) -> bool {
        is_absent(o) || (o is Some && HalfEnd::decodable(o->0))
    }

    /// Decodes an optional payload slot: absent or null gives `None`.
    pub fn decode_opt(o: Option<&Value>) -> (r: Result<Option<HalfEnd>, DecodeError>)
        ensures
            r is Ok <==> HalfEnd::decodable_opt(opt_val(o)),
            r matches Ok(x) ==> HalfEnd::decodes_opt(opt_val(o), x),
    {
        match o {
            None => Ok(None),
            Some(Value::Null) => Ok(None),
            Some(x) => {
                let p = HalfEnd::decode(x)?;
                Ok(Some(p))
            },
        }
    }

}

/// The start of a period.
#[derive(Debug)]
pub struct HalfStart {
    pub late_video_start: bool,
}

impl Clone for HalfStart {
    fn clone(&self) -> (r: Self)
        ensures
            r == *self,
    {
        HalfStart {
            late_video_start: self.late_video_start,
        }
    }
}

impl HalfStart {
    /// Whether `x` is what the record `v` decodes to.
    pub open spec fn decodes(v: Value, x: HalfStart) -> bool {
        &&& v is Object
        &&& as_flag(field(v, "Late Video Start"@)) == Some(x.late_video_start)
    }

    /// Whether the record `v` decodes as this payload: an object whose fields
    /// are each absent or well-formed, as their kinds allow.
    pub open spec fn decodable(v: Value) -> bool {
        &&& v is Object
        &&& as_flag(field(v, "Late Video Start"@)) is Some
    }

    /// Decodes one payload record.
    pub fn decode(v: &Value) -> (r: Result<HalfStart, DecodeError>)
        ensures
            r is Ok <==> HalfStart::decodable(*v),
            r matches Ok(x) ==> HalfStart::decodes(*v, x),
    {
        if !matches!(v, Value::Object(_)) {
            return Err(DecodeError);
        }
        let late_video_start = read_flag(v, "Late Video Start")?;
        Ok(HalfStart { late_video_start })
    }

    /// Whether `o` is absent or null (`x` is `None`) or a record that decodes to `x`.
    pub open spec fn decodes_opt(o: Option<Value>, x: Option<HalfStart>) -> bool {
        match x {
            None => is_absent(o),
            Some(p) => o is Some && HalfStart::decodes(o->0, p),
        }
    }

    /// Whether `o` is absent, null, or a record of this payload's shape.
    pub open spec fn decodable_opt(o: Option<Value>) -> bool {
        is_absent(o) || (o is Some && HalfStart::decodable(o->0))
    }

    /// Decodes an optional payload slot: absent or null gives `None`.
    pub fn decode_opt(o: Option<&Value>) -> (r: Result<Option<HalfStart>, DecodeError>)
        ensures
            r is Ok <==> HalfStart::decodable_opt(opt_val(o)),
            r matches Ok(x) ==> HalfStart::decodes_opt(opt_val(o), x),
    {
        match o {
            None => Ok(None),
            Some(Value::Null) => Ok(None),
            Some(x) => {
                let p = HalfStart::decode(x)?;
                Ok(Some(p))
            },
        }
    }

}

/// A stoppage for an injury.
#[derive(Debug)]
pub struct InjuryStoppage {
    pub in_chain: bool,
}

impl Clone for InjuryStoppage {
    fn clone(&self) -> (r: Self)
        ensures
            r == *self,
    {
        InjuryStoppage {
            in_chain: self.in_chain,
        }
    }
}

impl InjuryStoppage {
    /// Whether `x` is what the record `v` decodes to.
    pub open spec fn decodes(v: Value, x: InjuryStoppage) -> bool {
        &&& v is Object
        &&& as_flag(field(v, "in_chain"@)) == Some(x.in_chain)
    }

    /// Whether the record `v` decodes as this payload: an object whose fields
    /// are each absent or well-formed, as their kinds allow.
    pub open spec fn decodable(v: Value) -> bool {
        &&& v is Object
        &&& as_flag(field(v, "in_chain"@)) is Some
    }

    /// Decodes one payload record.
    pub fn decode(v: &Value) -> (r: Result<InjuryStoppage, DecodeError>)
        ensures
            r is Ok <==> InjuryStoppage::decodable(*v),
            r matches Ok(x) ==> InjuryStoppage::decodes(*v, x),
    {
        if !matches!(v, Value::Object(_)) {
            return Err(DecodeError);
        }
        let in_chain = read_flag(v, "in_chain")?;
        Ok(InjuryStoppage { in_chain })
    }

    /// Whether `o` is absent or null (`x` is `None`) or a record that decodes to `x`.
    pub open spec fn decodes_opt(o: Option<Value>, x: Option<InjuryStoppage>) -> bool {
        match x {
            None => is_absent(o),
            Some(p) => o is Some && InjuryStoppage::decodes(o->0, p),
        }
    }

    /// Whether `o` is absent, null, or a record of this payload's shape.
    pub open spec fn decodable_opt(o: Option<Value>) -> bool {
        is_absent(o) || (o is Some && InjuryStoppage::decodable(o->0))
    }

    /// Decodes an optional payload slot: absent or null gives `None`.
    pub fn decode_opt(o: Option<&Value>) -> (r: Result<Option<InjuryStoppage>, DecodeError>)
        ensures
            r is Ok <==> InjuryStoppage::decodable_opt(opt_val(o)),
            r matches Ok(x) ==> InjuryStoppage::decodes_opt(opt_val(o), x),
    {
        match o {
            None => Ok(None),
            Some(Value::Null) => Ok(None),
            Some(x) => {
                let p = InjuryStoppage::decode(x)?;
                Ok(Some(p))
            },
        }
    }

}

/// An attempt to take the ball past an opponent.
#[derive(Debug)]
pub struct Dribble {
    pub overrun: bool,
    pub nutmeg: bool,
    pub outcome: EventSubType,
    pub no_touch: bool,
}

impl Clone for Dribble {
    fn clone(&self) -> (r: Self)
        ensures
            r == *self,
    {
        Dribble {
            overrun: self.overrun,
            nutmeg: self.nutmeg,
            outcome: self.outcome.clone(),
            no_touch: self.no_touch,
        }
    }
}

impl Dribble {
    /// Whether `x` is what the record `v` decodes to.
    pub open spec fn decodes(v: Value, x: Dribble) -> bool {
        &&& v is Object
        &&& as_flag(field(v, "Overrun"@)) == Some(x.overrun)
        &&& as_flag(field(v, "Nutmeg"@)) == Some(x.nutmeg)
        &&& lookup_is(field(v, "outcome"@), x.outcome)
        &&& as_flag(field(v, "No Touch"@)) == Some(x.no_touch)
    }

    /// Whether the record `v` decodes as this payload: an object whose fields
    /// are each absent or well-formed, as their kinds allow.
    pub open spec fn decodable(v: Value) -> bool {
        &&& v is Object
        &&& as_flag(field(v, "Overrun"@)) is Some
        &&& as_flag(field(v, "Nutmeg"@)) is Some
        &&& lookup_ok(field(v, "outcome"@))
        &&& as_flag(field(v, "No Touch"@)) is Some
    }

    /// Decodes one payload record.
    pub fn decode(v: &Value) -> (r: Result<Dribble, DecodeError>)
        ensures
            r is Ok <==> Dribble::decodable(*v),
            r matches Ok(x) ==> Dribble::decodes(*v, x),
    {
        if !matches!(v, Value::Object(_)) {
            return Err(DecodeError);
        }
        let overrun = read_flag(v, "Overrun")?;
        let nutmeg = read_flag(v, "Nutmeg")?;
        let outcome = EventSubType::decode_field(v, "outcome")?;
        let no_touch = read_flag(v, "No Touch")?;
        Ok(Dribble { overrun, nutmeg, outcome, no_touch })
    }

    /// Whether `o` is absent or null (`x` is `None`) or a record that decodes to `x`.
    pub open spec fn decodes_opt(o: Option<Value>, x: Option<Dribble>) -> bool {
        match x {
            None => is_absent(o),
            Some(p) => o is Some && Dribble::decodes(o->0, p),
        }
    }

    /// Whether `o` is absent, null, or a record of this payload's shape.
    pub open spec fn decodable_opt(o: Option<Value>) -> bool {
        is_absent(o) || (o is Some && Dribble::decodable(o->0))
    }

    /// Decodes an optional payload slot: absent or null gives `None`.
    pub fn decode_opt(o: Option<&Value>) -> (r: Result<Option<Dribble>, DecodeError>)
        ensures
            r is Ok <==> Dribble::decodable_opt(opt_val(o)),
            r matches Ok(x) ==> Dribble::decodes_opt(opt_val(o), x),
    {
        match o {
            None => Ok(None),
            Some(Value::Null) => Ok(None),
            Some(x) => {
                let p = Dribble::decode(x)?;
                Ok(Some(p))
            },
        }
    }

}

/// A clearance of the ball away from danger.
#[derive(Debug)]
pub struct Clearance {
    pub aerial_won: bool,
    pub body_part: EventSubType,
}

impl Clone for Clearance {
    fn clone(&self) -> (r: Self)
        ensures
            r == *self,
    {
        Clearance {
            aerial_won: self.aerial_won,
            body_part: self.body_part.clone(),
        }
    }
}

impl Clearance {
    /// Whether `x` is what the record `v` decodes to.
    pub open spec fn decodes(v: Value, x: Clearance) -> bool {
        &&& v is Object
        &&& as_flag(field(v, "aerial_won"@)) == Some(x.aerial_won)
        &&& lookup_is(field(v, "body_part"@), x.body_part)
    }

    /// Whether the record `v` decodes as this payload: an object whose fields
    /// are each absent or well-formed, as their kinds allow.
    pub open spec fn decodable(v: Value) -> bool {
        &&& v is Object
        &&& as_flag(field(v, "aerial_won"@)) is Some
        &&& lookup_ok(field(v, "body_part"@))
    }

    /// Decodes one payload record.
    pub fn decode(v: &Value) -> (r: Result<Clearance, DecodeError>)
        ensures
            r is Ok <==> Clearance::decodable(*v),
            r matches Ok(x) ==> Clearance::decodes(*v, x),
    {
        if !matches!(v, Value::Object(_)) {
            return Err(DecodeError);
        }
        let aerial_won = read_flag(v, "aerial_won")?;
        let body_part = EventSubType::decode_field(v, "body_part")?;
        Ok(Clearance { aerial_won, body_part })
    }

    /// Whether `o` is absent or null (`x` is `None`) or a record that decodes to `x`.
    pub open spec fn decodes_opt(o: Option<Value>, x: Option<Clearance>) -> bool {
        match x {
            None => is_absent(o),
            Some(p) => o is Some && Clearance::decodes(o->0, p),
        }
    }

    /// Whether `o` is absent, null, or a record of this payload's shape.
    pub open spec fn decodable_opt(o: Option<Value>) -> bool {
        is_absent(o) || (o is Some && Clearance::decodable(o->0))
    }

    /// Decodes an optional payload slot: absent or null gives `None`.
    pub fn decode_opt(o: Option<&Value>) -> (r: Result<Option<Clearance>, DecodeError>)
        ensures
            r is Ok <==> Clearance::decodable_opt(opt_val(o)),
            r matches Ok(x) ==> Clearance::decodes_opt(opt_val(o), x),
    {
        match o {
            None => Ok(None),
            Some(Value::Null) => Ok(None),
            Some(x) => {
                let p = Clearance::decode(x)?;
                Ok(Some(p))
            },
        }
    }

}

/// An interception of a pass.
#[derive(Debug)]
pub struct Interception {
    pub outcome: EventSubType,
}

impl Clone for Interception {
    fn clone(&self) -> (r: Self)
        ensures
            r == *self,
    {
        Interception {
            outcome: self.outcome.clone(),
        }
    }
}

impl Interception {
    /// Whether `x` is what the record `v` decodes to.
    pub open spec fn decodes(v: Value, x: Interception) -> bool {
        &&& v is Object
        &&& lookup_is(field(v, "outcome"@), x.outcome)
    }

    /// Whether the record `v` decodes as this payload: an object whose fields
    /// are each absent or well-formed, as their kinds allow.
    pub open spec fn decodable(v: Value) -> bool {
        &&& v is Object
        &&& lookup_ok(field(v, "outcome"@))
    }

    /// Decodes one payload record.
    pub fn decode(v: &Value) -> (r: Result<Interception, DecodeError>)
        ensures
            r is Ok <==> Interception::decodable(*v),
            r matches Ok(x) ==> Interception::decodes(*v, x),
    {
        if !matches!(v, Value::Object(_)) {
            return Err(DecodeError);
        }
        let outcome = EventSubType::decode_field(v, "outcome")?;
        Ok(Interception { outcome })
    }

    /// Whether `o` is absent or null (`x` is `None`) or a record that decodes to `x`.
    pub open spec fn decodes_opt(o: Option<Value>, x: Option<Interception>) -> bool {
        match x {
            None => is_absent(o),
            Some(p) => o is Some && Interception::decodes(o->0, p),
        }
    }

    /// Whether `o` is absent, null, or a record of this payload's shape.
    pub open spec fn decodable_opt(o: Option<Value>) -> bool {
        is_absent(o) || (o is Some && Interception::decodable(o->0))
    }

    /// Decodes an optional payload slot: absent or null gives `None`.
    pub fn decode_opt(o: Option<&Value>) -> (r: Result<Option<Interception>, DecodeError>)
        ensures
            r is Ok <==> Interception::decodable_opt(opt_val(o)),
            r matches Ok(x) ==> Interception::decodes_opt(opt_val(o), x),
    {
        match o {
            None => Ok(None),
            Some(Value::Null) => Ok(None),
            Some(x) => {
                let p = Interception::decode(x)?;
                Ok(Some(p))
            },
        }
    }

}

/// A loss of the ball through a bad touch.
#[derive(Debug)]
pub struct Miscontrol {
    pub aerial_won: bool,
}

impl Clone for Miscontrol {
    fn clone(&self) -> (r: Self)
        ensures
            r == *self,
    {
        Miscontrol {
            aerial_won: self.aerial_won,
        }
    }
}

impl Miscontrol {
    /// Whether `x` is what the record `v` decodes to.
    pub open spec fn decodes(v: Value, x: Miscontrol) -> bool {
        &&& v is Object
        &&& as_flag(field(v, "Nutmeg"@)) == Some(x.aerial_won)
    }

    /// Whether the record `v` decodes as this payload: an object whose fields
    /// are each absent or well-formed, as their kinds allow.
    pub open spec fn decodable(v: Value) -> bool {
        &&& v is Object
        &&& as_flag(field(v, "Nutmeg"@)) is Some
    }

    /// Decodes one payload record.
    pub fn decode(v: &Value) -> (r: Result<Miscontrol, DecodeError>)
        ensures
            r is Ok <==> Miscontrol::decodable(*v),
            r matches Ok(x) ==> Miscontrol::decodes(*v, x),
    {
        if !matches!(v, Value::Object(_)) {
            return Err(DecodeError);
        }
        let aerial_won = read_flag(v, "Nutmeg")?;
        Ok(Miscontrol { aerial_won })
    }

    /// Whether `o` is absent or null (`x` is `None`) or a record that decodes to `x`.
    pub open spec fn decodes_opt(o: Option<Value>, x: Option<Miscontrol>) -> bool {
        match x {
            None => is_absent(o),
            Some(p) => o is Some && Miscontrol::decodes(o->0, p),
        }
    }

    /// Whether `o` is absent, null, or a record of this payload's shape.
    pub open spec fn decodable_opt(o: Option<Value>) -> bool {
        is_absent(o) || (o is Some && Miscontrol::decodable(o->0))
    }

    /// Decodes an optional payload slot: absent or null gives `None`.
    pub fn decode_opt(o: Option<&Value>) -> (r: Result<Option<Miscontrol>, DecodeError>)
        ensures
            r is Ok <==> Miscontrol::decodable_opt(opt_val(o)),
            r matches Ok(x) ==> Miscontrol::decodes_opt(opt_val(o), x),
    {
        match o {
            None => Ok(None),
            Some(Value::Null) => Ok(None),
            Some(x) => {
                let p = Miscontrol::decode(x)?;
                Ok(Some(p))
            },
        }
    }

}

/// A pass of the ball.
#[derive(Debug)]
pub struct Pass {
    pub backheel: bool,
    pub deflected: bool,
    pub miscommunication: bool,
    pub cross: bool,
    pub cut_back: bool,
    pub switch: bool,
    pub shot_assist: bool,
    pub goal_assist: bool,
    pub body_part: Option<EventSubType>,
    pub kind: Option<EventSubType>,
    pub outcome: Option<EventSubType>,
    pub technique: Option<EventSubType>,
    pub recipient: Option<EventSubType>,
    pub length: Decimal,
    pub angle: Decimal,
    pub height: EventSubType,
    pub end_location: Location,
    pub assisted_shot_id: Option<String>,
}

impl Clone for Pass {
    fn clone(&self) -> (r: Self)
        ensures
            r == *self,
    {
        Pass {
            backheel: self.backheel,
            deflected: self.deflected,
            miscommunication: self.miscommunication,
            cross: self.cross,
            cut_back: self.cut_back,
            switch: self.switch,
            shot_assist: self.shot_assist,
            goal_assist: self.goal_assist,
            body_part: self.body_part.clone(),
            kind: self.kind.clone(),
            outcome: self.outcome.clone(),
            technique: self.technique.clone(),
            recipient: self.recipient.clone(),
            length: self.length.clone(),
            angle: self.angle.clone(),
            height: self.height.clone(),
            end_location: self.end_location.clone(),
            assisted_shot_id: self.assisted_shot_id.clone(),
        }
    }
}

impl Pass {
    /// Whether `x` is what the record `v` decodes to.
    pub open spec fn decodes(v: Value, x: Pass) -> bool {
        &&& v is Object
        &&& as_flag(field(v, "backheel"@)) == Some(x.backheel)
        &&& as_flag(field(v, "deflected"@)) == Some(x.deflected)
        &&& as_flag(field(v, "miscommunication"@)) == Some(x.miscommunication)
        &&& as_flag(field(v, "cross"@)) == Some(x.cross)
        &&& as_flag(field(v, "cut-back"@)) == Some(x.cut_back)
        &&& as_flag(field(v, "switch"@)) == Some(x.switch)
        &&& as_flag(field(v, "shot-assist"@)) == Some(x.shot_assist)
        &&& as_flag(field(v, "goal-assist"@)) == Some(x.goal_assist)
        &&& opt_lookup_is(field(v, "body_part"@), x.body_part)
        &&& opt_lookup_is(field(v, "type"@), x.kind)
        &&& opt_lookup_is(field(v, "outcome"@), x.outcome)
        &&& opt_lookup_is(field(v, "Technique"@), x.technique)
        &&& opt_lookup_is(field(v, "recipient"@), x.recipient)
        &&& decimal_is(field(v, "length"@), x.length)
        &&& decimal_is(field(v, "angle"@), x.angle)
        &&& lookup_is(field(v, "height"@), x.height)
        &&& point_is(field(v, "end_location"@), x.end_location)
        &&& opt_text_is(field(v, "assisted_shot_id"@), x.assisted_shot_id)
    }

    /// Whether the record `v` decodes as this payload: an object whose fields
    /// are each absent or well-formed, as their kinds allow.
    pub open spec fn decodable(v: Value) -> bool {
        &&& v is Object
        &&& as_flag(field(v, "backheel"@)) is Some
        &&& as_flag(field(v, "deflected"@)) is Some
        &&& as_flag(field(v, "miscommunication"@)) is Some
        &&& as_flag(field(v, "cross"@)) is Some
        &&& as_flag(field(v, "cut-back"@)) is Some
        &&& as_flag(field(v, "switch"@)) is Some
        &&& as_flag(field(v, "shot-assist"@)) is Some
        &&& as_flag(field(v, "goal-assist"@)) is Some
        &&& opt_lookup_ok(field(v, "body_part"@))
        &&& opt_lookup_ok(field(v, "type"@))
        &&& opt_lookup_ok(field(v, "outcome"@))
        &&& opt_lookup_ok(field(v, "Technique"@))
        &&& opt_lookup_ok(field(v, "recipient"@))
        &&& field(v, "length"@) matches Some(Value::Number(_))
        &&& field(v, "angle"@) matches Some(Value::Number(_))
        &&& lookup_ok(field(v, "height"@))
        &&& is_point(field(v, "end_location"@))
        &&& (is_absent(field(v, "assisted_shot_id"@)) || as_text(field(v, "assisted_shot_id"@)) is Some)
    }

    /// Decodes one payload record.
    pub fn decode(v: &Value) -> (r: Result<Pass, DecodeError>)
        ensures
            r is Ok <==> Pass::decodable(*v),
            r matches Ok(x) ==> Pass::decodes(*v, x),
    {
        if !matches!(v, Value::Object(_)) {
            return Err(DecodeError);
        }
        let backheel = read_flag(v, "backheel")?;
        let deflected = read_flag(v, "deflected")?;
        let miscommunication = read_flag(v, "miscommunication")?;
        let cross = read_flag(v, "cross")?;
        let cut_back = read_flag(v, "cut-back")?;
        let switch = read_flag(v, "switch")?;
        let shot_assist = read_flag(v, "shot-assist")?;
        let goal_assist = read_flag(v, "goal-assist")?;
        let body_part = EventSubType::decode_opt_field(v, "body_part")?;
        let kind = EventSubType::decode_opt_field(v, "type")?;
        let outcome = EventSubType::decode_opt_field(v, "outcome")?;
        let technique = EventSubType::decode_opt_field(v, "Technique")?;
        let recipient = EventSubType::decode_opt_field(v, "recipient")?;
        let length = read_decimal(v.get("length"))?;
        let angle = read_decimal(v.get("angle"))?;
        let height = EventSubType::decode_field(v, "height")?;
        let end_location = read_point(v.get("end_location"))?;
        let assisted_shot_id = read_opt_text(v, "assisted_shot_id")?;
        Ok(Pass { backheel, deflected, miscommunication, cross, cut_back, switch, shot_assist, goal_assist, body_part, kind, outcome, technique, recipient, length, angle, height, end_location, assisted_shot_id })
    }

    /// Whether `o` is absent or null (`x` is `None`) or a record that decodes to `x`.
    pub open spec fn decodes_opt(o: Option<Value>, x: Option<Pass>) -> bool {
        match x {
            None => is_absent(o),
            Some(p) => o is Some && Pass::decodes(o->0, p),
        }
    }

    /// Whether `o` is absent, null, or a record of this payload's shape.
    pub open spec fn decodable_opt(o: Option<Value>) -> bool {
        is_absent(o) || (o is Some && Pass::decodable(o->0))
    }

    /// Decodes an optional payload slot: absent or null gives `None`.
    pub fn decode_opt(o: Option<&Value>) -> (r: Result<Option<Pass>, DecodeError>)
        ensures
            r is Ok <==> Pass::decodable_opt(opt_val(o)),
            r matches Ok(x) ==> Pass::decodes_opt(opt_val(o), x),
    {
        match o {
            None => Ok(None),
            Some(Value::Null) => Ok(None),
            Some(x) => {
                let p = Pass::decode(x)?;
                Ok(Some(p))
            },
        }
    }

}

/// A block of the ball.
#[derive(Debug)]
pub struct Block {
    pub deflection: bool,
    pub offensive: bool,
    pub save_block: bool,
    pub counterpress: bool,
}

impl Clone for Block {
    fn clone(&self) -> (r: Self)
        ensures
            r == *self,
    {
        Block {
            deflection: self.deflection,
            offensive: self.offensive,
            save_block: self.save_block,
            counterpress: self.counterpress,
        }
    }
}

impl Block {
    /// Whether `x` is what the record `v` decodes to.
    pub open spec fn decodes(v: Value, x: Block) -> bool {
        &&& v is Object
        &&& as_flag(field(v, "deflection"@)) == Some(x.deflection)
        &&& as_flag(field(v, "offensive"@)) == Some(x.offensive)
        &&& as_flag(field(v, "save_block"@)) == Some(x.save_block)
        &&& as_flag(field(v, "counterpress"@)) == Some(x.counterpress)
    }

    /// Whether the record `v` decodes as this payload: an object whose fields
    /// are each absent or well-formed, as their kinds allow.
    pub open spec fn decodable(v: Value) -> bool {
        &&& v is Object
        &&& as_flag(field(v, "deflection"@)) is Some
        &&& as_flag(field(v, "offensive"@)) is Some
        &&& as_flag(field(v, "save_block"@)) is Some
        &&& as_flag(field(v, "counterpress"@)) is Some
    }

    /// Decodes one payload record.
    pub fn decode(v: &Value) -> (r: Result<Block, DecodeError>)
        ensures
            r is Ok <==> Block::decodable(*v),
            r matches Ok(x) ==> Block::decodes(*v, x),
    {
        if !matches!(v, Value::Object(_)) {
            return Err(DecodeError);
        }
        let deflection = read_flag(v, "deflection")?;
        let offensive = read_flag(v, "offensive")?;
        let save_block = read_flag(v, "save_block")?;
        let counterpress = read_flag(v, "counterpress")?;
        Ok(Block { deflection, offensive, save_block, counterpress })
    }

    /// Whether `o` is absent or null (`x` is `None`) or a record that decodes to `x`.
    pub open spec fn decodes_opt(o: Option<Value>, x: Option<Block>) -> bool {
        match x {
            None => is_absent(o),
            Some(p) => o is Some && Block::decodes(o->0, p),
        }
    }

    /// Whether `o` is absent, null, or a record of this payload's shape.
    pub open spec fn decodable_opt(o: Option<Value>) -> bool {
        is_absent(o) || (o is Some && Block::decodable(o->0))
    }

    /// Decodes an optional payload slot: absent or null gives `None`.
    pub fn decode_opt(o: Option<&Value>) -> (r: Result<Option<Block>, DecodeError>)
        ensures
            r is Ok <==> Block::decodable_opt(opt_val(o)),
            r matches Ok(x) ==> Block::decodes_opt(opt_val(o), x),
    {
        match o {
            None => Ok(None),
            Some(Value::Null) => Ok(None),
            Some(x) => {
                let p = Block::decode(x)?;
                Ok(Some(p))
            },
        }
    }

}

/// A player leaving the pitch.
#[derive(Debug)]
pub struct PlayerOff {
    pub permenant: bool,
}

impl Clone for PlayerOff {
    fn clone(&self) -> (r: Self)
        ensures
            r == *self,
    {
        PlayerOff {
            permenant: self.permenant,
        }
    }
}

impl PlayerOff {
    /// Whether `x` is what the record `v` decodes to.
    pub open spec fn decodes(v: Value, x: PlayerOff) -> bool {
        &&& v is Object
        &&& as_flag(field(v, "Permenant"@)) == Some(x.permenant)
    }

    /// Whether the record `v` decodes as this payload: an object whose fields
    /// are each absent or well-formed, as their kinds allow.
    pub open spec fn decodable(v: Value) -> bool {
        &&& v is Object
        &&& as_flag(field(v, "Permenant"@)) is Some
    }

    /// Decodes one payload record.
    pub fn decode(v: &Value) -> (r: Result<PlayerOff, DecodeError>)
        ensures
            r is Ok <==> PlayerOff::decodable(*v),
            r matches Ok(x) ==> PlayerOff::decodes(*v, x),
    {
        if !matches!(v, Value::Object(_)) {
            return Err(DecodeError);
        }
        let permenant = read_flag(v, "Permenant")?;
        Ok(PlayerOff { permenant })
    }

    /// Whether `o` is absent or null (`x` is `None`) or a record that decodes to `x`.
    pub open spec fn decodes_opt(o: Option<Value>, x: Option<PlayerOff>) -> bool {
        match x {
            None => is_absent(o),
            Some(p) => o is Some && PlayerOff::decodes(o->0, p),
        }
    }

    /// Whether `o` is absent, null, or a record of this payload's shape.
    pub open spec fn decodable_opt(o: Option<Value>) -> bool {
        is_absent(o) || (o is Some && PlayerOff::decodable(o->0))
    }

    /// Decodes an optional payload slot: absent or null gives `None`.
    pub fn decode_opt(o: Option<&Value>) -> (r: Result<Option<PlayerOff>, DecodeError>)
        ensures
            r is Ok <==> PlayerOff::decodable_opt(opt_val(o)),
            r matches Ok(x) ==> PlayerOff::decodes_opt(opt_val(o), x),
    {
        match o {
            None => Ok(None),
            Some(Value::Null) => Ok(None),
            Some(x) => {
                let p = PlayerOff::decode(x)?;
                Ok(Some(p))
            },
        }
    }

}

/// Pressure applied to the player in possession.
#[derive(Debug)]
pub struct Pressure {
    pub counterpress: bool,
}

impl Clone for Pressure {
    fn clone(&self) -> (r: Self)
        ensures
            r == *self,
    {
        Pressure {
            counterpress: self.counterpress,
        }
    }
}

impl Pressure {
    /// Whether `x` is what the record `v` decodes to.
    pub open spec fn decodes(v: Value, x: Pressure) -> bool {
        &&& v is Object
        &&& as_flag(field(v, "counterpress"@)) == Some(x.counterpress)
    }

    /// Whether the record `v` decodes as this payload: an object whose fields
    /// are each absent or well-formed, as their kinds allow.
    pub open spec fn decodable(v: Value) -> bool {
        &&& v is Object
        &&& as_flag(field(v, "counterpress"@)) is Some
    }

    /// Decodes one payload record.
    pub fn decode(v: &Value) -> (r: Result<Pressure, DecodeError>)
        ensures
            r is Ok <==> Pressure::decodable(*v),
            r matches Ok(x) ==> Pressure::decodes(*v, x),
    {
        if !matches!(v, Value::Object(_)) {
            return Err(DecodeError);
        }
        let counterpress = read_flag(v, "counterpress")?;
        Ok(Pressure { counterpress })
    }

    /// Whether `o` is absent or null (`x` is `None`) or a record that decodes to `x`.
    pub open spec fn decodes_opt(o: Option<Value>, x: Option<Pressure>) -> bool {
        match x {
            None => is_absent(o),
            Some(p) => o is Some && Pressure::decodes(o->0, p),
        }
    }

    /// Whether `o` is absent, null, or a record of this payload's shape.
    pub open spec fn decodable_opt(o: Option<Value>) -> bool {
        is_absent(o) || (o is Some && Pressure::decodable(o->0))
    }

    /// Decodes an optional payload slot: absent or null gives `None`.
    pub fn decode_opt(o: Option<&Value>) -> (r: Result<Option<Pressure>, DecodeError>)
        ensures
            r is Ok <==> Pressure::decodable_opt(opt_val(o)),
            r matches Ok(x) ==> Pressure::decodes_opt(opt_val(o), x),
    {
        match o {
            None => Ok(None),
            Some(Value::Null) => Ok(None),
            Some(x) => {
                let p = Pressure::decode(x)?;
                Ok(Some(p))
            },
        }
    }

}

/// The receipt of a pass.
#[derive(Debug)]
pub struct BallReceipt {
    pub outcome: EventSubType,
}

impl Clone for BallReceipt {
    fn clone(&self) -> (r: Self)
        ensures
            r == *self,
    {
        BallReceipt {
            outcome: self.outcome.clone(),
        }
    }
}

impl BallReceipt {
    /// Whether `x` is what the record `v` decodes to.
    pub open spec fn decodes(v: Value, x: BallReceipt) -> bool {
        &&& v is Object
        &&& lookup_is(field(v, "outcome"@), x.outcome)
    }

    /// Whether the record `v` decodes as this payload: an object whose fields
    /// are each absent or well-formed, as their kinds allow.
    pub open spec fn decodable(v: Value) -> bool {
        &&& v is Object
        &&& lookup_ok(field(v, "outcome"@))
    }

    /// Decodes one payload record.
    pub fn decode(v: &Value) -> (r: Result<BallReceipt, DecodeError>)
        ensures
            r is Ok <==> BallReceipt::decodable(*v),
            r matches Ok(x) ==> BallReceipt::decodes(*v, x),
    {
        if !matches!(v, Value::Object(_)) {
            return Err(DecodeError);
        }
        let outcome = EventSubType::decode_field(v, "outcome")?;
        Ok(BallReceipt { outcome })
    }

    /// Whether `o` is absent or null (`x` is `None`) or a record that decodes to `x`.
    pub open spec fn decodes_opt(o: Option<Value>, x: Option<BallReceipt>) -> bool {
        match x {
            None => is_absent(o),
            Some(p) => o is Some && BallReceipt::decodes(o->0, p),
        }
    }

    /// Whether `o` is absent, null, or a record of this payload's shape.
    pub open spec fn decodable_opt(o: Option<Value>) -> bool {
        is_absent(o) || (o is Some && BallReceipt::decodable(o->0))
    }

    /// Decodes an optional payload slot: absent or null gives `None`.
    pub fn decode_opt(o: Option<&Value>) -> (r: Result<Option<BallReceipt>, DecodeError>)
        ensures
            r is Ok <==> BallReceipt::decodable_opt(opt_val(o)),
            r matches Ok(x) ==> BallReceipt::decodes_opt(opt_val(o), x),
    {
        match o {
            None => Ok(None),
            Some(Value::Null) => Ok(None),
            Some(x) => {
                let p = BallReceipt::decode(x)?;
                Ok(Some(p))
            },
        }
    }

}

/// The recovery of a loose ball.
#[derive(Debug)]
pub struct BallRecovery {
    pub recovery_failure: bool,
    pub offensive: bool,
}

impl Clone for BallRecovery {
    fn clone(&self) -> (r: Self)
        ensures
            r == *self,
    {
        BallRecovery {
            recovery_failure: self.recovery_failure,
            offensive: self.offensive,
        }
    }
}

impl BallRecovery {
    /// Whether `x` is what the record `v` decodes to.
    pub open spec fn decodes(v: Value, x: BallRecovery) -> bool {
        &&& v is Object
        &&& as_flag(field(v, "recovery_failure"@)) == Some(x.recovery_failure)
        &&& as_flag(field(v, "offensive"@)) == Some(x.offensive)
    }

    /// Whether the record `v` decodes as this payload: an object whose fields
    /// are each absent or well-formed, as their kinds allow.
    pub open spec fn decodable(v: Value) -> bool {
        &&& v is Object
        &&& as_flag(field(v, "recovery_failure"@)) is Some
        &&& as_flag(field(v, "offensive"@)) is Some
    }

    /// Decodes one payload record.
    pub fn decode(v: &Value) -> (r: Result<BallRecovery, DecodeError>)
        ensures
            r is Ok <==> BallRecovery::decodable(*v),
            r matches Ok(x) ==> BallRecovery::decodes(*v, x),
    {
        if !matches!(v, Value::Object(_)) {
            return Err(DecodeError);
        }
        let recovery_failure = read_flag(v, "recovery_failure")?;
        let offensive = read_flag(v, "offensive")?;
        Ok(BallRecovery { recovery_failure, offensive })
    }

    /// Whether `o` is absent or null (`x` is `None`) or a record that decodes to `x`.
    pub open spec fn decodes_opt(o: Option<Value>, x: Option<BallRecovery>) -> bool {
        match x {
            None => is_absent(o),
            Some(p) => o is Some && BallRecovery::decodes(o->0, p),
        }
    }

    /// Whether `o` is absent, null, or a record of this payload's shape.
    pub open spec fn decodable_opt(o: Option<Value>) -> bool {
        is_absent(o) || (o is Some && BallRecovery::decodable(o->0))
    }

    /// Decodes an optional payload slot: absent or null gives `None`.
    pub fn decode_opt(o: Option<&Value>) -> (r: Result<Option<BallRecovery>, DecodeError>)
        ensures
            r is Ok <==> BallRecovery::decodable_opt(opt_val(o)),
            r matches Ok(x) ==> BallRecovery::decodes_opt(opt_val(o), x),
    {
        match o {
            None => Ok(None),
            Some(Value::Null) => Ok(None),
            Some(x) => {
                let p = BallRecovery::decode(x)?;
                Ok(Some(p))
            },
        }
    }

}

/// A carry of the ball.
#[derive(Debug)]
pub struct Carry {
    pub end_location: Location,
}

impl Clone for Carry {
    fn clone(&self) -> (r: Self)
        ensures
            r == *self,
    {
        Carry {
            end_location: self.end_location.clone(),
        }
    }
}

impl Carry {
    /// Whether `x` is what the record `v` decodes to.
    pub open spec fn decodes(v: Value, x: Carry) -> bool {
        &&& v is Object
        &&& point_is(field(v, "end_location"@), x.end_location)
    }

    /// Whether the record `v` decodes as this payload: an object whose fields
    /// are each absent or well-formed, as their kinds allow.
    pub open spec fn decodable(v: Value) -> bool {
        &&& v is Object
        &&& is_point(field(v, "end_location"@))
    }

    /// Decodes one payload record.
    pub fn decode(v: &Value) -> (r: Result<Carry, DecodeError>)
        ensures
            r is Ok <==> Carry::decodable(*v),
            r matches Ok(x) ==> Carry::decodes(*v, x),
    {
        if !matches!(v, Value::Object(_)) {
            return Err(DecodeError);
        }
        let end_location = read_point(v.get("end_location"))?;
        Ok(Carry { end_location })
    }

    /// Whether `o` is absent or null (`x` is `None`) or a record that decodes to `x`.
    pub open spec fn decodes_opt(o: Option<Value>, x: Option<Carry>) -> bool {
        match x {
            None => is_absent(o),
            Some(p) => o is Some && Carry::decodes(o->0, p),
        }
    }

    /// Whether `o` is absent, null, or a record of this payload's shape.
    pub open spec fn decodable_opt(o: Option<Value>) -> bool {
        is_absent(o) || (o is Some && Carry::decodable(o->0))
    }

    /// Decodes an optional payload slot: absent or null gives `None`.
    pub fn decode_opt(o: Option<&Value>) -> (r: Result<Option<Carry>, DecodeError>)
        ensures
            r is Ok <==> Carry::decodable_opt(opt_val(o)),
            r matches Ok(x) ==> Carry::decodes_opt(opt_val(o), x),
    {
        match o {
            None => Ok(None),
            Some(Value::Null) => Ok(None),
            Some(x) => {
                let p = Carry::decode(x)?;
                Ok(Some(p))
            },
        }
    }

}

/// The position of one player at the moment of a shot.
#[derive(Debug)]
pub struct FreezeFrame {
    pub location: Location,
    pub player: EventSubType,
}

impl Clone for FreezeFrame {
    fn clone(&self) -> (r: Self)
        ensures
            r == *self,
    {
        FreezeFrame {
            location: self.location.clone(),
            player: self.player.clone(),
        }
    }
}

impl FreezeFrame {
    /// Whether `x` is what the record `v` decodes to.
    pub open spec fn decodes(v: Value, x: FreezeFrame) -> bool {
        &&& v is Object
        &&& point_is(field(v, "location"@), x.location)
        &&& lookup_is(field(v, "player"@), x.player)
    }

    /// Whether the record `v` decodes as this payload: an object whose fields
    /// are each absent or well-formed, as their kinds allow.
    pub open spec fn decodable(v: Value) -> bool {
        &&& v is Object
        &&& is_point(field(v, "location"@))
        &&& lookup_ok(field(v, "player"@))
    }

    /// Decodes one payload record.
    pub fn decode(v: &Value) -> (r: Result<FreezeFrame, DecodeError>)
        ensures
            r is Ok <==> FreezeFrame::decodable(*v),
            r matches Ok(x) ==> FreezeFrame::decodes(*v, x),
    {
        if !matches!(v, Value::Object(_)) {
            return Err(DecodeError);
        }
        let location = read_point(v.get("location"))?;
        let player = EventSubType::decode_field(v, "player")?;
        Ok(FreezeFrame { location, player })
    }

    /// Whether `o` is absent or null (`x` is `None`) or a record that decodes to `x`.
    pub open spec fn decodes_opt(o: Option<Value>, x: Option<FreezeFrame>) -> bool {
        match x {
            None => is_absent(o),
            Some(p) => o is Some && FreezeFrame::decodes(o->0, p),
        }
    }

    /// Whether `o` is absent, null, or a record of this payload's shape.
    pub open spec fn decodable_opt(o: Option<Value>) -> bool {
        is_absent(o) || (o is Some && FreezeFrame::decodable(o->0))
    }

    /// Decodes an optional payload slot: absent or null gives `None`.
    pub fn decode_opt(o: Option<&Value>) -> (r: Result<Option<FreezeFrame>, DecodeError>)
        ensures
            r is Ok <==> FreezeFrame::decodable_opt(opt_val(o)),
            r matches Ok(x) ==> FreezeFrame::decodes_opt(opt_val(o), x),
    {
        match o {
            None => Ok(None),
            Some(Value::Null) => Ok(None),
            Some(x) => {
                let p = FreezeFrame::decode(x)?;
                Ok(Some(p))
            },
        }
    }

}

/// One entry of a lineup.
#[derive(Debug)]
pub struct LineupPlayer {
    pub player: EventSubType,
    pub position: EventSubType,
    pub jersey_number: u8,
}

impl Clone for LineupPlayer {
    fn clone(&self) -> (r: Self)
        ensures
            r == *self,
    {
        LineupPlayer {
            player: self.player.clone(),
            position: self.position.clone(),
            jersey_number: self.jersey_number,
        }
    }
}

impl LineupPlayer {
    /// Whether `x` is what the record `v` decodes to.
    pub open spec fn decodes(v: Value, x: LineupPlayer) -> bool {
        &&& v is Object
        &&& lookup_is(field(v, "player"@), x.player)
        &&& lookup_is(field(v, "position"@), x.position)
        &&& as_uint(field(v, "jersey_number"@), u8::MAX as nat) == Some(x.jersey_number as nat)
    }

    /// Whether the record `v` decodes as this payload: an object whose fields
    /// are each absent or well-formed, as their kinds allow.
    pub open spec fn decodable(v: Value) -> bool {
        &&& v is Object
        &&& lookup_ok(field(v, "player"@))
        &&& lookup_ok(field(v, "position"@))
        &&& as_uint(field(v, "jersey_number"@), u8::MAX as nat) is Some
    }

    /// Decodes one payload record.
    pub fn decode(v: &Value) -> (r: Result<LineupPlayer, DecodeError>)
        ensures
            r is Ok <==> LineupPlayer::decodable(*v),
            r matches Ok(x) ==> LineupPlayer::decodes(*v, x),
    {
        if !matches!(v, Value::Object(_)) {
            return Err(DecodeError);
        }
        let player = EventSubType::decode_field(v, "player")?;
        let position = EventSubType::decode_field(v, "position")?;
        let jersey_number = read_uint(v, "jersey_number", 255)? as u8;
        Ok(LineupPlayer { player, position, jersey_number })
    }

    /// Whether `o` is absent or null (`x` is `None`) or a record that decodes to `x`.
    pub open spec fn decodes_opt(o: Option<Value>, x: Option<LineupPlayer>) -> bool {
        match x {
            None => is_absent(o),
            Some(p) => o is Some && LineupPlayer::decodes(o->0, p),
        }
    }

    /// Whether `o` is absent, null, or a record of this payload's shape.
    pub open spec fn decodable_opt(o: Option<Value>) -> bool {
        is_absent(o) || (o is Some && LineupPlayer::decodable(o->0))
    }

    /// Decodes an optional payload slot: absent or null gives `None`.
    pub fn decode_opt(o: Option<&Value>) -> (r: Result<Option<LineupPlayer>, DecodeError>)
        ensures
            r is Ok <==> LineupPlayer::decodable_opt(opt_val(o)),
            r matches Ok(x) ==> LineupPlayer::decodes_opt(opt_val(o), x),
    {
        match o {
            None => Ok(None),
            Some(Value::Null) => Ok(None),
            Some(x) => {
                let p = LineupPlayer::decode(x)?;
                Ok(Some(p))
            },
        }
    }

}

} // verus!
