//! Payloads with a structure of their own: the shot (with its list of
//! player positions), the tactics block (with its lineup of exactly eleven),
//! and the contested-ball outcome.

use vstd::prelude::*;
use crate::value::{
    Value, DecodeError, Decimal, field, as_text, as_uint, as_flag, as_opt_flag, is_absent,
    decimal_is, opt_val, read_flag, read_opt_flag, read_opt_text, read_decimal, read_uint,
};
use crate::vocab::{
    EventSubType, FiftyFiftyOutcome, lookup_ok, opt_lookup_is, opt_lookup_ok,
    names_fifty_fifty_outcome,
};
use crate::payloads::{FreezeFrame, LineupPlayer, opt_text_is};

verus! {

/// The number of players in a lineup.
pub const LINEUP_SIZE: usize = 11;

/// A formation and the eleven players that take part in it.
#[derive(Debug)]
pub struct Tactics {
    pub formation: u16,
    pub lineup: Vec<LineupPlayer>,
}

/// Whether `o` is a list of exactly eleven entries decoding to `s`.
pub open spec fn lineup_is(o: Option<Value>, s: Seq<LineupPlayer>) -> bool {
    match o {
        Some(Value::Array(items)) => items@.len() == LINEUP_SIZE && s.len() == LINEUP_SIZE
            && forall|i: int| 0 <= i < LINEUP_SIZE ==> LineupPlayer::decodes(#[trigger] items@[i], s[i]),
        _ => false,
    }
}

/// Whether `o` is a list of exactly eleven well-formed lineup entries.
pub open spec fn lineup_ok(o: Option<Value>) -> bool {
    match o {
        Some(Value::Array(items)) => items@.len() == LINEUP_SIZE
            && forall|i: int| 0 <= i < LINEUP_SIZE ==> LineupPlayer::decodable(#[trigger] items@[i]),
        _ => false,
    }
}

impl Tactics {
    /// A tactics block always holds eleven lineup entries.
    pub open spec fn wf(self) -> bool {
        self.lineup@.len() == LINEUP_SIZE
    }

    /// Equality with lists compared by their contents.
    pub open spec fn same(self, o: Tactics) -> bool {
        self.formation == o.formation && self.lineup@ == o.lineup@
    }

    /// A copy of the block.
    pub fn duplicate(&self) -> (r: Tactics)
        ensures
            r.same(*self),
    {
        let r = Tactics { formation: self.formation, lineup: self.lineup.clone() };
        assert(r.lineup@ =~= self.lineup@);
        r
    }

    /// Whether `x` is what the record `v` decodes to.
    pub open spec fn decodes(v: Value, x: Tactics) -> bool {
        &&& v is Object
        &&& as_uint(field(v, "formation"@), u16::MAX as nat) == Some(x.formation as nat)
        &&& lineup_is(field(v, "lineup"@), x.lineup@)
    }

    /// Whether the record `v` decodes: a 16-bit formation and a lineup of eleven.
    pub open spec fn decodable(v: Value) -> bool {
        &&& v is Object
        &&& as_uint(field(v, "formation"@), u16::MAX as nat) is Some
        &&& lineup_ok(field(v, "lineup"@))
    }

    /// Decodes a tactics block; a lineup of any length but eleven is refused.
    pub fn decode(v: &Value) -> (r: Result<Tactics, DecodeError>)
        ensures
            r is Ok <==> Tactics::decodable(*v),
            r matches Ok(x) ==> Tactics::decodes(*v, x) && x.wf(),
    {
        if !matches!(v, Value::Object(_)) {
            return Err(DecodeError);
        }
        let formation = read_uint(v, "formation", 65535)? as u16;
        let items = match v.get("lineup") {
            Some(Value::Array(items)) => items,
            _ => return Err(DecodeError),
        };
        if items.len() != LINEUP_SIZE {
            return Err(DecodeError);
        }
        let mut lineup: Vec<LineupPlayer> = Vec::new();
        let mut i: usize = 0;
        while i < items.len()
            invariant
                items@.len() == LINEUP_SIZE,
                field(*v, "lineup"@) == Some(Value::Array(*items)),
                i <= items@.len(),
                lineup@.len() == i,
                forall|j: int| 0 <= j < i ==> LineupPlayer::decodes(#[trigger] items@[j], lineup@[j]),
                forall|j: int| 0 <= j < i ==> LineupPlayer::decodable(#[trigger] items@[j]),
            decreases items.len() - i,
        {
            let p = LineupPlayer::decode(&items[i])?;
            lineup.push(p);
            i += 1;
        }
        Ok(Tactics { formation, lineup })
    }

    /// Whether `o` is absent or null (`x` is `None`) or a block that decodes to `x`.
    pub open spec fn decodes_opt(o: Option<Value>, x: Option<Tactics>) -> bool {
        match x {
            None => is_absent(o),
            Some(p) => o is Some && Tactics::decodes(o->0, p),
        }
    }

    /// Whether `o` is absent, null, or a block that decodes.
    pub open spec fn decodable_opt(o: Option<Value>) -> bool {
        is_absent(o) || (o is Some && Tactics::decodable(o->0))
    }

    /// Decodes an optional tactics slot: absent or null gives `None`.
    pub fn decode_opt(o: Option<&Value>) -> (r: Result<Option<Tactics>, DecodeError>)
        ensures
            r is Ok <==> Tactics::decodable_opt(opt_val(o)),
            r matches Ok(x) ==> Tactics::decodes_opt(opt_val(o), x),
    {
        match o {
            None => Ok(None),
            Some(Value::Null) => Ok(None),
            Some(x) => {
                let p = Tactics::decode(x)?;
                Ok(Some(p))
            },
        }
    }
}

/// The outcome of a contested ball, and whether it came from a counterpress.
#[derive(Debug)]
pub struct FiftyFifty {
    pub outcome: FiftyFiftyOutcome,
    pub counterpress: Option<bool>,
}

impl Clone for FiftyFifty {
    fn clone(&self) -> (r: Self)
        ensures
            r == *self,
    {
        FiftyFifty { outcome: self.outcome.clone(), counterpress: self.counterpress }
    }
}

impl FiftyFifty {
    /// Whether `x` is what the record `v` decodes to; the outcome's name is normalized.
    pub open spec fn decodes(v: Value, x: FiftyFifty) -> bool {
        &&& v is Object
        &&& lookup_ok(field(v, "outcome"@))
        &&& names_fifty_fifty_outcome(as_text(field(field(v, "outcome"@)->0, "name"@))->0, x.outcome)
        &&& as_opt_flag(field(v, "counterpress"@)) == Some(x.counterpress)
    }

    /// Whether the record `v` decodes: any outcome name is accepted.
    pub open spec fn decodable(v: Value) -> bool {
        &&& v is Object
        &&& lookup_ok(field(v, "outcome"@))
        &&& as_opt_flag(field(v, "counterpress"@)) is Some
    }

    /// Decodes a contested-ball record; an unknown outcome name is kept.
    pub fn decode(v: &Value) -> (r: Result<FiftyFifty, DecodeError>)
        ensures
            r is Ok <==> FiftyFifty::decodable(*v),
            r matches Ok(x) ==> FiftyFifty::decodes(*v, x),
    {
        if !matches!(v, Value::Object(_)) {
            return Err(DecodeError);
        }
        let outcome = EventSubType::decode_field(v, "outcome")?;
        let counterpress = read_opt_flag(v, "counterpress")?;
        Ok(FiftyFifty { outcome: FiftyFiftyOutcome::from_name(outcome.name.as_str()), counterpress })
    }
}

/// An attempt on goal.
#[derive(Debug)]
pub struct Shot {
    pub aerial_won: bool,
    pub follows_dribble: bool,
    pub first_time: bool,
    pub open_goal: bool,
    pub deflected: bool,
    pub statsbomb_xg: Decimal,
    pub body_part: Option<EventSubType>,
    pub kind: Option<EventSubType>,
    pub outcome: Option<EventSubType>,
    pub technique: Option<EventSubType>,
    pub freeze_frame: Option<Vec<FreezeFrame>>,
    pub end_location: Vec<Decimal>,
    pub key_pass_id: Option<String>,
}

/// Whether `o` is a list whose entries decode to `s`, one for one.
pub open spec fn frames_is(o: Option<Value>, s: Seq<FreezeFrame>) -> bool {
    match o {
        Some(Value::Array(items)) => items@.len() == s.len()
            && forall|i: int| 0 <= i < s.len() ==> FreezeFrame::decodes(#[trigger] items@[i], s[i]),
        _ => false,
    }
}

/// Whether `o` is a list of well-formed freeze-frame entries.
pub open spec fn frames_ok(o: Option<Value>) -> bool {
    match o {
        Some(Value::Array(items)) => forall|i: int| 0 <= i < items@.len() ==> FreezeFrame::decodable(#[trigger] items@[i]),
        _ => false,
    }
}

pub open spec fn opt_frames_is(o: Option<Value>, x: Option<Vec<FreezeFrame>>) -> bool {
    match x {
        None => is_absent(o),
        Some(f) => frames_is(o, f@),
    }
}

/// Whether `o` is a list of numbers whose texts `s` holds, one for one.
pub open spec fn decimals_is(o: Option<Value>, s: Seq<Decimal>) -> bool {
    match o {
        Some(Value::Array(items)) => items@.len() == s.len()
            && forall|i: int| 0 <= i < s.len() ==> decimal_is(Some(#[trigger] items@[i]), s[i]),
        _ => false,
    }
}

/// Whether `o` is a list of numbers.
pub open spec fn decimals_ok(o: Option<Value>) -> bool {
    match o {
        Some(Value::Array(items)) => forall|i: int| 0 <= i < items@.len() ==> (#[trigger] items@[i]) is Number,
        _ => false,
    }
}

/// Decodes an optional list of freeze-frame entries.
fn decode_frames(o: Option<&Value>) -> (r: Result<Option<Vec<FreezeFrame>>, DecodeError>)
    ensures
        r is Ok <==> (is_absent(opt_val(o)) || frames_ok(opt_val(o))),
        r matches Ok(x) ==> opt_frames_is(opt_val(o), x),
{
    let items = match o {
        None => return Ok(None),
        Some(Value::Null) => return Ok(None),
        Some(Value::Array(items)) => items,
        _ => return Err(DecodeError),
    };
    let mut out: Vec<FreezeFrame> = Vec::new();
    let mut i: usize = 0;
    while i < items.len()
        invariant
            opt_val(o) == Some(Value::Array(*items)),
            i <= items@.len(),
            out@.len() == i,
            forall|j: int| 0 <= j < i ==> FreezeFrame::decodes(#[trigger] items@[j], out@[j]),
            forall|j: int| 0 <= j < i ==> FreezeFrame::decodable(#[trigger] items@[j]),
        decreases items.len() - i,
    {
        match FreezeFrame::decode(&items[i]) {
            Ok(f) => out.push(f),
            Err(e) => {
                assert(!FreezeFrame::decodable(items@[i as int]));
                assert(!frames_ok(opt_val(o))) by {
                    if frames_ok(opt_val(o)) {
                        let ghost w = opt_val(o)->0->Array_0;
                        assert(w == *items);
                        assert(forall|j: int| 0 <= j < w@.len() ==> FreezeFrame::decodable(#[trigger] w@[j]));
                        assert(FreezeFrame::decodable(w@[i as int]));
                    }
                }
                return Err(e);
            },
        }
        i += 1;
    }
    Ok(Some(out))
}

/// Decodes a list of numbers.
fn decode_decimals(o: Option<&Value>) -> (r: Result<Vec<Decimal>, DecodeError>)
    ensures
        r is Ok <==> decimals_ok(opt_val(o)),
        r matches Ok(x) ==> decimals_is(opt_val(o), x@),
{
    let items = match o {
        Some(Value::Array(items)) => items,
        _ => return Err(DecodeError),
    };
    let mut out: Vec<Decimal> = Vec::new();
    let mut i: usize = 0;
    while i < items.len()
        invariant
            opt_val(o) == Some(Value::Array(*items)),
            i <= items@.len(),
            out@.len() == i,
            forall|j: int| 0 <= j < i ==> decimal_is(Some(#[trigger] items@[j]), out@[j]),
            forall|j: int| 0 <= j < i ==> (#[trigger] items@[j]) is Number,
        decreases items.len() - i,
    {
        match read_decimal(Some(&items[i])) {
            Ok(d) => out.push(d),
            Err(e) => {
                assert(!(items@[i as int] is Number));
                return Err(e);
            },
        }
        i += 1;
    }
    Ok(out)
}

impl Shot {
    /// Equality with lists compared by their contents.
    pub open spec fn same(self, o: Shot) -> bool {
        &&& self.aerial_won == o.aerial_won
        &&& self.follows_dribble == o.follows_dribble
        &&& self.first_time == o.first_time
        &&& self.open_goal == o.open_goal
        &&& self.deflected == o.deflected
        &&& self.statsbomb_xg == o.statsbomb_xg
        &&& self.body_part == o.body_part
        &&& self.kind == o.kind
        &&& self.outcome == o.outcome
        &&& self.technique == o.technique
        &&& match (self.freeze_frame, o.freeze_frame) {
            (None, None) => true,
            (Some(a), Some(b)) => a@ == b@,
            _ => false,
        }
        &&& self.end_location@ == o.end_location@
        &&& self.key_pass_id == o.key_pass_id
    }

    /// A copy of the shot.
    pub fn duplicate(&self) -> (r: Shot)
        ensures
            r.same(*self),
    {
        let freeze_frame = match &self.freeze_frame {
            None => None,
            Some(f) => {
                let c = f.clone();
                assert(c@ =~= f@);
                Some(c)
            },
        };
        let end_location = self.end_location.clone();
        assert(end_location@ =~= self.end_location@);
        Shot {
            aerial_won: self.aerial_won,
            follows_dribble: self.follows_dribble,
            first_time: self.first_time,
            open_goal: self.open_goal,
            deflected: self.deflected,
            statsbomb_xg: self.statsbomb_xg.clone(),
            body_part: self.body_part.clone(),
            kind: self.kind.clone(),
            outcome: self.outcome.clone(),
            technique: self.technique.clone(),
            freeze_frame,
            end_location,
            key_pass_id: self.key_pass_id.clone(),
        }
    }

    /// Whether `x` is what the record `v` decodes to.
    pub open spec fn decodes(v: Value, x: Shot) -> bool {
        &&& v is Object
        &&& as_flag(field(v, "aerial_won"@)) == Some(x.aerial_won)
        &&& as_flag(field(v, "follows_dribble"@)) == Some(x.follows_dribble)
        &&& as_flag(field(v, "first_time"@)) == Some(x.first_time)
        &&& as_flag(field(v, "open_goal"@)) == Some(x.open_goal)
        &&& as_flag(field(v, "cut-back"@)) == Some(x.deflected)
        &&& decimal_is(field(v, "statsbomb_xg"@), x.statsbomb_xg)
        &&& opt_lookup_is(field(v, "body_part"@), x.body_part)
        &&& opt_lookup_is(field(v, "type"@), x.kind)
        &&& opt_lookup_is(field(v, "outcome"@), x.outcome)
        &&& opt_lookup_is(field(v, "Technique"@), x.technique)
        &&& opt_frames_is(field(v, "freeze_frame"@), x.freeze_frame)
        &&& decimals_is(field(v, "end_location"@), x.end_location@)
        &&& opt_text_is(field(v, "key_pass_id"@), x.key_pass_id)
    }

    /// Whether the record `v` decodes as a shot.
    pub open spec fn decodable(v: Value) -> bool {
        &&& v is Object
        &&& as_flag(field(v, "aerial_won"@)) is Some
        &&& as_flag(field(v, "follows_dribble"@)) is Some
        &&& as_flag(field(v, "first_time"@)) is Some
        &&& as_flag(field(v, "open_goal"@)) is Some
        &&& as_flag(field(v, "cut-back"@)) is Some
        &&& field(v, "statsbomb_xg"@) matches Some(Value::Number(_))
        &&& opt_lookup_ok(field(v, "body_part"@))
        &&& opt_lookup_ok(field(v, "type"@))
        &&& opt_lookup_ok(field(v, "outcome"@))
        &&& opt_lookup_ok(field(v, "Technique"@))
        &&& (is_absent(field(v, "freeze_frame"@)) || frames_ok(field(v, "freeze_frame"@)))
        &&& decimals_ok(field(v, "end_location"@))
        &&& (is_absent(field(v, "key_pass_id"@)) || as_text(field(v, "key_pass_id"@)) is Some)
    }

    /// Decodes a shot record.
    pub fn decode(v: &Value) -> (r: Result<Shot, DecodeError>)
        ensures
            r is Ok <==> Shot::decodable(*v),
            r matches Ok(x) ==> Shot::decodes(*v, x),
    {
        if !matches!(v, Value::Object(_)) {
            return Err(DecodeError);
        }
        let aerial_won = read_flag(v, "aerial_won")?;
        let follows_dribble = read_flag(v, "follows_dribble")?;
        let first_time = read_flag(v, "first_time")?;
        let open_goal = read_flag(v, "open_goal")?;
        let deflected = read_flag(v, "cut-back")?;
        let statsbomb_xg = read_decimal(v.get("statsbomb_xg"))?;
        let body_part = EventSubType::decode_opt_field(v, "body_part")?;
        let kind = EventSubType::decode_opt_field(v, "type")?;
        let outcome = EventSubType::decode_opt_field(v, "outcome")?;
        let technique = EventSubType::decode_opt_field(v, "Technique")?;
        let freeze_frame = decode_frames(v.get("freeze_frame"))?;
        let end_location = decode_decimals(v.get("end_location"))?;
        let key_pass_id = read_opt_text(v, "key_pass_id")?;
        Ok(Shot {
            aerial_won,
            follows_dribble,
            first_time,
            open_goal,
            deflected,
            statsbomb_xg,
            body_part,
            kind,
            outcome,
            technique,
            freeze_frame,
            end_location,
            key_pass_id,
        })
    }

    /// Whether `o` is absent or null (`x` is `None`) or a shot that decodes to `x`.
    pub open spec fn decodes_opt(o: Option<Value>, x: Option<Shot>) -> bool {
        match x {
            None => is_absent(o),
            Some(p) => o is Some && Shot::decodes(o->0, p),
        }
    }

    /// Whether `o` is absent, null, or a shot that decodes.
    pub open spec fn decodable_opt(o: Option<Value>) -> bool {
        is_absent(o) || (o is Some && Shot::decodable(o->0))
    }

    /// Decodes an optional shot slot: absent or null gives `None`.
    pub fn decode_opt(o: Option<&Value>) -> (r: Result<Option<Shot>, DecodeError>)
        ensures
            r is Ok <==> Shot::decodable_opt(opt_val(o)),
            r matches Ok(x) ==> Shot::decodes_opt(opt_val(o), x),
    {
        match o {
            None => Ok(None),
            Some(Value::Null) => Ok(None),
            Some(x) => {
                let p = Shot::decode(x)?;
                Ok(Some(p))
            },
        }
    }
}

impl Clone for Tactics {
    fn clone(&self) -> (r: Self)
        ensures
            r.same(*self),
    {
        self.duplicate()
    }
}

impl Clone for Shot {
    fn clone(&self) -> (r: Self)
        ensures
            r.same(*self),
    {
        self.duplicate()
    }
}

} // verus!
