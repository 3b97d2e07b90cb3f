//! Properties of the decoders and of the event log that hold for all inputs.

use vstd::prelude::*;
use crate::value::{Value, as_flag, as_uint, field};
use crate::vocab::{EventType, known_event_type, names_event_type, same_event_type};
use crate::events::{Event, name_of};
use crate::payloads::{
    Block, LineupPlayer, Duel, DribbledPast, FoulCommitted, FoulWon, HalfEnd, HalfStart,
    InjuryStoppage, Dribble, Clearance, Miscontrol, Pass, PlayerOff, Pressure, BallRecovery,
};
use crate::compound::{Tactics, Shot, LINEUP_SIZE};
use crate::log::{same_seq, of_type, of_player};

verus! {

/// A decoded event's category is the one its `type` name normalizes to: a
/// recognized name gives its variant, and any other name gives `Unknown`
/// holding that name.
pub proof fn law_category_decoding(v: Value, e: Event)
    requires
        Event::decodes(v, e),
    ensures
        names_event_type(name_of(field(v, "type"@)), e.event_type),
        known_event_type(name_of(field(v, "type"@))) matches Some(k) ==> e.event_type == k,
        known_event_type(name_of(field(v, "type"@))) is None ==> (e.event_type matches
            EventType::Unknown(u) && u@ == name_of(field(v, "type"@))),
{
}

/// A flag that the feed omits reads as `false`, never as a failure.
pub proof fn law_absent_flag_is_false(v: Value, key: Seq<char>)
    requires
        field(v, key) is None,
    ensures
        as_flag(field(v, key)) == Some(false),
{
}

/// A block record that omits all four of its flags decodes, with every flag
/// `false`.
pub proof fn law_block_flags_default_false(v: Value, b: Block)
    requires
        v is Object,
        field(v, "deflection"@) is None,
        field(v, "offensive"@) is None,
        field(v, "save_block"@) is None,
        field(v, "counterpress"@) is None,
    ensures
        Block::decodable(v),
        Block::decodes(v, b) ==> !b.deflection && !b.offensive && !b.save_block && !b.counterpress,
{
}

/// In every payload, each flag that the record omits decodes to `false`.
pub proof fn law_omitted_flags_read_false(v: Value)
    ensures
        forall|x: Duel| #[trigger] Duel::decodes(v, x) ==> (field(v, "counterpress"@) is None ==> !x.counterpress),
        forall|x: DribbledPast| #[trigger] DribbledPast::decodes(v, x) ==> (field(v, "counterpress"@) is None ==> !x.counterpress),
        forall|x: FoulCommitted| #[trigger] FoulCommitted::decodes(v, x) ==> (field(v, "counterpress"@) is None ==> !x.counterpress) && (field(v, "offensive"@) is None ==> !x.offensive) && (field(v, "advantage"@) is None ==> !x.advantage) && (field(v, "penalty"@) is None ==> !x.penalty),
        forall|x: FoulWon| #[trigger] FoulWon::decodes(v, x) ==> (field(v, "defensive"@) is None ==> !x.defensive) && (field(v, "advantage"@) is None ==> !x.advantage) && (field(v, "penalty"@) is None ==> !x.penalty),
        forall|x: HalfEnd| #[trigger] HalfEnd::decodes(v, x) ==> (field(v, "Early Video End"@) is None ==> !x.early_video_end) && (field(v, "Match Suspended"@) is None ==> !x.match_suspended),
        forall|x: HalfStart| #[trigger] HalfStart::decodes(v, x) ==> (field(v, "Late Video Start"@) is None ==> !x.late_video_start),
        forall|x: InjuryStoppage| #[trigger] InjuryStoppage::decodes(v, x) ==> (field(v, "in_chain"@) is None ==> !x.in_chain),
        forall|x: Dribble| #[trigger] Dribble::decodes(v, x) ==> (field(v, "Overrun"@) is None ==> !x.overrun) && (field(v, "Nutmeg"@) is None ==> !x.nutmeg) && (field(v, "No Touch"@) is None ==> !x.no_touch),
        forall|x: Clearance| #[trigger] Clearance::decodes(v, x) ==> (field(v, "aerial_won"@) is None ==> !x.aerial_won),
        forall|x: Miscontrol| #[trigger] Miscontrol::decodes(v, x) ==> (field(v, "Nutmeg"@) is None ==> !x.aerial_won),
        forall|x: Pass| #[trigger] Pass::decodes(v, x) ==> (field(v, "backheel"@) is None ==> !x.backheel) && (field(v, "deflected"@) is None ==> !x.deflected) && (field(v, "miscommunication"@) is None ==> !x.miscommunication) && (field(v, "cross"@) is None ==> !x.cross) && (field(v, "cut-back"@) is None ==> !x.cut_back) && (field(v, "switch"@) is None ==> !x.switch) && (field(v, "shot-assist"@) is None ==> !x.shot_assist) && (field(v, "goal-assist"@) is None ==> !x.goal_assist),
        forall|x: Block| #[trigger] Block::decodes(v, x) ==> (field(v, "deflection"@) is None ==> !x.deflection) && (field(v, "offensive"@) is None ==> !x.offensive) && (field(v, "save_block"@) is None ==> !x.save_block) && (field(v, "counterpress"@) is None ==> !x.counterpress),
        forall|x: PlayerOff| #[trigger] PlayerOff::decodes(v, x) ==> (field(v, "Permenant"@) is None ==> !x.permenant),
        forall|x: Pressure| #[trigger] Pressure::decodes(v, x) ==> (field(v, "counterpress"@) is None ==> !x.counterpress),
        forall|x: BallRecovery| #[trigger] BallRecovery::decodes(v, x) ==> (field(v, "recovery_failure"@) is None ==> !x.recovery_failure) && (field(v, "offensive"@) is None ==> !x.offensive),
        forall|x: Shot| #[trigger] Shot::decodes(v, x) ==> (field(v, "aerial_won"@) is None ==> !x.aerial_won) && (field(v, "follows_dribble"@) is None ==> !x.follows_dribble) && (field(v, "first_time"@) is None ==> !x.first_time) && (field(v, "open_goal"@) is None ==> !x.open_goal) && (field(v, "cut-back"@) is None ==> !x.deflected),
{
}

/// Every event decoded from a match document carries the category that its
/// record's `type` name normalizes to; an unrecognized name gives `Unknown`
/// holding that name.
pub proof fn law_document_categories(doc: Value, log: Seq<Event>)
    requires
        doc is Array,
        log.len() == doc->Array_0@.len(),
        forall|i: int| 0 <= i < log.len() ==> Event::decodes(#[trigger] doc->Array_0@[i], log[i]),
    ensures
        forall|i: int| 0 <= i < log.len() ==> names_event_type(
            name_of(field(#[trigger] doc->Array_0@[i], "type"@)),
            log[i].event_type,
        ),
        forall|i: int| 0 <= i < log.len() && known_event_type(name_of(field(doc->Array_0@[i], "type"@))) is None
            ==> ((#[trigger] log[i]).event_type matches EventType::Unknown(u)
            && u@ == name_of(field(doc->Array_0@[i], "type"@))),
{
    assert forall|i: int| 0 <= i < log.len() implies names_event_type(
        name_of(field(#[trigger] doc->Array_0@[i], "type"@)),
        log[i].event_type,
    ) by {
        law_category_decoding(doc->Array_0@[i], log[i]);
    }
}

proof fn lemma_filter_of_kept(s: Seq<Event>, p: spec_fn(Event) -> bool)
    requires
        forall|i: int| 0 <= i < s.len() ==> p(#[trigger] s[i]),
    ensures
        s.filter(p) == s,
    decreases s.len(),
{
    if s.len() > 0 {
        let init = s.drop_last();
        lemma_filter_of_kept(init, p);
        init.lemma_filter_push(s.last(), p);
        assert(init.push(s.last()) =~= s);
    }
}

/// Filtering by category is idempotent: filtering the result of a filter
/// again by the same category gives the same events.
pub proof fn law_filter_by_category_idempotent(log: Seq<Event>, once: Seq<Event>, twice: Seq<Event>, t: EventType)
    requires
        same_seq(once, log.filter(of_type(t))),
        same_seq(twice, once.filter(of_type(t))),
    ensures
        same_seq(twice, once),
{
    let f = log.filter(of_type(t));
    assert forall|i: int| 0 <= i < once.len() implies (of_type(t))(#[trigger] once[i]) by {
        log.lemma_filter_pred(of_type(t), i);
        assert(once[i].same(f[i]));
        assert(same_event_type(f[i].event_type, t));
    }
    lemma_filter_of_kept(once, of_type(t));
}

/// Extending a log by another keeps the first log's events, in order, at
/// its front, and the lengths add up.
pub proof fn law_extend(a: Seq<Event>, b: Seq<Event>, merged: Seq<Event>)
    requires
        merged == a + b,
    ensures
        merged.len() == a.len() + b.len(),
        merged.take(a.len() as int) == a,
        merged.skip(a.len() as int) == b,
{
    assert(merged.take(a.len() as int) =~= a);
    assert(merged.skip(a.len() as int) =~= b);
}

/// Filtering by player never selects an event without a player, whatever
/// the name asked for, the empty name included.
pub proof fn law_no_player_never_matches(log: Seq<Event>, name: Seq<char>)
    requires
        forall|i: int| 0 <= i < log.len() ==> (#[trigger] log[i]).player is None,
    ensures
        log.filter(of_player(name)).len() == 0,
    decreases log.len(),
{
    if log.len() > 0 {
        let init = log.drop_last();
        law_no_player_never_matches(init, name);
        init.lemma_filter_push(log.last(), of_player(name));
        assert(init.push(log.last()) =~= log);
    }
}

/// A tactics block whose lineup does not hold exactly eleven entries does
/// not decode.
pub proof fn law_lineup_size_enforced(v: Value)
    requires
        field(v, "lineup"@) matches Some(Value::Array(items)) && items@.len() != LINEUP_SIZE,
    ensures
        !Tactics::decodable(v),
{
}

/// A tactics block with a valid formation and exactly eleven well-formed
/// lineup entries decodes.
pub proof fn law_full_lineup_decodes(v: Value)
    requires
        v is Object,
        as_uint(field(v, "formation"@), u16::MAX as nat) is Some,
        field(v, "lineup"@) matches Some(Value::Array(items)) && items@.len() == LINEUP_SIZE
            && forall|i: int| 0 <= i < LINEUP_SIZE ==> LineupPlayer::decodable(#[trigger] items@[i]),
    ensures
        Tactics::decodable(v),
{
}

} // verus!
