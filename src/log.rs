//! The event log: an ordered collection of decoded events with filtering,
//! pruning and merging. Filters copy; only `retain` and `extend` change the
//! log they are called on.

use vstd::prelude::*;
use crate::value::{Value, DecodeError, text_eq};
use crate::vocab::{EventType, same_event_type};
use crate::events::Event;

verus! {

/// Two event sequences of the same length whose events are pairwise equal.
pub open spec fn same_seq(a: Seq<Event>, b: Seq<Event>) -> bool {
    a.len() == b.len() && forall|i: int| 0 <= i < a.len() ==> (#[trigger] a[i]).same(b[i])
}

/// Events of category `t`.
pub open spec fn of_type(t: EventType) -> spec_fn(Event) -> bool {
    |e: Event| same_event_type(e.event_type, t)
}

/// Events of the team named `name`.
pub open spec fn of_team(name: Seq<char>) -> spec_fn(Event) -> bool {
    |e: Event| e.team.name@ == name
}

/// Events with a player named `name`; an event without a player has none.
pub open spec fn of_player(name: Seq<char>) -> spec_fn(Event) -> bool {
    |e: Event| e.player matches Some(p) && p.name@ == name
}

/// The events of `s` whose flag in `keep` is set, in order.
pub open spec fn select(s: Seq<Event>, keep: Seq<bool>) -> Seq<Event>
    decreases s.len(),
{
    if s.len() == 0 || keep.len() != s.len() {
        Seq::empty()
    } else {
        let rest = select(s.drop_last(), keep.drop_last());
        if keep.last() {
            rest.push(s.last())
        } else {
            rest
        }
    }
}

/// What a convenience filter selects on.
enum Criterion {
    Category(EventType),
    Team(String),
    Player(String),
}

impl Criterion {
    spec fn pred(&self) -> spec_fn(Event) -> bool {
        match self {
            Criterion::Category(t) => of_type(*t),
            Criterion::Team(n) => of_team(n@),
            Criterion::Player(n) => of_player(n@),
        }
    }

    fn test(&self, e: &Event) -> (r: bool)
        ensures
            r == (self.pred())(*e),
    {
        match self {
            Criterion::Category(t) => e.event_type == *t,
            Criterion::Team(n) => text_eq(e.team.name.as_str(), n.as_str()),
            Criterion::Player(n) => match &e.player {
                Some(p) => text_eq(p.name.as_str(), n.as_str()),
                None => false,
            },
        }
    }
}

/// An ordered log of events.
#[derive(Debug)]
pub struct Events {
    pub events: Vec<Event>,
}

impl Events {
    /// Decodes a match document: a list of raw event records, decoded one for
    /// one and in order. The document decodes as a whole or not at all.
    pub fn decode(doc: &Value) -> (r: Result<Events, DecodeError>)
        ensures
            r is Ok <==> (doc is Array && forall|i: int| 0 <= i < doc->Array_0@.len()
                ==> Event::decodable(#[trigger] doc->Array_0@[i])),
            r matches Ok(log) ==> log.events@.len() == doc->Array_0@.len() && forall|i: int|
                0 <= i < log.events@.len() ==> Event::decodes(#[trigger] doc->Array_0@[i], log.events@[i]),
    {
        let items = match doc {
            Value::Array(items) => items,
            _ => return Err(DecodeError),
        };
        let mut events: Vec<Event> = Vec::new();
        let mut i: usize = 0;
        while i < items.len()
            invariant
                *doc == Value::Array(*items),
                i <= items@.len(),
                events@.len() == i,
                forall|j: int| 0 <= j < i ==> Event::decodes(#[trigger] items@[j], events@[j]),
                forall|j: int| 0 <= j < i ==> Event::decodable(#[trigger] items@[j]),
            decreases items.len() - i,
        {
            match Event::decode(&items[i]) {
                Ok(e) => events.push(e),
                Err(err) => {
                    assert(!Event::decodable(items@[i as int]));
                    let ghost w = doc->Array_0;
                    assert(w == *items);
                    assert(!Event::decodable(w@[i as int]));
                    return Err(err);
                },
            }
            i += 1;
        }
        Ok(Events { events })
    }

    /// The number of events.
    pub fn len(&self) -> (r: usize)
        ensures
            r == self.events@.len(),
    {
        self.events.len()
    }

    /// The event at position `i`, or `None` past the end.
    pub fn get(&self, i: usize) -> (r: Option<&Event>)
        ensures
            i < self.events@.len() ==> r == Some(&self.events@[i as int]),
            i >= self.events@.len() ==> r is None,
    {
        if i < self.events.len() {
            Some(&self.events[i])
        } else {
            None
        }
    }

    /// A copy of the events that meet `c`, in order.
    fn keep_where(&self, c: &Criterion) -> (r: Events)
        ensures
            same_seq(r.events@, self.events@.filter(c.pred())),
    {
        let mut out: Vec<Event> = Vec::new();
        let mut i: usize = 0;
        while i < self.events.len()
            invariant
                i <= self.events@.len(),
                same_seq(out@, self.events@.take(i as int).filter(c.pred())),
            decreases self.events.len() - i,
        {
            let e = &self.events[i];
            let b = c.test(e);
            proof {
                assert(self.events@.take(i + 1) =~= self.events@.take(i as int).push(*e));
                self.events@.take(i as int).lemma_filter_push(*e, c.pred());
            }
            if b {
                out.push(e.duplicate());
            }
            i += 1;
        }
        assert(self.events@.take(self.events@.len() as int) =~= self.events@);
        Events { events: out }
    }

    /// A new log of the events of category `event_type`: known categories
    /// match by variant, `Unknown` ones by identical text.
    pub fn filter_by_event_type(&self, event_type: EventType) -> (r: Events)
        ensures
            same_seq(r.events@, self.events@.filter(of_type(event_type))),
    {
        let c = Criterion::Category(event_type);
        self.keep_where(&c)
    }

    /// A new log of the events of the team named `team`.
    pub fn filter_by_team(&self, team: &str) -> (r: Events)
        ensures
            same_seq(r.events@, self.events@.filter(of_team(team@))),
    {
        let c = Criterion::Team(team.to_owned());
        self.keep_where(&c)
    }

    /// A new log of the events of the player named `player`; events without
    /// a player never match.
    pub fn filter_by_player(&self, player: &str) -> (r: Events)
        ensures
            same_seq(r.events@, self.events@.filter(of_player(player@))),
    {
        let c = Criterion::Player(player.to_owned());
        self.keep_where(&c)
    }

    /// A new log of the events for which `predicate` answers `true`, in order.
    pub fn filter_by_predicate<F: Fn(&Event) -> bool>(&self, predicate: F) -> (r: Events)
        requires
            forall|e: &Event| predicate.requires((e,)),
        ensures
            exists|keep: Seq<bool>|
                {
                    &&& keep.len() == self.events@.len()
                    &&& forall|i: int| 0 <= i < keep.len()
                        ==> predicate.ensures((&self.events@[i],), #[trigger] keep[i])
                    &&& same_seq(r.events@, select(self.events@, keep))
                },
    {
        let mut out: Vec<Event> = Vec::new();
        let ghost mut keep: Seq<bool> = Seq::empty();
        let mut i: usize = 0;
        while i < self.events.len()
            invariant
                i <= self.events@.len(),
                forall|e: &Event| predicate.requires((e,)),
                keep.len() == i,
                forall|j: int| 0 <= j < i ==> predicate.ensures((&self.events@[j],), #[trigger] keep[j]),
                same_seq(out@, select(self.events@.take(i as int), keep)),
            decreases self.events.len() - i,
        {
            let e = &self.events[i];
            let b = predicate(e);
            proof {
                let s1 = self.events@.take(i + 1);
                let k1 = keep.push(b);
                assert(s1.drop_last() =~= self.events@.take(i as int));
                assert(k1.drop_last() =~= keep);
                keep = k1;
            }
            if b {
                out.push(e.duplicate());
            }
            i += 1;
        }
        assert(self.events@.take(self.events@.len() as int) =~= self.events@);
        Events { events: out }
    }

    /// Keeps only the events of category `event_type`, in place.
    pub fn retain(&mut self, event_type: EventType)
        ensures
            final(self).events@ == old(self).events@.filter(of_type(event_type)),
    {
        let ghost orig = self.events@;
        let mut rest: Vec<Event> = Vec::new();
        std::mem::swap(&mut self.events, &mut rest);
        let n = rest.len();
        let mut stack: Vec<Event> = Vec::new();
        while rest.len() > 0
            invariant
                orig.len() == n,
                rest@ == orig.take(rest@.len() as int),
                stack@.len() + rest@.len() == n,
                forall|k: int| 0 <= k < stack@.len() ==> #[trigger] stack@[k] == orig[n - 1 - k],
            decreases rest@.len(),
        {
            let e = rest.pop().unwrap();
            stack.push(e);
        }
        let mut j: usize = 0;
        while j < n
            invariant
                orig.len() == n,
                j <= n,
                stack@.len() == n - j,
                forall|k: int| 0 <= k < stack@.len() ==> #[trigger] stack@[k] == orig[n - 1 - k],
                self.events@ == orig.take(j as int).filter(of_type(event_type)),
            decreases n - j,
        {
            let e = stack.pop().unwrap();
            proof {
                assert(orig.take(j + 1) =~= orig.take(j as int).push(e));
                orig.take(j as int).lemma_filter_push(e, of_type(event_type));
            }
            if e.event_type == event_type {
                self.events.push(e);
            }
            j += 1;
        }
        assert(orig.take(n as int) =~= orig);
    }

    /// Appends the events of `other` after this log's own, both in order.
    pub fn extend(&mut self, other: Events)
        ensures
            final(self).events@ == old(self).events@ + other.events@,
    {
        let mut other = other;
        self.events.append(&mut other.events);
    }
}

/// A consuming walk over a log's events, front to back.
pub struct EventsIter {
    events: Events,
    index: usize,
}

impl EventsIter {
    /// The events walked over.
    pub closed spec fn items(&self) -> Seq<Event> {
        self.events.events@
    }

    /// How many events have been handed out.
    pub closed spec fn position(&self) -> nat {
        self.index as nat
    }

    /// The next event, or `None` once all have been handed out.
    pub fn next(&mut self) -> (r: Option<Event>)
        ensures
            final(self).items() == old(self).items(),
            old(self).position() < old(self).items().len() ==> r is Some
                && r->0.same(old(self).items()[old(self).position() as int])
                && final(self).position() == old(self).position() + 1,
            old(self).position() >= old(self).items().len() ==> r is None
                && final(self).position() == old(self).position(),
    {
        if self.index >= self.events.events.len() {
            return None;
        }
        let result = Some(self.events.events[self.index].duplicate());
        self.index += 1;
        result
    }
}

/// A walk over references to a log's events, front to back.
pub struct RefEventsIter<'a> {
    events: &'a Events,
    index: usize,
}

impl<'a> RefEventsIter<'a> {
    /// The events walked over.
    pub closed spec fn items(&self) -> Seq<Event> {
        self.events.events@
    }

    /// How many events have been handed out.
    pub closed spec fn position(&self) -> nat {
        self.index as nat
    }

    /// The next event, or `None` once all have been handed out.
    pub fn next(&mut self) -> (r: Option<&'a Event>)
        ensures
            final(self).items() == old(self).items(),
            old(self).position() < old(self).items().len() ==> r is Some
                && *r->0 == old(self).items()[old(self).position() as int]
                && final(self).position() == old(self).position() + 1,
            old(self).position() >= old(self).items().len() ==> r is None
                && final(self).position() == old(self).position(),
    {
        if self.index >= self.events.events.len() {
            return None;
        }
        let result = Some(&self.events.events[self.index]);
        self.index += 1;
        result
    }
}

impl Events {
    /// A consuming walk over the events, starting at the first.
    pub fn into_iter(self) -> (r: EventsIter)
        ensures
            r.items() == self.events@,
            r.position() == 0,
    {
        EventsIter { events: self, index: 0 }
    }

    /// A walk over references to the events, starting at the first.
    pub fn iter(&self) -> (r: RefEventsIter<'_>)
        ensures
            r.items() == self.events@,
            r.position() == 0,
    {
        RefEventsIter { events: self, index: 0 }
    }
}

} // verus!
