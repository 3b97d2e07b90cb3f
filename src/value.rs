//! A generic tree of feed values (the shape of a parsed JSON document) and
//! the field-level readers the decoders are built from.

use vstd::prelude::*;

verus! {

/// One node of a parsed feed document. Numbers are kept as their decimal
/// text, so that no precision is lost and no floating point is involved.
pub enum Value {
    Null,
    Bool(bool),
    Number(String),
    Text(String),
    Array(Vec<Value>),
    Object(Vec<(String, Value)>),
}

/// The value stored under `key` in a list of object entries: the first
/// entry with that key wins.
pub open spec fn entry_of(entries: Seq<(String, Value)>, key: Seq<char>) -> Option<Value>
    decreases entries.len(),
{
    if entries.len() == 0 {
        None
    } else if entries[0].0@ == key {
        Some(entries[0].1)
    } else {
        entry_of(entries.drop_first(), key)
    }
}

/// The value stored under `key` in `v`, if `v` is an object holding it.
pub open spec fn field(v: Value, key: Seq<char>) -> Option<Value> {
    match v {
        Value::Object(entries) => entry_of(entries@, key),
        _ => None,
    }
}

/// Character-wise equality of two strings.
pub fn text_eq(a: &str, b: &str) -> (r: bool)
    ensures
        r == (a@ == b@),
{
    let n = a.unicode_len();
    if n != b.unicode_len() {
        return false;
    }
    let mut i: usize = 0;
    while i < n
        invariant
            n == a@.len(),
            n == b@.len(),
            i <= n,
            a@.take(i as int) == b@.take(i as int),
        decreases n - i,
    {
        if a.get_char(i) != b.get_char(i) {
            return false;
        }
        assert(a@.take(i + 1) =~= a@.take(i as int).push(a@[i as int]));
        assert(b@.take(i + 1) =~= b@.take(i as int).push(b@[i as int]));
        i += 1;
    }
    assert(a@ =~= a@.take(n as int));
    assert(b@ =~= b@.take(n as int));
    true
}

/// The record or document did not have the shape the decoder needs: a
/// required field is missing or a field holds the wrong kind of value.
#[derive(Debug, Clone, Copy, PartialEq, Eq, Structural)]
pub struct DecodeError;

/// A feed number kept as its decimal text (coordinates, durations, ratios).
#[derive(Debug)]
pub struct Decimal {
    pub text: String,
}

impl Clone for Decimal {
    fn clone(&self) -> (r: Self)
        ensures
            r == *self,
    {
        Decimal { text: self.text.clone() }
    }
}

/// A point on the pitch, as the feed writes it: two numbers.
#[derive(Debug)]
pub struct Location {
    pub x: Decimal,
    pub y: Decimal,
}

impl Clone for Location {
    fn clone(&self) -> (r: Self)
        ensures
            r == *self,
    {
        Location { x: self.x.clone(), y: self.y.clone() }
    }
}

pub open spec fn is_digit(c: char) -> bool {
    '0' <= c && c <= '9'
}

/// The number that a string of decimal digits denotes.
pub open spec fn digits_value(s: Seq<char>) -> nat
    decreases s.len(),
{
    if s.len() == 0 {
        0
    } else {
        digits_value(s.drop_last()) * 10 + (s.last() as nat - '0' as nat) as nat
    }
}

/// The unsigned integer written by `s`, if `s` is a non-empty run of digits.
pub open spec fn uint_text_value(s: Seq<char>) -> Option<nat> {
    if s.len() > 0 && forall|i: int| 0 <= i < s.len() ==> is_digit(#[trigger] s[i]) {
        Some(digits_value(s))
    } else {
        None
    }
}

/// Reading an unsigned integer no larger than `max` from an optional value.
pub open spec fn as_uint(o: Option<Value>, max: nat) -> Option<nat> {
    match o {
        Some(Value::Number(t)) => match uint_text_value(t@) {
            Some(n) => if n <= max { Some(n) } else { None },
            None => None,
        },
        _ => None,
    }
}

/// Reading text from an optional value.
pub open spec fn as_text(o: Option<Value>) -> Option<Seq<char>> {
    match o {
        Some(Value::Text(t)) => Some(t@),
        _ => None,
    }
}

/// Reading a flag that the feed omits when it is false: absent means
/// `false`, a boolean is taken as it is, anything else is malformed.
pub open spec fn as_flag(o: Option<Value>) -> Option<bool> {
    match o {
        None => Some(false),
        Some(Value::Bool(b)) => Some(b),
        _ => None,
    }
}

/// Reading an optional flag: absent or null is `None`.
pub open spec fn as_opt_flag(o: Option<Value>) -> Option<Option<bool>> {
    match o {
        None => Some(None),
        Some(Value::Null) => Some(None),
        Some(Value::Bool(b)) => Some(Some(b)),
        _ => None,
    }
}

/// The value that an optional reference points to.
pub open spec fn opt_val(o: Option<&Value>) -> Option<Value> {
    match o {
        Some(x) => Some(*x),
        None => None,
    }
}

/// Whether `o` is absent or null, the two spellings of a missing optional field.
pub open spec fn is_absent(o: Option<Value>) -> bool {
    o is None || o == Some(Value::Null)
}

/// Whether `o` is a number that `d` holds the text of.
pub open spec fn decimal_is(o: Option<Value>, d: Decimal) -> bool {
    match o {
        Some(Value::Number(t)) => t@ == d.text@,
        _ => false,
    }
}

proof fn lemma_prefix_value_le(s: Seq<char>, k: int)
    requires
        0 <= k <= s.len(),
    ensures
        digits_value(s.take(k)) <= digits_value(s),
    decreases s.len(),
{
    if k < s.len() {
        assert(s.take(k) =~= s.drop_last().take(k));
        lemma_prefix_value_le(s.drop_last(), k);
    } else {
        assert(s.take(k) =~= s);
    }
}

/// Parses decimal digits into an integer no larger than `max`.
pub fn parse_uint(t: &str, max: u64) -> (r: Option<u64>)
    ensures
        r is Some <==> (uint_text_value(t@) is Some && uint_text_value(t@)->0 <= max),
        r is Some ==> r->0 == uint_text_value(t@)->0,
{
    let n = t.unicode_len();
    if n == 0 {
        return None;
    }
    let mut acc: u64 = 0;
    let mut i: usize = 0;
    while i < n
        invariant
            n == t@.len(),
            i <= n,
            acc <= max,
            acc == digits_value(t@.take(i as int)),
            forall|j: int| 0 <= j < i ==> is_digit(#[trigger] t@[j]),
        decreases n - i,
    {
        let c = t.get_char(i);
        if !('0' <= c && c <= '9') {
            return None;
        }
        let d = (c as u32 - '0' as u32) as u64;
        assert(t@.take(i + 1).drop_last() =~= t@.take(i as int));
        assert(digits_value(t@.take(i + 1)) == acc * 10 + d);
        if d > max || acc > (max - d) / 10 {
            proof {
                assert(acc * 10 + d > max) by (nonlinear_arith)
                    requires d > max || (d <= max && acc > (max - d) / 10), acc >= 0;
                lemma_prefix_value_le(t@, i + 1);
            }
            return None;
        }
        assert(acc * 10 + d <= max) by (nonlinear_arith)
            requires acc <= (max - d) / 10, d <= max;
        acc = acc * 10 + d;
        i += 1;
    }
    assert(t@.take(n as int) =~= t@);
    Some(acc)
}

impl Value {
    /// The value stored under `key`, if this is an object holding it.
    pub fn get(&self, key: &str) -> (r: Option<&Value>)
        ensures
            match r {
                Some(x) => field(*self, key@) == Some(*x),
                None => field(*self, key@) is None,
            },
    {
        match self {
            Value::Object(entries) => {
                let mut i: usize = 0;
                assert(entries@.subrange(0, entries@.len() as int) =~= entries@);
                while i < entries.len()
                    invariant
                        i <= entries@.len(),
                        field(*self, key@) == entry_of(entries@, key@),
                        entry_of(entries@, key@) == entry_of(entries@.subrange(i as int, entries@.len() as int), key@),
                    decreases entries.len() - i,
                {
                    let ghost rest = entries@.subrange(i as int, entries@.len() as int);
                    assert(rest[0] == entries@[i as int]);
                    if text_eq(entries[i].0.as_str(), key) {
                        assert(rest[0].0@ == key@);
                        assert(entry_of(rest, key@) == Some(rest[0].1));
                        let found = &entries[i].1;
                        assert(*found == rest[0].1);
                        return Some(found);
                    }
                    assert(rest.drop_first() =~= entries@.subrange(i + 1, entries@.len() as int));
                    i += 1;
                }
                None
            },
            _ => None,
        }
    }
}


/// Reads an unsigned integer no larger than `max` from field `key`.
pub fn read_uint(v: &Value, key: &str, max: u64) -> (r: Result<u64, DecodeError>)
    ensures
        match r {
            Ok(n) => as_uint(field(*v, key@), max as nat) == Some(n as nat),
            Err(_) => as_uint(field(*v, key@), max as nat) is None,
        },
{
    match v.get(key) {
        Some(Value::Number(t)) => match parse_uint(t.as_str(), max) {
            Some(n) => Ok(n),
            None => Err(DecodeError),
        },
        _ => Err(DecodeError),
    }
}

/// Reads the text of field `key`.
pub fn read_text(v: &Value, key: &str) -> (r: Result<String, DecodeError>)
    ensures
        match r {
            Ok(t) => as_text(field(*v, key@)) == Some(t@),
            Err(_) => as_text(field(*v, key@)) is None,
        },
{
    match v.get(key) {
        Some(Value::Text(t)) => Ok(t.clone()),
        _ => Err(DecodeError),
    }
}

/// Reads the text of field `key` where absent or null means `None`.
pub fn read_opt_text(v: &Value, key: &str) -> (r: Result<Option<String>, DecodeError>)
    ensures
        match r {
            Ok(None) => is_absent(field(*v, key@)),
            Ok(Some(t)) => as_text(field(*v, key@)) == Some(t@),
            Err(_) => !is_absent(field(*v, key@)) && as_text(field(*v, key@)) is None,
        },
{
    match v.get(key) {
        None => Ok(None),
        Some(Value::Null) => Ok(None),
        Some(Value::Text(t)) => Ok(Some(t.clone())),
        _ => Err(DecodeError),
    }
}

/// Reads a flag that is `false` when the field is absent.
pub fn read_flag(v: &Value, key: &str) -> (r: Result<bool, DecodeError>)
    ensures
        match r {
            Ok(b) => as_flag(field(*v, key@)) == Some(b),
            Err(_) => as_flag(field(*v, key@)) is None,
        },
{
    match v.get(key) {
        None => Ok(false),
        Some(Value::Bool(b)) => Ok(*b),
        _ => Err(DecodeError),
    }
}

/// Reads a flag that may be absent or null.
pub fn read_opt_flag(v: &Value, key: &str) -> (r: Result<Option<bool>, DecodeError>)
    ensures
        match r {
            Ok(b) => as_opt_flag(field(*v, key@)) == Some(b),
            Err(_) => as_opt_flag(field(*v, key@)) is None,
        },
{
    match v.get(key) {
        None => Ok(None),
        Some(Value::Null) => Ok(None),
        Some(Value::Bool(b)) => Ok(Some(*b)),
        _ => Err(DecodeError),
    }
}

/// Reads a number as its decimal text.
pub fn read_decimal(o: Option<&Value>) -> (r: Result<Decimal, DecodeError>)
    ensures
        match r {
            Ok(d) => o is Some && decimal_is(Some(*o->0), d),
            Err(_) => !(o matches Some(x) && *x is Number),
        },
{
    match o {
        Some(Value::Number(t)) => Ok(Decimal { text: t.clone() }),
        _ => Err(DecodeError),
    }
}

/// Whether `o` is a list of exactly two numbers that `p` holds.
pub open spec fn point_is(o: Option<Value>, p: Location) -> bool {
    match o {
        Some(Value::Array(items)) => items@.len() == 2 && decimal_is(Some(items@[0]), p.x)
            && decimal_is(Some(items@[1]), p.y),
        _ => false,
    }
}

/// Whether `o` is a list of exactly two numbers.
pub open spec fn is_point(o: Option<Value>) -> bool {
    match o {
        Some(Value::Array(items)) => items@.len() == 2 && items@[0] is Number && items@[1] is Number,
        _ => false,
    }
}

/// Reads a two-dimensional coordinate, written as a list of two numbers.
pub fn read_point(o: Option<&Value>) -> (r: Result<Location, DecodeError>)
    ensures
        match r {
            Ok(p) => o is Some && point_is(Some(*o->0), p),
            Err(_) => !(o is Some && is_point(Some(*o->0))),
        },
{
    match o {
        Some(Value::Array(items)) => {
            if items.len() != 2 {
                return Err(DecodeError);
            }
            let x = read_decimal(Some(&items[0]))?;
            let y = read_decimal(Some(&items[1]))?;
            Ok(Location { x, y })
        },
        _ => Err(DecodeError),
    }
}

/// Whether `o` is absent or null (`p` is `None`) or a coordinate that `p` holds.
pub open spec fn opt_point_is(o: Option<Value>, p: Option<Location>) -> bool {
    match p {
        None => is_absent(o),
        Some(q) => point_is(o, q),
    }
}

/// Reads an optional coordinate.
pub fn read_opt_point(o: Option<&Value>) -> (r: Result<Option<Location>, DecodeError>)
    ensures
        match r {
            Ok(p) => opt_point_is(match o { Some(x) => Some(*x), None => None }, p),
            Err(_) => !is_absent(match o { Some(x) => Some(*x), None => None })
                && !is_point(match o { Some(x) => Some(*x), None => None }),
        },
{
    match o {
        None => Ok(None),
        Some(Value::Null) => Ok(None),
        Some(x) => {
            let p = read_point(Some(x))?;
            Ok(Some(p))
        },
    }
}

} // verus!
