//! Per-node metadata as authored in the scene file: a key/value map whose
//! values are JSON scalars or arrays.

use vstd::prelude::*;
use crate::text::text_eq;

verus! {

/// One metadata value. Numbers are held without floating point: integers as
/// they are, other numbers in thousandths.
#[derive(Debug)]
pub enum MetaValue {
    Null,
    Bool(bool),
    /// A non-negative integer.
    Nat(u64),
    /// A negative integer.
    Neg(i64),
    /// A number with a fractional part, in thousandths.
    Frac(i64),
    Str(String),
    Array(Vec<MetaValue>),
    Object,
}

/// The value of a number in thousandths.
pub open spec fn millis_of(v: MetaValue) -> Option<int> {
    match v {
        MetaValue::Nat(n) => Some(n * 1000),
        MetaValue::Neg(n) => Some(n * 1000),
        MetaValue::Frac(m) => Some(m as int),
        _ => None,
    }
}

/// A number read as an unsigned integer: the fraction is dropped, negative
/// numbers give zero and large ones the largest `u64`.
pub open spec fn whole_of(v: MetaValue) -> Option<u64> {
    match v {
        MetaValue::Nat(n) => Some(n),
        MetaValue::Neg(_) => Some(0),
        MetaValue::Frac(m) => Some(if m < 0 { 0 } else { (m / 1000) as u64 }),
        _ => None,
    }
}

/// A non-negative number read as a duration in milliseconds.
pub open spec fn duration_of(v: MetaValue) -> Option<u64> {
    match millis_of(v) {
        Some(m) => if 0 <= m <= u64::MAX { Some(m as u64) } else { None },
        None => None,
    }
}

impl MetaValue {
    pub fn as_bool(&self) -> (r: Option<bool>)
        ensures
            r == (match *self {
                MetaValue::Bool(b) => Some(b),
                _ => None,
            }),
    {
        match self {
            MetaValue::Bool(b) => Some(*b),
            _ => None,
        }
    }

    pub fn as_u64(&self) -> (r: Option<u64>)
        ensures
            r == (match *self {
                MetaValue::Nat(n) => Some(n),
                _ => None,
            }),
    {
        match self {
            MetaValue::Nat(n) => Some(*n),
            _ => None,
        }
    }

    pub fn as_str(&self) -> (r: Option<&str>)
        ensures
            match *self {
                MetaValue::Str(s) => r matches Some(t) && t@ == s@,
                _ => r is None,
            },
    {
        match self {
            MetaValue::Str(s) => Some(s.as_str()),
            _ => None,
        }
    }

    pub fn as_array(&self) -> (r: Option<&Vec<MetaValue>>)
        ensures
            match *self {
                MetaValue::Array(a) => r == Some(&a),
                _ => r is None,
            },
    {
        match self {
            MetaValue::Array(a) => Some(a),
            _ => None,
        }
    }

    pub fn whole(&self) -> (r: Option<u64>)
        ensures
            r == whole_of(*self),
    {
        match self {
            MetaValue::Nat(n) => Some(*n),
            MetaValue::Neg(_) => Some(0),
            MetaValue::Frac(m) => Some(if *m < 0 { 0 } else { (*m / 1000) as u64 }),
            _ => None,
        }
    }

    pub fn duration_ms(&self) -> (r: Option<u64>)
        ensures
            r == duration_of(*self),
    {
        match self {
            MetaValue::Nat(n) => {
                if *n <= u64::MAX / 1000 {
                    assert(*n * 1000 <= u64::MAX) by (nonlinear_arith)
                        requires *n <= u64::MAX / 1000;
                    Some(*n * 1000)
                } else {
                    assert(*n * 1000 > u64::MAX) by (nonlinear_arith)
                        requires *n > u64::MAX / 1000;
                    None
                }
            },
            MetaValue::Neg(n) => {
                if *n < 0 {
                    assert(*n * 1000 < 0) by (nonlinear_arith)
                        requires *n < 0;
                    None
                } else if *n <= (u64::MAX / 1000) as i64 {
                    assert(*n * 1000 <= u64::MAX) by (nonlinear_arith)
                        requires *n <= u64::MAX / 1000;
                    Some((*n as u64) * 1000)
                } else {
                    assert(*n * 1000 > u64::MAX) by (nonlinear_arith)
                        requires *n > u64::MAX / 1000;
                    None
                }
            },
            MetaValue::Frac(m) => if *m < 0 { None } else { Some(*m as u64) },
            _ => None,
        }
    }

    /// A number that must be exactly zero or one, read as a flag.
    pub fn flag(&self) -> (r: Option<bool>)
        ensures
            r == (match millis_of(*self) {
                Some(m) => if m == 1000 { Some(true) } else if m == 0 { Some(false) } else { None },
                None => None,
            }),
    {
        match self {
            MetaValue::Nat(n) => {
                assert(*n * 1000 == 1000 <==> *n == 1) by (nonlinear_arith);
                assert(*n * 1000 == 0 <==> *n == 0) by (nonlinear_arith);
                if *n == 1 { Some(true) } else if *n == 0 { Some(false) } else { None }
            },
            MetaValue::Neg(n) => {
                assert(*n * 1000 == 1000 <==> *n == 1) by (nonlinear_arith);
                assert(*n * 1000 == 0 <==> *n == 0) by (nonlinear_arith);
                if *n == 1 { Some(true) } else if *n == 0 { Some(false) } else { None }
            },
            MetaValue::Frac(m) => if *m == 1000 { Some(true) } else if *m == 0 { Some(false) } else { None },
            _ => None,
        }
    }
}

/// A node's whole metadata map, in authoring order; keys are unique.
pub struct Metadata {
    pub entries: Vec<(String, MetaValue)>,
}

/// The value stored under `key`.
pub open spec fn lookup(s: Seq<(String, MetaValue)>, key: Seq<char>) -> Option<MetaValue>
    decreases s.len(),
{
    if s.len() == 0 {
        None
    } else {
        match lookup(s.drop_last(), key) {
            Some(v) => Some(v),
            None => if s.last().0@ == key { Some(s.last().1) } else { None },
        }
    }
}

impl Metadata {
    pub open spec fn get_spec(&self, key: Seq<char>) -> Option<MetaValue> {
        lookup(self.entries@, key)
    }

    /// The value stored under `key`.
    pub fn get(&self, key: &str) -> (r: Option<&MetaValue>)
        ensures
            match self.get_spec(key@) {
                Some(v) => r == Some(&v),
                None => r is None,
            },
    {
        let ghost s = self.entries@;
        let mut i: usize = 0;
        while i < self.entries.len()
            invariant
                s == self.entries@,
                i <= s.len(),
                lookup(s.subrange(0, i as int), key@) is None,
            decreases s.len() - i,
        {
            assert(s.subrange(0, i + 1).drop_last() =~= s.subrange(0, i as int));
            if text_eq(self.entries[i].0.as_str(), key) {
                proof { lemma_lookup_prefix(s, key@, i + 1); }
                return Some(&self.entries[i].1);
            }
            i = i + 1;
        }
        assert(s.subrange(0, i as int) =~= s);
        None
    }
}

proof fn lemma_lookup_prefix(s: Seq<(String, MetaValue)>, key: Seq<char>, k: int)
    requires
        0 <= k <= s.len(),
        lookup(s.subrange(0, k), key) is Some,
    ensures
        lookup(s, key) == lookup(s.subrange(0, k), key),
    decreases s.len() - k,
{
    if k == s.len() {
        assert(s.subrange(0, k) =~= s);
    } else {
        assert(s.subrange(0, k + 1).drop_last() =~= s.subrange(0, k));
        lemma_lookup_prefix(s, key, k + 1);
    }
}

} // verus!
