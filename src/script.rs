//! The scripted configuration value, held as plain data.
use vstd::prelude::*;
use crate::text::str_eq;

verus! {

/// A scripted number, as the two readings the host gives of it: the value
/// as an integer (exact for integers, truncated toward zero and saturated
/// for fractional numbers) and the bits of its 64-bit floating-point value.
#[derive(Clone, Copy, Debug, PartialEq, Eq, Structural)]
pub struct ScriptNumber {
    pub int: i64,
    pub bits: u64,
}

/// A value produced by the script host.
///
/// A table has an ordered sequence part (`items`, the values at keys
/// 1, 2, ...) and a part keyed by strings (`entries`). A callable value is
/// known by the handle under which the host keeps it.
#[derive(Debug)]
pub enum ScriptValue {
    Nil,
    Bool(bool),
    Number(ScriptNumber),
    Str(String),
    Table { items: Vec<ScriptValue>, entries: Vec<(String, ScriptValue)> },
    Function(u64),
}

/// The dynamic kind of a scripted value.
#[derive(Clone, Copy, Debug, PartialEq, Eq, Structural)]
pub enum ScriptKind {
    Nil,
    Bool,
    Number,
    Str,
    Table,
    Function,
}

/// The value stored under `key` in `entries`: the first entry with that key.
pub open spec fn lookup(entries: Seq<(String, ScriptValue)>, key: Seq<char>) -> Option<ScriptValue>
    decreases entries.len(),
{
    if entries.len() == 0 {
        None
    } else if entries[0].0@ == key {
        Some(entries[0].1)
    } else {
        lookup(entries.drop_first(), key)
    }
}

impl ScriptValue {
    pub open spec fn kind_spec(&self) -> ScriptKind {
        match self {
            ScriptValue::Nil => ScriptKind::Nil,
            ScriptValue::Bool(_) => ScriptKind::Bool,
            ScriptValue::Number(_) => ScriptKind::Number,
            ScriptValue::Str(_) => ScriptKind::Str,
            ScriptValue::Table { .. } => ScriptKind::Table,
            ScriptValue::Function(_) => ScriptKind::Function,
        }
    }

    /// The value under `key` when this is a table; nothing otherwise.
    pub open spec fn get(&self, key: Seq<char>) -> Option<ScriptValue> {
        match self {
            ScriptValue::Table { entries, .. } => lookup(entries@, key),
            _ => None,
        }
    }

    /// The string-keyed entries when this is a table.
    pub open spec fn entries_of(&self) -> Option<Seq<(String, ScriptValue)>> {
        match self {
            ScriptValue::Table { entries, .. } => Some(entries@),
            _ => None,
        }
    }

    /// The sequence part when this is a table.
    pub open spec fn items_of(&self) -> Option<Seq<ScriptValue>> {
        match self {
            ScriptValue::Table { items, .. } => Some(items@),
            _ => None,
        }
    }

    pub open spec fn str_of(&self) -> Option<Seq<char>> {
        match self {
            ScriptValue::Str(s) => Some(s@),
            _ => None,
        }
    }

    pub open spec fn bool_of(&self) -> Option<bool> {
        match self {
            ScriptValue::Bool(b) => Some(*b),
            _ => None,
        }
    }

    pub open spec fn int_of(&self) -> Option<i64> {
        match self {
            ScriptValue::Number(n) => Some(n.int),
            _ => None,
        }
    }

    pub fn kind(&self) -> (r: ScriptKind)
        ensures
            r == self.kind_spec(),
    {
        match self {
            ScriptValue::Nil => ScriptKind::Nil,
            ScriptValue::Bool(_) => ScriptKind::Bool,
            ScriptValue::Number(_) => ScriptKind::Number,
            ScriptValue::Str(_) => ScriptKind::Str,
            ScriptValue::Table { .. } => ScriptKind::Table,
            ScriptValue::Function(_) => ScriptKind::Function,
        }
    }

    /// The value stored under `key`, when this is a table holding one.
    pub fn get_property(&self, key: &str) -> (r: Option<&ScriptValue>)
        ensures
            match r {
                Some(v) => self.get(key@) == Some(*v),
                None => self.get(key@) is None,
            },
    {
        match self {
            ScriptValue::Table { entries, .. } => {
                let n = entries.len();
                let mut i: usize = 0;
                assert(entries@.subrange(0, n as int) =~= entries@);
                while i < n
                    invariant
                        n == entries@.len(),
                        i <= n,
                        self.get(key@) == lookup(entries@.subrange(i as int, n as int), key@),
                    decreases n - i,
                {
                    let ghost rest = entries@.subrange(i as int, n as int);
                    assert(rest.drop_first() =~= entries@.subrange(i + 1, n as int));
                    assert(rest[0] == entries@[i as int]);
                    if str_eq(entries[i].0.as_str(), key) {
                        assert(lookup(rest, key@) == Some(entries@[i as int].1));
                        return Some(&entries[i].1);
                    }
                    i += 1;
                }
                None
            },
            _ => None,
        }
    }

    pub fn as_string(&self) -> (r: Option<&String>)
        ensures
            match r {
                Some(s) => self.str_of() == Some(s@),
                None => self.str_of() is None,
            },
    {
        match self {
            ScriptValue::Str(s) => Some(s),
            _ => None,
        }
    }

    pub fn as_bool(&self) -> (r: Option<bool>)
        ensures
            r == self.bool_of(),
    {
        match self {
            ScriptValue::Bool(b) => Some(*b),
            _ => None,
        }
    }

    pub fn as_integer(&self) -> (r: Option<i64>)
        ensures
            r == self.int_of(),
    {
        match self {
            ScriptValue::Number(n) => Some(n.int),
            _ => None,
        }
    }

    pub fn is_function(&self) -> (r: bool)
        ensures
            r == (self is Function),
    {
        match self {
            ScriptValue::Function(_) => true,
            _ => false,
        }
    }
}

} // verus!
