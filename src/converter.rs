//! Conversion of scripted values into typed native property values.
use vstd::prelude::*;
use crate::script::{ScriptKind, ScriptValue};
use crate::text::str_eq;

verus! {

/// One member of a native enumeration: its symbolic name ("nick") and value.
#[derive(Debug)]
pub struct EnumMember {
    pub nick: String,
    pub value: i32,
}

/// The shape of a native property type.
#[derive(Debug)]
pub enum TypeKind {
    Str,
    Bool,
    I32,
    U32,
    I64,
    F32,
    F64,
    StrV,
    Enum(Vec<EnumMember>),
    Other,
}

/// A native property type: its name in the native type system and its shape.
#[derive(Debug)]
pub struct NativeType {
    pub name: String,
    pub kind: TypeKind,
}

/// A typed native value, ready to be stored in a property.
///
/// Floating-point values travel as the bits of a 64-bit float; a `Float`
/// is narrowed to 32 bits when it is stored.
#[derive(Debug)]
pub enum NativeValue {
    Str(String),
    Bool(bool),
    Int(i32),
    UInt(u32),
    Int64(i64),
    Float(u64),
    Double(u64),
    StrV(Vec<String>),
    Enum(i32),
}

/// Why a scripted value could not become a native value.
#[derive(Debug)]
pub enum ConversionError {
    /// No conversion exists from a value of this kind to the named type.
    UnsupportedType { source: ScriptKind, target: String },
    /// The string names no member of the named enumeration.
    EnumConversion { value: String, enum_type: String },
}

/// The value of the first member named `nick`.
pub open spec fn nick_value(members: Seq<EnumMember>, nick: Seq<char>) -> Option<i32>
    decreases members.len(),
{
    if members.len() == 0 {
        None
    } else if members[0].nick@ == nick {
        Some(members[0].value)
    } else {
        nick_value(members.drop_first(), nick)
    }
}

/// The strings among `items`, in order; other values are left out.
pub open spec fn strings_in(items: Seq<ScriptValue>) -> Seq<String>
    decreases items.len(),
{
    if items.len() == 0 {
        Seq::empty()
    } else {
        let rest = strings_in(items.drop_last());
        match items.last() {
            ScriptValue::Str(s) => rest.push(s),
            _ => rest,
        }
    }
}

pub open spec fn clamp_i32(x: i64) -> i32 {
    if x < i32::MIN {
        i32::MIN
    } else if x > i32::MAX {
        i32::MAX
    } else {
        x as i32
    }
}

pub open spec fn clamp_u32(x: i64) -> u32 {
    if x < 0 {
        0
    } else if x > u32::MAX {
        u32::MAX
    } else {
        x as u32
    }
}

/// The error that converting `v` to the type `t` gives, if it fails.
pub open spec fn conversion_error(v: ScriptValue, t: NativeType) -> Option<ConversionError> {
    let unsupported = Some(ConversionError::UnsupportedType { source: v.kind_spec(), target: t.name });
    match v {
        ScriptValue::Str(s) => match t.kind {
            TypeKind::Str => None,
            TypeKind::Enum(members) => if nick_value(members@, s@) is Some {
                None
            } else {
                Some(ConversionError::EnumConversion { value: s, enum_type: t.name })
            },
            _ => unsupported,
        },
        ScriptValue::Bool(_) => if t.kind is Bool { None } else { unsupported },
        ScriptValue::Number(_) => match t.kind {
            TypeKind::I32 | TypeKind::U32 | TypeKind::I64 | TypeKind::F32 | TypeKind::F64 => None,
            _ => unsupported,
        },
        ScriptValue::Table { .. } => if t.kind is StrV { None } else { unsupported },
        _ => unsupported,
    }
}

/// `x` is the native value that `v` converts to under the type `t`, when
/// the conversion succeeds.
pub open spec fn converted_value(v: ScriptValue, t: NativeType, x: NativeValue) -> bool {
    match v {
        ScriptValue::Str(s) => match t.kind {
            TypeKind::Str => x == NativeValue::Str(s),
            TypeKind::Enum(members) => nick_value(members@, s@) == Some(x->Enum_0) && x is Enum,
            _ => false,
        },
        ScriptValue::Bool(b) => x == NativeValue::Bool(b),
        ScriptValue::Number(n) => match t.kind {
            TypeKind::I32 => x == NativeValue::Int(clamp_i32(n.int)),
            TypeKind::U32 => x == NativeValue::UInt(clamp_u32(n.int)),
            TypeKind::I64 => x == NativeValue::Int64(n.int),
            TypeKind::F32 => x == NativeValue::Float(n.bits),
            TypeKind::F64 => x == NativeValue::Double(n.bits),
            _ => false,
        },
        ScriptValue::Table { items, .. } => x matches NativeValue::StrV(xs) && xs@ == strings_in(items@),
        _ => false,
    }
}

/// `r` is the outcome of converting `v` to the type `t`.
pub open spec fn conversion(v: ScriptValue, t: NativeType, r: Result<NativeValue, ConversionError>) -> bool {
    match conversion_error(v, t) {
        Some(e) => r == Err::<NativeValue, ConversionError>(e),
        None => r matches Ok(x) && converted_value(v, t, x),
    }
}

fn enum_value_by_nick(members: &Vec<EnumMember>, nick: &str) -> (r: Option<i32>)
    ensures
        r == nick_value(members@, nick@),
{
    let n = members.len();
    let mut i: usize = 0;
    assert(members@.subrange(0, n as int) =~= members@);
    while i < n
        invariant
            n == members@.len(),
            i <= n,
            nick_value(members@, nick@) == nick_value(members@.subrange(i as int, n as int), nick@),
        decreases n - i,
    {
        let ghost rest = members@.subrange(i as int, n as int);
        assert(rest.drop_first() =~= members@.subrange(i + 1, n as int));
        assert(rest[0] == members@[i as int]);
        if str_eq(members[i].nick.as_str(), nick) {
            return Some(members[i].value);
        }
        i += 1;
    }
    None
}

fn collect_strings(items: &Vec<ScriptValue>) -> (r: Vec<String>)
    ensures
        r@ == strings_in(items@),
{
    let n = items.len();
    let mut out: Vec<String> = Vec::new();
    let mut i: usize = 0;
    while i < n
        invariant
            n == items@.len(),
            i <= n,
            out@ == strings_in(items@.subrange(0, i as int)),
        decreases n - i,
    {
        assert(items@.subrange(0, i + 1).drop_last() =~= items@.subrange(0, i as int));
        match &items[i] {
            ScriptValue::Str(s) => out.push(s.clone()),
            _ => {},
        }
        i += 1;
    }
    assert(items@.subrange(0, n as int) =~= items@);
    out
}

fn saturate_i32(x: i64) -> (r: i32)
    ensures
        r == clamp_i32(x),
{
    if x < i32::MIN as i64 {
        i32::MIN
    } else if x > i32::MAX as i64 {
        i32::MAX
    } else {
        x as i32
    }
}

fn saturate_u32(x: i64) -> (r: u32)
    ensures
        r == clamp_u32(x),
{
    if x < 0 {
        0
    } else if x > u32::MAX as i64 {
        u32::MAX
    } else {
        x as u32
    }
}

/// Converts scripted values to native values by the target's declared type.
pub struct GenericConverter;

impl GenericConverter {
    /// Converts `val` to the native type `target`: strings to strings or to
    /// the enumeration member of that nick, booleans to booleans, numbers to
    /// any numeric type (integers saturate at the target's bounds), and a
    /// table to a string array of the strings in its sequence part.
    pub fn to_gvalue(val: &ScriptValue, target: &NativeType) -> (r: Result<NativeValue, ConversionError>)
        ensures
            conversion(*val, *target, r),
    {
        match val {
            ScriptValue::Str(s) => match &target.kind {
                TypeKind::Str => Ok(NativeValue::Str(s.clone())),
                TypeKind::Enum(members) => match enum_value_by_nick(members, s.as_str()) {
                    Some(x) => Ok(NativeValue::Enum(x)),
                    None => Err(ConversionError::EnumConversion { value: s.clone(), enum_type: target.name.clone() }),
                },
                _ => Err(ConversionError::UnsupportedType { source: ScriptKind::Str, target: target.name.clone() }),
            },
            ScriptValue::Bool(b) => match &target.kind {
                TypeKind::Bool => Ok(NativeValue::Bool(*b)),
                _ => Err(ConversionError::UnsupportedType { source: ScriptKind::Bool, target: target.name.clone() }),
            },
            ScriptValue::Number(n) => match &target.kind {
                TypeKind::I32 => Ok(NativeValue::Int(saturate_i32(n.int))),
                TypeKind::U32 => Ok(NativeValue::UInt(saturate_u32(n.int))),
                TypeKind::I64 => Ok(NativeValue::Int64(n.int)),
                TypeKind::F32 => Ok(NativeValue::Float(n.bits)),
                TypeKind::F64 => Ok(NativeValue::Double(n.bits)),
                _ => Err(ConversionError::UnsupportedType { source: ScriptKind::Number, target: target.name.clone() }),
            },
            ScriptValue::Table { items, .. } => match &target.kind {
                TypeKind::StrV => Ok(NativeValue::StrV(collect_strings(items))),
                _ => Err(ConversionError::UnsupportedType { source: ScriptKind::Table, target: target.name.clone() }),
            },
            _ => Err(ConversionError::UnsupportedType { source: val.kind(), target: target.name.clone() }),
        }
    }
}

} // verus!
