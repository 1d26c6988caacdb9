use ink::config::Config;
use ink::context::AppContext;
use ink::converter::{ConversionError, EnumMember, GenericConverter, NativeType, NativeValue, TypeKind};
use ink::markup::pango_escape_text;
use ink::script::{ScriptKind, ScriptNumber, ScriptValue};
use ink::signals::{CallOutcome, NativeReturn, ScriptArg, SignalConnector};
use ink::text::to_hyphenated;

fn ty(name: &str, kind: TypeKind) -> NativeType {
    NativeType { name: name.to_string(), kind }
}

fn number(x: f64) -> ScriptValue {
    ScriptValue::Number(ScriptNumber { int: x as i64, bits: x.to_bits() })
}

#[test]
fn converts_strings_and_enums() {
    let s = ScriptValue::Str("vertical".to_string());
    assert!(matches!(GenericConverter::to_gvalue(&s, &ty("gchararray", TypeKind::Str)), Ok(NativeValue::Str(t)) if t == "vertical"));
    let e = ty(
        "GtkOrientation",
        TypeKind::Enum(vec![
            EnumMember { nick: "horizontal".to_string(), value: 0 },
            EnumMember { nick: "vertical".to_string(), value: 1 },
        ]),
    );
    assert!(matches!(GenericConverter::to_gvalue(&s, &e), Ok(NativeValue::Enum(1))));
    match GenericConverter::to_gvalue(&ScriptValue::Str("up".to_string()), &e) {
        Err(ConversionError::EnumConversion { value, enum_type }) => {
            assert_eq!(value, "up");
            assert_eq!(enum_type, "GtkOrientation");
        }
        other => panic!("unexpected {:?}", other),
    }
    match GenericConverter::to_gvalue(&s, &ty("gboolean", TypeKind::Bool)) {
        Err(ConversionError::UnsupportedType { source, target }) => {
            assert_eq!(source, ScriptKind::Str);
            assert_eq!(target, "gboolean");
        }
        other => panic!("unexpected {:?}", other),
    }
}

#[test]
fn converts_booleans() {
    let b = ScriptValue::Bool(true);
    assert!(matches!(GenericConverter::to_gvalue(&b, &ty("gboolean", TypeKind::Bool)), Ok(NativeValue::Bool(true))));
    assert!(matches!(
        GenericConverter::to_gvalue(&b, &ty("gint", TypeKind::I32)),
        Err(ConversionError::UnsupportedType { source: ScriptKind::Bool, .. })
    ));
}

#[test]
fn converts_numbers() {
    let n = number(42.0);
    assert!(matches!(GenericConverter::to_gvalue(&n, &ty("gint", TypeKind::I32)), Ok(NativeValue::Int(42))));
    assert!(matches!(GenericConverter::to_gvalue(&n, &ty("guint", TypeKind::U32)), Ok(NativeValue::UInt(42))));
    assert!(matches!(GenericConverter::to_gvalue(&n, &ty("gint64", TypeKind::I64)), Ok(NativeValue::Int64(42))));
    match GenericConverter::to_gvalue(&number(2.5), &ty("gdouble", TypeKind::F64)) {
        Ok(NativeValue::Double(bits)) => assert_eq!(f64::from_bits(bits), 2.5),
        other => panic!("unexpected {:?}", other),
    }
    match GenericConverter::to_gvalue(&number(2.5), &ty("gfloat", TypeKind::F32)) {
        Ok(NativeValue::Float(bits)) => assert_eq!(f64::from_bits(bits) as f32, 2.5f32),
        other => panic!("unexpected {:?}", other),
    }
    assert!(matches!(
        GenericConverter::to_gvalue(&n, &ty("gchararray", TypeKind::Str)),
        Err(ConversionError::UnsupportedType { source: ScriptKind::Number, .. })
    ));
}

#[test]
fn numbers_saturate_at_bounds() {
    let big = ScriptValue::Number(ScriptNumber { int: 5_000_000_000, bits: 5e9f64.to_bits() });
    assert!(matches!(GenericConverter::to_gvalue(&big, &ty("gint", TypeKind::I32)), Ok(NativeValue::Int(i32::MAX))));
    assert!(matches!(GenericConverter::to_gvalue(&big, &ty("guint", TypeKind::U32)), Ok(NativeValue::UInt(u32::MAX))));
    let neg = number(-7.0);
    assert!(matches!(GenericConverter::to_gvalue(&neg, &ty("guint", TypeKind::U32)), Ok(NativeValue::UInt(0))));
    assert!(matches!(GenericConverter::to_gvalue(&neg, &ty("gint", TypeKind::I32)), Ok(NativeValue::Int(-7))));
    let small = ScriptValue::Number(ScriptNumber { int: -5_000_000_000, bits: (-5e9f64).to_bits() });
    assert!(matches!(GenericConverter::to_gvalue(&small, &ty("gint", TypeKind::I32)), Ok(NativeValue::Int(i32::MIN))));
}

#[test]
fn converts_string_arrays() {
    let arr = ScriptValue::Table {
        items: vec![ScriptValue::Str("a".to_string()), ScriptValue::Bool(true), ScriptValue::Str("b".to_string())],
        entries: vec![],
    };
    match GenericConverter::to_gvalue(&arr, &ty("GStrv", TypeKind::StrV)) {
        Ok(NativeValue::StrV(v)) => assert_eq!(v, vec!["a".to_string(), "b".to_string()]),
        other => panic!("unexpected {:?}", other),
    }
    assert!(matches!(
        GenericConverter::to_gvalue(&arr, &ty("gchararray", TypeKind::Str)),
        Err(ConversionError::UnsupportedType { source: ScriptKind::Table, .. })
    ));
}

#[test]
fn nil_and_functions_are_unsupported() {
    match GenericConverter::to_gvalue(&ScriptValue::Nil, &ty("gchararray", TypeKind::Str)) {
        Err(ConversionError::UnsupportedType { source, target }) => {
            assert_eq!(source, ScriptKind::Nil);
            assert_eq!(target, "gchararray");
        }
        other => panic!("unexpected {:?}", other),
    }
    assert!(matches!(
        GenericConverter::to_gvalue(&ScriptValue::Function(1), &ty("other", TypeKind::Other)),
        Err(ConversionError::UnsupportedType { source: ScriptKind::Function, .. })
    ));
}

#[test]
fn scenario_d_state_set_nil_is_handled() {
    assert!(matches!(
        SignalConnector::native_return("state-set", CallOutcome::Returned(ScriptArg::Nil)),
        Some(NativeReturn::Bool(true))
    ));
    assert!(matches!(SignalConnector::native_return("state-set", CallOutcome::Failed), Some(NativeReturn::Bool(true))));
    assert!(matches!(SignalConnector::native_return("focus-out", CallOutcome::Failed), Some(NativeReturn::Bool(true))));
    assert!(SignalConnector::native_return("clicked", CallOutcome::Returned(ScriptArg::Nil)).is_none());
    assert!(SignalConnector::native_return("clicked", CallOutcome::Failed).is_none());
}

#[test]
fn callback_returns_pass_through() {
    assert!(matches!(
        SignalConnector::native_return("state-set", CallOutcome::Returned(ScriptArg::Bool(false))),
        Some(NativeReturn::Bool(false))
    ));
    assert!(matches!(
        SignalConnector::native_return("x", CallOutcome::Returned(ScriptArg::Number(3))),
        Some(NativeReturn::Double(3))
    ));
    assert!(matches!(
        SignalConnector::native_return("x", CallOutcome::Returned(ScriptArg::String("s".to_string()))),
        Some(NativeReturn::Str(t)) if t == "s"
    ));
    assert!(SignalConnector::native_return("x", CallOutcome::Returned(ScriptArg::Widget(1))).is_none());
}

#[test]
fn signal_names_and_arguments() {
    assert_eq!(SignalConnector::signal_name("state_set"), "state-set");
    assert_eq!(to_hyphenated("a_b_c"), "a-b-c");
    assert!(SignalConnector::is_tri_state("focus-out"));
    assert!(!SignalConnector::is_tri_state("focus_out"));
    let args = SignalConnector::callback_args(4, vec![ScriptArg::Bool(true)]);
    assert_eq!(args.len(), 2);
    assert!(matches!(args[0], ScriptArg::Widget(4)));
    assert!(matches!(args[1], ScriptArg::Bool(true)));
}

#[test]
fn escapes_markup() {
    assert_eq!(pango_escape_text("a < b & \"c\" > 'd'"), "a &lt; b &amp; &quot;c&quot; &gt; &apos;d&apos;");
    assert_eq!(pango_escape_text(""), "");
    assert_eq!(pango_escape_text("plain"), "plain");
}

#[test]
fn flags_from_arguments() {
    let args = |v: &[&str]| v.iter().map(|s| s.to_string()).collect::<Vec<String>>();
    assert_eq!(Config::from_args(&args(&["ink"])), Some(Config { windowed: false }));
    assert_eq!(Config::from_args(&args(&["ink", "--windowed", "x.lua"])), Some(Config { windowed: true }));
    assert_eq!(Config::from_args(&args(&["ink", "--windowed", "--help"])), None);
    assert_eq!(Config::from_args(&args(&["--windowed"])), Some(Config { windowed: false }));
}

#[test]
fn context_keeps_path() {
    let c = AppContext::new("/x/init.lua".to_string());
    assert_eq!(c.main_file_path, "/x/init.lua");
}
