use ink::builder::{resolve_path, BuildError, UiBuilder, WidgetNode};
use ink::catalog::init;
use ink::converter::{EnumMember, NativeType, NativeValue, TypeKind};
use ink::registry::{ContainerKind, PropertySpec, Registry, TypeDescriptor};
use ink::script::{ScriptNumber, ScriptValue};
use ink::strategy::{Placement, SlotPos};
use ink::window::{Anchors, ExclusiveZone, KeyboardMode, Layer, WindowMode, WindowStrategy};

fn s(x: &str) -> ScriptValue {
    ScriptValue::Str(x.to_string())
}

fn num(x: i64) -> ScriptValue {
    ScriptValue::Number(ScriptNumber { int: x, bits: (x as f64).to_bits() })
}

fn table(entries: Vec<(&str, ScriptValue)>) -> ScriptValue {
    ScriptValue::Table {
        items: Vec::new(),
        entries: entries.into_iter().map(|(k, v)| (k.to_string(), v)).collect(),
    }
}

fn list(items: Vec<ScriptValue>) -> ScriptValue {
    ScriptValue::Table { items, entries: Vec::new() }
}

fn ty(name: &str, kind: TypeKind) -> NativeType {
    NativeType { name: name.to_string(), kind }
}

fn prop(name: &str, value_type: NativeType) -> PropertySpec {
    PropertySpec { name: name.to_string(), value_type }
}

fn widget_desc(name: &str, is_window: bool, properties: Vec<PropertySpec>) -> TypeDescriptor {
    TypeDescriptor { name: name.to_string(), is_widget: true, is_window, properties }
}

fn orientation() -> NativeType {
    ty(
        "GtkOrientation",
        TypeKind::Enum(vec![
            EnumMember { nick: "horizontal".to_string(), value: 0 },
            EnumMember { nick: "vertical".to_string(), value: 1 },
        ]),
    )
}

fn registry() -> Registry {
    let mut r = Registry::new();
    r.register_container(
        widget_desc(
            "GtkWindow",
            true,
            vec![prop("title", ty("gchararray", TypeKind::Str)), prop("default-width", ty("gint", TypeKind::I32))],
        ),
        ContainerKind::Single,
    );
    r.register_container(widget_desc("GtkBox", false, vec![prop("orientation", orientation()), prop("spacing", ty("gint", TypeKind::I32))]), ContainerKind::Append);
    r.register_container(widget_desc("GtkGrid", false, vec![]), ContainerKind::Grid);
    r.register_container(widget_desc("GtkPaned", false, vec![]), ContainerKind::Paned);
    r.register_container(widget_desc("GtkStack", false, vec![]), ContainerKind::Stack);
    r.register_container(widget_desc("GtkNotebook", false, vec![]), ContainerKind::Notebook);
    r.register_container(widget_desc("GtkCenterBox", false, vec![]), ContainerKind::Slots);
    r.register_leaf(widget_desc(
        "GtkLabel",
        false,
        vec![prop("label", ty("gchararray", TypeKind::Str)), prop("use-markup", ty("gboolean", TypeKind::Bool))],
    ));
    r.register_leaf(widget_desc(
        "GtkImage",
        false,
        vec![prop("file", ty("gchararray", TypeKind::Str)), prop("icon-name", ty("gchararray", TypeKind::Str))],
    ));
    r.register_leaf(TypeDescriptor { name: "GtkSettings".to_string(), is_widget: false, is_window: false, properties: vec![] });
    r
}

fn label(text: &str) -> ScriptValue {
    table(vec![("type", s("GtkLabel")), ("properties", table(vec![("label", s(text))]))])
}

fn str_prop<'a>(node: &'a WidgetNode, name: &str) -> Option<&'a NativeValue> {
    node.properties.iter().find(|(n, _)| n == name).map(|(_, v)| v)
}

#[test]
fn scenario_a_vertical_box_with_label() {
    let reg = registry();
    let mut b = UiBuilder::new();
    let cfg = table(vec![
        ("type", s("GtkBox")),
        ("properties", table(vec![("orientation", s("vertical"))])),
        ("children", list(vec![label("Hi")])),
    ]);
    let node = b.build(&reg, &cfg, "/cfg").unwrap();
    assert_eq!(node.widget_type, "GtkBox");
    assert!(matches!(str_prop(&node, "orientation"), Some(NativeValue::Enum(1))));
    assert_eq!(node.children.len(), 1);
    let (child, placement) = &node.children[0];
    assert_eq!(child.widget_type, "GtkLabel");
    assert!(matches!(placement, Placement::Append));
    assert!(matches!(str_prop(child, "label"), Some(NativeValue::Str(t)) if t == "Hi"));
}

#[test]
fn scenario_b_grid_child_coordinates() {
    let reg = registry();
    let mut b = UiBuilder::new();
    let child = table(vec![
        ("type", s("GtkLabel")),
        ("properties", table(vec![("grid_col", num(1)), ("grid_row", num(2)), ("label", s("X"))])),
    ]);
    let cfg = table(vec![("type", s("GtkGrid")), ("children", list(vec![child]))]);
    let node = b.build(&reg, &cfg, "").unwrap();
    let (label_node, placement) = &node.children[0];
    assert!(matches!(placement, Placement::Grid { col: 1, row: 2, width: 1, height: 1 }));
    // grid keys place the child; they are not set as properties
    assert_eq!(label_node.properties.len(), 1);
    assert!(matches!(str_prop(label_node, "label"), Some(NativeValue::Str(t)) if t == "X"));
}

#[test]
fn grid_reads_own_config_before_properties() {
    let reg = registry();
    let mut b = UiBuilder::new();
    let child = table(vec![
        ("type", s("GtkLabel")),
        ("grid_col", num(4)),
        ("grid_width", num(3)),
        ("properties", table(vec![("grid_col", num(9)), ("grid_height", num(2))])),
    ]);
    let cfg = table(vec![("type", s("GtkGrid")), ("children", list(vec![child]))]);
    let node = b.build(&reg, &cfg, "").unwrap();
    assert!(matches!(node.children[0].1, Placement::Grid { col: 4, row: 0, width: 3, height: 2 }));
}

#[test]
fn scenario_c_layer_shell_window() {
    let reg = registry();
    let mut b = UiBuilder::new();
    b.register_behavior("GtkWindow", WindowStrategy::new(false));
    let cfg = table(vec![
        ("type", s("GtkWindow")),
        ("window_mode", s("layer_shell")),
        ("layer", s("bottom")),
        ("anchors", table(vec![("top", ScriptValue::Bool(true)), ("left", ScriptValue::Bool(true))])),
    ]);
    let node = b.build(&reg, &cfg, "").unwrap();
    let plan = node.window.expect("window behavior applied");
    assert_eq!(
        plan.mode,
        WindowMode::Shell(ink::window::ShellSettings {
            layer: Layer::Bottom,
            anchors: Anchors { top: true, bottom: false, left: true, right: false },
            zone: ExclusiveZone::Unset,
            keyboard: KeyboardMode::OnDemand,
        })
    );
}

#[test]
fn window_defaults_without_anchors() {
    let plan = WindowStrategy::new(false).apply(&table(vec![("type", s("GtkWindow")), ("auto_exclusive_zone", ScriptValue::Bool(true))]));
    match plan.mode {
        WindowMode::Shell(settings) => {
            assert_eq!(settings.layer, Layer::Top);
            assert_eq!(settings.anchors, Anchors { top: true, bottom: false, left: true, right: true });
            assert_eq!(settings.zone, ExclusiveZone::Auto);
            assert_eq!(settings.keyboard, KeyboardMode::OnDemand);
        }
        WindowMode::Plain => panic!("expected a shell surface"),
    }
}

#[test]
fn window_explicit_zone_and_keyboard() {
    let cfg = table(vec![
        ("exclusive_zone", num(32)),
        ("auto_exclusive_zone", ScriptValue::Bool(true)),
        ("keyboard_mode", s("exclusive")),
        ("layer", s("overlay")),
    ]);
    match WindowStrategy::new(false).apply(&cfg).mode {
        WindowMode::Shell(settings) => {
            assert_eq!(settings.zone, ExclusiveZone::Fixed(32));
            assert_eq!(settings.keyboard, KeyboardMode::Exclusive);
            assert_eq!(settings.layer, Layer::Overlay);
        }
        WindowMode::Plain => panic!("expected a shell surface"),
    }
    let none = table(vec![("keyboard_mode", s("none")), ("layer", s("background"))]);
    match WindowStrategy::new(false).apply(&none).mode {
        WindowMode::Shell(settings) => {
            assert_eq!(settings.keyboard, KeyboardMode::NoFocus);
            assert_eq!(settings.layer, Layer::Background);
        }
        WindowMode::Plain => panic!("expected a shell surface"),
    }
}

#[test]
fn window_normal_mode_and_forced_window() {
    let keymaps = table(vec![("<Ctrl>q", ScriptValue::Function(7)), ("Escape", s("not callable"))]);
    let cfg = table(vec![("window_mode", s("normal")), ("keymaps", keymaps)]);
    let plan = WindowStrategy::new(false).apply(&cfg);
    assert_eq!(plan.mode, WindowMode::Plain);
    assert_eq!(plan.keymaps.len(), 2);
    assert_eq!(plan.keymaps[0].accelerator, "<Ctrl>q");
    assert_eq!(plan.keymaps[0].callback, Some(7));
    assert_eq!(plan.keymaps[1].callback, None);
    let forced = WindowStrategy::new(true).apply(&cfg);
    assert_eq!(forced.mode, WindowMode::Plain);
    assert!(forced.keymaps.is_empty());
}

#[test]
fn scenario_e_unknown_property() {
    let reg = registry();
    let mut b = UiBuilder::new();
    let cfg = table(vec![("type", s("GtkLabel")), ("properties", table(vec![("nonexistent", num(1))]))]);
    match b.build(&reg, &cfg, "") {
        Err(BuildError::UnknownProperty { property, widget_type }) => {
            assert_eq!(property, "nonexistent");
            assert_eq!(widget_type, "GtkLabel");
        }
        other => panic!("unexpected {:?}", other),
    }
}

#[test]
fn leaf_rejects_child() {
    let reg = registry();
    let mut b = UiBuilder::new();
    let cfg = table(vec![("type", s("GtkLabel")), ("id", s("outer")), ("children", list(vec![label("inner")]))]);
    match b.build(&reg, &cfg, "") {
        Err(BuildError::ContainerRejected { widget_type }) => assert_eq!(widget_type, "GtkLabel"),
        other => panic!("unexpected {:?}", other),
    }
    // nothing of the failed build stays registered
    assert_eq!(b.get_widget_by_id("outer"), None);
    assert_eq!(ContainerKind::Leaf.add_child(&label("x"), 0).is_none(), true);
    assert_eq!(ContainerKind::Leaf.add_child(&label("x"), 5).is_none(), true);
}

#[test]
fn children_attached_in_order() {
    let reg = registry();
    let mut b = UiBuilder::new();
    let cfg = table(vec![("type", s("GtkBox")), ("children", list(vec![label("a"), label("b"), label("c")]))]);
    let node = b.build(&reg, &cfg, "").unwrap();
    let texts: Vec<String> = node
        .children
        .iter()
        .map(|(c, _)| match str_prop(c, "label") {
            Some(NativeValue::Str(t)) => t.clone(),
            _ => String::new(),
        })
        .collect();
    assert_eq!(texts, vec!["a", "b", "c"]);
    let handles: Vec<usize> = node.children.iter().map(|(c, _)| c.handle).collect();
    assert_eq!(node.handle, 0);
    assert_eq!(handles, vec![1, 2, 3]);
}

#[test]
fn label_round_trip() {
    let reg = registry();
    let mut b = UiBuilder::new();
    let node = b.build(&reg, &label("hello"), "").unwrap();
    assert!(matches!(str_prop(&node, "label"), Some(NativeValue::Str(t)) if t == "hello"));
}

#[test]
fn widget_by_id_twice() {
    let reg = registry();
    let mut b = UiBuilder::new();
    let child = table(vec![("type", s("GtkLabel")), ("id", s("clock"))]);
    let cfg = table(vec![("type", s("GtkBox")), ("id", s("root")), ("children", list(vec![child]))]);
    let node = b.build(&reg, &cfg, "").unwrap();
    let first = b.get_widget_by_id("clock");
    let second = b.get_widget_by_id("clock");
    assert_eq!(first, Some(node.children[0].0.handle));
    assert_eq!(first, second);
    assert_eq!(b.get_widget_by_id("root"), Some(node.handle));
    assert_eq!(b.get_widget_by_id("missing"), None);
}

#[test]
fn later_id_wins() {
    let reg = registry();
    let mut b = UiBuilder::new();
    b.build(&reg, &table(vec![("type", s("GtkLabel")), ("id", s("x"))]), "").unwrap();
    let second = b.build(&reg, &table(vec![("type", s("GtkLabel")), ("id", s("x"))]), "").unwrap();
    assert_eq!(second.handle, 1);
    assert_eq!(b.get_widget_by_id("x"), Some(1));
}

#[test]
fn unknown_top_level_key() {
    let reg = registry();
    let mut b = UiBuilder::new();
    let cfg = table(vec![("type", s("GtkLabel")), ("foo", num(1))]);
    match b.build(&reg, &cfg, "") {
        Err(BuildError::UnknownTopLevelKey { key, widget_type }) => {
            assert_eq!(key, "foo");
            assert_eq!(widget_type, "GtkLabel");
        }
        other => panic!("unexpected {:?}", other),
    }
}

#[test]
fn unknown_type_and_default_type() {
    let reg = registry();
    let mut b = UiBuilder::new();
    match b.build(&reg, &table(vec![("type", s("GtkNope"))]), "") {
        Err(BuildError::UnknownType { widget_type }) => assert_eq!(widget_type, "GtkNope"),
        other => panic!("unexpected {:?}", other),
    }
    let node = b.build(&reg, &table(vec![("properties", table(vec![("title", s("T"))]))]), "").unwrap();
    assert_eq!(node.widget_type, "GtkWindow");
}

#[test]
fn not_a_widget() {
    let reg = registry();
    let mut b = UiBuilder::new();
    match b.build(&reg, &table(vec![("type", s("GtkSettings"))]), "") {
        Err(BuildError::NotAWidget { widget_type }) => assert_eq!(widget_type, "GtkSettings"),
        other => panic!("unexpected {:?}", other),
    }
}

#[test]
fn conversion_error_in_build() {
    let reg = registry();
    let mut b = UiBuilder::new();
    let cfg = table(vec![("type", s("GtkBox")), ("properties", table(vec![("orientation", s("diagonal"))]))]);
    match b.build(&reg, &cfg, "") {
        Err(BuildError::Conversion { property, widget_type, error }) => {
            assert_eq!(property, "orientation");
            assert_eq!(widget_type, "GtkBox");
            assert!(matches!(error, ink::converter::ConversionError::EnumConversion { .. }));
        }
        other => panic!("unexpected {:?}", other),
    }
}

#[test]
fn path_properties_resolved() {
    let reg = registry();
    let mut b = UiBuilder::new();
    let cfg = table(vec![
        ("type", s("GtkImage")),
        ("properties", table(vec![("file", s("img/a.png")), ("icon_name", s("/abs/icon.svg"))])),
    ]);
    let node = b.build(&reg, &cfg, "/home/u/.config/ink").unwrap();
    assert!(matches!(str_prop(&node, "file"), Some(NativeValue::Str(t)) if t == "/home/u/.config/ink/img/a.png"));
    assert!(matches!(str_prop(&node, "icon-name"), Some(NativeValue::Str(t)) if t == "/abs/icon.svg"));
    let bad = table(vec![("type", s("GtkImage")), ("properties", table(vec![("file", num(3))]))]);
    match b.build(&reg, &bad, "") {
        Err(BuildError::PathNotString { property, widget_type }) => {
            assert_eq!(property, "file");
            assert_eq!(widget_type, "GtkImage");
        }
        other => panic!("unexpected {:?}", other),
    }
}

#[test]
fn resolve_path_cases() {
    assert_eq!(resolve_path("/a/b", "c.txt"), "/a/b/c.txt");
    assert_eq!(resolve_path("/a/b/", "c.txt"), "/a/b/c.txt");
    assert_eq!(resolve_path("/a/b", "/etc/x"), "/etc/x");
    assert_eq!(resolve_path("", "rel"), "rel");
}

#[test]
fn signals_connected_with_native_names() {
    let reg = registry();
    let mut b = UiBuilder::new();
    let cfg = table(vec![
        ("type", s("GtkLabel")),
        ("signals", table(vec![("notify_label", ScriptValue::Function(3)), ("ignored", s("x"))])),
    ]);
    let node = b.build(&reg, &cfg, "").unwrap();
    assert_eq!(node.signals, vec![("notify-label".to_string(), 3)]);
}

#[test]
fn placements_of_container_kinds() {
    let reg = registry();
    let mut b = UiBuilder::new();
    let paned = table(vec![("type", s("GtkPaned")), ("children", list(vec![label("a"), label("b"), label("c")]))]);
    let node = b.build(&reg, &paned, "").unwrap();
    assert!(matches!(node.children[0].1, Placement::StartPane));
    assert!(matches!(node.children[1].1, Placement::EndPane));
    assert!(matches!(node.children[2].1, Placement::EndPane));

    let page = table(vec![("type", s("GtkLabel")), ("name", s("p1"))]);
    let titled = table(vec![("type", s("GtkLabel")), ("title", s("Second"))]);
    let stack = table(vec![("type", s("GtkStack")), ("children", list(vec![page, titled]))]);
    let node = b.build(&reg, &stack, "").unwrap();
    match &node.children[0].1 {
        Placement::Page { name, title } => {
            assert_eq!(name.as_deref(), Some("p1"));
            assert_eq!(title, "Page");
        }
        other => panic!("unexpected {:?}", other),
    }
    match &node.children[1].1 {
        Placement::Page { name, title } => {
            assert_eq!(name, &None);
            assert_eq!(title, "Second");
        }
        other => panic!("unexpected {:?}", other),
    }

    let tab = table(vec![("type", s("GtkLabel")), ("tab_label", s("One"))]);
    let notebook = table(vec![("type", s("GtkNotebook")), ("children", list(vec![tab]))]);
    let node = b.build(&reg, &notebook, "").unwrap();
    assert!(matches!(&node.children[0].1, Placement::Tab { label: Some(l) } if l == "One"));

    let start = table(vec![("type", s("GtkLabel")), ("type_pos", s("start"))]);
    let end = table(vec![("type", s("GtkLabel")), ("type_pos", s("end"))]);
    let center = label("mid");
    let cbox = table(vec![("type", s("GtkCenterBox")), ("children", list(vec![start, end, center]))]);
    let node = b.build(&reg, &cbox, "").unwrap();
    assert!(matches!(node.children[0].1, Placement::Slot(SlotPos::Start)));
    assert!(matches!(node.children[1].1, Placement::Slot(SlotPos::End)));
    assert!(matches!(node.children[2].1, Placement::Slot(SlotPos::Center)));
}

#[test]
fn window_child_is_set() {
    let reg = registry();
    let mut b = UiBuilder::new();
    let cfg = table(vec![("type", s("GtkWindow")), ("children", list(vec![label("a")]))]);
    let node = b.build(&reg, &cfg, "").unwrap();
    assert!(matches!(node.children[0].1, Placement::SetChild));
    // no behavior registered: nothing is planned for the window
    assert!(node.window.is_none());
}

#[test]
fn registry_lookups() {
    let mut reg = registry();
    assert_eq!(reg.get_strategy("GtkGrid"), ContainerKind::Grid);
    assert_eq!(reg.get_strategy("GtkUnknown"), ContainerKind::Leaf);
    assert!(reg.get_type("GtkUnknown").is_none());
    assert_eq!(reg.get_type("GtkBox").unwrap().properties.len(), 2);
    let before = reg.get_all_types().len();
    reg.register_leaf(widget_desc("GtkGrid", false, vec![]));
    assert_eq!(reg.get_strategy("GtkGrid"), ContainerKind::Leaf);
    let names = reg.get_all_types();
    assert_eq!(names.len(), before + 1);
    assert_eq!(names[0], "GtkWindow");
    assert_eq!(names[names.len() - 1], "GtkGrid");
}

#[test]
fn catalog_lists_types() {
    let entries = init();
    assert_eq!(entries.len(), 55);
    assert!(entries.iter().any(|(n, k)| n == "GtkGrid" && *k == ContainerKind::Grid));
    assert!(entries.iter().any(|(n, k)| n == "GtkBox" && *k == ContainerKind::Append));
    assert!(entries.iter().any(|(n, k)| n == "GtkLabel" && *k == ContainerKind::Leaf));
    assert!(entries.iter().any(|(n, k)| n == "GtkApplicationWindow" && *k == ContainerKind::Single));
}

#[test]
fn empty_children_and_grid_defaults() {
    let reg = registry();
    let mut b = UiBuilder::new();
    let empty = table(vec![("type", s("GtkBox")), ("children", list(vec![]))]);
    assert!(b.build(&reg, &empty, "").unwrap().children.is_empty());
    let grid = table(vec![("type", s("GtkGrid")), ("children", list(vec![label("a")]))]);
    let node = b.build(&reg, &grid, "").unwrap();
    assert!(matches!(node.children[0].1, Placement::Grid { col: 0, row: 0, width: 1, height: 1 }));
}

#[test]
fn behaviors_by_type_latest_wins() {
    let reg = registry();
    let mut b = UiBuilder::new();
    b.register_behavior("GtkWindow", WindowStrategy::new(false));
    b.register_behavior("GtkWindow", WindowStrategy::new(true));
    b.register_behavior("GtkBox", WindowStrategy::new(false));
    let win = b.build(&reg, &table(vec![("type", s("GtkWindow")), ("layer", s("bottom"))]), "").unwrap();
    let plan = win.window.expect("window behavior applied");
    assert_eq!(plan.mode, WindowMode::Plain);
    // a behavior registered for a type that is no window does nothing
    let boxed = b.build(&reg, &table(vec![("type", s("GtkBox"))]), "").unwrap();
    assert!(boxed.window.is_none());
}

#[test]
fn first_error_wins() {
    let reg = registry();
    let mut b = UiBuilder::new();
    // the property error comes before the child's error and the key error
    let cfg = table(vec![
        ("type", s("GtkBox")),
        ("bogus", num(1)),
        ("properties", table(vec![("spacing", s("wide"))])),
        ("children", list(vec![table(vec![("type", s("GtkNope"))])])),
    ]);
    assert!(matches!(b.build(&reg, &cfg, ""), Err(BuildError::Conversion { .. })));
    // without it, the first child's error comes before the key error
    let cfg = table(vec![
        ("type", s("GtkBox")),
        ("bogus", num(1)),
        ("children", list(vec![label("ok"), table(vec![("type", s("GtkNope"))])])),
    ]);
    assert!(matches!(b.build(&reg, &cfg, ""), Err(BuildError::UnknownType { .. })));
    assert_eq!(b.build(&reg, &label("after"), "").unwrap().handle, 0);
}
