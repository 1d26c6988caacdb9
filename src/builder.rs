//! The recursive builder: from a configuration tree to a built widget tree.
use vstd::prelude::*;
use crate::converter::{conversion_error, converted_value, ConversionError, GenericConverter, NativeValue, TypeKind};
use crate::registry::{ContainerKind, PropertySpec, Registry, TypeDescriptor};
use crate::script::{lookup, ScriptValue};
use crate::strategy::{placed, str_opt, string_of, Placement};
use crate::text::{ends_with_char, hyphenated, push_char, push_str, starts_with_char, str_eq, to_hyphenated};
use crate::window::{planned, WindowPlan, WindowStrategy};

verus! {

/// Why a build failed.
#[derive(Debug)]
pub enum BuildError {
    /// No widget type is registered under this name.
    UnknownType { widget_type: String },
    /// The registered type does not describe widgets.
    NotAWidget { widget_type: String },
    /// The widget type declares no such property.
    UnknownProperty { property: String, widget_type: String },
    /// A path-like property was given something other than a string.
    PathNotString { property: String, widget_type: String },
    /// The property's value could not be converted to its native type.
    Conversion { property: String, widget_type: String, error: ConversionError },
    /// A top-level configuration key outside the recognized set.
    UnknownTopLevelKey { key: String, widget_type: String },
    /// The widget of this type took no child.
    ContainerRejected { widget_type: String },
}

/// A built widget: its handle (the order in which it was instantiated), its
/// type, its id, the property values to set, the signals to connect, its
/// children with their placements, and what the window behavior does to it.
#[derive(Debug)]
pub struct WidgetNode {
    pub handle: usize,
    pub widget_type: String,
    pub id: Option<String>,
    pub properties: Vec<(String, NativeValue)>,
    pub signals: Vec<(String, u64)>,
    pub children: Vec<(WidgetNode, Placement)>,
    pub window: Option<WindowPlan>,
}

/// What a build reads besides the configuration.
pub ghost struct BuildContext {
    pub registry: Registry,
    pub behaviors: Seq<(String, WindowStrategy)>,
    pub default_type: String,
    pub dir: Seq<char>,
}

/// What builds leave behind: the type of every widget instantiated, by
/// handle, and every id registration, in order.
pub ghost struct BuildState {
    pub widgets: Seq<String>,
    pub ids: Seq<(String, usize)>,
}

/// The keys a configuration node may hold at its top level.
pub open spec fn is_allowed_key(k: Seq<char>) -> bool {
    ||| k == "id"@ ||| k == "type"@ ||| k == "properties"@ ||| k == "signals"@ ||| k == "children"@
    ||| k == "grid_col"@ ||| k == "grid_row"@ ||| k == "grid_width"@ ||| k == "grid_height"@
    ||| k == "type_pos"@ ||| k == "name"@ ||| k == "title"@ ||| k == "tab_label"@
    ||| k == "window_mode"@ ||| k == "layer"@ ||| k == "anchors"@ ||| k == "margins"@
    ||| k == "auto_exclusive_zone"@ ||| k == "exclusive_zone"@ ||| k == "keyboard_mode"@
    ||| k == "keymaps"@ ||| k == "css"@ ||| k == "css_path"@ ||| k == "realize"@
    ||| k == "actions"@ ||| k == "menu"@ ||| k == "draw"@
}

/// Property keys that place a child in a grid rather than set a property.
pub open spec fn is_grid_key(k: Seq<char>) -> bool {
    k == "grid_col"@ || k == "grid_row"@ || k == "grid_width"@ || k == "grid_height"@
}

/// String properties that hold a file path.
pub open spec fn is_path_prop(name: Seq<char>, p: PropertySpec) -> bool {
    (name == "file"@ || name == "icon-name"@ || name == "file-name"@) && p.value_type.kind is Str
}

/// A path as seen from the directory `dir`: absolute paths stay as they
/// are, relative ones are joined to `dir`.
pub open spec fn resolved_path(dir: Seq<char>, p: Seq<char>) -> Seq<char> {
    if p.len() > 0 && p[0] == '/' {
        p
    } else if dir.len() == 0 {
        p
    } else if dir.last() == '/' {
        dir + p
    } else {
        dir + seq!['/'] + p
    }
}

/// The first declared property named `name`.
pub open spec fn find_property(props: Seq<PropertySpec>, name: Seq<char>) -> Option<PropertySpec>
    decreases props.len(),
{
    if props.len() == 0 {
        None
    } else if props[0].name@ == name {
        Some(props[0])
    } else {
        find_property(props.drop_first(), name)
    }
}

/// The behavior in force for a type name: the latest registered.
pub open spec fn behavior_of(behaviors: Seq<(String, WindowStrategy)>, name: Seq<char>) -> Option<WindowStrategy>
    decreases behaviors.len(),
{
    if behaviors.len() == 0 {
        None
    } else if behaviors.last().0@ == name {
        Some(behaviors.last().1)
    } else {
        behavior_of(behaviors.drop_last(), name)
    }
}

/// The widget registered last under `id`.
pub open spec fn id_lookup(ids: Seq<(String, usize)>, id: Seq<char>) -> Option<usize>
    decreases ids.len(),
{
    if ids.len() == 0 {
        None
    } else if ids.last().0@ == id {
        Some(ids.last().1)
    } else {
        id_lookup(ids.drop_last(), id)
    }
}

/// The type a node names, or the default type when it names none.
pub open spec fn type_name_of(ctx: BuildContext, data: ScriptValue) -> String {
    match data.get("type"@) {
        Some(ScriptValue::Str(s)) => s,
        _ => ctx.default_type,
    }
}

pub open spec fn id_of(data: ScriptValue) -> Option<String> {
    str_opt(data.get("id"@))
}

/// The entries of the table under `key`, or none.
pub open spec fn table_entries(data: ScriptValue, key: Seq<char>) -> Seq<(String, ScriptValue)> {
    match data.get(key) {
        Some(ScriptValue::Table { entries, .. }) => entries@,
        _ => Seq::empty(),
    }
}

/// The child configurations: the sequence part of `children`.
pub open spec fn child_configs(data: ScriptValue) -> Seq<ScriptValue> {
    match data.get("children"@) {
        Some(ScriptValue::Table { items, .. }) => items@,
        _ => Seq::empty(),
    }
}

pub open spec fn top_keys(data: ScriptValue) -> Seq<(String, ScriptValue)> {
    match data {
        ScriptValue::Table { entries, .. } => entries@,
        _ => Seq::empty(),
    }
}

/// The error that setting property `k` to `v` on a widget of type `d` gives.
pub open spec fn prop_error(d: TypeDescriptor, tn: String, k: String, v: ScriptValue) -> Option<BuildError> {
    if is_grid_key(k@) {
        None
    } else {
        match find_property(d.properties@, hyphenated(k@)) {
            None => Some(BuildError::UnknownProperty { property: k, widget_type: tn }),
            Some(p) => if is_path_prop(hyphenated(k@), p) {
                if v is Str { None } else { Some(BuildError::PathNotString { property: k, widget_type: tn }) }
            } else {
                match conversion_error(v, p.value_type) {
                    Some(e) => Some(BuildError::Conversion { property: k, widget_type: tn, error: e }),
                    None => None,
                }
            },
        }
    }
}

/// The first property error among `entries`.
pub open spec fn props_error(d: TypeDescriptor, tn: String, entries: Seq<(String, ScriptValue)>) -> Option<BuildError>
    decreases entries.len(),
{
    if entries.len() == 0 {
        None
    } else {
        match prop_error(d, tn, entries[0].0, entries[0].1) {
            Some(e) => Some(e),
            None => props_error(d, tn, entries.drop_first()),
        }
    }
}

/// `out` is the native name and value that property `k` set to `v` gets.
pub open spec fn prop_value(d: TypeDescriptor, dir: Seq<char>, k: String, v: ScriptValue, out: (String, NativeValue)) -> bool {
    let name = hyphenated(k@);
    &&& out.0@ == name
    &&& match find_property(d.properties@, name) {
        Some(p) => if is_path_prop(name, p) {
            v matches ScriptValue::Str(s) && out.1 matches NativeValue::Str(x) && x@ == resolved_path(dir, s@)
        } else {
            converted_value(v, p.value_type, out.1)
        },
        None => false,
    }
}

/// `out` holds the property settings of `entries`, in order, grid keys left out.
pub open spec fn props_built(d: TypeDescriptor, dir: Seq<char>, entries: Seq<(String, ScriptValue)>, out: Seq<(String, NativeValue)>) -> bool
    decreases entries.len(),
{
    if entries.len() == 0 {
        out.len() == 0
    } else if is_grid_key(entries.last().0@) {
        props_built(d, dir, entries.drop_last(), out)
    } else {
        &&& out.len() > 0
        &&& prop_value(d, dir, entries.last().0, entries.last().1, out.last())
        &&& props_built(d, dir, entries.drop_last(), out.drop_last())
    }
}

/// `out` holds the native name and callback of each callable entry, in order.
pub open spec fn signals_built(entries: Seq<(String, ScriptValue)>, out: Seq<(String, u64)>) -> bool
    decreases entries.len(),
{
    if entries.len() == 0 {
        out.len() == 0
    } else {
        match entries.last().1 {
            ScriptValue::Function(f) => {
                &&& out.len() > 0
                &&& out.last().0@ == hyphenated(entries.last().0@)
                &&& out.last().1 == f
                &&& signals_built(entries.drop_last(), out.drop_last())
            },
            _ => signals_built(entries.drop_last(), out),
        }
    }
}

/// The first top-level key outside the recognized set.
pub open spec fn keys_error(tn: String, entries: Seq<(String, ScriptValue)>) -> Option<BuildError>
    decreases entries.len(),
{
    if entries.len() == 0 {
        None
    } else if !is_allowed_key(entries[0].0@) {
        Some(BuildError::UnknownTopLevelKey { key: entries[0].0, widget_type: tn })
    } else {
        keys_error(tn, entries.drop_first())
    }
}

/// `w` is what the window behavior does to a node of type `d`.
pub open spec fn window_built(ctx: BuildContext, d: TypeDescriptor, tn: String, data: ScriptValue, w: Option<WindowPlan>) -> bool {
    match behavior_of(ctx.behaviors, tn@) {
        Some(b) => if d.is_window { w matches Some(p) && planned(b, data, p) } else { w is None },
        None => w is None,
    }
}

pub proof fn lemma_lookup_decreases(entries: Seq<(String, ScriptValue)>, key: Seq<char>)
    ensures
        lookup(entries, key) matches Some(x) ==> decreases_to!(entries => x),
    decreases entries.len(),
{
    if entries.len() > 0 {
        if entries[0].0@ == key {
            assert(decreases_to!(entries => entries[0]));
            assert(decreases_to!(entries[0] => entries[0].1));
        } else {
            lemma_lookup_decreases(entries.drop_first(), key);
            assert(decreases_to!(entries => entries.drop_first()));
        }
    }
}

/// Each child configuration is smaller than its parent.
pub proof fn lemma_child_configs_decrease(data: ScriptValue)
    ensures
        forall|i: int| 0 <= i < child_configs(data).len() ==> decreases_to!(data => #[trigger] child_configs(data)[i]),
        child_configs(data).len() > 0 ==> decreases_to!(data => child_configs(data)),
{
    if let ScriptValue::Table { items, entries } = data {
        lemma_lookup_decreases(entries@, "children"@);
        if let Some(ScriptValue::Table { items: c, .. }) = lookup(entries@, "children"@) {
            assert(decreases_to!(data => entries));
            assert(decreases_to!(entries => entries@));
            let x = lookup(entries@, "children"@)->0;
            assert(decreases_to!(x => c));
            assert(decreases_to!(c => c@));
            assert forall|i: int| 0 <= i < c@.len() implies decreases_to!(data => #[trigger] c@[i]) by {
                assert(decreases_to!(c@ => c@[i]));
            }
        }
    }
}

/// The first error that building `data` meets, if any: an unknown type, a
/// type that is no widget, a property, a child (its own first error, or the
/// parent refusing it), and last a top-level key.
pub open spec fn node_error(ctx: BuildContext, data: ScriptValue) -> Option<BuildError>
    decreases data,
{
    let tn = type_name_of(ctx, data);
    match ctx.registry.type_of(tn@) {
        None => Some(BuildError::UnknownType { widget_type: tn }),
        Some(d) => if !d.is_widget {
            Some(BuildError::NotAWidget { widget_type: tn })
        } else if props_error(d, tn, table_entries(data, "properties"@)) is Some {
            props_error(d, tn, table_entries(data, "properties"@))
        } else {
            proof {
                lemma_child_configs_decrease(data);
            }
            let children = if child_configs(data).len() == 0 {
                None
            } else {
                children_error(ctx, ctx.registry.kind_of(tn@), tn, child_configs(data))
            };
            match children {
                Some(e) => Some(e),
                None => keys_error(tn, top_keys(data)),
            }
        },
    }
}

/// The first error among the children `items` of a node of type `tn`.
pub open spec fn children_error(ctx: BuildContext, kind: ContainerKind, tn: String, items: Seq<ScriptValue>) -> Option<BuildError>
    decreases items,
{
    if items.len() == 0 {
        None
    } else {
        match node_error(ctx, items[0]) {
            Some(e) => Some(e),
            None => if kind == ContainerKind::Leaf {
                Some(BuildError::ContainerRejected { widget_type: tn })
            } else {
                children_error(ctx, kind, tn, items.drop_first())
            },
        }
    }
}

/// The state once `node` has been registered.
pub open spec fn registered(s: BuildState, node: WidgetNode) -> BuildState {
    BuildState {
        widgets: s.widgets.push(node.widget_type),
        ids: match node.id {
            Some(i) => s.ids.push((i, node.handle)),
            None => s.ids,
        },
    }
}

/// The state once the tree `node` has been built: its widgets and ids
/// registered in pre-order.
pub open spec fn tree_after(node: WidgetNode, s: BuildState) -> BuildState
    decreases node,
{
    children_after(node.children@, registered(s, node))
}

pub open spec fn children_after(cs: Seq<(WidgetNode, Placement)>, s: BuildState) -> BuildState
    decreases cs,
{
    if cs.len() == 0 {
        s
    } else {
        tree_after(cs.last().0, children_after(cs.drop_last(), s))
    }
}

/// `node` is the widget tree built from `data`, starting in state `s`.
pub open spec fn built(ctx: BuildContext, data: ScriptValue, node: WidgetNode, s: BuildState) -> bool
    decreases data,
{
    let tn = type_name_of(ctx, data);
    match ctx.registry.type_of(tn@) {
        Some(d) => {
            proof {
                lemma_child_configs_decrease(data);
            }
            &&& node.widget_type == tn
            &&& node.handle == s.widgets.len()
            &&& node.id == id_of(data)
            &&& props_built(d, ctx.dir, table_entries(data, "properties"@), node.properties@)
            &&& signals_built(table_entries(data, "signals"@), node.signals@)
            &&& if child_configs(data).len() == 0 {
                node.children@.len() == 0
            } else {
                children_built(ctx, ctx.registry.kind_of(tn@), child_configs(data), node.children@, registered(s, node))
            }
            &&& window_built(ctx, d, tn, data, node.window)
        },
        None => false,
    }
}

/// `cs` are the children built from `items`, in order, each placed as its
/// parent's kind says, starting in state `s`.
pub open spec fn children_built(ctx: BuildContext, kind: ContainerKind, items: Seq<ScriptValue>, cs: Seq<(WidgetNode, Placement)>, s: BuildState) -> bool
    decreases items,
{
    if items.len() == 0 {
        cs.len() == 0
    } else {
        &&& cs.len() == items.len()
        &&& children_built(ctx, kind, items.drop_last(), cs.drop_last(), s)
        &&& built(ctx, items.last(), cs.last().0, children_after(cs.drop_last(), s))
        &&& placed(kind, items.last(), items.len() - 1, Some(cs.last().1))
    }
}

} // verus!

verus! {

fn is_allowed_key_exec(k: &str) -> (r: bool)
    ensures
        r == is_allowed_key(k@),
{
    str_eq(k, "id") || str_eq(k, "type") || str_eq(k, "properties") || str_eq(k, "signals")
        || str_eq(k, "children") || str_eq(k, "grid_col") || str_eq(k, "grid_row")
        || str_eq(k, "grid_width") || str_eq(k, "grid_height") || str_eq(k, "type_pos")
        || str_eq(k, "name") || str_eq(k, "title") || str_eq(k, "tab_label")
        || str_eq(k, "window_mode") || str_eq(k, "layer") || str_eq(k, "anchors")
        || str_eq(k, "margins") || str_eq(k, "auto_exclusive_zone") || str_eq(k, "exclusive_zone")
        || str_eq(k, "keyboard_mode") || str_eq(k, "keymaps") || str_eq(k, "css")
        || str_eq(k, "css_path") || str_eq(k, "realize") || str_eq(k, "actions")
        || str_eq(k, "menu") || str_eq(k, "draw")
}

fn is_grid_key_exec(k: &str) -> (r: bool)
    ensures
        r == is_grid_key(k@),
{
    str_eq(k, "grid_col") || str_eq(k, "grid_row") || str_eq(k, "grid_width") || str_eq(k, "grid_height")
}

fn is_path_prop_exec(name: &str, p: &PropertySpec) -> (r: bool)
    ensures
        r == is_path_prop(name@, *p),
{
    let path_like = str_eq(name, "file") || str_eq(name, "icon-name") || str_eq(name, "file-name");
    path_like && match p.value_type.kind {
        TypeKind::Str => true,
        _ => false,
    }
}

/// Resolves a path-like property value against the configuration's directory.
pub fn resolve_path(dir: &str, p: &str) -> (r: String)
    ensures
        r@ == resolved_path(dir@, p@),
{
    if starts_with_char(p, '/') || dir.unicode_len() == 0 {
        return String::from_str(p);
    }
    let mut out = String::from_str(dir);
    if !ends_with_char(dir, '/') {
        push_char(&mut out, '/');
    }
    push_str(&mut out, p);
    out
}

fn find_property_exec<'a>(props: &'a Vec<PropertySpec>, name: &str) -> (r: Option<&'a PropertySpec>)
    ensures
        match r {
            Some(p) => find_property(props@, name@) == Some(*p),
            None => find_property(props@, name@) is None,
        },
{
    let n = props.len();
    let mut i: usize = 0;
    assert(props@.subrange(0, n as int) =~= props@);
    while i < n
        invariant
            n == props@.len(),
            i <= n,
            find_property(props@, name@) == find_property(props@.subrange(i as int, n as int), name@),
        decreases n - i,
    {
        let ghost rest = props@.subrange(i as int, n as int);
        assert(rest.drop_first() =~= props@.subrange(i + 1, n as int));
        assert(rest[0] == props@[i as int]);
        if str_eq(props[i].name.as_str(), name) {
            return Some(&props[i]);
        }
        i += 1;
    }
    None
}

/// Converts the `properties` of a node of type `d` into native settings.
fn set_widget_properties(d: &TypeDescriptor, widget_type: &String, data: &ScriptValue, dir: &str) -> (r: Result<Vec<(String, NativeValue)>, BuildError>)
    ensures
        match r {
            Ok(ps) => props_error(*d, *widget_type, table_entries(*data, "properties"@)) is None
                && props_built(*d, dir@, table_entries(*data, "properties"@), ps@),
            Err(e) => props_error(*d, *widget_type, table_entries(*data, "properties"@)) == Some(e),
        },
{
    let mut out: Vec<(String, NativeValue)> = Vec::new();
    match data.get_property("properties") {
        Some(ScriptValue::Table { entries, .. }) => {
            let n = entries.len();
            let mut i: usize = 0;
            assert(entries@.subrange(0, n as int) =~= entries@);
            assert(entries@.subrange(0, 0) =~= Seq::<(String, ScriptValue)>::empty());
            while i < n
                invariant
                    table_entries(*data, "properties"@) == entries@,
                    n == entries@.len(),
                    i <= n,
                    props_error(*d, *widget_type, entries@) == props_error(*d, *widget_type, entries@.subrange(i as int, n as int)),
                    props_built(*d, dir@, entries@.subrange(0, i as int), out@),
                decreases n - i,
            {
                let ghost rest = entries@.subrange(i as int, n as int);
                let ghost done = entries@.subrange(0, i + 1);
                assert(rest.drop_first() =~= entries@.subrange(i + 1, n as int));
                assert(rest[0] == entries@[i as int]);
                assert(done.drop_last() =~= entries@.subrange(0, i as int));
                assert(done.last() == entries@[i as int]);
                let ghost before = out@;
                let k = &entries[i].0;
                let v = &entries[i].1;
                if !is_grid_key_exec(k.as_str()) {
                    let name = to_hyphenated(k.as_str());
                    match find_property_exec(&d.properties, name.as_str()) {
                        None => {
                            return Err(BuildError::UnknownProperty { property: k.clone(), widget_type: widget_type.clone() });
                        },
                        Some(p) => {
                            if is_path_prop_exec(name.as_str(), p) {
                                match v {
                                    ScriptValue::Str(s) => {
                                        let path = resolve_path(dir, s.as_str());
                                        out.push((name, NativeValue::Str(path)));
                                    },
                                    _ => {
                                        return Err(BuildError::PathNotString { property: k.clone(), widget_type: widget_type.clone() });
                                    },
                                }
                            } else {
                                match GenericConverter::to_gvalue(v, &p.value_type) {
                                    Ok(x) => {
                                        out.push((name, x));
                                    },
                                    Err(e) => {
                                        return Err(BuildError::Conversion { property: k.clone(), widget_type: widget_type.clone(), error: e });
                                    },
                                }
                            }
                        },
                    }
                }
                assert(out@.len() > before.len() ==> out@.drop_last() =~= before);
                i += 1;
            }
        },
        _ => {},
    }
    Ok(out)
}

} // verus!

verus! {

/// `b` holds everything `a` holds, and maybe more after it.
pub open spec fn extends(a: BuildState, b: BuildState) -> bool {
    &&& b.widgets.len() >= a.widgets.len()
    &&& b.widgets.subrange(0, a.widgets.len() as int) == a.widgets
    &&& b.ids.len() >= a.ids.len()
    &&& b.ids.subrange(0, a.ids.len() as int) == a.ids
}

proof fn lemma_extends_trans(a: BuildState, b: BuildState, c: BuildState)
    requires
        extends(a, b),
        extends(b, c),
    ensures
        extends(a, c),
{
    assert(c.widgets.subrange(0, a.widgets.len() as int) =~= b.widgets.subrange(0, a.widgets.len() as int));
    assert(c.ids.subrange(0, a.ids.len() as int) =~= b.ids.subrange(0, a.ids.len() as int));
}

proof fn lemma_extends_refl(a: BuildState)
    ensures
        extends(a, a),
{
    assert(a.widgets.subrange(0, a.widgets.len() as int) =~= a.widgets);
    assert(a.ids.subrange(0, a.ids.len() as int) =~= a.ids);
}

/// The native names and callbacks of the callable `signals` of a node.
fn connect_widget_signals(data: &ScriptValue) -> (r: Vec<(String, u64)>)
    ensures
        signals_built(table_entries(*data, "signals"@), r@),
{
    let mut out: Vec<(String, u64)> = Vec::new();
    match data.get_property("signals") {
        Some(ScriptValue::Table { entries, .. }) => {
            let n = entries.len();
            let mut i: usize = 0;
            assert(entries@.subrange(0, n as int) =~= entries@);
            assert(entries@.subrange(0, 0) =~= Seq::<(String, ScriptValue)>::empty());
            while i < n
                invariant
                    table_entries(*data, "signals"@) == entries@,
                    n == entries@.len(),
                    i <= n,
                    signals_built(entries@.subrange(0, i as int), out@),
                decreases n - i,
            {
                let ghost done = entries@.subrange(0, i + 1);
                let ghost before = out@;
                assert(done.drop_last() =~= entries@.subrange(0, i as int));
                assert(done.last() == entries@[i as int]);
                match &entries[i].1 {
                    ScriptValue::Function(f) => {
                        out.push((crate::signals::SignalConnector::signal_name(entries[i].0.as_str()), *f));
                        assert(out@.drop_last() =~= before);
                    },
                    _ => {},
                }
                i += 1;
            }
        },
        _ => {},
    }
    out
}

/// Fails on the first top-level key outside the recognized set.
fn check_top_level_keys(widget_type: &String, data: &ScriptValue) -> (r: Result<(), BuildError>)
    ensures
        match r {
            Ok(()) => keys_error(*widget_type, top_keys(*data)) is None,
            Err(e) => keys_error(*widget_type, top_keys(*data)) == Some(e),
        },
{
    match data {
        ScriptValue::Table { entries, .. } => {
            let n = entries.len();
            let mut i: usize = 0;
            assert(entries@.subrange(0, n as int) =~= entries@);
            while i < n
                invariant
                    top_keys(*data) == entries@,
                    n == entries@.len(),
                    i <= n,
                    keys_error(*widget_type, entries@) == keys_error(*widget_type, entries@.subrange(i as int, n as int)),
                decreases n - i,
            {
                let ghost rest = entries@.subrange(i as int, n as int);
                assert(rest.drop_first() =~= entries@.subrange(i + 1, n as int));
                assert(rest[0] == entries@[i as int]);
                if !is_allowed_key_exec(entries[i].0.as_str()) {
                    return Err(BuildError::UnknownTopLevelKey { key: entries[i].0.clone(), widget_type: widget_type.clone() });
                }
                i += 1;
            }
            Ok(())
        },
        _ => Ok(()),
    }
}

/// The widgets and id registrations of the build in progress.
struct Workspace {
    widgets: Vec<String>,
    ids: Vec<(String, usize)>,
}

impl Workspace {
    spec fn view(&self) -> BuildState {
        BuildState { widgets: self.widgets@, ids: self.ids@ }
    }
}

/// Builds widget trees from configuration trees. It keeps the window
/// behaviors registered by type name, and, across builds, the type of
/// every widget built and the ids they were registered under.
pub struct UiBuilder {
    behaviors: Vec<(String, WindowStrategy)>,
    default_type: String,
    widgets: Vec<String>,
    widgets_by_id: Vec<(String, usize)>,
}

impl UiBuilder {
    pub closed spec fn behaviors_view(&self) -> Seq<(String, WindowStrategy)> {
        self.behaviors@
    }

    /// The type of a node that names none.
    pub closed spec fn default_type(&self) -> String {
        self.default_type
    }

    pub closed spec fn state(&self) -> BuildState {
        BuildState { widgets: self.widgets@, ids: self.widgets_by_id@ }
    }

    pub open spec fn context(&self, registry: Registry, dir: Seq<char>) -> BuildContext {
        BuildContext { registry, behaviors: self.behaviors_view(), default_type: self.default_type(), dir }
    }

    /// The widget that `get_widget_by_id` finds under `id`.
    pub open spec fn widget_by_id(&self, id: Seq<char>) -> Option<usize> {
        id_lookup(self.state().ids, id)
    }

    pub fn new() -> (r: UiBuilder)
        ensures
            r.behaviors_view().len() == 0,
            r.default_type()@ == "GtkWindow"@,
            r.state().widgets.len() == 0,
            r.state().ids.len() == 0,
    {
        UiBuilder {
            behaviors: Vec::new(),
            default_type: String::from_str("GtkWindow"),
            widgets: Vec::new(),
            widgets_by_id: Vec::new(),
        }
    }

    /// Registers the window behavior for widgets of type `widget_type`,
    /// in place of any earlier one.
    pub fn register_behavior(&mut self, widget_type: &str, behavior: WindowStrategy)
        ensures
            forall|n: Seq<char>| #[trigger] behavior_of(final(self).behaviors_view(), n) == (if n == widget_type@ {
                Some(behavior)
            } else {
                behavior_of(old(self).behaviors_view(), n)
            }),
            final(self).default_type() == old(self).default_type(),
            final(self).state() == old(self).state(),
    {
        self.behaviors.push((String::from_str(widget_type), behavior));
        assert(self.behaviors@.drop_last() =~= old(self).behaviors@);
    }

    fn behavior_for(&self, name: &str) -> (r: Option<WindowStrategy>)
        ensures
            r == behavior_of(self.behaviors_view(), name@),
    {
        let mut i: usize = self.behaviors.len();
        assert(self.behaviors@.subrange(0, i as int) =~= self.behaviors@);
        while i > 0
            invariant
                i <= self.behaviors@.len(),
                behavior_of(self.behaviors@, name@) == behavior_of(self.behaviors@.subrange(0, i as int), name@),
            decreases i,
        {
            let ghost pre = self.behaviors@.subrange(0, i as int);
            assert(pre.drop_last() =~= self.behaviors@.subrange(0, i - 1));
            assert(pre.last() == self.behaviors@[i - 1]);
            if str_eq(self.behaviors[i - 1].0.as_str(), name) {
                return Some(self.behaviors[i - 1].1);
            }
            i -= 1;
        }
        None
    }

    /// The widget registered last under `id`, if any.
    pub fn get_widget_by_id(&self, id: &str) -> (r: Option<usize>)
        ensures
            r == self.widget_by_id(id@),
    {
        let mut i: usize = self.widgets_by_id.len();
        assert(self.widgets_by_id@.subrange(0, i as int) =~= self.widgets_by_id@);
        while i > 0
            invariant
                i <= self.widgets_by_id@.len(),
                id_lookup(self.widgets_by_id@, id@) == id_lookup(self.widgets_by_id@.subrange(0, i as int), id@),
            decreases i,
        {
            let ghost pre = self.widgets_by_id@.subrange(0, i as int);
            assert(pre.drop_last() =~= self.widgets_by_id@.subrange(0, i - 1));
            assert(pre.last() == self.widgets_by_id@[i - 1]);
            if str_eq(self.widgets_by_id[i - 1].0.as_str(), id) {
                return Some(self.widgets_by_id[i - 1].1);
            }
            i -= 1;
        }
        None
    }
}

} // verus!

verus! {

impl UiBuilder {
    fn build_recursive(&self, registry: &Registry, data: &ScriptValue, dir: &str, ws: &mut Workspace) -> (r: Result<WidgetNode, BuildError>)
        ensures
            extends(old(ws).view(), final(ws).view()),
            match r {
                Ok(node) => node_error(self.context(*registry, dir@), *data) is None
                    && built(self.context(*registry, dir@), *data, node, old(ws).view())
                    && final(ws).view() == tree_after(node, old(ws).view()),
                Err(e) => node_error(self.context(*registry, dir@), *data) == Some(e),
            },
        decreases data,
    {
        let ghost ctx = self.context(*registry, dir@);
        let ghost s0 = ws.view();
        proof {
            lemma_extends_refl(s0);
        }
        let widget_type: String = match data.get_property("type") {
            Some(ScriptValue::Str(s)) => s.clone(),
            _ => self.default_type.clone(),
        };
        assert(widget_type == type_name_of(ctx, *data));
        let d = match registry.get_type(widget_type.as_str()) {
            Some(d) => d,
            None => {
                return Err(BuildError::UnknownType { widget_type });
            },
        };
        if !d.is_widget {
            return Err(BuildError::NotAWidget { widget_type });
        }
        let handle = ws.widgets.len();
        ws.widgets.push(widget_type.clone());
        let id = string_of(data.get_property("id"));
        match &id {
            Some(i) => ws.ids.push((i.clone(), handle)),
            None => {},
        }
        let ghost s1 = ws.view();
        proof {
            assert(s1.widgets.subrange(0, s0.widgets.len() as int) =~= s0.widgets);
            assert(s1.ids.subrange(0, s0.ids.len() as int) =~= s0.ids);
            lemma_extends_refl(s1);
        }
        let properties = match set_widget_properties(d, &widget_type, data, dir) {
            Ok(p) => p,
            Err(e) => {
                return Err(e);
            },
        };
        let signals = connect_widget_signals(data);
        let kind = registry.get_strategy(widget_type.as_str());
        let mut children: Vec<(WidgetNode, Placement)> = Vec::new();
        match data.get_property("children") {
            Some(ScriptValue::Table { items, .. }) => {
                proof {
                    lemma_child_configs_decrease(*data);
                }
                let n = items.len();
                let mut i: usize = 0;
                assert(items@.subrange(0, n as int) =~= items@);
                assert(items@.subrange(0, 0) =~= Seq::<ScriptValue>::empty());
                while i < n
                    invariant
                        child_configs(*data) == items@,
                        n == items@.len(),
                        i <= n,
                        forall|j: int| 0 <= j < n ==> decreases_to!(*data => items@[j]),
                        kind == ctx.registry.kind_of(widget_type@),
                        ctx == self.context(*registry, dir@),
                        n > 0 ==> children_error(ctx, kind, widget_type, items@)
                            == children_error(ctx, kind, widget_type, items@.subrange(i as int, n as int)),
                        children_built(ctx, kind, items@.subrange(0, i as int), children@, s1),
                        children@.len() == i,
                        widget_type == type_name_of(ctx, *data),
                        ctx.registry.type_of(widget_type@) == Some(*d),
                        d.is_widget,
                        props_error(*d, widget_type, table_entries(*data, "properties"@)) is None,
                        old(ws).view() == s0,
                        ws.view() == children_after(children@, s1),
                        extends(s0, ws.view()),
                    decreases n - i,
                {
                    let ghost rest = items@.subrange(i as int, n as int);
                    let ghost done = items@.subrange(0, i + 1);
                    let ghost before = children@;
                    let ghost w_before = ws.view();
                    assert(rest.drop_first() =~= items@.subrange(i + 1, n as int));
                    assert(rest[0] == items@[i as int]);
                    assert(done.drop_last() =~= items@.subrange(0, i as int));
                    assert(done.last() == items@[i as int]);
                    let built_child = self.build_recursive(registry, &items[i], dir, ws);
                    proof {
                        lemma_extends_trans(s0, w_before, ws.view());
                    }
                    let child = match built_child {
                        Ok(c) => c,
                        Err(e) => {
                            assert(children_error(ctx, kind, widget_type, rest) == Some(e));
                            return Err(e);
                        },
                    };
                    let placement = match kind.add_child(&items[i], i) {
                        Some(p) => p,
                        None => {
                            return Err(BuildError::ContainerRejected { widget_type });
                        },
                    };
                    children.push((child, placement));
                    assert(children@.drop_last() =~= before);
                    i += 1;
                }
            },
            _ => {},
        }
        let window = match self.behavior_for(widget_type.as_str()) {
            Some(b) => if d.is_window {
                Some(b.apply(data))
            } else {
                None
            },
            None => None,
        };
        match check_top_level_keys(&widget_type, data) {
            Ok(()) => {},
            Err(e) => {
                return Err(e);
            },
        }
        let node = WidgetNode { handle, widget_type, id, properties, signals, children, window };
        assert(registered(s0, node) == s1);
        Ok(node)
    }

    /// Builds the widget tree that `data` describes, with path-like
    /// properties resolved against `config_dir`. On success the new widgets
    /// and their ids are registered; a failed build leaves the builder as
    /// it was.
    pub fn build(&mut self, registry: &Registry, data: &ScriptValue, config_dir: &str) -> (r: Result<WidgetNode, BuildError>)
        ensures
            final(self).behaviors_view() == old(self).behaviors_view(),
            final(self).default_type() == old(self).default_type(),
            match r {
                Ok(node) => node_error(old(self).context(*registry, config_dir@), *data) is None
                    && built(old(self).context(*registry, config_dir@), *data, node, old(self).state())
                    && final(self).state() == tree_after(node, old(self).state()),
                Err(e) => node_error(old(self).context(*registry, config_dir@), *data) == Some(e)
                    && final(self).state() == old(self).state(),
            },
    {
        let mut ws = Workspace { widgets: Vec::new(), ids: Vec::new() };
        std::mem::swap(&mut ws.widgets, &mut self.widgets);
        std::mem::swap(&mut ws.ids, &mut self.widgets_by_id);
        let widgets_len = ws.widgets.len();
        let ids_len = ws.ids.len();
        let r = self.build_recursive(registry, data, config_dir, &mut ws);
        if r.is_err() {
            ws.widgets.truncate(widgets_len);
            ws.ids.truncate(ids_len);
        }
        std::mem::swap(&mut ws.widgets, &mut self.widgets);
        std::mem::swap(&mut ws.ids, &mut self.widgets_by_id);
        r
    }
}

} // verus!

verus! {

/// A leaf refuses every child: however many children it holds, adding one
/// gives no placement.
pub proof fn lemma_leaf_rejects_every_child(child: ScriptValue, attached: int, r: Option<Placement>)
    requires
        placed(ContainerKind::Leaf, child, attached, r),
    ensures
        r is None,
{
}

/// Building a node whose type is registered as a leaf fails with
/// `ContainerRejected`, naming that type, as soon as its first child builds;
/// and a failed build leaves the builder unchanged (see `UiBuilder::build`).
pub proof fn lemma_leaf_build_rejects_children(ctx: BuildContext, data: ScriptValue)
    requires
        ctx.registry.type_of(type_name_of(ctx, data)@) matches Some(d) && d.is_widget
            && props_error(d, type_name_of(ctx, data), table_entries(data, "properties"@)) is None,
        ctx.registry.kind_of(type_name_of(ctx, data)@) == ContainerKind::Leaf,
        child_configs(data).len() > 0,
        node_error(ctx, child_configs(data)[0]) is None,
    ensures
        node_error(ctx, data) == Some(BuildError::ContainerRejected { widget_type: type_name_of(ctx, data) }),
{
}

/// Children are attached in the order of the configuration's `children`:
/// the i-th child built comes from the i-th child configuration, holds the
/// i-th place of its parent, and is placed as its parent's kind says for a
/// container already holding i children.
pub proof fn lemma_children_in_order(
    ctx: BuildContext,
    kind: ContainerKind,
    items: Seq<ScriptValue>,
    cs: Seq<(WidgetNode, Placement)>,
    s: BuildState,
)
    requires
        children_built(ctx, kind, items, cs, s),
    ensures
        cs.len() == items.len(),
        forall|i: int| 0 <= i < items.len() ==> {
            &&& built(ctx, items[i], #[trigger] cs[i].0, children_after(cs.subrange(0, i), s))
            &&& placed(kind, items[i], i, Some(cs[i].1))
        },
    decreases items.len(),
{
    if items.len() > 0 {
        lemma_children_in_order(ctx, kind, items.drop_last(), cs.drop_last(), s);
        assert forall|i: int| 0 <= i < items.len() implies {
            &&& built(ctx, items[i], #[trigger] cs[i].0, children_after(cs.subrange(0, i), s))
            &&& placed(kind, items[i], i, Some(cs[i].1))
        } by {
            if i < items.len() - 1 {
                assert(items.drop_last()[i] == items[i]);
                assert(cs.drop_last()[i] == cs[i]);
                assert(cs.drop_last().subrange(0, i) =~= cs.subrange(0, i));
            } else {
                assert(cs.subrange(0, i) =~= cs.drop_last());
            }
        }
    }
}

/// Each child of a built node was instantiated after its parent and after
/// every earlier sibling's whole subtree: handles follow the configuration
/// order.
pub proof fn lemma_handles_follow_order(ctx: BuildContext, data: ScriptValue, node: WidgetNode, s: BuildState)
    requires
        built(ctx, data, node, s),
    ensures
        node.handle == s.widgets.len(),
        forall|i: int| 0 <= i < node.children@.len() ==>
            (#[trigger] node.children@[i]).0.handle == children_after(node.children@.subrange(0, i), registered(s, node)).widgets.len(),
{
    let tn = type_name_of(ctx, data);
    if child_configs(data).len() > 0 {
        lemma_children_in_order(ctx, ctx.registry.kind_of(tn@), child_configs(data), node.children@, registered(s, node));
        assert forall|i: int| 0 <= i < node.children@.len() implies
            (#[trigger] node.children@[i]).0.handle == children_after(node.children@.subrange(0, i), registered(s, node)).widgets.len() by {
            let items = child_configs(data);
            assert(ctx.registry.type_of(type_name_of(ctx, items[i])@) is Some);
        }
    }
}

/// A string property that is not path-like is set to exactly the string
/// the configuration gives.
pub proof fn lemma_string_property_round_trip(d: TypeDescriptor, dir: Seq<char>, k: String, s: String, out: (String, NativeValue))
    requires
        prop_value(d, dir, k, ScriptValue::Str(s), out),
        find_property(d.properties@, hyphenated(k@)) matches Some(p) && p.value_type.kind is Str,
        !is_path_prop(hyphenated(k@), find_property(d.properties@, hyphenated(k@))->0),
    ensures
        out.0@ == hyphenated(k@),
        out.1 == NativeValue::Str(s),
{
}

/// The id of a widget just registered finds that widget.
pub proof fn lemma_registered_id_found(s: BuildState, node: WidgetNode)
    requires
        node.id is Some,
    ensures
        id_lookup(registered(s, node).ids, node.id->0@) == Some(node.handle),
{
    let ids = registered(s, node).ids;
    assert(ids.last() == (node.id->0, node.handle));
}

/// Lookups by id read the builder and change nothing: two lookups of one id
/// on the same builder find the same widget.
pub proof fn lemma_widget_by_id_stable(b: UiBuilder, id: Seq<char>, r1: Option<usize>, r2: Option<usize>)
    requires
        r1 == b.widget_by_id(id),
        r2 == b.widget_by_id(id),
    ensures
        r1 == r2,
{
}

/// A key outside the recognized set, preceded only by recognized keys, is
/// the one the top-level check reports, with the node's type.
pub proof fn lemma_unknown_key_reported(tn: String, entries: Seq<(String, ScriptValue)>, j: int)
    requires
        0 <= j < entries.len(),
        !is_allowed_key(entries[j].0@),
        forall|i: int| 0 <= i < j ==> is_allowed_key(#[trigger] entries[i].0@),
    ensures
        keys_error(tn, entries) == Some(BuildError::UnknownTopLevelKey { key: entries[j].0, widget_type: tn }),
    decreases j,
{
    if j > 0 {
        assert(is_allowed_key(entries[0].0@));
        assert forall|i: int| 0 <= i < j - 1 implies is_allowed_key(#[trigger] entries.drop_first()[i].0@) by {
            assert(entries.drop_first()[i] == entries[i + 1]);
        }
        lemma_unknown_key_reported(tn, entries.drop_first(), j - 1);
    }
}

/// A node that would otherwise build, but holds a top-level key outside the
/// recognized set, fails with `UnknownTopLevelKey` naming the first such key
/// and the node's type.
pub proof fn lemma_unknown_key_fails_build(ctx: BuildContext, data: ScriptValue, j: int)
    requires
        ctx.registry.type_of(type_name_of(ctx, data)@) matches Some(d) && d.is_widget
            && props_error(d, type_name_of(ctx, data), table_entries(data, "properties"@)) is None,
        child_configs(data).len() > 0 ==> children_error(ctx, ctx.registry.kind_of(type_name_of(ctx, data)@),
            type_name_of(ctx, data), child_configs(data)) is None,
        0 <= j < top_keys(data).len(),
        !is_allowed_key(top_keys(data)[j].0@),
        forall|i: int| 0 <= i < j ==> is_allowed_key(#[trigger] top_keys(data)[i].0@),
    ensures
        node_error(ctx, data) == Some(BuildError::UnknownTopLevelKey { key: top_keys(data)[j].0, widget_type: type_name_of(ctx, data) }),
{
    lemma_unknown_key_reported(type_name_of(ctx, data), top_keys(data), j);
}

} // verus!
