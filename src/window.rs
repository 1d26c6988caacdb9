//! Window presentation: plain windows and shell-surface placement.
use vstd::prelude::*;
use crate::script::ScriptValue;
use crate::strategy::str_opt;
use crate::text::str_eq;

verus! {

/// The stacking layer of a shell surface.
#[derive(Clone, Copy, Debug, PartialEq, Eq, Structural)]
pub enum Layer {
    Background,
    Bottom,
    Top,
    Overlay,
}

/// How a shell surface takes keyboard focus.
#[derive(Clone, Copy, Debug, PartialEq, Eq, Structural)]
pub enum KeyboardMode {
    NoFocus,
    Exclusive,
    OnDemand,
}

/// The screen space a shell surface reserves for itself.
#[derive(Clone, Copy, Debug, PartialEq, Eq, Structural)]
pub enum ExclusiveZone {
    /// Left as the shell sets it.
    Unset,
    /// Sized automatically from the surface.
    Auto,
    /// A fixed number of pixels.
    Fixed(i32),
}

/// Which screen edges a shell surface is anchored to.
#[derive(Clone, Copy, Debug, PartialEq, Eq, Structural)]
pub struct Anchors {
    pub top: bool,
    pub bottom: bool,
    pub left: bool,
    pub right: bool,
}

/// The placement of a window as a shell surface.
#[derive(Clone, Copy, Debug, PartialEq, Eq, Structural)]
pub struct ShellSettings {
    pub layer: Layer,
    pub anchors: Anchors,
    pub zone: ExclusiveZone,
    pub keyboard: KeyboardMode,
}

/// How a window is presented.
#[derive(Clone, Copy, Debug, PartialEq, Eq, Structural)]
pub enum WindowMode {
    /// As an ordinary window.
    Plain,
    /// As a shell surface with these settings.
    Shell(ShellSettings),
}

/// A key binding: an accelerator string and the callback it runs, if the
/// configured value is callable.
#[derive(Debug)]
pub struct Keybinding {
    pub accelerator: String,
    pub callback: Option<u64>,
}

/// Everything the window behavior does to a built window.
#[derive(Debug)]
pub struct WindowPlan {
    pub keymaps: Vec<Keybinding>,
    pub mode: WindowMode,
}

/// The window behavior. When `force_windowed` is set every window is
/// presented plainly, without key bindings or shell placement.
#[derive(Clone, Copy, Debug, PartialEq, Eq, Structural)]
pub struct WindowStrategy {
    pub force_windowed: bool,
}

/// The string under `key` in `data`.
pub open spec fn str_at(data: ScriptValue, key: Seq<char>) -> Option<Seq<char>> {
    match str_opt(data.get(key)) {
        Some(s) => Some(s@),
        None => None,
    }
}

pub open spec fn layer_of(data: ScriptValue) -> Layer {
    let l = str_at(data, "layer"@);
    if l == Some("bottom"@) {
        Layer::Bottom
    } else if l == Some("overlay"@) {
        Layer::Overlay
    } else if l == Some("background"@) {
        Layer::Background
    } else {
        Layer::Top
    }
}

/// Whether the anchor table `a` sets the edge `key` to true.
pub open spec fn anchor_set(a: ScriptValue, key: Seq<char>) -> bool {
    match a.get(key) {
        Some(v) => v.bool_of() == Some(true),
        None => false,
    }
}

/// The anchors: as the `anchors` table gives them (an edge it leaves out is
/// not anchored), or top, left and right when there is no `anchors`.
pub open spec fn anchors_of(data: ScriptValue) -> Anchors {
    match data.get("anchors"@) {
        Some(a) => Anchors {
            top: anchor_set(a, "top"@),
            bottom: anchor_set(a, "bottom"@),
            left: anchor_set(a, "left"@),
            right: anchor_set(a, "right"@),
        },
        None => Anchors { top: true, bottom: false, left: true, right: true },
    }
}

/// An integer `exclusive_zone` wins over `auto_exclusive_zone = true`.
pub open spec fn zone_of(data: ScriptValue) -> ExclusiveZone {
    match data.get("exclusive_zone"@) {
        Some(ScriptValue::Number(n)) => ExclusiveZone::Fixed(n.int as i32),
        _ => if data.get("auto_exclusive_zone"@) == Some(ScriptValue::Bool(true)) {
            ExclusiveZone::Auto
        } else {
            ExclusiveZone::Unset
        },
    }
}

pub open spec fn keyboard_of(data: ScriptValue) -> KeyboardMode {
    let k = str_at(data, "keyboard_mode"@);
    if k == Some("exclusive"@) {
        KeyboardMode::Exclusive
    } else if k == Some("none"@) {
        KeyboardMode::NoFocus
    } else {
        KeyboardMode::OnDemand
    }
}

/// Plain when `window_mode` is "normal"; a shell surface otherwise.
pub open spec fn mode_of(data: ScriptValue) -> WindowMode {
    if str_at(data, "window_mode"@) == Some("normal"@) {
        WindowMode::Plain
    } else {
        WindowMode::Shell(ShellSettings {
            layer: layer_of(data),
            anchors: anchors_of(data),
            zone: zone_of(data),
            keyboard: keyboard_of(data),
        })
    }
}

/// The callback handle of a configured value, if it is callable.
pub open spec fn callback_of(v: ScriptValue) -> Option<u64> {
    match v {
        ScriptValue::Function(f) => Some(f),
        _ => None,
    }
}

/// The entries of the `keymaps` table of `data`.
pub open spec fn keymap_entries(data: ScriptValue) -> Seq<(String, ScriptValue)> {
    match data.get("keymaps"@) {
        Some(ScriptValue::Table { entries, .. }) => entries@,
        _ => Seq::empty(),
    }
}

/// `keys` holds one binding per entry of `entries`, in order.
pub open spec fn bindings_of(entries: Seq<(String, ScriptValue)>, keys: Seq<Keybinding>) -> bool {
    &&& keys.len() == entries.len()
    &&& forall|i: int| 0 <= i < keys.len() ==> {
        &&& (#[trigger] keys[i]).accelerator == entries[i].0
        &&& keys[i].callback == callback_of(entries[i].1)
    }
}

/// `p` is what the behavior `w` does to a window configured by `data`.
pub open spec fn planned(w: WindowStrategy, data: ScriptValue, p: WindowPlan) -> bool {
    if w.force_windowed {
        p.keymaps@.len() == 0 && p.mode == WindowMode::Plain
    } else {
        bindings_of(keymap_entries(data), p.keymaps@) && p.mode == mode_of(data)
    }
}

fn string_at(data: &ScriptValue, key: &str, expected: &str) -> (r: bool)
    ensures
        r == (str_at(*data, key@) == Some(expected@)),
{
    match data.get_property(key) {
        Some(ScriptValue::Str(s)) => str_eq(s.as_str(), expected),
        _ => false,
    }
}

fn edge_set(anchors: &ScriptValue, key: &str) -> (r: bool)
    ensures
        r == anchor_set(*anchors, key@),
{
    match anchors.get_property(key) {
        Some(v) => match v.as_bool() {
            Some(b) => b,
            None => false,
        },
        None => false,
    }
}

impl WindowStrategy {
    pub fn new(force_windowed: bool) -> (r: WindowStrategy)
        ensures
            r.force_windowed == force_windowed,
    {
        WindowStrategy { force_windowed }
    }

    fn connect_keybindings(data: &ScriptValue) -> (r: Vec<Keybinding>)
        ensures
            bindings_of(keymap_entries(*data), r@),
    {
        let mut out: Vec<Keybinding> = Vec::new();
        match data.get_property("keymaps") {
            Some(ScriptValue::Table { entries, .. }) => {
                let mut i: usize = 0;
                while i < entries.len()
                    invariant
                        keymap_entries(*data) == entries@,
                        i <= entries@.len(),
                        bindings_of(entries@.subrange(0, i as int), out@),
                    decreases entries@.len() - i,
                {
                    let callback = match &entries[i].1 {
                        ScriptValue::Function(f) => Some(*f),
                        _ => None,
                    };
                    out.push(Keybinding { accelerator: entries[i].0.clone(), callback });
                    i += 1;
                }
                assert(entries@.subrange(0, entries@.len() as int) =~= entries@);
            },
            _ => {},
        }
        out
    }

    fn apply_layer_shell_properties(data: &ScriptValue) -> (r: ShellSettings)
        ensures
            r.layer == layer_of(*data),
            r.anchors == anchors_of(*data),
            r.zone == zone_of(*data),
            r.keyboard == keyboard_of(*data),
    {
        let layer = if string_at(data, "layer", "bottom") {
            Layer::Bottom
        } else if string_at(data, "layer", "overlay") {
            Layer::Overlay
        } else if string_at(data, "layer", "background") {
            Layer::Background
        } else {
            Layer::Top
        };
        let anchors = match data.get_property("anchors") {
            Some(a) => Anchors {
                top: edge_set(a, "top"),
                bottom: edge_set(a, "bottom"),
                left: edge_set(a, "left"),
                right: edge_set(a, "right"),
            },
            None => Anchors { top: true, bottom: false, left: true, right: true },
        };
        let zone = match data.get_property("exclusive_zone") {
            Some(ScriptValue::Number(n)) => ExclusiveZone::Fixed(n.int as i32),
            _ => match data.get_property("auto_exclusive_zone") {
                Some(ScriptValue::Bool(true)) => ExclusiveZone::Auto,
                _ => ExclusiveZone::Unset,
            },
        };
        let keyboard = if string_at(data, "keyboard_mode", "exclusive") {
            KeyboardMode::Exclusive
        } else if string_at(data, "keyboard_mode", "none") {
            KeyboardMode::NoFocus
        } else {
            KeyboardMode::OnDemand
        };
        ShellSettings { layer, anchors, zone, keyboard }
    }

    /// What this behavior does to a window configured by `data`.
    pub fn apply(&self, data: &ScriptValue) -> (r: WindowPlan)
        ensures
            planned(*self, *data, r),
    {
        if self.force_windowed {
            return WindowPlan { keymaps: Vec::new(), mode: WindowMode::Plain };
        }
        let keymaps = Self::connect_keybindings(data);
        let mode = if string_at(data, "window_mode", "normal") {
            WindowMode::Plain
        } else {
            WindowMode::Shell(Self::apply_layer_shell_properties(data))
        };
        WindowPlan { keymaps, mode }
    }
}

} // verus!
