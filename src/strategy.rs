//! Child placement: how each kind of container takes a child.
use vstd::prelude::*;
use crate::registry::ContainerKind;
use crate::script::ScriptValue;
use crate::text::str_eq;

verus! {

/// A slot of a start/center/end container.
#[derive(Clone, Copy, Debug, PartialEq, Eq, Structural)]
pub enum SlotPos {
    Start,
    Center,
    End,
}

/// Where and how a child is attached to its parent.
#[derive(Debug)]
pub enum Placement {
    /// Becomes the only child, replacing any earlier one.
    SetChild,
    /// Goes after the children already there.
    Append,
    /// Occupies the given cells of a grid.
    Grid { col: i32, row: i32, width: i32, height: i32 },
    /// Occupies one slot; a later child in the same slot replaces it.
    Slot(SlotPos),
    PackStart,
    PackEnd,
    /// A page of a stack, with an optional name and a title.
    Page { name: Option<String>, title: String },
    /// A tab, with an optional label text.
    Tab { label: Option<String> },
    StartPane,
    EndPane,
}

/// The string held in `v`, if `v` holds one.
pub open spec fn str_opt(v: Option<ScriptValue>) -> Option<String> {
    match v {
        Some(ScriptValue::Str(s)) => Some(s),
        _ => None,
    }
}

/// The integer under `key` in `v`, if there is one.
pub open spec fn int_at(v: ScriptValue, key: Seq<char>) -> Option<i64> {
    match v.get(key) {
        Some(x) => x.int_of(),
        None => None,
    }
}

/// A grid coordinate of a child: read from its own configuration, else from
/// its `properties`, else the default.
pub open spec fn grid_value(child: ScriptValue, key: Seq<char>, default: i32) -> i32 {
    match int_at(child, key) {
        Some(x) => x as i32,
        None => match child.get("properties"@) {
            Some(p) => match int_at(p, key) {
                Some(x) => x as i32,
                None => default,
            },
            None => default,
        },
    }
}

/// The slot a child asks for with `type_pos`: start, end, or else center.
pub open spec fn slot_of(child: ScriptValue) -> SlotPos {
    match str_opt(child.get("type_pos"@)) {
        Some(s) => if s@ == "start"@ {
            SlotPos::Start
        } else if s@ == "end"@ {
            SlotPos::End
        } else {
            SlotPos::Center
        },
        None => SlotPos::Center,
    }
}

/// The title of a stack page: the child's `title`, or "Page".
pub open spec fn page_title(child: ScriptValue) -> Seq<char> {
    match str_opt(child.get("title"@)) {
        Some(t) => t@,
        None => "Page"@,
    }
}

/// `r` is how a container of kind `kind`, holding `attached` children
/// already, takes a child configured by `child` (`None`: it refuses it).
pub open spec fn placed(kind: ContainerKind, child: ScriptValue, attached: int, r: Option<Placement>) -> bool {
    match kind {
        ContainerKind::Leaf => r is None,
        ContainerKind::Single => r == Some(Placement::SetChild),
        ContainerKind::Append => r == Some(Placement::Append),
        ContainerKind::Grid => r == Some(Placement::Grid {
            col: grid_value(child, "grid_col"@, 0),
            row: grid_value(child, "grid_row"@, 0),
            width: grid_value(child, "grid_width"@, 1),
            height: grid_value(child, "grid_height"@, 1),
        }),
        ContainerKind::Slots => r == Some(Placement::Slot(slot_of(child))),
        ContainerKind::PackStart => r == Some(Placement::PackStart),
        ContainerKind::PackEnd => r == Some(Placement::PackEnd),
        ContainerKind::Stack => r matches Some(Placement::Page { name, title })
            && name == str_opt(child.get("name"@)) && title@ == page_title(child),
        ContainerKind::Notebook => r == Some(Placement::Tab { label: str_opt(child.get("tab_label"@)) }),
        ContainerKind::Paned => r == Some(if attached == 0 { Placement::StartPane } else { Placement::EndPane }),
    }
}

/// A copy of the string held in `v`, if `v` holds one.
pub fn string_of(v: Option<&ScriptValue>) -> (r: Option<String>)
    ensures
        r == str_opt(match v { Some(x) => Some(*x), None => None }),
{
    match v {
        Some(ScriptValue::Str(s)) => Some(s.clone()),
        _ => None,
    }
}

fn integer_at(v: &ScriptValue, key: &str) -> (r: Option<i64>)
    ensures
        r == int_at(*v, key@),
{
    match v.get_property(key) {
        Some(x) => x.as_integer(),
        None => None,
    }
}

/// Reads one grid coordinate of a child (see `grid_value`).
pub fn get_grid_value(child: &ScriptValue, key: &str, default: i32) -> (r: i32)
    ensures
        r == grid_value(*child, key@, default),
{
    if let Some(x) = integer_at(child, key) {
        return x as i32;
    }
    match child.get_property("properties") {
        Some(p) => match integer_at(p, key) {
            Some(x) => x as i32,
            None => default,
        },
        None => default,
    }
}

impl ContainerKind {
    /// How a container of this kind, holding `attached` children already,
    /// takes a child configured by `child`: `None` when it refuses it.
    pub fn add_child(&self, child: &ScriptValue, attached: usize) -> (r: Option<Placement>)
        ensures
            placed(*self, *child, attached as int, r),
    {
        match self {
            ContainerKind::Leaf => None,
            ContainerKind::Single => Some(Placement::SetChild),
            ContainerKind::Append => Some(Placement::Append),
            ContainerKind::Grid => {
                let col = get_grid_value(child, "grid_col", 0);
                let row = get_grid_value(child, "grid_row", 0);
                let width = get_grid_value(child, "grid_width", 1);
                let height = get_grid_value(child, "grid_height", 1);
                Some(Placement::Grid { col, row, width, height })
            },
            ContainerKind::Slots => {
                let pos = match child.get_property("type_pos") {
                    Some(ScriptValue::Str(s)) => if str_eq(s.as_str(), "start") {
                        SlotPos::Start
                    } else if str_eq(s.as_str(), "end") {
                        SlotPos::End
                    } else {
                        SlotPos::Center
                    },
                    _ => SlotPos::Center,
                };
                Some(Placement::Slot(pos))
            },
            ContainerKind::PackStart => Some(Placement::PackStart),
            ContainerKind::PackEnd => Some(Placement::PackEnd),
            ContainerKind::Stack => {
                let name = string_of(child.get_property("name"));
                let title = match string_of(child.get_property("title")) {
                    Some(t) => t,
                    None => String::from_str("Page"),
                };
                Some(Placement::Page { name, title })
            },
            ContainerKind::Notebook => Some(Placement::Tab { label: string_of(child.get_property("tab_label")) }),
            ContainerKind::Paned => Some(if attached == 0 { Placement::StartPane } else { Placement::EndPane }),
        }
    }
}

} // verus!
