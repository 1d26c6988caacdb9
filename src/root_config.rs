//! The top level of a configuration script: one window or a list of them.
use vstd::prelude::*;
use crate::script::ScriptValue;
use crate::services::{decimal_i32, parse_i32};
use crate::text::str_eq;
use crate::builder::top_keys;

verus! {

/// The keys the value returned by a configuration script may hold.
pub open spec fn is_root_key(k: Seq<char>) -> bool {
    ||| k == "type"@ ||| k == "window_mode"@ ||| k == "layer"@ ||| k == "anchors"@
    ||| k == "css_path"@ ||| k == "css"@ ||| k == "properties"@ ||| k == "children"@
    ||| k == "signals"@ ||| k == "keymaps"@ ||| k == "margins"@ ||| k == "auto_exclusive_zone"@
    ||| k == "keyboard_mode"@ ||| k == "actions"@ ||| k == "menu"@ ||| k == "id"@ ||| k == "realize"@
}

/// A key is accepted when it is recognized or reads as an integer (an index
/// of the list of windows).
pub open spec fn root_key_ok(k: Seq<char>) -> bool {
    is_root_key(k) || decimal_i32(k) is Some
}

fn is_root_key_exec(k: &str) -> (r: bool)
    ensures
        r == is_root_key(k@),
{
    str_eq(k, "type") || str_eq(k, "window_mode") || str_eq(k, "layer") || str_eq(k, "anchors")
        || str_eq(k, "css_path") || str_eq(k, "css") || str_eq(k, "properties") || str_eq(k, "children")
        || str_eq(k, "signals") || str_eq(k, "keymaps") || str_eq(k, "margins")
        || str_eq(k, "auto_exclusive_zone") || str_eq(k, "keyboard_mode") || str_eq(k, "actions")
        || str_eq(k, "menu") || str_eq(k, "id") || str_eq(k, "realize")
}

/// Checks the keys of the value a configuration script returned: `Err`
/// holds the first key that is neither recognized nor an integer.
pub fn validate_lua_config_table(root: &ScriptValue) -> (r: Result<(), String>)
    ensures
        match r {
            Ok(()) => forall|i: int| 0 <= i < top_keys(*root).len()
                ==> root_key_ok(#[trigger] top_keys(*root)[i].0@),
            Err(k) => exists|i: int| 0 <= i < top_keys(*root).len()
                && #[trigger] top_keys(*root)[i].0 == k && !root_key_ok(k@)
                && forall|j: int| 0 <= j < i ==> root_key_ok(#[trigger] top_keys(*root)[j].0@),
        },
{
    match root {
        ScriptValue::Table { entries, .. } => {
            let mut i: usize = 0;
            while i < entries.len()
                invariant
                    top_keys(*root) == entries@,
                    i <= entries@.len(),
                    forall|j: int| 0 <= j < i ==> root_key_ok(#[trigger] entries@[j].0@),
                decreases entries@.len() - i,
            {
                let k = entries[i].0.as_str();
                if !is_root_key_exec(k) && parse_i32(k).is_none() {
                    return Err(entries[i].0.clone());
                }
                i += 1;
            }
            Ok(())
        },
        _ => Ok(()),
    }
}

/// Which values of a script's result describe windows: when its first list
/// item is a table, the list items that are tables, by index; otherwise the
/// result itself (`None`).
pub fn window_configs(root: &ScriptValue) -> (r: Option<Vec<usize>>)
    ensures
        match root.items_of() {
            Some(items) if items.len() > 0 && items[0] is Table => r matches Some(ix) && {
                &&& forall|k: int| 0 <= k < ix@.len() ==> (#[trigger] ix@[k]) < items.len() && items[ix@[k] as int] is Table
                &&& forall|k: int, m: int| 0 <= k < m < ix@.len() ==> ix@[k] < ix@[m]
                &&& forall|j: int| 0 <= j < items.len() && (#[trigger] items[j]) is Table ==> exists|k: int| 0 <= k < ix@.len() && ix@[k] == j
            },
            _ => r is None,
        },
{
    match root {
        ScriptValue::Table { items, .. } => {
            if items.len() == 0 {
                return None;
            }
            match &items[0] {
                ScriptValue::Table { .. } => {},
                _ => {
                    return None;
                },
            }
            let mut ix: Vec<usize> = Vec::new();
            let mut i: usize = 0;
            while i < items.len()
                invariant
                    root.items_of() == Some(items@),
                    i <= items@.len(),
                    forall|k: int| 0 <= k < ix@.len() ==> (#[trigger] ix@[k]) < i && items@[ix@[k] as int] is Table,
                    forall|k: int, m: int| 0 <= k < m < ix@.len() ==> ix@[k] < ix@[m],
                    forall|j: int| 0 <= j < i && (#[trigger] items@[j]) is Table ==> exists|k: int| 0 <= k < ix@.len() && ix@[k] == j,
                decreases items@.len() - i,
            {
                let is_table = match &items[i] {
                    ScriptValue::Table { .. } => true,
                    _ => false,
                };
                let ghost before = ix@;
                if is_table {
                    ix.push(i);
                }
                proof {
                    assert forall|j: int| 0 <= j < i + 1 && (#[trigger] items@[j]) is Table
                        implies exists|k: int| 0 <= k < ix@.len() && ix@[k] == j by {
                        if j == i {
                            assert(ix@[ix@.len() - 1] == j);
                        } else {
                            let k = choose|k: int| 0 <= k < before.len() && before[k] == j;
                            assert(ix@[k] == j);
                        }
                    }
                }
                i += 1;
            }
            Some(ix)
        },
        _ => None,
    }
}

} // verus!
