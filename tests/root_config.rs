use ink::root_config::{validate_lua_config_table, window_configs};
use ink::script::ScriptValue;

fn table(items: Vec<ScriptValue>, keys: Vec<&str>) -> ScriptValue {
    ScriptValue::Table { items, entries: keys.into_iter().map(|k| (k.to_string(), ScriptValue::Bool(true))).collect() }
}

#[test]
fn root_keys_validated() {
    assert!(validate_lua_config_table(&table(vec![], vec!["type", "css_path", "menu", "1", "-3"])).is_ok());
    assert_eq!(validate_lua_config_table(&table(vec![], vec!["type", "labl", "other"])), Err("labl".to_string()));
    assert!(validate_lua_config_table(&ScriptValue::Nil).is_ok());
}

#[test]
fn window_list_or_single_window() {
    let single = table(vec![], vec!["type"]);
    assert_eq!(window_configs(&single), None);
    let list = table(vec![table(vec![], vec![]), ScriptValue::Bool(false), table(vec![], vec![])], vec![]);
    assert_eq!(window_configs(&list), Some(vec![0, 2]));
    let not_list = table(vec![ScriptValue::Bool(false), table(vec![], vec![])], vec![]);
    assert_eq!(window_configs(&not_list), None);
}
