use dirac::plugin::{DefaultPluginManager, HistoryPlugin, Plugin, PluginManager};

#[test]
fn registry_starts_empty() {
    let m: DefaultPluginManager<HistoryPlugin> = DefaultPluginManager::new();
    assert!(m.list_plugins().is_empty());
    assert!(m.get_plugin("history").is_none());
}

#[test]
fn registered_plugin_is_found_by_name() {
    let mut m: DefaultPluginManager<HistoryPlugin> = DefaultPluginManager::new();
    m.register_plugin(HistoryPlugin::new());
    let p = m.get_plugin("history").expect("the history plugin is registered");
    assert_eq!(p.name(), "history");
    assert_eq!(
        p.description(),
        "Manages command history and provides history-related commands"
    );
    assert!(m.get_plugin("nonexistent").is_none());
}

#[test]
fn listing_names_each_plugin() {
    let mut m: DefaultPluginManager<HistoryPlugin> = DefaultPluginManager::new();
    m.register_plugin(HistoryPlugin::new());
    let l = m.list_plugins();
    assert_eq!(l.len(), 1);
    assert_eq!(l[0].0, "history");
    assert_eq!(
        l[0].1,
        "Manages command history and provides history-related commands"
    );
}

#[test]
fn history_plugin_answers_only_history() {
    let p = HistoryPlugin::new();
    assert_eq!(p.execute("history").unwrap(), "");
    assert_eq!(p.execute("anything else").unwrap(), "");
}

#[test]
fn text_utilities_behave() {
    assert_eq!(dirac::text::trim("  a b  "), "a b");
    assert_eq!(dirac::text::trim("\t\n"), "");
    assert!(dirac::text::blank("   "));
    assert!(!dirac::text::blank(" x "));
    assert!(dirac::text::has_prefix("COMMAND: ls", "COMMAND:"));
    assert!(!dirac::text::has_prefix("CMD: ls", "COMMAND:"));
    assert!(dirac::text::contains_str("model not loaded", "model"));
    assert!(!dirac::text::contains_str("nothing here", "model"));
    let (head, tail) = dirac::text::split_head("cd a b");
    assert_eq!(head, "cd");
    assert_eq!(tail, "a b");
    let (head2, tail2) = dirac::text::split_head("solo");
    assert_eq!(head2, "solo");
    assert_eq!(tail2, "");
}
