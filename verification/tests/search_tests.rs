use placeholdername::dbus::{SearchIndexResult, search_results_to_dbus};
use placeholdername::search::{
    DbPluginEntrypoint, DbPluginEntrypointType, GeneratedSearchItem, SearchResultEntrypointType,
    entrypoint_search_items, generated_search_items, plugin_search_items, search_result_type,
};

fn entrypoint(id: &str, enabled: bool, t: DbPluginEntrypointType, icon: Option<&str>) -> DbPluginEntrypoint {
    DbPluginEntrypoint {
        id: id.to_string(),
        name: format!("{} name", id),
        enabled,
        entrypoint_type: t,
        icon_path: icon.map(|s| s.to_string()),
    }
}

fn generated(id: &str) -> GeneratedSearchItem {
    GeneratedSearchItem {
        entrypoint_name: format!("{} name", id),
        entrypoint_id: id.to_string(),
        entrypoint_icon_path: None,
    }
}

#[test]
fn entrypoint_kinds_that_are_searched() {
    assert_eq!(search_result_type(DbPluginEntrypointType::Command), Some(SearchResultEntrypointType::Command));
    assert_eq!(search_result_type(DbPluginEntrypointType::View), Some(SearchResultEntrypointType::View));
    assert_eq!(search_result_type(DbPluginEntrypointType::CommandGenerator), None);
    assert_eq!(search_result_type(DbPluginEntrypointType::InlineView), None);
}

#[test]
fn only_enabled_commands_and_views_are_indexed() {
    let entrypoints = vec![
        entrypoint("a", true, DbPluginEntrypointType::Command, Some("/icons/a.png")),
        entrypoint("b", false, DbPluginEntrypointType::Command, None),
        entrypoint("c", true, DbPluginEntrypointType::CommandGenerator, None),
        entrypoint("d", true, DbPluginEntrypointType::View, None),
        entrypoint("e", true, DbPluginEntrypointType::InlineView, None),
    ];
    let items = entrypoint_search_items(&entrypoints);
    assert_eq!(items.len(), 2);
    assert_eq!(items[0].entrypoint_id, "a");
    assert_eq!(items[0].entrypoint_name, "a name");
    assert_eq!(items[0].entrypoint_type, SearchResultEntrypointType::Command);
    assert_eq!(items[0].entrypoint_icon_path.as_deref(), Some("/icons/a.png"));
    assert_eq!(items[1].entrypoint_id, "d");
    assert_eq!(items[1].entrypoint_type, SearchResultEntrypointType::View);
}

#[test]
fn generated_commands_come_first() {
    let gen = vec![generated("g1"), generated("g2")];
    let entrypoints = vec![entrypoint("v", true, DbPluginEntrypointType::View, None)];
    let items = plugin_search_items(&gen, &entrypoints);
    let ids: Vec<&str> = items.iter().map(|i| i.entrypoint_id.as_str()).collect();
    assert_eq!(ids, vec!["g1", "g2", "v"]);
    assert_eq!(items[0].entrypoint_type, SearchResultEntrypointType::GeneratedCommand);
    assert_eq!(items[1].entrypoint_type, SearchResultEntrypointType::GeneratedCommand);
    assert_eq!(items[2].entrypoint_type, SearchResultEntrypointType::View);
    assert_eq!(generated_search_items(&gen).len(), 2);
}

#[test]
fn empty_plugin_has_no_entries() {
    assert!(plugin_search_items(&vec![], &vec![]).is_empty());
}

#[test]
fn dbus_results_one_for_one() {
    let results = search_results_to_dbus(vec![
        SearchIndexResult {
            entrypoint_name: "Open".to_string(),
            entrypoint_id: "open".to_string(),
            plugin_name: "Files".to_string(),
            plugin_id: "files".to_string(),
        },
        SearchIndexResult {
            entrypoint_name: "Close".to_string(),
            entrypoint_id: "close".to_string(),
            plugin_name: "Files".to_string(),
            plugin_id: "files".to_string(),
        },
    ]);
    assert_eq!(results.len(), 2);
    assert_eq!(results[0].entrypoint_name, "Open");
    assert_eq!(results[0].entrypoint_id, "open");
    assert_eq!(results[0].plugin_name, "Files");
    assert_eq!(results[0].plugin_id, "files");
    assert_eq!(results[1].entrypoint_id, "close");
}
