use plugin_panel::catalog::{PluginCatalog, PluginDescription, PluginLoadingStatus, PluginVersions};
use plugin_panel::description::{ellipsis_cut, shorten_description};
use plugin_panel::panel::{
    content_rows, on_pointer, placeholder_message, plugin_menu, MenuCommand, PanelAction,
    PointerEvent,
};
use plugin_panel::status::PluginStatus;

fn plugin(name: &str, version: &str, wasm: bool) -> PluginDescription {
    PluginDescription {
        name: name.to_string(),
        display_name: format!("{} plugin", name),
        description: format!("The {} plugin", name),
        author: "someone".to_string(),
        version: version.to_string(),
        wasm: if wasm { Some(format!("{}.wasm", name)) } else { None },
    }
}

fn versions(pairs: &[(&str, &str)]) -> PluginVersions {
    let mut table = PluginVersions::new();
    for (name, version) in pairs {
        table.insert(name.to_string(), version.to_string());
    }
    table
}

fn catalog() -> PluginCatalog {
    PluginCatalog {
        installed_plugins_desc: PluginLoadingStatus::Loaded(vec![
            plugin("rust", "1.0", true),
            plugin("go", "2.0", true),
        ]),
        uninstalled_plugins_desc: PluginLoadingStatus::Loaded(vec![
            plugin("rust", "1.1", true),
            plugin("python", "0.3", false),
            plugin("go", "2.0", true),
        ]),
        installed_plugins: versions(&[("rust", "1.0"), ("go", "2.0")]),
        disabled_plugins: versions(&[("go", "2.0")]),
    }
}

#[test]
fn status_labels_name_the_variant() {
    assert_eq!(PluginStatus::Installed.label(), "Installed");
    assert_eq!(PluginStatus::Install.label(), "Install");
    assert_eq!(PluginStatus::Upgrade.label(), "Upgrade");
    assert_eq!(PluginStatus::Disabled.label(), "Disabled");
}

#[test]
fn badge_carries_arrow_where_a_menu_opens() {
    assert_eq!(PluginStatus::Installed.badge_label(), "Installed\u{25bc}");
    assert_eq!(PluginStatus::Disabled.badge_label(), "Disabled\u{25bc}");
    assert_eq!(PluginStatus::Install.badge_label(), "Install");
    assert_eq!(PluginStatus::Upgrade.badge_label(), "Upgrade");
}

#[test]
fn versions_table_reads_back_what_was_written() {
    let mut table = PluginVersions::new();
    assert_eq!(table.len(), 0);
    assert!(!table.contains_key(&"rust".to_string()));
    assert_eq!(table.get(&"rust".to_string()), None);
    table.insert("rust".to_string(), "1.0".to_string());
    table.insert("go".to_string(), "2.0".to_string());
    assert_eq!(table.len(), 2);
    assert_eq!(table.get(&"rust".to_string()).map(|v| v.as_str()), Some("1.0"));
    table.insert("rust".to_string(), "1.5".to_string());
    assert_eq!(table.len(), 2);
    assert_eq!(table.get(&"rust".to_string()).map(|v| v.as_str()), Some("1.5"));
    assert_eq!(table.get(&"go".to_string()).map(|v| v.as_str()), Some("2.0"));
    assert!(table.contains_key(&"go".to_string()));
    assert!(!table.contains_key(&"python".to_string()));
}

#[test]
fn status_rule_cases() {
    let catalog = catalog();
    assert_eq!(catalog.status_of(&plugin("rust", "1.0", true)), PluginStatus::Installed);
    assert_eq!(catalog.status_of(&plugin("rust", "1.1", true)), PluginStatus::Upgrade);
    assert_eq!(catalog.status_of(&plugin("python", "0.3", false)), PluginStatus::Install);
    assert_eq!(catalog.status_of(&plugin("go", "2.0", true)), PluginStatus::Disabled);
    assert_eq!(catalog.status_of(&plugin("go", "9.9", true)), PluginStatus::Disabled);
}

#[test]
fn disabled_wins_even_when_not_installed() {
    let mut catalog = catalog();
    catalog.disabled_plugins.insert("python".to_string(), "0.3".to_string());
    assert_eq!(catalog.status_of(&plugin("python", "0.3", false)), PluginStatus::Disabled);
}

#[test]
fn recording_a_version_makes_it_installed() {
    let mut catalog = catalog();
    assert_eq!(catalog.status_of(&plugin("python", "0.3", false)), PluginStatus::Install);
    catalog.installed_plugins.insert("python".to_string(), "0.3".to_string());
    assert_eq!(catalog.status_of(&plugin("python", "0.3", false)), PluginStatus::Installed);
    assert_eq!(catalog.status_of(&plugin("python", "0.4", false)), PluginStatus::Upgrade);
}

#[test]
fn rows_of_each_listing() {
    let catalog = catalog();
    let (p, s) = catalog.row_status(true, 0).unwrap();
    assert_eq!(p.name, "rust");
    assert_eq!(s, PluginStatus::Installed);
    let (p, s) = catalog.row_status(true, 1).unwrap();
    assert_eq!(p.name, "go");
    assert_eq!(s, PluginStatus::Disabled);
    assert!(catalog.row_status(true, 2).is_none());
    let (p, s) = catalog.row_status(false, 0).unwrap();
    assert_eq!(p.version, "1.1");
    assert_eq!(s, PluginStatus::Upgrade);
    let (p, s) = catalog.row_status(false, 1).unwrap();
    assert_eq!(p.name, "python");
    assert_eq!(s, PluginStatus::Install);
    assert!(catalog.row_status(false, 3).is_none());
    assert_eq!(catalog.plugin_at(false, 2).unwrap().name, "go");
    assert!(catalog.plugin_at(false, usize::MAX).is_none());
}

#[test]
fn no_rows_while_loading_or_failed() {
    let mut catalog = catalog();
    catalog.installed_plugins_desc = PluginLoadingStatus::Loading;
    catalog.uninstalled_plugins_desc = PluginLoadingStatus::Failed;
    assert!(catalog.row_status(true, 0).is_none());
    assert!(catalog.row_status(false, 0).is_none());
    assert!(catalog.plugin_at(true, 0).is_none());
}

#[test]
fn pointer_moves_set_the_cursor() {
    assert_eq!(on_pointer(PointerEvent::Move, Some(PluginStatus::Install)), PanelAction::PointerCursor);
    assert_eq!(on_pointer(PointerEvent::Move, None), PanelAction::ClearCursor);
}

#[test]
fn left_clicks_act_on_the_status() {
    let down = PointerEvent::Down { left: true };
    assert_eq!(on_pointer(down, Some(PluginStatus::Install)), PanelAction::InstallPlugin);
    assert_eq!(on_pointer(down, Some(PluginStatus::Upgrade)), PanelAction::InstallPlugin);
    assert_eq!(
        on_pointer(down, Some(PluginStatus::Installed)),
        PanelAction::OpenMenu { disabled: false }
    );
    assert_eq!(
        on_pointer(down, Some(PluginStatus::Disabled)),
        PanelAction::OpenMenu { disabled: true }
    );
    assert_eq!(on_pointer(down, None), PanelAction::Nothing);
}

#[test]
fn other_buttons_and_events_are_ignored() {
    let right = PointerEvent::Down { left: false };
    assert_eq!(on_pointer(right, Some(PluginStatus::Install)), PanelAction::Nothing);
    assert_eq!(on_pointer(right, Some(PluginStatus::Disabled)), PanelAction::Nothing);
    assert_eq!(on_pointer(PointerEvent::Other, Some(PluginStatus::Install)), PanelAction::Nothing);
}

#[test]
fn menus_of_plugins() {
    assert_eq!(
        plugin_menu(&plugin("rust", "1.0", true), false),
        vec![MenuCommand::DisablePlugin, MenuCommand::RemovePlugin]
    );
    assert_eq!(
        plugin_menu(&plugin("rust", "1.0", true), true),
        vec![MenuCommand::EnablePlugin, MenuCommand::RemovePlugin]
    );
    assert_eq!(plugin_menu(&plugin("theme", "1.0", false), false), vec![MenuCommand::RemovePlugin]);
    assert_eq!(plugin_menu(&plugin("theme", "1.0", false), true), vec![MenuCommand::RemovePlugin]);
}

#[test]
fn menu_titles() {
    assert_eq!(MenuCommand::EnablePlugin.title(), "Enable Plugin");
    assert_eq!(MenuCommand::DisablePlugin.title(), "Disable Plugin");
    assert_eq!(MenuCommand::RemovePlugin.title(), "Remove Plugin");
}

#[test]
fn layout_rows() {
    assert_eq!(content_rows(&PluginLoadingStatus::Loading), None);
    assert_eq!(content_rows(&PluginLoadingStatus::Failed), None);
    assert_eq!(content_rows(&PluginLoadingStatus::Loaded(vec![])), None);
    assert_eq!(
        content_rows(&PluginLoadingStatus::Loaded(vec![
            plugin("a", "1", false),
            plugin("b", "1", false),
            plugin("c", "1", false),
        ])),
        Some(3)
    );
}

#[test]
fn placeholder_messages() {
    assert_eq!(
        placeholder_message(&PluginLoadingStatus::Failed).as_deref(),
        Some("Failed to load plugin information.")
    );
    assert_eq!(
        placeholder_message(&PluginLoadingStatus::Loading).as_deref(),
        Some("Loading plugin information...")
    );
    assert_eq!(placeholder_message(&PluginLoadingStatus::Loaded(vec![])), None);
}

#[test]
fn cut_falls_on_first_char_start_near_the_hit() {
    assert_eq!(ellipsis_cut("abcdef", 4), 1);
    assert_eq!(ellipsis_cut("abcdef", 2), 0);
    assert_eq!(ellipsis_cut("abcdef", 0), 0);
    assert_eq!(ellipsis_cut("abcdef", 5), 2);
    assert_eq!(ellipsis_cut("abcdef", 8), 5);
    assert_eq!(ellipsis_cut("abcdef", 9), 6);
    assert_eq!(ellipsis_cut("abcdef", 100), 6);
    assert_eq!(ellipsis_cut("", 0), 0);
}

#[test]
fn cut_skips_inside_of_characters() {
    // "h" is byte 0, "é" bytes 1 and 2, then "llo" at bytes 3, 4, 5.
    let text = "h\u{e9}llo";
    assert_eq!(text.len(), 6);
    assert_eq!(ellipsis_cut(text, 4), 1);
    assert_eq!(ellipsis_cut(text, 5), 3);
    assert_eq!(ellipsis_cut(text, 6), 3);
    // "€" is three bytes, at 1..4.
    let text = "a\u{20ac}b";
    assert_eq!(ellipsis_cut(text, 5), 4);
    assert_eq!(ellipsis_cut(text, 4), 1);
}

#[test]
fn shortened_descriptions() {
    assert_eq!(shorten_description("abcdef", 4), "a...");
    assert_eq!(shorten_description("abcdef", 1), "...");
    assert_eq!(shorten_description("abcdef", 100), "abcdef...");
    assert_eq!(shorten_description("h\u{e9}llo world", 5), "h\u{e9}...");
    assert_eq!(shorten_description("a\u{20ac}b", 5), "a\u{20ac}...");
    assert_eq!(shorten_description("", 3), "...");
}
