use vstd::prelude::*;

use crate::catalog::{status_rule, PluginCatalog, PluginDescription, PluginLoadingStatus};
use crate::description::{cut_candidate, ellipsis_cut_of, lemma_cut_exists, shortened};
use crate::panel::{menu_entries, placeholder_text, pointer_response, MenuCommand, PanelAction, PointerEvent};
use crate::status::{badge_text, status_name, PluginStatus};

verus! {

/// A disabled plugin shows as disabled, whatever version of it is installed,
/// and whether one is at all.
pub proof fn law_disabled_wins(
    installed: Map<Seq<char>, Seq<char>>,
    disabled: Map<Seq<char>, Seq<char>>,
    name: Seq<char>,
    version: Seq<char>,
)
    requires
        disabled.dom().contains(name),
    ensures
        status_rule(installed, disabled, name, version) == PluginStatus::Disabled,
{
}

/// Once a version of a plugin that is not disabled is recorded as installed,
/// that version of the plugin shows as installed and any other version as an
/// upgrade.
pub proof fn law_recorded_version_is_installed(
    installed: Map<Seq<char>, Seq<char>>,
    disabled: Map<Seq<char>, Seq<char>>,
    name: Seq<char>,
    version: Seq<char>,
    other: Seq<char>,
)
    requires
        !disabled.dom().contains(name),
        other != version,
    ensures
        status_rule(installed.insert(name, version), disabled, name, version)
            == PluginStatus::Installed,
        status_rule(installed.insert(name, version), disabled, name, other)
            == PluginStatus::Upgrade,
{
}

/// A plugin that is neither installed nor disabled is offered for install,
/// whatever its version.
pub proof fn law_unknown_plugin_is_offered(
    installed: Map<Seq<char>, Seq<char>>,
    disabled: Map<Seq<char>, Seq<char>>,
    name: Seq<char>,
    version: Seq<char>,
)
    requires
        !installed.dom().contains(name),
        !disabled.dom().contains(name),
    ensures
        status_rule(installed, disabled, name, version) == PluginStatus::Install,
{
}

/// No two statuses are shown under the same name.
pub proof fn law_status_names_distinct(a: PluginStatus, b: PluginStatus)
    requires
        a != b,
    ensures
        status_name(a) != status_name(b),
{
    reveal_strlit("Installed");
    reveal_strlit("Install");
    reveal_strlit("Upgrade");
    reveal_strlit("Disabled");
    if status_name(a) == status_name(b) {
        assert(status_name(a).len() == status_name(b).len());
        assert(status_name(a)[0] == status_name(b)[0]);
    }
}

/// A status button carries the down arrow exactly where a left click on it
/// opens the plugin's menu; every other left click on a status button asks
/// for an install.
pub proof fn law_arrow_marks_menu(status: PluginStatus)
    ensures
        (badge_text(status) != status_name(status)) <==> (pointer_response(
            PointerEvent::Down { left: true },
            Some(status),
        ) is OpenMenu),
        (pointer_response(PointerEvent::Down { left: true }, Some(status)) is OpenMenu) || (
        pointer_response(PointerEvent::Down { left: true }, Some(status))
            == PanelAction::InstallPlugin),
{
    reveal_strlit("\u{25bc}");
    if !status.opens_menu() {
        assert(badge_text(status) == status_name(status));
    } else {
        assert(badge_text(status).len() == status_name(status).len() + 1);
    }
}

/// The menu opened on a plugin with a wasm module offers to enable it where it
/// is disabled and to disable it where it is installed and enabled; every
/// menu ends with removing the plugin.
pub proof fn law_menu_toggles(status: PluginStatus, has_wasm: bool)
    ensures
        pointer_response(PointerEvent::Down { left: true }, Some(status)) matches PanelAction::OpenMenu { disabled }
            ==> {
            &&& disabled == (status == PluginStatus::Disabled)
            &&& has_wasm ==> menu_entries(has_wasm, disabled)[0] == if status
                == PluginStatus::Disabled {
                MenuCommand::EnablePlugin
            } else {
                MenuCommand::DisablePlugin
            }
        },
        menu_entries(has_wasm, status == PluginStatus::Disabled).len() >= 1,
        menu_entries(has_wasm, status == PluginStatus::Disabled).last()
            == MenuCommand::RemovePlugin,
{
}

/// Other buttons than the left one, and events other than moves and presses,
/// are ignored; a move shows the pointing hand exactly over a status button.
pub proof fn law_pointer_quiet(hit: Option<PluginStatus>)
    ensures
        pointer_response(PointerEvent::Down { left: false }, hit) == PanelAction::Nothing,
        pointer_response(PointerEvent::Other, hit) == PanelAction::Nothing,
        (pointer_response(PointerEvent::Move, hit) == PanelAction::PointerCursor) <==> hit is Some,
        pointer_response(PointerEvent::Down { left: true }, hit) == PanelAction::Nothing
            <==> hit is None,
{
}

/// A description that is cut is cut no later than the byte where its row's
/// room ends, and at most three bytes before it.
pub proof fn law_cut_near_hit(bytes: Seq<u8>, hit: usize)
    requires
        bytes.len() <= isize::MAX,
    ensures
        ellipsis_cut_of(bytes, hit) < bytes.len() ==> ellipsis_cut_of(bytes, hit) <= hit
            && hit - ellipsis_cut_of(bytes, hit) < 4,
        (hit as int) < bytes.len() && vstd::utf8::is_char_boundary(bytes, hit as int) ==> hit
            - 3 <= ellipsis_cut_of(bytes, hit) <= hit,
{
    lemma_cut_exists(bytes, hit);
    let cut = ellipsis_cut_of(bytes, hit);
    if (hit as int) < bytes.len() && vstd::utf8::is_char_boundary(bytes, hit as int) {
        assert(cut_candidate(bytes, hit, hit as int));
    }
}

/// The shortened text is a leading part of the description, followed by
/// three dots.
pub proof fn law_shortened_is_prefix(text: Seq<char>, hit: usize)
    ensures
        exists|k: int|
            0 <= k <= text.len() && #[trigger] shortened(text, hit) == text.subrange(0, k)
                + "..."@,
{
    let bytes = vstd::utf8::encode_utf8(text);
    vstd::utf8::encode_utf8_valid_utf8(text);
    vstd::utf8::encode_utf8_decode_utf8(text);
    vstd::utf8::is_char_boundary_start_end_of_seq(bytes);
    lemma_cut_exists(bytes, hit);
    let cut = ellipsis_cut_of(bytes, hit);
    vstd::utf8::decode_utf8_split(bytes, cut);
    let head = vstd::utf8::decode_utf8(bytes.subrange(0, cut));
    assert(text == head + vstd::utf8::decode_utf8(bytes.subrange(cut, bytes.len() as int)));
    assert(head == text.subrange(0, head.len() as int));
    assert(shortened(text, hit) == text.subrange(0, head.len() as int) + "..."@);
}

/// A version table gives back, for a name, the version last recorded for it,
/// and recording a version for one name leaves every other name as it was.
pub proof fn law_table_read_after_write(
    table: Map<Seq<char>, Seq<char>>,
    name: Seq<char>,
    version: Seq<char>,
    other: Seq<char>,
)
    requires
        other != name,
    ensures
        table.insert(name, version).dom().contains(name),
        table.insert(name, version)[name] == version,
        table.insert(name, version).dom().contains(other) == table.dom().contains(other),
        table.dom().contains(other) ==> table.insert(name, version)[other] == table[other],
{
}

/// Each panel reads its own listing and no other: the installed panel the
/// listing of installed plugins, the other panel the listing of plugins not
/// installed, whatever state either listing is in.
pub proof fn law_panel_reads_own_listing(catalog: PluginCatalog)
    ensures
        catalog.spec_listing(true) == &catalog.installed_plugins_desc,
        catalog.spec_listing(false) == &catalog.uninstalled_plugins_desc,
        !(catalog.uninstalled_plugins_desc is Loaded) ==> !(catalog.spec_listing(false) is Loaded),
        !(catalog.installed_plugins_desc is Loaded) ==> !(catalog.spec_listing(true) is Loaded),
{
}

/// A plugin's status, read from the catalog's installed and disabled tables:
/// disabled plugins are `Disabled`; of the others, one not installed is
/// `Install`, and one installed is `Installed` exactly when the installed
/// version equals the listed version as a whole, and `Upgrade` otherwise.
pub proof fn law_status_from_tables(catalog: PluginCatalog, plugin: PluginDescription)
    ensures
        catalog.disabled_plugins@.dom().contains(plugin.name@) ==> catalog.spec_status_of(&plugin)
            == PluginStatus::Disabled,
        !catalog.disabled_plugins@.dom().contains(plugin.name@)
            && !catalog.installed_plugins@.dom().contains(plugin.name@) ==> catalog.spec_status_of(
            &plugin,
        ) == PluginStatus::Install,
        !catalog.disabled_plugins@.dom().contains(plugin.name@)
            && catalog.installed_plugins@.dom().contains(plugin.name@) ==> {
            &&& (catalog.spec_status_of(&plugin) == PluginStatus::Installed)
                <==> (catalog.installed_plugins@[plugin.name@] == plugin.version@)
            &&& (catalog.spec_status_of(&plugin) == PluginStatus::Upgrade)
                <==> (catalog.installed_plugins@[plugin.name@] != plugin.version@)
        },
{
}

/// A panel shows a message in place of its listing exactly while the listing
/// has not loaded: the failure message for a failed listing, the loading
/// message for one still loading, and none for a loaded listing, whatever
/// plugins it holds.
pub proof fn law_placeholder_only_without_listing(listing: PluginLoadingStatus)
    ensures
        (placeholder_text(&listing) is None) <==> (listing is Loaded),
        listing is Failed ==> placeholder_text(&listing) == Some(
            "Failed to load plugin information."@,
        ),
        listing is Loading ==> placeholder_text(&listing) == Some(
            "Loading plugin information..."@,
        ),
{
}

} // verus!
