use vstd::prelude::*;

use crate::catalog::{PluginDescription, PluginLoadingStatus};
use crate::status::PluginStatus;

verus! {

/// The pointer events a plugin panel answers.
#[derive(Clone, Copy, Debug, PartialEq, Eq, Structural)]
pub enum PointerEvent {
    /// The pointer moved over the panel.
    Move,
    /// A button was pressed; `left` tells whether it was the left one.
    Down { left: bool },
    /// Any other event.
    Other,
}

/// What a panel does in answer to a pointer event.
#[derive(Clone, Copy, Debug, PartialEq, Eq, Structural)]
pub enum PanelAction {
    /// Show the pointing-hand cursor.
    PointerCursor,
    /// Give the cursor back to its default.
    ClearCursor,
    /// Ask for the plugin under the pointer to be installed.
    InstallPlugin,
    /// Open the menu of the plugin under the pointer; `disabled` tells whether
    /// that plugin is disabled now.
    OpenMenu { disabled: bool },
    /// Do nothing.
    Nothing,
}

/// The answer to `event`, where `hit` is the status of the plugin whose status
/// button lies under the pointer, if any does.
pub open spec fn pointer_response(event: PointerEvent, hit: Option<PluginStatus>) -> PanelAction {
    match event {
        PointerEvent::Move => if hit is Some {
            PanelAction::PointerCursor
        } else {
            PanelAction::ClearCursor
        },
        PointerEvent::Down { left } => if !left {
            PanelAction::Nothing
        } else {
            match hit {
                Some(PluginStatus::Install) | Some(PluginStatus::Upgrade) => PanelAction::InstallPlugin,
                Some(PluginStatus::Installed) => PanelAction::OpenMenu { disabled: false },
                Some(PluginStatus::Disabled) => PanelAction::OpenMenu { disabled: true },
                None => PanelAction::Nothing,
            }
        },
        PointerEvent::Other => PanelAction::Nothing,
    }
}

/// Decides the answer to a pointer event over a plugin panel.
pub fn on_pointer(event: PointerEvent, hit: Option<PluginStatus>) -> (action: PanelAction)
    ensures
        action == pointer_response(event, hit),
{
    match event {
        PointerEvent::Move => {
            if hit.is_some() {
                PanelAction::PointerCursor
            } else {
                PanelAction::ClearCursor
            }
        },
        PointerEvent::Down { left } => {
            if !left {
                return PanelAction::Nothing;
            }
            match hit {
                Some(status) => {
                    if status == PluginStatus::Install || status == PluginStatus::Upgrade {
                        PanelAction::InstallPlugin
                    } else if status == PluginStatus::Installed {
                        PanelAction::OpenMenu { disabled: false }
                    } else {
                        PanelAction::OpenMenu { disabled: true }
                    }
                },
                None => PanelAction::Nothing,
            }
        },
        PointerEvent::Other => PanelAction::Nothing,
    }
}

/// An entry of a plugin's menu.
#[derive(Clone, Copy, Debug, PartialEq, Eq, Structural)]
pub enum MenuCommand {
    EnablePlugin,
    DisablePlugin,
    RemovePlugin,
}

/// The title under which a menu entry is shown.
pub open spec fn command_title(command: MenuCommand) -> Seq<char> {
    match command {
        MenuCommand::EnablePlugin => "Enable Plugin"@,
        MenuCommand::DisablePlugin => "Disable Plugin"@,
        MenuCommand::RemovePlugin => "Remove Plugin"@,
    }
}

impl MenuCommand {
    /// The title under which the entry is shown.
    pub fn title(&self) -> (title: String)
        ensures
            title@ == command_title(*self),
    {
        match self {
            MenuCommand::EnablePlugin => String::from_str("Enable Plugin"),
            MenuCommand::DisablePlugin => String::from_str("Disable Plugin"),
            MenuCommand::RemovePlugin => String::from_str("Remove Plugin"),
        }
    }
}

/// The entries of the menu of a plugin: a plugin with a wasm module can be
/// enabled where it is disabled and disabled where it is not; any plugin can
/// be removed, and removing comes last.
pub open spec fn menu_entries(has_wasm: bool, disabled: bool) -> Seq<MenuCommand> {
    if has_wasm {
        if disabled {
            seq![MenuCommand::EnablePlugin, MenuCommand::RemovePlugin]
        } else {
            seq![MenuCommand::DisablePlugin, MenuCommand::RemovePlugin]
        }
    } else {
        seq![MenuCommand::RemovePlugin]
    }
}

/// The menu of `plugin`, which is disabled where `disabled` holds.
pub fn plugin_menu(plugin: &PluginDescription, disabled: bool) -> (menu: Vec<MenuCommand>)
    ensures
        menu@ == menu_entries(plugin.wasm is Some, disabled),
{
    let mut menu: Vec<MenuCommand> = Vec::new();
    if plugin.wasm.is_some() {
        if disabled {
            menu.push(MenuCommand::EnablePlugin);
        } else {
            menu.push(MenuCommand::DisablePlugin);
        }
    }
    menu.push(MenuCommand::RemovePlugin);
    menu
}

/// The number of plugin rows that a panel lays out: those of a loaded,
/// non-empty listing. `None` where the panel just fills the space it is given.
pub fn content_rows(listing: &PluginLoadingStatus) -> (rows: Option<usize>)
    ensures
        rows == match listing {
            PluginLoadingStatus::Loaded(plugins) => if plugins@.len() == 0 {
                None
            } else {
                Some(plugins@.len() as usize)
            },
            _ => None,
        },
{
    match listing {
        PluginLoadingStatus::Loaded(plugins) => {
            if plugins.len() == 0 {
                None
            } else {
                Some(plugins.len())
            }
        },
        _ => None,
    }
}

/// The message that a panel shows in place of a listing that is not there.
pub open spec fn placeholder_text(listing: &PluginLoadingStatus) -> Option<Seq<char>> {
    match listing {
        PluginLoadingStatus::Failed => Some("Failed to load plugin information."@),
        PluginLoadingStatus::Loading => Some("Loading plugin information..."@),
        PluginLoadingStatus::Loaded(_) => None,
    }
}

/// The message that a panel shows in place of a listing that failed to load
/// or is still loading; `None` where the listing is there.
pub fn placeholder_message(listing: &PluginLoadingStatus) -> (message: Option<String>)
    ensures
        match message {
            Some(m) => placeholder_text(listing) == Some(m@),
            None => placeholder_text(listing) is None,
        },
{
    match listing {
        PluginLoadingStatus::Failed => Some(String::from_str("Failed to load plugin information.")),
        PluginLoadingStatus::Loading => Some(String::from_str("Loading plugin information...")),
        PluginLoadingStatus::Loaded(_) => None,
    }
}

} // verus!
