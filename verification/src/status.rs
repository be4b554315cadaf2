use vstd::prelude::*;

verus! {

/// Where a plugin of a listing stands against the plugins installed on this machine.
#[derive(Clone, Copy, Debug, PartialEq, Eq, Structural)]
pub enum PluginStatus {
    Installed,
    Install,
    Upgrade,
    Disabled,
}

/// The name under which a status is shown to the user.
pub open spec fn status_name(status: PluginStatus) -> Seq<char> {
    match status {
        PluginStatus::Installed => "Installed"@,
        PluginStatus::Install => "Install"@,
        PluginStatus::Upgrade => "Upgrade"@,
        PluginStatus::Disabled => "Disabled"@,
    }
}

impl PluginStatus {
    /// The status's name, as the panel shows it.
    pub fn label(&self) -> (name: String)
        ensures
            name@ == status_name(*self),
    {
        match self {
            PluginStatus::Installed => String::from_str("Installed"),
            PluginStatus::Install => String::from_str("Install"),
            PluginStatus::Upgrade => String::from_str("Upgrade"),
            PluginStatus::Disabled => String::from_str("Disabled"),
        }
    }

    /// Whether a click on a plugin in this status opens the plugin's menu
    /// (enable, disable, remove) rather than installing it.
    pub open spec fn opens_menu(self) -> bool {
        self is Installed || self is Disabled
    }

    /// The text of the status button of a row: the status's name, with a
    /// down arrow where the button opens a menu.
    pub fn badge_label(&self) -> (text: String)
        ensures
            text@ == badge_text(*self),
    {
        let name = self.label();
        match self {
            PluginStatus::Installed | PluginStatus::Disabled => name.concat("\u{25bc}"),
            _ => name,
        }
    }
}

/// The text of a row's status button.
pub open spec fn badge_text(status: PluginStatus) -> Seq<char> {
    if status.opens_menu() {
        status_name(status) + "\u{25bc}"@
    } else {
        status_name(status)
    }
}

} // verus!
