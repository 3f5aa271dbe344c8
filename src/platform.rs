use vstd::prelude::*;

verus! {

/// The desktop platforms the shell knows how to dress.
#[derive(Clone, Copy, Debug, PartialEq, Eq, Structural)]
pub enum Platform {
    MacOs,
    Linux,
    Windows,
}

/// What a platform's menu conventions call for.
#[derive(Clone, Copy, Debug, PartialEq, Eq, Structural)]
pub struct Capabilities {
    /// A dedicated, application-named top-level menu (About, Services, Hide, Quit).
    pub app_menu: bool,
    /// An Edit menu with the clipboard commands.
    pub edit_menu: bool,
}

/// How a "Close Window" request is honoured without ending the process.
#[derive(Clone, Copy, Debug, PartialEq, Eq, Structural)]
pub enum HideStrategy {
    /// Minimize the one window.
    MinimizeWindow,
    /// Ask the operating system to hide the whole application.
    HideApplication,
}

pub open spec fn spec_capabilities(p: Platform) -> Capabilities {
    match p {
        Platform::MacOs => Capabilities { app_menu: true, edit_menu: true },
        Platform::Linux => Capabilities { app_menu: false, edit_menu: false },
        Platform::Windows => Capabilities { app_menu: false, edit_menu: true },
    }
}

pub open spec fn spec_hide_strategy(p: Platform) -> HideStrategy {
    if p == Platform::MacOs {
        HideStrategy::HideApplication
    } else {
        HideStrategy::MinimizeWindow
    }
}

impl Platform {
    /// The capability table entry of this platform.
    pub fn capabilities(self) -> (r: Capabilities)
        ensures
            r == spec_capabilities(self),
    {
        match self {
            Platform::MacOs => Capabilities { app_menu: true, edit_menu: true },
            Platform::Linux => Capabilities { app_menu: false, edit_menu: false },
            Platform::Windows => Capabilities { app_menu: false, edit_menu: true },
        }
    }

    /// The hide primitive this platform offers: an application-wide hide where
    /// the operating system has one, a window minimize elsewhere.
    pub fn hide_strategy(self) -> (r: HideStrategy)
        ensures
            r == spec_hide_strategy(self),
    {
        match self {
            Platform::MacOs => HideStrategy::HideApplication,
            _ => HideStrategy::MinimizeWindow,
        }
    }
}

} // verus!
