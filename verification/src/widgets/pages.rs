//! The pages of the desktop application and how its buttons move between
//! them: the setup wizard, the main page, the settings and the about page.
use vstd::prelude::*;

use crate::settings::AlembicSettings;
use crate::widgets::clients::SettingsClientsTab;
use crate::widgets::dlls::SettingsDllsTab;

verus! {

/// The page the application shows.
#[derive(Clone, Copy, Debug, PartialEq, Eq, Structural)]
pub enum AppPage {
    Wizard,
    Main,
    About,
    Settings,
}

/// The step of the setup wizard.
#[derive(Clone, Copy, Debug, PartialEq, Eq, Structural)]
pub enum WizardPage {
    Start,
    Client,
    Done,
}

/// Which page, and which step of the wizard, is shown.
#[derive(Clone, Copy, Debug, PartialEq, Eq, Structural)]
pub struct Navigation {
    pub app_page: AppPage,
    pub wizard_page: WizardPage,
}

impl Navigation {
    /// Where the application starts: the main page once set up, else the
    /// first step of the wizard.
    pub fn initial(is_configured: bool) -> (r: Navigation)
        ensures
            r.app_page == if is_configured {
                AppPage::Main
            } else {
                AppPage::Wizard
            },
            r.wizard_page == WizardPage::Start,
    {
        Navigation {
            app_page: if is_configured {
                AppPage::Main
            } else {
                AppPage::Wizard
            },
            wizard_page: WizardPage::Start,
        }
    }

    /// The "File > Settings" menu item.
    pub fn open_settings(&mut self)
        ensures
            *final(self) == (Navigation { app_page: AppPage::Settings, ..*old(self) }),
    {
        self.app_page = AppPage::Settings;
    }

    /// The "Help > About" menu item.
    pub fn open_about(&mut self)
        ensures
            *final(self) == (Navigation { app_page: AppPage::About, ..*old(self) }),
    {
        self.app_page = AppPage::About;
    }

    /// Back to the main page (the "Okay" of the about page, the "Done" of
    /// the settings, the "Exit" of the wizard's first and last pages).
    pub fn back_to_main(&mut self)
        ensures
            *final(self) == (Navigation { app_page: AppPage::Main, ..*old(self) }),
    {
        self.app_page = AppPage::Main;
    }
}

/// A button of the setup wizard.
#[derive(Clone, Copy, Debug, PartialEq, Eq, Structural)]
pub enum WizardAction {
    /// "Exit Setup", on every step.
    ExitSetup,
    /// "Get started...", on the first step.
    GetStarted,
    /// "Continue", on the client step.
    Continue,
    /// "Finish", on the last step.
    Finish,
}

/// Whether the wizard's step `page` shows the button for `action`.
pub open spec fn wizard_offers(page: WizardPage, action: WizardAction) -> bool {
    match action {
        WizardAction::ExitSetup => true,
        WizardAction::GetStarted => page == WizardPage::Start,
        WizardAction::Continue => page == WizardPage::Client,
        WizardAction::Finish => page == WizardPage::Done,
    }
}

/// The setup wizard: a welcome step, a step to set up clients and DLLs, and
/// a last step.
pub struct Wizard {}

impl Wizard {
    pub fn new() -> (r: Wizard) {
        Wizard {}
    }

    /// A click on `action` on the shown step. Leaving the wizard ("Exit
    /// Setup" or "Finish") marks the settings as configured and goes to the
    /// main page; "Get started..." and "Continue" go to the next step. A
    /// button that the shown step does not offer does nothing.
    pub fn click(&self, nav: &mut Navigation, settings: &mut AlembicSettings, action: WizardAction)
        ensures
            !wizard_offers(old(nav).wizard_page, action) ==> *final(nav) == *old(nav),
            !wizard_offers(old(nav).wizard_page, action) ==> *final(settings) == *old(settings),
            wizard_offers(old(nav).wizard_page, action) ==> match action {
                WizardAction::ExitSetup | WizardAction::Finish => {
                    &&& *final(nav) == (Navigation { app_page: AppPage::Main, ..*old(nav) })
                    &&& *final(settings) == (AlembicSettings { is_configured: true, ..*old(settings) })
                },
                WizardAction::GetStarted => {
                    &&& *final(nav) == (Navigation { wizard_page: WizardPage::Client, ..*old(nav) })
                    &&& *final(settings) == *old(settings)
                },
                WizardAction::Continue => {
                    &&& *final(nav) == (Navigation { wizard_page: WizardPage::Done, ..*old(nav) })
                    &&& *final(settings) == *old(settings)
                },
            },
    {
        match action {
            WizardAction::ExitSetup => {
                settings.is_configured = true;
                nav.app_page = AppPage::Main;
            },
            WizardAction::GetStarted => {
                if nav.wizard_page == WizardPage::Start {
                    nav.wizard_page = WizardPage::Client;
                }
            },
            WizardAction::Continue => {
                if nav.wizard_page == WizardPage::Client {
                    nav.wizard_page = WizardPage::Done;
                }
            },
            WizardAction::Finish => {
                if nav.wizard_page == WizardPage::Done {
                    settings.is_configured = true;
                    nav.app_page = AppPage::Main;
                }
            },
        }
    }
}

/// The first page of a wizard: an "Exit" button that goes to the main page.
pub struct WizardStart {}

impl WizardStart {
    pub fn new() -> (r: WizardStart) {
        WizardStart {}
    }
}

/// The last page of a wizard: an "Exit" button that goes to the main page.
pub struct WizardEnd {}

impl WizardEnd {
    pub fn new() -> (r: WizardEnd) {
        WizardEnd {}
    }
}

/// The about page: name, version, copyright and a link; "Okay" goes back.
pub struct About {}

impl About {
    pub fn new() -> (r: About) {
        About {}
    }

    /// The version line.
    pub fn version_text() -> (r: &'static str)
        ensures
            r@ == "Version 0.1.0"@,
    {
        "Version 0.1.0"
    }
}

/// A tab of the settings window.
pub enum SettingsTabContent {
    Clients(SettingsClientsTab),
    Dlls(SettingsDllsTab),
}

/// The tabs of the settings window.
pub struct SettingsTab {
    pub tabs: Vec<SettingsTabContent>,
    pub selected_tab: usize,
}

impl SettingsTab {
    /// The label of a settings tab.
    pub fn label(tab: &SettingsTabContent) -> (r: &'static str)
        ensures
            r@ == match *tab {
                SettingsTabContent::Clients(_) => "Clients"@,
                SettingsTabContent::Dlls(_) => "DLLs"@,
            },
    {
        match tab {
            SettingsTabContent::Clients(_) => "Clients",
            SettingsTabContent::Dlls(_) => "DLLs",
        }
    }
}

/// The settings window: its tabs, and "Done" to go back.
pub struct Settings {
    pub settings_tab: SettingsTab,
}

impl Settings {
    /// The clients tab, then the DLLs tab; the first one shown.
    pub fn new() -> (r: Settings)
        ensures
            r.settings_tab.selected_tab == 0,
            r.settings_tab.tabs@.len() == 2,
            r.settings_tab.tabs@[0] matches SettingsTabContent::Clients(t) && t.selected_index is None,
            r.settings_tab.tabs@[1] matches SettingsTabContent::Dlls(t) && t.selected_index is None,
    {
        let mut tabs: Vec<SettingsTabContent> = Vec::new();
        tabs.push(SettingsTabContent::Clients(SettingsClientsTab::new()));
        tabs.push(SettingsTabContent::Dlls(SettingsDllsTab::new()));
        Settings { settings_tab: SettingsTab { tabs, selected_tab: 0 } }
    }
}

} // verus!
