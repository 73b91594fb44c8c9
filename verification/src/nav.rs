//! Settings-menu navigation state machine.
//!
//! An explicit finite state machine gates which settings page is
//! visible and routes edits to the parameter store. Transitions happen
//! only on discrete confirmed user actions. `Disabled` is terminal for
//! the session: it is reached only from `Main` on a confirmed start,
//! and entering it emits the single "enter in-game phase" signal.

use vstd::prelude::*;

verus! {

/// Which menu page is visible.
#[derive(Clone, Copy, PartialEq, Eq, Structural, Debug, Hash)]
pub enum MenuState {
    Main,
    Settings,
    SettingsAudio,
    SettingsVehicle,
    SettingsTerrain,
    Disabled,
}

/// A discrete confirmed user action on the menu surface.
#[derive(Clone, Copy, PartialEq, Eq, Structural, Debug)]
pub enum MenuAction {
    /// "Start Game" on the main page.
    StartGame,
    /// "Settings" on the main page.
    OpenSettings,
    /// "Audio Settings" on the settings page.
    OpenAudio,
    /// "Vehicle Settings" on the settings page.
    OpenVehicle,
    /// "Terrain Settings" on the settings page.
    OpenTerrain,
    /// "Back" on the settings page or on one of its leaves.
    Back,
    /// "Quit" on the main page.
    Quit,
}

/// A boundary event handed to the session around the menu.
#[derive(Clone, Copy, PartialEq, Eq, Structural, Debug)]
pub enum MenuSignal {
    /// Nothing beyond the state change itself.
    Nothing,
    /// Switch the session into the in-game phase; emitted exactly once,
    /// on the transition from `Main` into `Disabled`.
    EnterInGame,
    /// Deliberate, successful termination requested by the user.
    Quit,
}

/// The state after `action` fires in `state`. Actions that have no
/// button on the current page leave the state unchanged.
pub open spec fn spec_transition(state: MenuState, action: MenuAction) -> MenuState {
    match (state, action) {
        (MenuState::Main, MenuAction::StartGame) => MenuState::Disabled,
        (MenuState::Main, MenuAction::OpenSettings) => MenuState::Settings,
        (MenuState::Settings, MenuAction::OpenAudio) => MenuState::SettingsAudio,
        (MenuState::Settings, MenuAction::OpenVehicle) => MenuState::SettingsVehicle,
        (MenuState::Settings, MenuAction::OpenTerrain) => MenuState::SettingsTerrain,
        (MenuState::Settings, MenuAction::Back) => MenuState::Main,
        (MenuState::SettingsAudio, MenuAction::Back) => MenuState::Settings,
        (MenuState::SettingsVehicle, MenuAction::Back) => MenuState::Settings,
        (MenuState::SettingsTerrain, MenuAction::Back) => MenuState::Settings,
        _ => state,
    }
}

/// The signal emitted when `action` fires in `state`.
pub open spec fn spec_signal(state: MenuState, action: MenuAction) -> MenuSignal {
    match (state, action) {
        (MenuState::Main, MenuAction::StartGame) => MenuSignal::EnterInGame,
        (MenuState::Main, MenuAction::Quit) => MenuSignal::Quit,
        _ => MenuSignal::Nothing,
    }
}

/// The menu surface: the page currently shown and whether the surface
/// is rendered at all.
#[derive(Clone, Copy, PartialEq, Eq, Structural, Debug)]
pub struct MainMenu {
    /// The page the machine is on.
    pub menu: MenuState,
    /// Whether the surface is rendered; cleared when the session
    /// enters the in-game phase.
    pub visible: bool,
}

impl Default for MainMenu {
    /// A fresh session starts on the main page, visible.
    fn default() -> (r: Self)
        ensures
            r == (MainMenu { menu: MenuState::Main, visible: true }),
    {
        MainMenu { menu: MenuState::Main, visible: true }
    }
}

impl MainMenu {
    /// Fire one confirmed user action: step the state machine and hand
    /// back the boundary signal. Once `Disabled` is reached the machine
    /// ignores every further action and stops rendering.
    pub fn activate(&mut self, action: MenuAction) -> (signal: MenuSignal)
        ensures
            final(self).menu == spec_transition(old(self).menu, action),
            signal == spec_signal(old(self).menu, action),
            final(self).visible == (old(self).visible && final(self).menu != MenuState::Disabled),
    {
        let next = match (self.menu, action) {
            (MenuState::Main, MenuAction::StartGame) => MenuState::Disabled,
            (MenuState::Main, MenuAction::OpenSettings) => MenuState::Settings,
            (MenuState::Settings, MenuAction::OpenAudio) => MenuState::SettingsAudio,
            (MenuState::Settings, MenuAction::OpenVehicle) => MenuState::SettingsVehicle,
            (MenuState::Settings, MenuAction::OpenTerrain) => MenuState::SettingsTerrain,
            (MenuState::Settings, MenuAction::Back) => MenuState::Main,
            (MenuState::SettingsAudio, MenuAction::Back) => MenuState::Settings,
            (MenuState::SettingsVehicle, MenuAction::Back) => MenuState::Settings,
            (MenuState::SettingsTerrain, MenuAction::Back) => MenuState::Settings,
            _ => self.menu,
        };
        let signal = match (self.menu, action) {
            (MenuState::Main, MenuAction::StartGame) => MenuSignal::EnterInGame,
            (MenuState::Main, MenuAction::Quit) => MenuSignal::Quit,
            _ => MenuSignal::Nothing,
        };
        self.menu = next;
        if matches!(next, MenuState::Disabled) {
            self.visible = false;
        }
        signal
    }

    /// The page to show, or `None` once the menu surface is disabled.
    pub fn current_page(&self) -> (r: Option<MenuState>)
        ensures
            self.menu == MenuState::Disabled ==> r is None,
            self.menu != MenuState::Disabled ==> r == Some(self.menu),
    {
        if matches!(self.menu, MenuState::Disabled) {
            None
        } else {
            Some(self.menu)
        }
    }
}

/// How many "enter in-game phase" signals a run of `actions` from
/// `state` emits.
pub open spec fn spec_signal_count(state: MenuState, actions: Seq<MenuAction>) -> nat
    decreases actions.len(),
{
    if actions.len() == 0 {
        0
    } else {
        (if spec_signal(state, actions.first()) == MenuSignal::EnterInGame {
            1nat
        } else {
            0nat
        }) + spec_signal_count(spec_transition(state, actions.first()), actions.drop_first())
    }
}

/// The state after a run of `actions` from `state`.
pub open spec fn spec_run(state: MenuState, actions: Seq<MenuAction>) -> MenuState
    decreases actions.len(),
{
    if actions.len() == 0 {
        state
    } else {
        spec_run(spec_transition(state, actions.first()), actions.drop_first())
    }
}

/// `Disabled` is terminal: no run of actions leaves it, and none
/// emits a signal from it.
pub proof fn lemma_disabled_terminal(actions: Seq<MenuAction>)
    ensures
        spec_run(MenuState::Disabled, actions) == MenuState::Disabled,
        spec_signal_count(MenuState::Disabled, actions) == 0,
    decreases actions.len(),
{
    if actions.len() > 0 {
        lemma_disabled_terminal(actions.drop_first());
    }
}

/// The "enter in-game phase" signal is emitted at most once per
/// session: whatever actions fire from whatever page, at most one of
/// them starts the game, because the only emitting edge lands in the
/// terminal `Disabled` state.
pub proof fn lemma_enter_in_game_at_most_once(state: MenuState, actions: Seq<MenuAction>)
    ensures
        spec_signal_count(state, actions) <= 1,
    decreases actions.len(),
{
    if actions.len() > 0 {
        if spec_signal(state, actions.first()) == MenuSignal::EnterInGame {
            lemma_disabled_terminal(actions.drop_first());
        } else {
            lemma_enter_in_game_at_most_once(
                spec_transition(state, actions.first()),
                actions.drop_first(),
            );
        }
    }
}

/// The "enter in-game phase" signal is emitted exactly once per
/// session that starts the game: a run from any live menu page emits
/// it exactly when it ends in `Disabled` — once — and never otherwise,
/// because the one emitting edge is the one edge into `Disabled`.
pub proof fn lemma_enter_in_game_exactly_once(state: MenuState, actions: Seq<MenuAction>)
    requires
        state != MenuState::Disabled,
    ensures
        spec_run(state, actions) == MenuState::Disabled ==> spec_signal_count(state, actions)
            == 1,
        spec_run(state, actions) != MenuState::Disabled ==> spec_signal_count(state, actions)
            == 0,
    decreases actions.len(),
{
    if actions.len() > 0 {
        if spec_signal(state, actions.first()) == MenuSignal::EnterInGame {
            lemma_disabled_terminal(actions.drop_first());
        } else {
            lemma_enter_in_game_exactly_once(
                spec_transition(state, actions.first()),
                actions.drop_first(),
            );
        }
    }
}

} // verus!
