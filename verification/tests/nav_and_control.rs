use car::control::evaluate;
use car::control::ControlSchemeId;
use car::control::ControlVector;
use car::control::SCHEME_A_BRAKE;
use car::control::SCHEME_A_FORWARD;
use car::control::SCHEME_A_LEFT;
use car::control::SCHEME_A_REVERSE;
use car::control::SCHEME_B_FORWARD;
use car::control::SCHEME_B_RIGHT;
use car::nav::MainMenu;
use car::nav::MenuAction;
use car::nav::MenuSignal;
use car::nav::MenuState;

#[test]
fn main_page_opens_settings() {
    let mut menu = MainMenu::default();
    let signal = menu.activate(MenuAction::OpenSettings);
    assert_eq!(menu.menu, MenuState::Settings);
    assert_eq!(signal, MenuSignal::Nothing);
}

#[test]
fn settings_back_returns_to_main() {
    let mut menu = MainMenu::default();
    menu.activate(MenuAction::OpenSettings);
    let signal = menu.activate(MenuAction::Back);
    assert_eq!(menu.menu, MenuState::Main);
    assert_eq!(signal, MenuSignal::Nothing);
}

#[test]
fn every_settings_leaf_backs_out_to_settings() {
    for open in [MenuAction::OpenAudio, MenuAction::OpenVehicle, MenuAction::OpenTerrain] {
        let mut menu = MainMenu::default();
        menu.activate(MenuAction::OpenSettings);
        menu.activate(open);
        assert!(matches!(
            menu.menu,
            MenuState::SettingsAudio | MenuState::SettingsVehicle | MenuState::SettingsTerrain
        ));
        let signal = menu.activate(MenuAction::Back);
        assert_eq!(menu.menu, MenuState::Settings);
        assert_eq!(signal, MenuSignal::Nothing);
    }
}

#[test]
fn start_game_disables_menu_and_signals_once() {
    let mut menu = MainMenu::default();
    let signal = menu.activate(MenuAction::StartGame);
    assert_eq!(signal, MenuSignal::EnterInGame);
    assert_eq!(menu.menu, MenuState::Disabled);
    assert!(!menu.visible);
    // Every further action is ignored and emits nothing.
    let mut signals = 0;
    for action in [
        MenuAction::StartGame,
        MenuAction::OpenSettings,
        MenuAction::Back,
        MenuAction::Quit,
        MenuAction::StartGame,
    ] {
        if menu.activate(action) == MenuSignal::EnterInGame {
            signals += 1;
        }
        assert_eq!(menu.menu, MenuState::Disabled);
    }
    assert_eq!(signals, 0);
}

#[test]
fn quit_signals_from_main_without_leaving_it() {
    let mut menu = MainMenu::default();
    let signal = menu.activate(MenuAction::Quit);
    assert_eq!(signal, MenuSignal::Quit);
    assert_eq!(menu.menu, MenuState::Main);
}

#[test]
fn disabled_menu_reports_no_page() {
    let mut menu = MainMenu::default();
    assert_eq!(menu.current_page(), Some(MenuState::Main));
    menu.activate(MenuAction::StartGame);
    assert_eq!(menu.current_page(), None);
}

#[test]
fn actions_without_a_button_change_nothing() {
    let mut menu = MainMenu::default();
    let signal = menu.activate(MenuAction::Back);
    assert_eq!(menu.menu, MenuState::Main);
    assert_eq!(signal, MenuSignal::Nothing);
    menu.activate(MenuAction::OpenSettings);
    let signal = menu.activate(MenuAction::StartGame);
    assert_eq!(menu.menu, MenuState::Settings);
    assert_eq!(signal, MenuSignal::Nothing);
}

#[test]
fn forward_key_gives_full_throttle() {
    let pressed = vec![SCHEME_A_FORWARD];
    let v = evaluate(ControlSchemeId::SchemeA, &pressed);
    assert_eq!(v, ControlVector { throttle: 100, steering: 0, brake: 0 });
}

#[test]
fn opposed_keys_cancel_and_brake_reads_its_own_key() {
    let pressed = vec![SCHEME_A_FORWARD, SCHEME_A_REVERSE, SCHEME_A_BRAKE, SCHEME_A_LEFT];
    let v = evaluate(ControlSchemeId::SchemeA, &pressed);
    assert_eq!(v, ControlVector { throttle: 0, steering: -100, brake: 100 });
}

#[test]
fn empty_snapshot_degrades_to_neutral() {
    let pressed: Vec<u16> = Vec::new();
    let v = evaluate(ControlSchemeId::SchemeA, &pressed);
    assert_eq!(v, ControlVector::neutral());
    let v = evaluate(ControlSchemeId::SchemeB, &pressed);
    assert_eq!(v, ControlVector::neutral());
}

#[test]
fn schemes_never_read_the_other_vehicles_keys() {
    // Two independent, non-overlapping snapshots: each vehicle's
    // vector depends only on its own scheme's keys.
    let first_player = vec![SCHEME_A_FORWARD, SCHEME_A_LEFT];
    let second_player = vec![SCHEME_B_FORWARD, SCHEME_B_RIGHT];
    let mut combined = first_player.clone();
    combined.extend_from_slice(&second_player);

    let a_alone = evaluate(ControlSchemeId::SchemeA, &first_player);
    let a_combined = evaluate(ControlSchemeId::SchemeA, &combined);
    assert_eq!(a_alone, a_combined);

    let b_alone = evaluate(ControlSchemeId::SchemeB, &second_player);
    let b_combined = evaluate(ControlSchemeId::SchemeB, &combined);
    assert_eq!(b_alone, b_combined);

    // The other vehicle's keys alone move nothing of this one.
    let a_foreign = evaluate(ControlSchemeId::SchemeA, &second_player);
    assert_eq!(a_foreign, ControlVector::neutral());
    let b_foreign = evaluate(ControlSchemeId::SchemeB, &first_player);
    assert_eq!(b_foreign, ControlVector::neutral());
}
