use minitel_app::app::{App, FunctionKey, LoopAction, UserInput};
use minitel_app::calendar::CalendarDate;
use minitel_app::tabs::SelectedTab;
use minitel_app::wifi::{NoWifiConnector, WifiField, WifiStatus};

fn key(k: FunctionKey) -> UserInput {
    UserInput::FunctionKey(k)
}

fn app() -> App<NoWifiConnector> {
    App::default()
}

#[test]
fn app_starts_on_welcome() {
    let a = app();
    assert_eq!(a.selected_tab, SelectedTab::Bienvenue);
    assert_eq!(a.date, CalendarDate { year: 2025, month: 1, day: 15 });
    assert!(!a.demo_disjoint);
    assert!(!a.exit);
    assert_eq!(a.wifi.ssid, "");
    let b = App::with_wifi_connector(7u32);
    assert_eq!(b.wifi_connector, 7);
}

#[test]
fn suite_and_retour_move_between_tabs() {
    let mut a = app();
    a.handle_event(key(FunctionKey::Retour));
    assert_eq!(a.selected_tab, SelectedTab::Bienvenue);
    for _ in 0..10 {
        a.handle_event(key(FunctionKey::Suite));
    }
    assert_eq!(a.selected_tab, SelectedTab::Wifi);
    a.handle_event(key(FunctionKey::Retour));
    assert_eq!(a.selected_tab, SelectedTab::Borders);
}

#[test]
fn sommaire_quits_from_every_tab() {
    for i in 0..5 {
        let mut a = app();
        for _ in 0..i {
            a.handle_event(key(FunctionKey::Suite));
        }
        a.handle_event(key(FunctionKey::Sommaire));
        assert!(a.exit);
    }
}

#[test]
fn calendar_keys_change_month() {
    let mut a = app();
    a.handle_event(key(FunctionKey::Suite));
    assert_eq!(a.selected_tab, SelectedTab::Calendrier);
    a.handle_event(key(FunctionKey::Correction));
    assert_eq!(a.date, CalendarDate { year: 2025, month: 2, day: 15 });
    a.handle_event(key(FunctionKey::Annulation));
    a.handle_event(key(FunctionKey::Annulation));
    assert_eq!(a.date, CalendarDate { year: 2024, month: 12, day: 15 });
    a.handle_event(key(FunctionKey::Envoi));
    a.handle_event(UserInput::Char('x'));
    assert_eq!(a.date, CalendarDate { year: 2024, month: 12, day: 15 });
    assert!(!a.demo_disjoint);
}

#[test]
fn calendar_keys_ignored_elsewhere() {
    let mut a = app();
    a.handle_event(key(FunctionKey::Correction));
    a.handle_event(key(FunctionKey::Envoi));
    assert_eq!(a.date, CalendarDate { year: 2025, month: 1, day: 15 });
    assert!(!a.demo_disjoint);
}

#[test]
fn envoi_toggles_disjoint_on_world_and_borders() {
    let mut a = app();
    a.handle_event(key(FunctionKey::Suite));
    a.handle_event(key(FunctionKey::Suite));
    assert_eq!(a.selected_tab, SelectedTab::World);
    a.handle_event(key(FunctionKey::Envoi));
    assert!(a.demo_disjoint);
    a.handle_event(key(FunctionKey::Suite));
    assert_eq!(a.selected_tab, SelectedTab::Borders);
    a.handle_event(key(FunctionKey::Envoi));
    assert!(!a.demo_disjoint);
    a.handle_event(key(FunctionKey::Correction));
    assert!(!a.demo_disjoint);
}

fn wifi_app() -> App<NoWifiConnector> {
    let mut a = app();
    for _ in 0..4 {
        a.handle_event(key(FunctionKey::Suite));
    }
    assert_eq!(a.selected_tab, SelectedTab::Wifi);
    a
}

#[test]
fn wifi_typing_and_submit() {
    let mut a = wifi_app();
    for c in "boxx".chars() {
        a.handle_event(UserInput::Char(c));
    }
    a.handle_event(key(FunctionKey::Correction));
    assert_eq!(a.wifi.ssid, "box");
    a.handle_event(key(FunctionKey::Envoi));
    assert_eq!(a.wifi.focus, WifiField::Password);
    assert!(!a.wifi.connect_pending);
    for c in "pw".chars() {
        a.handle_event(UserInput::Char(c));
    }
    a.handle_event(UserInput::Other);
    assert_eq!(a.wifi.password, "pw");
    a.handle_event(key(FunctionKey::Envoi));
    assert!(matches!(a.wifi.status, WifiStatus::Connecting));
    assert!(a.wifi.connect_pending);
    match a.after_frame() {
        LoopAction::Connect { ssid, password } => {
            assert_eq!(ssid, "box");
            assert_eq!(password, "pw");
        },
        LoopAction::ReadInput => panic!("expected a connection"),
    }
    assert!(!a.wifi.connect_pending);
    assert!(matches!(a.after_frame(), LoopAction::ReadInput));
    let result = a.wifi_connector.connect(&a.wifi.ssid, &a.wifi.password);
    a.connection_finished(result);
    assert!(matches!(&a.wifi.status, WifiStatus::Failed(e) if e == "Wifi indisponible sur ce serveur"));
    a.connection_finished(Ok("10.0.0.2".to_string()));
    assert!(matches!(&a.wifi.status, WifiStatus::Connected(ip) if ip == "10.0.0.2"));
}

#[test]
fn wifi_annulation_clears_form() {
    let mut a = wifi_app();
    a.handle_event(UserInput::Char('n'));
    a.handle_event(key(FunctionKey::Envoi));
    a.handle_event(UserInput::Char('p'));
    a.handle_event(key(FunctionKey::Annulation));
    assert_eq!(a.wifi.ssid, "");
    assert_eq!(a.wifi.password, "");
    assert_eq!(a.wifi.focus, WifiField::Ssid);
}

#[test]
fn wifi_tab_keys_still_navigate() {
    let mut a = wifi_app();
    a.handle_event(key(FunctionKey::Retour));
    assert_eq!(a.selected_tab, SelectedTab::Borders);
    a.handle_event(UserInput::Char('z'));
    assert_eq!(a.wifi.ssid, "");
}

#[test]
fn after_frame_reads_input_when_nothing_pending() {
    let mut a = app();
    assert!(matches!(a.after_frame(), LoopAction::ReadInput));
}
