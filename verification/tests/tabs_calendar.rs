use minitel_app::calendar::{calendar_title, month_name, CalendarDate};
use minitel_app::tabs::{SelectedTab, TabColor};

const ALL: [SelectedTab; 5] = [
    SelectedTab::Bienvenue,
    SelectedTab::Calendrier,
    SelectedTab::World,
    SelectedTab::Borders,
    SelectedTab::Wifi,
];

#[test]
fn tab_index_roundtrip() {
    for (i, tab) in ALL.iter().enumerate() {
        assert_eq!(tab.index(), i);
        assert_eq!(SelectedTab::from_index(i), Some(*tab));
    }
    assert_eq!(SelectedTab::from_index(5), None);
    assert_eq!(SelectedTab::from_index(usize::MAX), None);
}

#[test]
fn tab_previous_and_next() {
    assert_eq!(SelectedTab::Bienvenue.previous(), SelectedTab::Bienvenue);
    assert_eq!(SelectedTab::Calendrier.previous(), SelectedTab::Bienvenue);
    assert_eq!(SelectedTab::Wifi.previous(), SelectedTab::Borders);
    assert_eq!(SelectedTab::Bienvenue.next(), SelectedTab::Calendrier);
    assert_eq!(SelectedTab::Borders.next(), SelectedTab::Wifi);
    assert_eq!(SelectedTab::Wifi.next(), SelectedTab::Wifi);
}

#[test]
fn tab_next_then_previous_is_identity_except_last() {
    for tab in ALL.iter().take(4) {
        assert_eq!(tab.next().previous(), *tab);
    }
    for tab in ALL.iter().skip(1) {
        assert_eq!(tab.previous().next(), *tab);
    }
}

#[test]
fn tab_names_titles_colors() {
    assert_eq!(SelectedTab::Bienvenue.name(), "Bienvenue");
    assert_eq!(SelectedTab::Calendrier.name(), "Cal");
    assert_eq!(SelectedTab::World.name(), "Monde");
    assert_eq!(SelectedTab::Borders.name(), "Bordures");
    assert_eq!(SelectedTab::Wifi.name(), "WiFi");
    assert_eq!(SelectedTab::Bienvenue.title(), " Bienvenue ");
    assert_eq!(SelectedTab::Calendrier.title(), " Cal ");
    assert_eq!(SelectedTab::Calendrier.color(), TabColor::Yellow);
    assert_eq!(SelectedTab::Bienvenue.color(), TabColor::Cyan);
    assert_eq!(SelectedTab::World.color(), TabColor::Magenta);
    assert_eq!(SelectedTab::Borders.color(), TabColor::Green);
    assert_eq!(SelectedTab::Wifi.color(), TabColor::Red);
    assert_eq!(SelectedTab::default(), SelectedTab::Bienvenue);
}

fn date(y: i32, m: u8, d: u8) -> CalendarDate {
    CalendarDate::new(y, m, d).unwrap()
}

#[test]
fn date_new_validates() {
    assert_eq!(CalendarDate::new(2025, 1, 15), Some(CalendarDate { year: 2025, month: 1, day: 15 }));
    assert_eq!(CalendarDate::new(2019, 2, 29), None);
    assert!(CalendarDate::new(2020, 2, 29).is_some());
    assert!(CalendarDate::new(2000, 2, 29).is_some());
    assert_eq!(CalendarDate::new(1900, 2, 29), None);
    assert_eq!(CalendarDate::new(2025, 4, 31), None);
    assert_eq!(CalendarDate::new(2025, 13, 1), None);
    assert_eq!(CalendarDate::new(2025, 0, 1), None);
    assert_eq!(CalendarDate::new(2025, 1, 0), None);
    assert_eq!(CalendarDate::new(10000, 1, 1), None);
    assert_eq!(CalendarDate::new(-10000, 1, 1), None);
    assert!(CalendarDate::new(9999, 12, 31).is_some());
    assert!(CalendarDate::new(-9999, 1, 1).is_some());
}

#[test]
fn month_forward_and_back() {
    assert_eq!(date(2025, 1, 15).shifted(20), date(2025, 2, 15));
    assert_eq!(date(2025, 2, 15).shifted(20), date(2025, 3, 15));
    assert_eq!(date(2024, 12, 15).shifted(20), date(2025, 1, 15));
    assert_eq!(date(2025, 1, 15).shifted(-20), date(2024, 12, 15));
    assert_eq!(date(2024, 3, 15).shifted(-20), date(2024, 2, 15));
    assert_eq!(date(2025, 3, 15).shifted(-20), date(2025, 2, 15));
}

#[test]
fn month_keys_inverse() {
    let start = date(2023, 7, 15);
    assert_eq!(start.shifted(20).shifted(-20), start);
    assert_eq!(start.shifted(-20).shifted(20), start);
}

#[test]
fn month_forward_saturates_at_the_ends() {
    assert_eq!(date(9999, 12, 15).shifted(20), date(9999, 12, 15));
    assert_eq!(date(-9999, 1, 15).shifted(-20), date(-9999, 1, 15));
    assert_eq!(date(9999, 12, 30).shifted(100_000), date(9999, 12, 15));
    assert_eq!(date(2000, 6, 1).shifted(-100_000_000), date(-9999, 1, 15));
}

#[test]
fn month_names_and_titles() {
    assert_eq!(month_name(1), "Janvier");
    assert_eq!(month_name(2), "Février");
    assert_eq!(month_name(8), "Août");
    assert_eq!(month_name(12), "Décembre");
    assert_eq!(calendar_title(&date(2025, 1, 15)), "Janvier 2025");
    assert_eq!(calendar_title(&date(-5, 12, 15)), "Décembre -5");
    assert_eq!(calendar_title(&date(0, 3, 1)), "Mars 0");
}
