use minitel_app::wifi::{
    client_credentials, field_line, status_line, AuthMethod, NoWifiConnector, StatusTone, WifiField,
    WifiForm, WifiStatus,
};

fn typed(form: &mut WifiForm, s: &str) {
    for c in s.chars() {
        form.push_char(c);
    }
}

#[test]
fn form_starts_empty() {
    let form = WifiForm::default();
    assert_eq!(form.ssid, "");
    assert_eq!(form.password, "");
    assert_eq!(form.focus, WifiField::Ssid);
    assert!(matches!(form.status, WifiStatus::Idle));
    assert!(!form.connect_pending);
}

#[test]
fn push_char_rejects_control_characters() {
    let mut form = WifiForm::default();
    form.push_char('a');
    form.push_char('\u{7}');
    form.push_char('\n');
    form.push_char('\u{7f}');
    form.push_char('\u{85}');
    form.push_char('\u{a0}');
    assert_eq!(form.ssid, "a\u{a0}");
}

#[test]
fn ssid_capped_at_32_bytes() {
    let mut form = WifiForm::default();
    typed(&mut form, &"a".repeat(40));
    assert_eq!(form.ssid.len(), 32);
    let mut form = WifiForm::default();
    typed(&mut form, &"a".repeat(31));
    form.push_char('é');
    assert_eq!(form.ssid.len(), 31);
    form.push_char('b');
    assert_eq!(form.ssid.len(), 32);
}

#[test]
fn password_capped_at_64_bytes() {
    let mut form = WifiForm::default();
    form.focus = WifiField::Password;
    typed(&mut form, &"é".repeat(40));
    assert_eq!(form.password.len(), 64);
    assert_eq!(form.password.chars().count(), 32);
    assert_eq!(form.ssid, "");
}

#[test]
fn backspace_and_reset() {
    let mut form = WifiForm::default();
    form.backspace();
    assert_eq!(form.ssid, "");
    typed(&mut form, "abé");
    form.backspace();
    assert_eq!(form.ssid, "ab");
    form.focus = WifiField::Password;
    typed(&mut form, "xy");
    form.backspace();
    assert_eq!(form.password, "x");
    assert_eq!(form.ssid, "ab");
    form.status = WifiStatus::Failed("err".to_string());
    form.connect_pending = true;
    form.reset();
    assert_eq!(form.ssid, "");
    assert_eq!(form.password, "");
    assert_eq!(form.focus, WifiField::Ssid);
    assert!(matches!(form.status, WifiStatus::Idle));
    assert!(!form.connect_pending);
}

#[test]
fn field_mut_follows_focus() {
    let mut form = WifiForm::default();
    form.field_mut().push_str("net");
    form.focus = WifiField::Password;
    form.field_mut().push_str("pw");
    assert_eq!(form.ssid, "net");
    assert_eq!(form.password, "pw");
}

#[test]
fn field_lines() {
    assert_eq!(field_line("SSID", "maison", false), "SSID: maison");
    assert_eq!(field_line("Mot de passe", "sécret", true), "Mot de passe: ******");
    assert_eq!(field_line("Mot de passe", "", true), "Mot de passe: ");
    let mut form = WifiForm::default();
    typed(&mut form, "box");
    assert_eq!(form.field_line("SSID", WifiField::Ssid, false), "SSID: box");
    assert_eq!(form.field_line("SSID", WifiField::Ssid, true), "SSID: ***");
}

#[test]
fn status_lines() {
    assert_eq!(status_line(&WifiStatus::Idle), (String::new(), StatusTone::Plain));
    assert_eq!(
        status_line(&WifiStatus::Connecting),
        ("Connexion en cours...".to_string(), StatusTone::Yellow)
    );
    assert_eq!(
        status_line(&WifiStatus::Connected("192.168.1.7".to_string())),
        ("Connecte : 192.168.1.7".to_string(), StatusTone::Green)
    );
    assert_eq!(
        status_line(&WifiStatus::Failed("refus".to_string())),
        ("Echec : refus".to_string(), StatusTone::Red)
    );
}

#[test]
fn credentials_accepted() {
    let c = client_credentials("maison", "").unwrap();
    assert_eq!(c.ssid, "maison");
    assert_eq!(c.password, "");
    assert_eq!(c.auth_method, AuthMethod::Open);
    let c = client_credentials(&"s".repeat(32), &"p".repeat(64)).unwrap();
    assert_eq!(c.auth_method, AuthMethod::WPA2Personal);
}

#[test]
fn credentials_ssid_too_long() {
    let e = client_credentials(&"s".repeat(33), &"p".repeat(65)).unwrap_err();
    assert_eq!(e, "SSID trop long (32 caracteres max)");
    let e = client_credentials(&"é".repeat(17), "").unwrap_err();
    assert_eq!(e, "SSID trop long (32 caracteres max)");
}

#[test]
fn credentials_password_too_long() {
    let e = client_credentials("ok", &"p".repeat(65)).unwrap_err();
    assert_eq!(e, "Mot de passe trop long (64 caracteres max)");
}

#[test]
fn form_content_always_accepted_as_credentials() {
    let mut form = WifiForm::default();
    typed(&mut form, &"ü".repeat(50));
    form.focus = WifiField::Password;
    typed(&mut form, &"€".repeat(50));
    assert!(client_credentials(&form.ssid, &form.password).is_ok());
}

#[test]
fn no_wifi_connector_fails() {
    let mut c = NoWifiConnector;
    assert_eq!(c.connect("x", "y"), Err("Wifi indisponible sur ce serveur".to_string()));
}

#[test]
fn push_char_on_overfull_field_changes_nothing() {
    let mut form = WifiForm::default();
    form.ssid = "a".repeat(40);
    form.push_char('b');
    assert_eq!(form.ssid.len(), 40);
    form.backspace();
    assert_eq!(form.ssid.len(), 39);
}
