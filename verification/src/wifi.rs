//! The Wi-Fi connection form: what the user types into it, how it is shown,
//! and the credentials it hands to the radio.
use vstd::prelude::*;
use crate::text::{
    char_is_control, char_len_utf8, char_utf8_len, is_control_char, lemma_char_utf8_len_bounds,
    lemma_utf8_len_drop_last, lemma_utf8_len_push, str_byte_len, string_pop, string_push, utf8_len,
};

verus! {

/// Largest SSID, in bytes, that the radio's client configuration holds.
pub const SSID_MAX_BYTES: usize = 32;

/// Largest password, in bytes, that the radio's client configuration holds.
pub const PASSWORD_MAX_BYTES: usize = 64;

/// The field of the form that receives what is typed.
#[derive(Clone, Copy, Debug, PartialEq, Eq, Structural)]
pub enum WifiField {
    Ssid,
    Password,
}

/// Where the connection stands.
#[derive(Debug)]
pub enum WifiStatus {
    Idle,
    Connecting,
    Connected(String),
    Failed(String),
}

/// State of the Wi-Fi connection form.
#[derive(Debug)]
pub struct WifiForm {
    pub ssid: String,
    pub password: String,
    pub focus: WifiField,
    pub status: WifiStatus,
    /// Set when the form was just submitted: the connection attempt waits for
    /// the next turn of the event loop, so that the "connecting" status is
    /// drawn and sent to the Minitel first.
    pub connect_pending: bool,
}

/// How the radio authenticates on the network.
#[derive(Clone, Copy, Debug, PartialEq, Eq, Structural)]
pub enum AuthMethod {
    Open,
    WPA2Personal,
}

/// What the radio's client configuration receives from the form.
#[derive(Debug)]
pub struct ClientCredentials {
    pub ssid: String,
    pub password: String,
    pub auth_method: AuthMethod,
}

/// The colour in which the status line is written.
#[derive(Clone, Copy, Debug, PartialEq, Eq, Structural)]
pub enum StatusTone {
    Plain,
    Yellow,
    Green,
    Red,
}

/// The connector used where no Wi-Fi hardware is driven.
#[derive(Debug, Default)]
pub struct NoWifiConnector;

/// Capacity, in bytes, of a field.
pub open spec fn field_capacity(f: WifiField) -> nat {
    match f {
        WifiField::Ssid => SSID_MAX_BYTES as nat,
        WifiField::Password => PASSWORD_MAX_BYTES as nat,
    }
}

/// A field's content fits its capacity and holds no control character.
pub open spec fn acceptable_field(s: Seq<char>, capacity: nat) -> bool {
    &&& utf8_len(s) <= capacity
    &&& forall|i: int| 0 <= i < s.len() ==> !is_control_char(#[trigger] s[i])
}

/// Whether typing `c` into a field holding `s` adds it: `c` is no control
/// character and the field's capacity leaves room for its bytes.
pub open spec fn accepts_char(s: Seq<char>, capacity: nat, c: char) -> bool {
    !is_control_char(c) && utf8_len(s) + char_utf8_len(c) <= capacity
}

/// The message the radio's configuration step fails with, if any, for these
/// credentials: the SSID is checked first, then the password.
pub open spec fn credentials_error(ssid: Seq<char>, password: Seq<char>) -> Option<Seq<char>> {
    if utf8_len(ssid) > SSID_MAX_BYTES {
        Some("SSID trop long (32 caracteres max)"@)
    } else if utf8_len(password) > PASSWORD_MAX_BYTES {
        Some("Mot de passe trop long (64 caracteres max)"@)
    } else {
        None
    }
}

/// The authentication used for a password: none for an empty one.
pub open spec fn spec_auth_method(password: Seq<char>) -> AuthMethod {
    if password.len() == 0 {
        AuthMethod::Open
    } else {
        AuthMethod::WPA2Personal
    }
}

/// The status line: its text and colour.
pub open spec fn spec_status_line(status: WifiStatus) -> (Seq<char>, StatusTone) {
    match status {
        WifiStatus::Idle => (Seq::empty(), StatusTone::Plain),
        WifiStatus::Connecting => ("Connexion en cours..."@, StatusTone::Yellow),
        WifiStatus::Connected(ip) => ("Connecte : "@ + ip@, StatusTone::Green),
        WifiStatus::Failed(err) => ("Echec : "@ + err@, StatusTone::Red),
    }
}

/// A field as shown: its label, a colon and a space, then its value, or as
/// many `*` as it has characters when masked.
pub open spec fn spec_field_line(label: Seq<char>, value: Seq<char>, mask: bool) -> Seq<char> {
    label + ": "@ + if mask {
        Seq::new(value.len(), |i: int| '*')
    } else {
        value
    }
}

impl WifiForm {
    /// Content of field `f`.
    pub open spec fn field_view(self, f: WifiField) -> Seq<char> {
        match f {
            WifiField::Ssid => self.ssid@,
            WifiField::Password => self.password@,
        }
    }

    /// Both fields fit their capacity and hold no control character.
    pub open spec fn wf(self) -> bool {
        &&& acceptable_field(self.ssid@, field_capacity(WifiField::Ssid))
        &&& acceptable_field(self.password@, field_capacity(WifiField::Password))
    }

    /// The form as it starts, and as it is after a reset: both fields
    /// empty, the SSID focused, no status, no connection pending.
    pub open spec fn is_initial(self) -> bool {
        &&& self.ssid@ == Seq::<char>::empty()
        &&& self.password@ == Seq::<char>::empty()
        &&& self.focus == WifiField::Ssid
        &&& self.status is Idle
        &&& !self.connect_pending
    }

    /// `new` is `self` with the focused field now holding `value` and
    /// everything else unchanged.
    pub open spec fn focused_set_to(self, new: WifiForm, value: Seq<char>) -> bool {
        &&& new.focus == self.focus
        &&& new.status == self.status
        &&& new.connect_pending == self.connect_pending
        &&& new.field_view(self.focus) == value
        &&& match self.focus {
            WifiField::Ssid => new.password == self.password,
            WifiField::Password => new.ssid == self.ssid,
        }
    }

    /// What typing `c` leaves in the focused field.
    pub open spec fn typed(self, c: char) -> Seq<char> {
        let s = self.field_view(self.focus);
        if accepts_char(s, field_capacity(self.focus), c) {
            s.push(c)
        } else {
            s
        }
    }

    /// What erasing leaves in the focused field: all but its last character.
    pub open spec fn erased(self) -> Seq<char> {
        let s = self.field_view(self.focus);
        if s.len() == 0 {
            s
        } else {
            s.drop_last()
        }
    }

    /// The focused field, for editing.
    pub fn field_mut(&mut self) -> (r: &mut String)
        ensures
            *r == old(self).field_view_string(old(self).focus),
            final(self).focus == old(self).focus,
            final(self).status == old(self).status,
            final(self).connect_pending == old(self).connect_pending,
            match old(self).focus {
                WifiField::Ssid => final(self).ssid == *final(r) && final(self).password == old(
                    self,
                ).password,
                WifiField::Password => final(self).password == *final(r) && final(self).ssid
                    == old(self).ssid,
            },
    {
        match self.focus {
            WifiField::Ssid => &mut self.ssid,
            WifiField::Password => &mut self.password,
        }
    }

    /// The string of field `f`.
    pub open spec fn field_view_string(self, f: WifiField) -> String {
        match f {
            WifiField::Ssid => self.ssid,
            WifiField::Password => self.password,
        }
    }

    /// Types `c` into the focused field. Control characters are refused, and
    /// so is a character whose bytes would take the field past its capacity
    /// (32 bytes for the SSID, 64 for the password).
    pub fn push_char(&mut self, c: char)
        ensures
            old(self).wf() ==> final(self).wf(),
            old(self).focused_set_to(*final(self), old(self).typed(c)),
    {
        if char_is_control(c) {
            return;
        }
        let max_len: usize = match self.focus {
            WifiField::Ssid => SSID_MAX_BYTES,
            WifiField::Password => PASSWORD_MAX_BYTES,
        };
        let ghost old_form = *self;
        let field = self.field_mut();
        let field_len: usize = str_byte_len(field.as_str());
        let c_len: usize = char_len_utf8(c);
        proof {
            lemma_char_utf8_len_bounds(c);
        }
        if field_len <= max_len && c_len <= max_len - field_len {
            proof {
                lemma_utf8_len_push(field@, c);
            }
            string_push(field, c);
        }
        proof {
            let s = old_form.field_view(old_form.focus);
            if old_form.wf() && accepts_char(s, field_capacity(old_form.focus), c) {
                assert forall|i: int| 0 <= i < s.push(c).len() implies !is_control_char(
                    #[trigger] s.push(c)[i],
                ) by {
                    if i < s.len() {
                        assert(s.push(c)[i] == s[i]);
                    }
                }
            }
        }
    }

    /// Erases the last character of the focused field, if it has one.
    pub fn backspace(&mut self)
        ensures
            old(self).wf() ==> final(self).wf(),
            old(self).focused_set_to(*final(self), old(self).erased()),
    {
        let ghost old_form = *self;
        let field = self.field_mut();
        proof {
            if field@.len() > 0 {
                lemma_utf8_len_drop_last(field@);
            }
        }
        let _ = string_pop(field);
        proof {
            let s = old_form.field_view(old_form.focus);
            if old_form.wf() && s.len() > 0 {
                assert forall|i: int| 0 <= i < s.drop_last().len() implies !is_control_char(
                    #[trigger] s.drop_last()[i],
                ) by {
                    assert(s.drop_last()[i] == s[i]);
                }
            }
        }
    }

    /// Clears the form back to how it starts.
    pub fn reset(&mut self)
        ensures
            final(self).wf(),
            final(self).is_initial(),
    {
        *self = WifiForm::default();
    }

    /// The line showing field `field` with label `label`; the value is
    /// masked when `mask` is set.
    pub fn field_line(&self, label: &str, field: WifiField, mask: bool) -> (r: String)
        ensures
            r@ == spec_field_line(label@, self.field_view(field), mask),
            r@.len() == label@.len() + 2 + self.field_view(field).len(),
    {
        let value = match field {
            WifiField::Ssid => self.ssid.as_str(),
            WifiField::Password => self.password.as_str(),
        };
        field_line(label, value, mask)
    }
}

impl Default for WifiForm {
    /// Both fields empty, the SSID focused, no status, no connection pending.
    fn default() -> (r: Self)
        ensures
            r.wf(),
            r.is_initial(),
    {
        let r = WifiForm {
            ssid: String::new(),
            password: String::new(),
            focus: WifiField::Ssid,
            status: WifiStatus::Idle,
            connect_pending: false,
        };
        proof {
            assert(utf8_len(r.ssid@) == 0);
            assert(utf8_len(r.password@) == 0);
        }
        r
    }
}

/// A field as shown: `label`, `": "`, then `value`, or one `*` per
/// character of `value` when `mask` is set.
pub fn field_line(label: &str, value: &str, mask: bool) -> (r: String)
    ensures
        r@ == spec_field_line(label@, value@, mask),
        r@.len() == label@.len() + 2 + value@.len(),
        r@.subrange(0, label@.len() as int) == label@,
        r@[label@.len() as int] == ':' && r@[label@.len() + 1int] == ' ',
        mask ==> forall|i: int| label@.len() + 2 <= i < r@.len() ==> #[trigger] r@[i] == '*',
        !mask ==> r@.skip(label@.len() + 2int) == value@,
{
    proof {
        lemma_field_line_shape(label@, value@, mask);
    }
    let mut s = String::from_str(label);
    s.append(": ");
    if mask {
        let n: usize = value.unicode_len();
        let ghost start = s@;
        let mut i: usize = 0;
        while i < n
            invariant
                i <= n,
                n == value@.len(),
                s@ == start + Seq::new(i as nat, |j: int| '*'),
            decreases n - i,
        {
            string_push(&mut s, '*');
            i = i + 1;
            proof {
                assert(s@ =~= start + Seq::new(i as nat, |j: int| '*'));
            }
        }
    } else {
        s.append(value);
    }
    s
}

/// The status line of the form: its text and colour.
pub fn status_line(status: &WifiStatus) -> (r: (String, StatusTone))
    ensures
        (r.0@, r.1) == spec_status_line(*status),
{
    match status {
        WifiStatus::Idle => (String::new(), StatusTone::Plain),
        WifiStatus::Connecting => (String::from_str("Connexion en cours..."), StatusTone::Yellow),
        WifiStatus::Connected(ip) => {
            let mut s = String::from_str("Connecte : ");
            s.append(ip.as_str());
            (s, StatusTone::Green)
        },
        WifiStatus::Failed(err) => {
            let mut s = String::from_str("Echec : ");
            s.append(err.as_str());
            (s, StatusTone::Red)
        },
    }
}

/// The status line is empty when idle, and otherwise names the outcome:
/// a connection shows the address obtained at its end, a failure the error's
/// message; each status has its own colour.
pub proof fn lemma_status_line_shape(status: WifiStatus)
    ensures
        status is Idle ==> spec_status_line(status).0.len() == 0,
        status is Connecting ==> spec_status_line(status).0.len() > 0,
        status matches WifiStatus::Connected(ip) ==> spec_status_line(status).0.len() >= ip@.len()
            && spec_status_line(status).0.skip(spec_status_line(status).0.len() - ip@.len())
            == ip@,
        status matches WifiStatus::Failed(err) ==> spec_status_line(status).0.len()
            >= err@.len() && spec_status_line(status).0.skip(
            spec_status_line(status).0.len() - err@.len(),
        ) == err@,
        status is Idle <==> spec_status_line(status).1 == StatusTone::Plain,
        status is Connecting <==> spec_status_line(status).1 == StatusTone::Yellow,
        status is Connected <==> spec_status_line(status).1 == StatusTone::Green,
        status is Failed <==> spec_status_line(status).1 == StatusTone::Red,
{
    reveal_strlit("Connexion en cours...");
    match status {
        WifiStatus::Connected(ip) => {
            let t = spec_status_line(status).0;
            assert(t.skip(t.len() - ip@.len()) =~= ip@);
        },
        WifiStatus::Failed(err) => {
            let t = spec_status_line(status).0;
            assert(t.skip(t.len() - err@.len()) =~= err@);
        },
        _ => {},
    }
}

/// A field line is the label, `": "`, then exactly one character per
/// character of the value: the value itself, or only `*` when masked.
pub proof fn lemma_field_line_shape(label: Seq<char>, value: Seq<char>, mask: bool)
    ensures
        spec_field_line(label, value, mask).len() == label.len() + 2 + value.len(),
        spec_field_line(label, value, mask).subrange(0, label.len() as int) == label,
        spec_field_line(label, value, mask)[label.len() as int] == ':',
        spec_field_line(label, value, mask)[label.len() + 1int] == ' ',
        mask ==> forall|i: int|
            label.len() + 2 <= i < label.len() + 2 + value.len() ==> #[trigger] spec_field_line(
                label,
                value,
                mask,
            )[i] == '*',
        !mask ==> spec_field_line(label, value, mask).skip(label.len() + 2int) == value,
{
    reveal_strlit(": ");
    let r = spec_field_line(label, value, mask);
    assert(r.subrange(0, label.len() as int) =~= label);
    if !mask {
        assert(r.skip(label.len() + 2int) =~= value);
    }
}

/// The network is open exactly when the password is empty: every non-empty
/// password is sent with WPA2 personal authentication.
pub proof fn lemma_auth_method_follows_password(password: Seq<char>)
    ensures
        spec_auth_method(password) == AuthMethod::Open <==> password.len() == 0,
        spec_auth_method(password) == AuthMethod::WPA2Personal <==> password.len() > 0,
{
}

/// The radio's client credentials for `ssid` and `password`: no
/// authentication for an empty password, WPA2 personal otherwise. Fails
/// with a message when the SSID is over 32 bytes, or else when the password
/// is over 64 bytes, as the radio's configuration cannot hold them.
pub fn client_credentials(ssid: &str, password: &str) -> (r: Result<ClientCredentials, String>)
    ensures
        r is Ok <==> credentials_error(ssid@, password@) is None,
        r matches Err(e) ==> Some(e@) == credentials_error(ssid@, password@),
        r matches Ok(c) ==> c.ssid@ == ssid@ && c.password@ == password@ && c.auth_method
            == spec_auth_method(password@),
        r matches Ok(c) ==> (c.auth_method == AuthMethod::Open <==> password@.len() == 0),
        r matches Ok(c) ==> (c.auth_method == AuthMethod::WPA2Personal <==> password@.len() > 0),
{
    let auth_method = if password.is_empty() {
        AuthMethod::Open
    } else {
        AuthMethod::WPA2Personal
    };
    if str_byte_len(ssid) > SSID_MAX_BYTES {
        return Err(String::from_str("SSID trop long (32 caracteres max)"));
    }
    if str_byte_len(password) > PASSWORD_MAX_BYTES {
        return Err(String::from_str("Mot de passe trop long (64 caracteres max)"));
    }
    Ok(ClientCredentials {
        ssid: String::from_str(ssid),
        password: String::from_str(password),
        auth_method,
    })
}

/// Whatever a well-formed form holds, the radio's configuration accepts it
/// as credentials: the form never lets a field grow past what the radio holds.
pub proof fn lemma_form_credentials_accepted(form: WifiForm)
    requires
        form.wf(),
    ensures
        credentials_error(form.ssid@, form.password@) is None,
{
}

impl NoWifiConnector {
    /// Connecting always fails: there is no Wi-Fi hardware to drive.
    pub fn connect(&mut self, ssid: &str, password: &str) -> (r: Result<String, String>)
        ensures
            r matches Err(e) && e@ == "Wifi indisponible sur ce serveur"@,
    {
        Err(String::from_str("Wifi indisponible sur ce serveur"))
    }
}

} // verus!
