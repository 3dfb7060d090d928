//! The application's state and the decisions of its event loop: what each
//! key does, and what the loop does after each frame is drawn.
use vstd::prelude::*;
use crate::calendar::{
    calendar_shift, lemma_shift_backward_is_previous_month, lemma_shift_forward_is_next_month,
    next_month, previous_month, CalendarDate, MAX_YEAR, MIN_YEAR, MONTH_STEP_DAYS, SHOWN_DAY,
};
use crate::tabs::SelectedTab;
use crate::wifi::{credentials_error, WifiField, WifiForm, WifiStatus};

verus! {

/// The function keys of the Minitel keyboard.
#[derive(Clone, Copy, Debug, PartialEq, Eq, Structural)]
pub enum FunctionKey {
    Envoi,
    Retour,
    Repetition,
    Guide,
    Annulation,
    Sommaire,
    Correction,
    Suite,
    ConnexionFin,
}

/// One keystroke read from the Minitel.
#[derive(Clone, Copy, Debug, PartialEq, Eq, Structural)]
pub enum UserInput {
    /// A character typed on the keyboard.
    Char(char),
    /// A function key.
    FunctionKey(FunctionKey),
    /// Any other sequence the keyboard sends.
    Other,
}

/// What the event loop does once a frame has been drawn and sent.
#[derive(Debug)]
pub enum LoopAction {
    /// Try to join the network with these credentials, then report the
    /// outcome with `App::connection_finished`.
    Connect { ssid: String, password: String },
    /// Read the next keystroke and hand it to `App::handle_event`.
    ReadInput,
}

/// Application state.
#[derive(Debug)]
pub struct App<W> {
    pub selected_tab: SelectedTab,
    pub date: CalendarDate,
    pub demo_disjoint: bool,
    pub exit: bool,
    pub wifi: WifiForm,
    pub wifi_connector: W,
}

/// The date the calendar opens on.
pub open spec fn initial_date() -> CalendarDate {
    CalendarDate { year: 2025, month: 1, day: 15 }
}

/// What a keystroke does to the Wi-Fi form, on the Wi-Fi tab.
pub open spec fn wifi_input_handled(old: WifiForm, new: WifiForm, input: UserInput) -> bool {
    match input {
        UserInput::Char(c) => old.focused_set_to(new, old.typed(c)),
        UserInput::FunctionKey(FunctionKey::Correction) => old.focused_set_to(new, old.erased()),
        UserInput::FunctionKey(FunctionKey::Annulation) => new.is_initial(),
        UserInput::FunctionKey(FunctionKey::Envoi) => match old.focus {
            WifiField::Ssid => new == WifiForm { focus: WifiField::Password, ..old },
            WifiField::Password => new == WifiForm {
                status: WifiStatus::Connecting,
                connect_pending: true,
                ..old
            },
        },
        _ => new == old,
    }
}

/// What a keystroke does to the application. `Suite` and `Retour` move
/// between tabs and `Sommaire` quits, on every tab. Otherwise: on the
/// calendar, `Correction` and `Annulation` move 20 days forward or back and
/// back onto the 15th; on the world map and the borders, `Envoi` toggles the
/// disjoint rendering; on the Wi-Fi tab, characters are typed into the
/// focused field, `Correction` erases, `Annulation` clears the form and
/// `Envoi` goes to the password, then submits. Any other keystroke changes
/// nothing.
pub open spec fn input_handled<W>(old: App<W>, new: App<W>, input: UserInput) -> bool {
    match input {
        UserInput::FunctionKey(FunctionKey::Suite) => new == App {
            selected_tab: old.selected_tab.spec_next(),
            ..old
        },
        UserInput::FunctionKey(FunctionKey::Retour) => new == App {
            selected_tab: old.selected_tab.spec_previous(),
            ..old
        },
        UserInput::FunctionKey(FunctionKey::Sommaire) => new == App { exit: true, ..old },
        _ => match old.selected_tab {
            SelectedTab::Calendrier => match input {
                UserInput::FunctionKey(FunctionKey::Correction) => new == App {
                    date: calendar_shift(old.date, MONTH_STEP_DAYS as int),
                    ..old
                },
                UserInput::FunctionKey(FunctionKey::Annulation) => new == App {
                    date: calendar_shift(old.date, -MONTH_STEP_DAYS as int),
                    ..old
                },
                _ => new == old,
            },
            SelectedTab::Borders | SelectedTab::World => if input == UserInput::FunctionKey(
                FunctionKey::Envoi,
            ) {
                new == App { demo_disjoint: !old.demo_disjoint, ..old }
            } else {
                new == old
            },
            SelectedTab::Wifi => new == App { wifi: new.wifi, ..old } && wifi_input_handled(
                old.wifi,
                new.wifi,
                input,
            ),
            _ => new == old,
        },
    }
}

/// The state after a frame: a pending connection is taken up, so it is no
/// longer pending; otherwise nothing changes.
pub open spec fn spec_after_frame<W>(old: App<W>) -> App<W> {
    if old.wifi.connect_pending {
        App { wifi: WifiForm { connect_pending: false, ..old.wifi }, ..old }
    } else {
        old
    }
}

impl<W> App<W> {
    /// The calendar is on a valid date and on the 15th of its month, and the
    /// Wi-Fi form is well formed.
    pub open spec fn wf(self) -> bool {
        &&& self.date.valid()
        &&& self.date.day == SHOWN_DAY
        &&& self.wifi.wf()
    }

    /// The application as it starts: welcome tab, January 2025, joined
    /// borders, running, empty Wi-Fi form.
    pub open spec fn is_initial(self) -> bool {
        &&& self.selected_tab == SelectedTab::Bienvenue
        &&& self.date == initial_date()
        &&& !self.demo_disjoint
        &&& !self.exit
        &&& self.wifi.is_initial()
    }

    /// An application with the given Wi-Fi connector.
    pub fn with_wifi_connector(wifi_connector: W) -> (r: Self)
        ensures
            r.wf(),
            r.is_initial(),
            r.wifi_connector == wifi_connector,
    {
        Self {
            selected_tab: SelectedTab::Bienvenue,
            date: CalendarDate::from_calendar_date(2025, 1, 15).unwrap(),
            demo_disjoint: false,
            exit: false,
            wifi: WifiForm::default(),
            wifi_connector,
        }
    }

    /// Handles one keystroke (see `input_handled`).
    pub fn handle_event(&mut self, input: UserInput)
        requires
            old(self).date.valid(),
        ensures
            final(self).date.valid(),
            old(self).wf() ==> final(self).wf(),
            input_handled(*old(self), *final(self), input),
    {
        match input {
            UserInput::FunctionKey(FunctionKey::Suite) => {
                self.selected_tab = self.selected_tab.next();
            },
            UserInput::FunctionKey(FunctionKey::Retour) => {
                self.selected_tab = self.selected_tab.previous();
            },
            UserInput::FunctionKey(FunctionKey::Sommaire) => {
                self.exit = true;
            },
            _ => match self.selected_tab {
                SelectedTab::Calendrier => match input {
                    UserInput::FunctionKey(FunctionKey::Correction) => {
                        self.date = self.date.shifted(MONTH_STEP_DAYS);
                    },
                    UserInput::FunctionKey(FunctionKey::Annulation) => {
                        self.date = self.date.shifted(-MONTH_STEP_DAYS);
                    },
                    _ => {},
                },
                SelectedTab::Borders | SelectedTab::World => {
                    if let UserInput::FunctionKey(FunctionKey::Envoi) = input {
                        self.demo_disjoint = !self.demo_disjoint;
                    }
                },
                SelectedTab::Wifi => match input {
                    UserInput::Char(c) => self.wifi.push_char(c),
                    UserInput::FunctionKey(FunctionKey::Correction) => self.wifi.backspace(),
                    UserInput::FunctionKey(FunctionKey::Annulation) => self.wifi.reset(),
                    UserInput::FunctionKey(FunctionKey::Envoi) => match self.wifi.focus {
                        WifiField::Ssid => {
                            self.wifi.focus = WifiField::Password;
                        },
                        WifiField::Password => {
                            self.wifi.status = WifiStatus::Connecting;
                            self.wifi.connect_pending = true;
                        },
                    },
                    _ => {},
                },
                _ => {},
            },
        }
    }

    /// Decides what the event loop does once a frame is drawn and sent: a
    /// submitted form is connected now, with the credentials it holds (its
    /// "connecting" status has just been shown); otherwise the loop reads the
    /// next keystroke.
    pub fn after_frame(&mut self) -> (r: LoopAction)
        ensures
            old(self).wf() ==> final(self).wf(),
            *final(self) == spec_after_frame(*old(self)),
            old(self).wifi.connect_pending ==> (r matches LoopAction::Connect { ssid, password }
                && ssid@ == old(self).wifi.ssid@ && password@ == old(self).wifi.password@),
            !old(self).wifi.connect_pending ==> r is ReadInput,
    {
        if self.wifi.connect_pending {
            self.wifi.connect_pending = false;
            LoopAction::Connect { ssid: self.wifi.ssid.clone(), password: self.wifi.password.clone() }
        } else {
            LoopAction::ReadInput
        }
    }

    /// Records the outcome of a connection attempt: connected with the
    /// address obtained, or failed with the error's message.
    pub fn connection_finished(&mut self, result: Result<String, String>)
        ensures
            old(self).wf() ==> final(self).wf(),
            *final(self) == (App {
                wifi: WifiForm {
                    status: match result {
                        Ok(ip) => WifiStatus::Connected(ip),
                        Err(err) => WifiStatus::Failed(err),
                    },
                    ..old(self).wifi
                },
                ..*old(self)
            }),
    {
        self.wifi.status = match result {
            Ok(ip) => WifiStatus::Connected(ip),
            Err(err) => WifiStatus::Failed(err),
        };
    }
}

impl<W: Default> Default for App<W> {
    /// An application with the default Wi-Fi connector.
    fn default() -> (r: Self)
        ensures
            r.wf(),
            r.is_initial(),
    {
        Self::with_wifi_connector(W::default())
    }
}

/// On the calendar tab, `Correction` shows the next month and `Annulation`
/// the previous one, except past the last or before the first month that
/// dates can reach, where the calendar stays.
pub proof fn lemma_month_keys<W>(old: App<W>, new: App<W>, key: FunctionKey)
    requires
        old.wf(),
        old.selected_tab == SelectedTab::Calendrier,
        input_handled(old, new, UserInput::FunctionKey(key)),
    ensures
        key == FunctionKey::Correction && !(old.date.year == MAX_YEAR && old.date.month == 12)
            ==> new.date == next_month(old.date),
        key == FunctionKey::Correction && (old.date.year == MAX_YEAR && old.date.month == 12)
            ==> new.date == old.date,
        key == FunctionKey::Annulation && !(old.date.year == MIN_YEAR && old.date.month == 1)
            ==> new.date == previous_month(old.date),
        key == FunctionKey::Annulation && (old.date.year == MIN_YEAR && old.date.month == 1)
            ==> new.date == old.date,
{
    lemma_shift_forward_is_next_month(old.date);
    lemma_shift_backward_is_previous_month(old.date);
}

/// Submitting the form from the password field shows the "connecting"
/// status and leaves a connection pending; the next frame starts exactly one
/// attempt, with credentials the radio's configuration accepts, and the
/// frame after that reads keystrokes again.
pub proof fn lemma_submit_connects_once<W>(old: App<W>, new: App<W>)
    requires
        old.wf(),
        old.selected_tab == SelectedTab::Wifi,
        old.wifi.focus == WifiField::Password,
        input_handled(old, new, UserInput::FunctionKey(FunctionKey::Envoi)),
    ensures
        new.wifi.connect_pending,
        new.wifi.status is Connecting,
        new.wifi.ssid@ == old.wifi.ssid@,
        new.wifi.password@ == old.wifi.password@,
        credentials_error(new.wifi.ssid@, new.wifi.password@) is None,
        !spec_after_frame(new).wifi.connect_pending,
        spec_after_frame(spec_after_frame(new)) == spec_after_frame(new),
{
}

/// `Sommaire` quits from every tab, whatever else the state holds.
pub proof fn lemma_sommaire_quits<W>(old: App<W>, new: App<W>)
    requires
        input_handled(old, new, UserInput::FunctionKey(FunctionKey::Sommaire)),
    ensures
        new.exit,
{
}

} // verus!
