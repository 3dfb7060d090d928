//! The application's tabs, their order, names and colours.
use vstd::prelude::*;

verus! {

/// The tabs of the application, in display order.
#[derive(Clone, Copy, Debug, PartialEq, Eq, Structural)]
pub enum SelectedTab {
    Bienvenue,
    Calendrier,
    World,
    Borders,
    Wifi,
}

/// The background colours the application gives its tabs.
#[derive(Clone, Copy, Debug, PartialEq, Eq, Structural)]
pub enum TabColor {
    Yellow,
    Cyan,
    Magenta,
    Green,
    Red,
}

/// Number of tabs.
pub const TAB_COUNT: usize = 5;

impl Default for SelectedTab {
    /// The first tab, `Bienvenue`.
    fn default() -> (r: Self)
        ensures
            r == SelectedTab::Bienvenue,
    {
        SelectedTab::Bienvenue
    }
}

impl SelectedTab {
    /// Position of the tab in display order, starting at 0.
    pub open spec fn spec_index(self) -> nat {
        match self {
            SelectedTab::Bienvenue => 0,
            SelectedTab::Calendrier => 1,
            SelectedTab::World => 2,
            SelectedTab::Borders => 3,
            SelectedTab::Wifi => 4,
        }
    }

    /// The tab at position `i`, if there is one.
    pub open spec fn spec_from_index(i: int) -> Option<SelectedTab> {
        if i == 0 {
            Some(SelectedTab::Bienvenue)
        } else if i == 1 {
            Some(SelectedTab::Calendrier)
        } else if i == 2 {
            Some(SelectedTab::World)
        } else if i == 3 {
            Some(SelectedTab::Borders)
        } else if i == 4 {
            Some(SelectedTab::Wifi)
        } else {
            None
        }
    }

    /// The tab before this one; the first tab has none and stays.
    pub open spec fn spec_previous(self) -> SelectedTab {
        match Self::spec_from_index(self.spec_index() - 1) {
            Some(t) => t,
            None => self,
        }
    }

    /// The tab after this one; the last tab has none and stays.
    pub open spec fn spec_next(self) -> SelectedTab {
        match Self::spec_from_index(self.spec_index() + 1int) {
            Some(t) => t,
            None => self,
        }
    }

    /// The tab's name as shown in the tab bar.
    pub open spec fn spec_name(self) -> Seq<char> {
        match self {
            SelectedTab::Bienvenue => "Bienvenue"@,
            SelectedTab::Calendrier => "Cal"@,
            SelectedTab::World => "Monde"@,
            SelectedTab::Borders => "Bordures"@,
            SelectedTab::Wifi => "WiFi"@,
        }
    }

    /// Position of the tab in display order, starting at 0.
    pub fn index(self) -> (r: usize)
        ensures
            r == self.spec_index(),
            r < TAB_COUNT,
    {
        match self {
            SelectedTab::Bienvenue => 0,
            SelectedTab::Calendrier => 1,
            SelectedTab::World => 2,
            SelectedTab::Borders => 3,
            SelectedTab::Wifi => 4,
        }
    }

    /// The tab at position `i`, or `None` past the last tab.
    pub fn from_index(i: usize) -> (r: Option<SelectedTab>)
        ensures
            r == Self::spec_from_index(i as int),
            r is Some <==> i < TAB_COUNT,
    {
        match i {
            0 => Some(SelectedTab::Bienvenue),
            1 => Some(SelectedTab::Calendrier),
            2 => Some(SelectedTab::World),
            3 => Some(SelectedTab::Borders),
            4 => Some(SelectedTab::Wifi),
            _ => None,
        }
    }

    /// The previous tab; the first tab stays where it is.
    pub fn previous(self) -> (r: Self)
        ensures
            r == self.spec_previous(),
    {
        let current_index: usize = self.index();
        let previous_index: usize = current_index.saturating_sub(1);
        match Self::from_index(previous_index) {
            Some(tab) => tab,
            None => self,
        }
    }

    /// The next tab; the last tab stays where it is.
    pub fn next(self) -> (r: Self)
        ensures
            r == self.spec_next(),
    {
        let current_index: usize = self.index();
        let next_index: usize = current_index.saturating_add(1);
        match Self::from_index(next_index) {
            Some(tab) => tab,
            None => self,
        }
    }

    /// The tab's name as shown in the tab bar.
    pub fn name(self) -> (r: &'static str)
        ensures
            r@ == self.spec_name(),
            r@ == tab_names()[self.spec_index() as int],
    {
        match self {
            SelectedTab::Bienvenue => "Bienvenue",
            SelectedTab::Calendrier => "Cal",
            SelectedTab::World => "Monde",
            SelectedTab::Borders => "Bordures",
            SelectedTab::Wifi => "WiFi",
        }
    }

    /// The text of the tab's title: its name with a space on each side.
    pub fn title(self) -> (r: String)
        ensures
            r@ == " "@ + self.spec_name() + " "@,
    {
        let mut s = String::from_str(" ");
        s.append(self.name());
        s.append(" ");
        s
    }

    /// The tab's background colour.
    pub open spec fn spec_color(self) -> TabColor {
        match self {
            SelectedTab::Calendrier => TabColor::Yellow,
            SelectedTab::Bienvenue => TabColor::Cyan,
            SelectedTab::World => TabColor::Magenta,
            SelectedTab::Borders => TabColor::Green,
            SelectedTab::Wifi => TabColor::Red,
        }
    }

    /// The tab's background colour.
    pub fn color(self) -> (r: TabColor)
        ensures
            r == self.spec_color(),
            r == tab_colors()[self.spec_index() as int],
    {
        match self {
            SelectedTab::Calendrier => TabColor::Yellow,
            SelectedTab::Bienvenue => TabColor::Cyan,
            SelectedTab::World => TabColor::Magenta,
            SelectedTab::Borders => TabColor::Green,
            SelectedTab::Wifi => TabColor::Red,
        }
    }
}

/// The tab names in display order.
pub open spec fn tab_names() -> Seq<Seq<char>> {
    seq!["Bienvenue"@, "Cal"@, "Monde"@, "Bordures"@, "WiFi"@]
}

/// The tab colours in display order.
pub open spec fn tab_colors() -> Seq<TabColor> {
    seq![TabColor::Cyan, TabColor::Yellow, TabColor::Magenta, TabColor::Green, TabColor::Red]
}

/// Each tab is named, and coloured, by the entry of its position in the
/// display-order tables; no two tabs share a colour.
pub proof fn lemma_tab_names_and_colors_by_position(t: SelectedTab)
    ensures
        t.spec_name() == tab_names()[t.spec_index() as int],
        t.spec_color() == tab_colors()[t.spec_index() as int],
        forall|u: SelectedTab| #[trigger] u.spec_color() == t.spec_color() ==> u == t,
{
}

/// Tab positions and tabs correspond one to one.
pub proof fn lemma_index_roundtrip(t: SelectedTab)
    ensures
        SelectedTab::spec_from_index(t.spec_index() as int) == Some(t),
{
}

/// Going back one tab moves to the position before, except on the first tab,
/// which stays; going forward moves to the position after, except on the last
/// tab, which stays.
pub proof fn lemma_previous_next_positions(t: SelectedTab)
    ensures
        t.spec_index() == 0 ==> t.spec_previous() == t,
        t.spec_index() > 0 ==> t.spec_previous().spec_index() + 1 == t.spec_index(),
        t.spec_index() + 1 == TAB_COUNT ==> t.spec_next() == t,
        t.spec_index() + 1 < TAB_COUNT ==> t.spec_next().spec_index() == t.spec_index() + 1,
{
}

/// Going forward then back returns to the same tab, unless it was the last
/// tab; going back then forward returns to the same tab, unless it was the
/// first tab.
pub proof fn lemma_previous_next_inverse(t: SelectedTab)
    ensures
        t.spec_index() + 1 < TAB_COUNT ==> t.spec_next().spec_previous() == t,
        t.spec_index() > 0 ==> t.spec_previous().spec_next() == t,
{
}

} // verus!
