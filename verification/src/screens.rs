//! What the screens say: the instruction lines under each tab and the
//! panels of the border demonstration.
use vstd::prelude::*;
use crate::tabs::SelectedTab;

verus! {

/// A piece of an instruction line; keys are shown in reverse video.
#[derive(Clone, Copy, Debug)]
pub struct Segment {
    pub text: &'static str,
    pub reversed: bool,
}

/// The border sets of the demonstration panels.
#[derive(Clone, Copy, Debug, PartialEq, Eq, Structural)]
pub enum BorderKind {
    Full,
    QuadrantInside,
    QuadrantOutside,
    OneEighthWide,
    OneEighthWideOffset,
    OneEighthWideBevel,
}

/// Background colours of the demonstration panels' borders.
#[derive(Clone, Copy, Debug, PartialEq, Eq, Structural)]
pub enum PanelColor {
    Green,
    Cyan,
}

/// One panel of the border demonstration: its title, its text, its border
/// set and the background colour of its border.
#[derive(Clone, Copy, Debug)]
pub struct BorderPanel {
    pub name: &'static str,
    pub content: &'static str,
    pub border: BorderKind,
    pub border_background: PanelColor,
}

/// A segment as text and reverse-video flag.
pub open spec fn segment_view(s: Segment) -> (Seq<char>, bool) {
    (s.text@, s.reversed)
}

/// A panel as title, text, border set and border background.
pub open spec fn panel_view(p: BorderPanel) -> (Seq<char>, Seq<char>, BorderKind, PanelColor) {
    (p.name@, p.content@, p.border, p.border_background)
}

/// The first instruction line, the same on every tab.
pub open spec fn spec_navigation_instructions() -> Seq<(Seq<char>, bool)> {
    seq![
        (" Onglets:"@, false),
        (" Suite/Retour"@, true),
        (" Quitter:"@, false),
        (" Sommaire"@, true),
    ]
}

/// The second instruction line, which depends on the tab.
pub open spec fn spec_tab_instructions(tab: SelectedTab) -> Seq<(Seq<char>, bool)> {
    match tab {
        SelectedTab::Calendrier => seq![(" Mois:"@, false), (" Correction/Annulation"@, true)],
        SelectedTab::Borders | SelectedTab::World => seq![
            (" Joint/Disjoint:"@, false),
            (" Envoi"@, true),
        ],
        SelectedTab::Wifi => seq![
            (" Suivant/OK:"@, false),
            (" Envoi"@, true),
            (" Effacer:"@, false),
            (" Correction"@, true),
        ],
        _ => Seq::empty(),
    }
}

/// The panels of the border demonstration: the left column from top to
/// bottom, then the right column.
pub open spec fn spec_border_panels() -> Seq<(Seq<char>, Seq<char>, BorderKind, PanelColor)> {
    seq![
        (" Full "@, "Bordure pleine"@, BorderKind::Full, PanelColor::Green),
        (" Quad Inside "@, "Quadrants intérieur"@, BorderKind::QuadrantInside, PanelColor::Green),
        (" Quad Outside "@, "Quadrants extérieur"@, BorderKind::QuadrantOutside, PanelColor::Cyan),
        (" 8th Width "@, "Largeur 1/8"@, BorderKind::OneEighthWide, PanelColor::Green),
        (" 8th Width bis "@, "Largeur 1/8 décalée"@, BorderKind::OneEighthWideOffset, PanelColor::Green),
        (" beveled "@, "Largeur 1/8 biseautée"@, BorderKind::OneEighthWideBevel, PanelColor::Green),
    ]
}

/// Each panel's border set is the one its title and its text name: the
/// full border for " Full ", the inside quadrants for " Quad Inside ", the
/// outside quadrants for " Quad Outside ", the one-eighth border for
/// " 8th Width ", its offset variant for " 8th Width bis " and its bevelled
/// variant for " beveled "; the six titles are all different.
pub proof fn lemma_panel_borders_match_names()
    ensures
        spec_border_panels().len() == 6,
        forall|i: int, j: int|
            0 <= i < j < 6 ==> #[trigger] spec_border_panels()[i].0 != #[trigger] spec_border_panels()[j].0,
        forall|i: int|
            0 <= i < 6 ==> {
                let p = #[trigger] spec_border_panels()[i];
                &&& p.0 == " Full "@ <==> p.2 == BorderKind::Full
                &&& p.0 == " Quad Inside "@ <==> p.2 == BorderKind::QuadrantInside
                &&& p.0 == " Quad Outside "@ <==> p.2 == BorderKind::QuadrantOutside
                &&& p.0 == " 8th Width "@ <==> p.2 == BorderKind::OneEighthWide
                &&& p.0 == " 8th Width bis "@ <==> p.2 == BorderKind::OneEighthWideOffset
                &&& p.0 == " beveled "@ <==> p.2 == BorderKind::OneEighthWideBevel
                &&& p.1 == "Quadrants intérieur"@ <==> p.2 == BorderKind::QuadrantInside
                &&& p.1 == "Quadrants extérieur"@ <==> p.2 == BorderKind::QuadrantOutside
            },
{
    reveal_strlit(" Full ");
    reveal_strlit(" Quad Inside ");
    reveal_strlit(" Quad Outside ");
    reveal_strlit(" 8th Width ");
    reveal_strlit(" 8th Width bis ");
    reveal_strlit(" beveled ");
    reveal_strlit("Bordure pleine");
    reveal_strlit("Quadrants intérieur");
    reveal_strlit("Quadrants extérieur");
    reveal_strlit("Largeur 1/8");
    reveal_strlit("Largeur 1/8 décalée");
    reveal_strlit("Largeur 1/8 biseautée");
    let s = spec_border_panels();
    assert(s[0].0[1] == 'F' && s[1].0[6] == 'I' && s[2].0[6] == 'O');
    assert(s[3].0.len() == 11 && s[4].0.len() == 15 && s[5].0.len() == 9);
    assert(s[0].0.len() == 6 && s[1].0.len() == 13 && s[2].0.len() == 14);
    assert(s[1].1.len() == 19 && s[2].1.len() == 19);
    assert(s[1].1[10] == 'i' && s[2].1[10] == 'e');
    assert(s[0].1.len() == 14 && s[3].1.len() == 11 && s[4].1.len() == 19 && s[5].1.len() == 21);
    assert(s[4].1[12] == 'd');
}

fn segment(text: &'static str, reversed: bool) -> (r: Segment)
    ensures
        r == (Segment { text, reversed }),
{
    Segment { text, reversed }
}

/// The first instruction line: how to change tabs and how to quit.
pub fn navigation_instructions() -> (r: Vec<Segment>)
    ensures
        r@.map_values(|s: Segment| segment_view(s)) == spec_navigation_instructions(),
{
    let mut r = Vec::new();
    r.push(segment(" Onglets:", false));
    r.push(segment(" Suite/Retour", true));
    r.push(segment(" Quitter:", false));
    r.push(segment(" Sommaire", true));
    r
}

/// The second instruction line: the keys of the tab shown.
pub fn tab_instructions(tab: SelectedTab) -> (r: Vec<Segment>)
    ensures
        r@.map_values(|s: Segment| segment_view(s)) == spec_tab_instructions(tab),
{
    let mut r = Vec::new();
    match tab {
        SelectedTab::Calendrier => {
            r.push(segment(" Mois:", false));
            r.push(segment(" Correction/Annulation", true));
        },
        SelectedTab::Borders | SelectedTab::World => {
            r.push(segment(" Joint/Disjoint:", false));
            r.push(segment(" Envoi", true));
        },
        SelectedTab::Wifi => {
            r.push(segment(" Suivant/OK:", false));
            r.push(segment(" Envoi", true));
            r.push(segment(" Effacer:", false));
            r.push(segment(" Correction", true));
        },
        _ => {},
    }
    r
}

fn panel(
    name: &'static str,
    content: &'static str,
    border: BorderKind,
    border_background: PanelColor,
) -> (r: BorderPanel)
    ensures
        r == (BorderPanel { name, content, border, border_background }),
{
    BorderPanel { name, content, border, border_background }
}

/// The panels of the border demonstration, in the order of
/// `spec_border_panels`.
pub fn border_panels() -> (r: Vec<BorderPanel>)
    ensures
        r@.map_values(|p: BorderPanel| panel_view(p)) == spec_border_panels(),
{
    let mut r = Vec::new();
    r.push(panel(" Full ", "Bordure pleine", BorderKind::Full, PanelColor::Green));
    r.push(panel(" Quad Inside ", "Quadrants intérieur", BorderKind::QuadrantInside, PanelColor::Green));
    r.push(panel(" Quad Outside ", "Quadrants extérieur", BorderKind::QuadrantOutside, PanelColor::Cyan));
    r.push(panel(" 8th Width ", "Largeur 1/8", BorderKind::OneEighthWide, PanelColor::Green));
    r.push(panel(" 8th Width bis ", "Largeur 1/8 décalée", BorderKind::OneEighthWideOffset, PanelColor::Green));
    r.push(panel(" beveled ", "Largeur 1/8 biseautée", BorderKind::OneEighthWideBevel, PanelColor::Green));
    r
}

} // verus!
