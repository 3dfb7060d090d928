use minitel_app::screens::{border_panels, navigation_instructions, tab_instructions, BorderKind, PanelColor};
use minitel_app::tabs::SelectedTab;
use minitel_app::uart::{
    default_uart_config, flush_step, DataBits, EspError, FlushStep, Parity, StopBits, Transfer,
    TransferStep, ESP_ERR_TIMEOUT,
};

#[test]
fn minitel_uart_settings() {
    let c = default_uart_config();
    assert_eq!(c.baudrate, 1200);
    assert_eq!(c.stop_bits, StopBits::Stop1);
    assert_eq!(c.data_bits, DataBits::DataBits7);
    assert_eq!(c.parity, Parity::ParityEven);
}

#[test]
fn read_transfer_steps() {
    let mut t = Transfer::new(10);
    assert!(!t.is_complete());
    assert_eq!(t.record_read(Ok(4)), TransferStep::Progressed);
    assert_eq!(t.done, 4);
    assert_eq!(t.record_read(Ok(0)), TransferStep::Wait);
    assert_eq!(t.record_read(Err(EspError { code: ESP_ERR_TIMEOUT })), TransferStep::Wait);
    assert_eq!(t.done, 4);
    assert_eq!(t.record_read(Err(EspError { code: 0x103 })), TransferStep::Failed(EspError { code: 0x103 }));
    assert_eq!(t.record_read(Ok(6)), TransferStep::Progressed);
    assert!(t.is_complete());
    assert_eq!(t.done, 10);
}

#[test]
fn transfer_never_passes_total() {
    let mut t = Transfer::new(3);
    assert_eq!(t.record_read(Ok(usize::MAX)), TransferStep::Progressed);
    assert_eq!(t.done, 3);
    assert!(Transfer::new(0).is_complete());
}

#[test]
fn write_transfer_steps() {
    let mut t = Transfer::new(5);
    assert_eq!(t.record_write(Ok(0)), TransferStep::Wait);
    assert_eq!(t.record_write(Ok(2)), TransferStep::Progressed);
    assert_eq!(t.done, 2);
    assert_eq!(
        t.record_write(Err(EspError { code: ESP_ERR_TIMEOUT })),
        TransferStep::Failed(EspError { code: ESP_ERR_TIMEOUT })
    );
    assert_eq!(t.done, 2);
}

#[test]
fn flush_steps() {
    assert_eq!(flush_step(Ok(())), FlushStep::Done);
    assert_eq!(flush_step(Err(EspError { code: ESP_ERR_TIMEOUT })), FlushStep::Wait);
    assert_eq!(flush_step(Err(EspError { code: -1 })), FlushStep::Failed(EspError { code: -1 }));
}

fn texts(v: Vec<minitel_app::screens::Segment>) -> Vec<(&'static str, bool)> {
    v.into_iter().map(|s| (s.text, s.reversed)).collect()
}

#[test]
fn instruction_lines() {
    assert_eq!(
        texts(navigation_instructions()),
        vec![(" Onglets:", false), (" Suite/Retour", true), (" Quitter:", false), (" Sommaire", true)]
    );
    assert_eq!(
        texts(tab_instructions(SelectedTab::Calendrier)),
        vec![(" Mois:", false), (" Correction/Annulation", true)]
    );
    assert_eq!(
        texts(tab_instructions(SelectedTab::World)),
        vec![(" Joint/Disjoint:", false), (" Envoi", true)]
    );
    assert_eq!(texts(tab_instructions(SelectedTab::Borders)), texts(tab_instructions(SelectedTab::World)));
    assert_eq!(
        texts(tab_instructions(SelectedTab::Wifi)),
        vec![(" Suivant/OK:", false), (" Envoi", true), (" Effacer:", false), (" Correction", true)]
    );
    assert!(tab_instructions(SelectedTab::Bienvenue).is_empty());
}

#[test]
fn border_demo_panels() {
    let panels = border_panels();
    assert_eq!(panels.len(), 6);
    assert_eq!(panels[0].name, " Full ");
    assert_eq!(panels[0].content, "Bordure pleine");
    assert_eq!(panels[0].border, BorderKind::Full);
    assert_eq!(panels[2].border_background, PanelColor::Cyan);
    assert_eq!(panels[4].content, "Largeur 1/8 décalée");
    assert_eq!(panels[5].name, " beveled ");
    assert_eq!(panels[5].border, BorderKind::OneEighthWideBevel);
    assert!(panels.iter().enumerate().all(|(i, p)| (i == 2) == (p.border_background == PanelColor::Cyan)));
}
