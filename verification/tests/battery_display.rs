//! The battery display rendered from plain readings, one case per mode
//! and per charging state, and the plugin constructors themselves.

use redblocks::plugins::battery::{bat_display, BatOut, BatPlugin, BatReading, BatState};

fn reading(state: BatState) -> BatReading {
    BatReading {
        percent: 75,
        temperature: Some(36),
        to_empty_min: Some(125),
        to_full_min: Some(45),
        state,
    }
}

#[test]
fn percent_mode_concatenates_batteries() {
    let rs = vec![reading(BatState::Discharging)];
    assert_eq!(bat_display(BatOut::Percent, &rs), "75%");
    let mut second = reading(BatState::Discharging);
    second.percent = 50;
    let rs = vec![reading(BatState::Discharging), second];
    assert_eq!(bat_display(BatOut::Percent, &rs), "75%50%");
}

#[test]
fn celsius_mode() {
    let rs = vec![reading(BatState::Discharging)];
    assert_eq!(bat_display(BatOut::Celsius, &rs), "36 °C");
    let mut unreported = reading(BatState::Discharging);
    unreported.temperature = None;
    let rs = vec![unreported];
    assert_eq!(bat_display(BatOut::Celsius, &rs), "");
}

#[test]
fn time_mode_discharging() {
    let rs = vec![reading(BatState::Discharging)];
    assert_eq!(bat_display(BatOut::Time, &rs), "2h");
}

#[test]
fn time_mode_charging() {
    let rs = vec![reading(BatState::Charging)];
    assert_eq!(bat_display(BatOut::Time, &rs), "45m (Charging)");
}

#[test]
fn time_mode_steady_states() {
    assert_eq!(bat_display(BatOut::Time, &vec![reading(BatState::Full)]), "Full");
    assert_eq!(bat_display(BatOut::Time, &vec![reading(BatState::Empty)]), "empty");
    assert_eq!(bat_display(BatOut::Time, &vec![reading(BatState::Unknown)]), "Unknown");
    assert_eq!(bat_display(BatOut::Time, &vec![reading(BatState::Other)]), "nonexhastive");
}

#[test]
fn no_batteries_renders_empty() {
    let rs: Vec<BatReading> = vec![];
    assert_eq!(bat_display(BatOut::Percent, &rs), "");
    assert_eq!(bat_display(BatOut::Celsius, &rs), "");
    assert_eq!(bat_display(BatOut::Time, &rs), "");
}

#[test]
fn default_mode_is_percent() {
    assert!(matches!(BatOut::default(), BatOut::Percent));
}

#[test]
fn constructors_render_empty_before_first_refresh() {
    assert_eq!(BatPlugin::new_percent().render(), "");
    assert_eq!(BatPlugin::new_celsius().render(), "");
    assert_eq!(BatPlugin::new_time().render(), "");
}
