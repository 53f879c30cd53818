use exo_server::dashboard_state::{
    battery_charge_raw, default_pcb_status, display_name, error_title, update_alert,
};
use exo_server::dbc::{Messages, TelemetryBatterySensor};
use exo_server::protocol::Module;

#[test]
fn display_names() {
    assert_eq!(display_name(Module::Cockpit), "Cockpit");
    assert_eq!(display_name(Module::TelemetryBattery), "Batterie de Télémétrie");
    assert_eq!(display_name(Module::HighPower), "Haute Puissance");
    assert_eq!(display_name(Module::DriverInterface), "Interface Pilote");
    assert_eq!(display_name(Module::Hydrogen), "Inconnu");
    assert_eq!(display_name(Module::Broadcast), "Inconnu");
}

#[test]
fn titles_follow_the_code_convention() {
    assert_eq!(error_title(Module::Cockpit, true, 0x1002), "Délai de confirmation dépassé");
    assert_eq!(error_title(Module::HighPower, true, 0x4004), "Défaut d'isolation");
    assert_eq!(error_title(Module::HighPower, false, 0x4301), "Retirer le DMS");
    assert_eq!(error_title(Module::TelemetryBattery, false, 0x3301), "Avertissement de température");
    assert_eq!(error_title(Module::DriverInterface, true, 0x5001), "Défaut CAN");
    assert_eq!(error_title(Module::DriverInterface, false, 0x5300), "Avertissement de communication");
    // The right code with the wrong severity, or from the wrong PCB, is unknown.
    assert_eq!(error_title(Module::HighPower, false, 0x4004), "Erreur inconnue");
    assert_eq!(error_title(Module::Cockpit, true, 0x4004), "Erreur inconnue");
    assert_eq!(error_title(Module::Hydrogen, true, 0x2000), "Erreur inconnue");
    // The stale sequential codes are no longer known.
    assert_eq!(error_title(Module::Cockpit, true, 0), "Erreur inconnue");
}

#[test]
fn default_panel_has_one_row_per_reporting_pcb() {
    let rows = default_pcb_status();
    let names: Vec<&str> = rows.iter().map(|r| r.name.as_str()).collect();
    assert_eq!(names, vec!["Cockpit", "Batterie de Télémétrie", "Haute Puissance", "Interface Pilote"]);
    assert!(rows.iter().all(|r| r.alert.is_none()));
}

#[test]
fn alert_lands_on_its_sources_row() {
    let mut rows = default_pcb_status();
    update_alert(&mut rows, Module::HighPower, true, 0x4002);
    let a = rows[2].alert.as_ref().unwrap();
    assert_eq!(a.title, "Température de la batterie auxiliaire trop élevée");
    assert_eq!(a.severity, "error");
    assert!(rows[0].alert.is_none() && rows[1].alert.is_none() && rows[3].alert.is_none());

    update_alert(&mut rows, Module::HighPower, false, 0x4300);
    let a = rows[2].alert.as_ref().unwrap();
    assert_eq!(a.title, "Température élevée (batterie auxiliaire)");
    assert_eq!(a.severity, "warning");

    update_alert(&mut rows, Module::TelemetryBattery, true, 0x9999);
    let a = rows[1].alert.as_ref().unwrap();
    assert_eq!(a.title, "Erreur inconnue");
    assert_eq!(a.severity, "error");
}

#[test]
fn alert_from_module_without_row_changes_nothing() {
    let mut rows = default_pcb_status();
    update_alert(&mut rows, Module::Hydrogen, true, 0x2000);
    update_alert(&mut rows, Module::Broadcast, false, 0);
    assert!(rows.iter().all(|r| r.alert.is_none()));
    assert_eq!(rows.len(), 4);
}

#[test]
fn battery_charge_only_from_its_sensor_frame() {
    assert_eq!(battery_charge_raw(&Messages::LpPcb03D(TelemetryBatterySensor::M0 { batt_so_c: 200 })), Some(200));
    assert_eq!(battery_charge_raw(&Messages::LpPcb03D(TelemetryBatterySensor::Other)), None);
    assert_eq!(battery_charge_raw(&Messages::LpPcb04D), None);
}
