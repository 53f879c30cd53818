//! The dashboard's PCB alert panel: one row per PCB, holding the latest error or
//! warning it reported, and the battery readings taken straight off data frames.

use vstd::prelude::*;

use crate::dbc::{Messages, TelemetryBatterySensor};
use crate::protocol::Module;

verus! {

/// An error or warning shown on a PCB's row.
#[derive(Debug)]
pub struct Alert {
    pub title: String,
    /// `"error"` or `"warning"`.
    pub severity: String,
}

/// One row of the PCB alert panel.
#[derive(Debug)]
pub struct PcbStatus {
    pub name: String,
    pub alert: Option<Alert>,
}

/// The panel name of a module. Hydrogen and Broadcast have no row.
pub open spec fn display_name_spec(m: Module) -> Seq<char> {
    match m {
        Module::Cockpit => "Cockpit"@,
        Module::TelemetryBattery => "Batterie de Télémétrie"@,
        Module::HighPower => "Haute Puissance"@,
        Module::DriverInterface => "Interface Pilote"@,
        Module::Hydrogen | Module::Broadcast => "Inconnu"@,
    }
}

/// Display name for the PCB alert panel.
pub fn display_name(m: Module) -> (s: &'static str)
    ensures
        s@ == display_name_spec(m),
{
    match m {
        Module::Cockpit => "Cockpit",
        Module::TelemetryBattery => "Batterie de Télémétrie",
        Module::HighPower => "Haute Puissance",
        Module::DriverInterface => "Interface Pilote",
        Module::Hydrogen | Module::Broadcast => "Inconnu",
    }
}

/// The title shown for a report from `source` with `code`.
///
/// Code convention: 0x{PCB}{seq}, where PCB is the sender's module number
/// (Cockpit 1, TelemetryBattery 3, HighPower 4, DriverInterface 5). Within a
/// PCB's range, 0x_000 to 0x_299 are errors (critical) and 0x_300 and up are
/// warnings. Anything else is an unknown error.
pub open spec fn error_title_spec(source: Module, critical: bool, code: u16) -> Seq<char> {
    match (source, critical, code) {
        (Module::Cockpit, true, 0x1000) => "Défaut du bus CAN"@,
        (Module::Cockpit, true, 0x1001) => "Défaut matériel"@,
        (Module::Cockpit, true, 0x1002) => "Délai de confirmation dépassé"@,
        (Module::TelemetryBattery, true, 0x3000) => "Défaut de la batterie"@,
        (Module::TelemetryBattery, true, 0x3001) => "Surchauffe"@,
        (Module::TelemetryBattery, true, 0x3002) => "Défaut du commutateur d'alimentation"@,
        (Module::TelemetryBattery, false, 0x3300) => "Charge faible"@,
        (Module::TelemetryBattery, false, 0x3301) => "Avertissement de température"@,
        (Module::HighPower, true, 0x4000) => "Capteur de température (batterie auxiliaire) manquant"@,
        (Module::HighPower, true, 0x4001) => "Capteur de température (batterie auxiliaire) déconnecté"@,
        (Module::HighPower, true, 0x4002) => "Température de la batterie auxiliaire trop élevée"@,
        (Module::HighPower, true, 0x4003) => "Défaut du DMS"@,
        (Module::HighPower, true, 0x4004) => "Défaut d'isolation"@,
        (Module::HighPower, false, 0x4300) => "Température élevée (batterie auxiliaire)"@,
        (Module::HighPower, false, 0x4301) => "Retirer le DMS"@,
        (Module::HighPower, false, 0x4302) => "Insérer le DMS"@,
        (Module::DriverInterface, true, 0x5000) => "Défaut système"@,
        (Module::DriverInterface, true, 0x5001) => "Défaut CAN"@,
        (Module::DriverInterface, false, 0x5300) => "Avertissement de communication"@,
        _ => "Erreur inconnue"@,
    }
}

/// Human-readable title for every known (source, critical, code) combination.
pub fn error_title(source: Module, critical: bool, code: u16) -> (s: &'static str)
    ensures
        s@ == error_title_spec(source, critical, code),
{
    match (source, critical, code) {
        (Module::Cockpit, true, 0x1000) => "Défaut du bus CAN",
        (Module::Cockpit, true, 0x1001) => "Défaut matériel",
        (Module::Cockpit, true, 0x1002) => "Délai de confirmation dépassé",
        (Module::TelemetryBattery, true, 0x3000) => "Défaut de la batterie",
        (Module::TelemetryBattery, true, 0x3001) => "Surchauffe",
        (Module::TelemetryBattery, true, 0x3002) => "Défaut du commutateur d'alimentation",
        (Module::TelemetryBattery, false, 0x3300) => "Charge faible",
        (Module::TelemetryBattery, false, 0x3301) => "Avertissement de température",
        (Module::HighPower, true, 0x4000) => "Capteur de température (batterie auxiliaire) manquant",
        (Module::HighPower, true, 0x4001) => "Capteur de température (batterie auxiliaire) déconnecté",
        (Module::HighPower, true, 0x4002) => "Température de la batterie auxiliaire trop élevée",
        (Module::HighPower, true, 0x4003) => "Défaut du DMS",
        (Module::HighPower, true, 0x4004) => "Défaut d'isolation",
        (Module::HighPower, false, 0x4300) => "Température élevée (batterie auxiliaire)",
        (Module::HighPower, false, 0x4301) => "Retirer le DMS",
        (Module::HighPower, false, 0x4302) => "Insérer le DMS",
        (Module::DriverInterface, true, 0x5000) => "Défaut système",
        (Module::DriverInterface, true, 0x5001) => "Défaut CAN",
        (Module::DriverInterface, false, 0x5300) => "Avertissement de communication",
        _ => "Erreur inconnue",
    }
}

/// Whether `code` lies in `source`'s range and on the side of it that
/// `critical` calls for: 0x{PCB}000 to 0x{PCB}299 for errors, 0x{PCB}300 and up
/// for warnings.
pub open spec fn follows_code_convention(source: Module, critical: bool, code: u16) -> bool {
    let pcb = code / 0x1000;
    let seq = code % 0x1000;
    &&& pcb == crate::protocol::module_number(source)
    &&& (critical <==> seq < 0x300)
}

/// Every code with a known title follows the 0x{PCB}{seq} convention; a code
/// outside it always shows as an unknown error.
pub proof fn lemma_titles_follow_code_convention(source: Module, critical: bool, code: u16)
    ensures
        !follows_code_convention(source, critical, code) ==> error_title_spec(source, critical, code)
            == "Erreur inconnue"@,
{
}

/// The severity word of a report.
pub open spec fn severity_spec(critical: bool) -> Seq<char> {
    if critical {
        "error"@
    } else {
        "warning"@
    }
}

/// `i` is the first row of `rows` named `name`.
pub open spec fn is_first_row(rows: Seq<PcbStatus>, name: Seq<char>, i: int) -> bool {
    &&& 0 <= i < rows.len()
    &&& rows[i].name@ == name
    &&& forall|k: int| 0 <= k < i ==> rows[k].name@ != name
}

/// `row` is `before` with its alert replaced by a report's title and severity.
pub open spec fn alert_set(row: PcbStatus, before: PcbStatus, title: Seq<char>, severity: Seq<char>) -> bool {
    &&& row.name == before.name
    &&& row.alert matches Some(a) && a.title@ == title && a.severity@ == severity
}

/// `after` is the panel `before` once a report has been applied: the first row
/// named like `source` carries the report's title and severity, every other
/// row is as it was, and a panel with no such row is unchanged.
pub open spec fn alert_applied(
    before: Seq<PcbStatus>,
    after: Seq<PcbStatus>,
    source: Module,
    critical: bool,
    code: u16,
) -> bool {
    &&& after.len() == before.len()
    &&& forall|i: int|
        is_first_row(before, display_name_spec(source), i) ==> {
            &&& alert_set(after[i], before[i], error_title_spec(source, critical, code), severity_spec(critical))
            &&& forall|j: int| 0 <= j < before.len() && j != i ==> after[j] == before[j]
        }
    &&& (forall|k: int| 0 <= k < before.len() ==> before[k].name@ != display_name_spec(source)) ==> after
        == before
}

/// Updates `source`'s row in the PCB alert panel with its latest reported error
/// or warning.
pub fn update_alert(pcbs: &mut Vec<PcbStatus>, source: Module, critical: bool, code: u16)
    ensures
        alert_applied(old(pcbs)@, final(pcbs)@, source, critical, code),
{
    let name = String::from_str(display_name(source));
    let n = pcbs.len();
    let mut i: usize = 0;
    while i < n
        invariant
            n == pcbs@.len(),
            pcbs@ == old(pcbs)@,
            name@ == display_name_spec(source),
            i <= n,
            forall|k: int| 0 <= k < i ==> pcbs@[k].name@ != name@,
        decreases n - i,
    {
        if pcbs[i].name == name {
            let title = String::from_str(error_title(source, critical, code));
            let severity = if critical {
                String::from_str("error")
            } else {
                String::from_str("warning")
            };
            pcbs[i].alert = Some(Alert { title, severity });
            assert(is_first_row(old(pcbs)@, display_name_spec(source), i as int));
            return;
        }
        i = i + 1;
    }
}

/// The module whose row sits at each position of the panel, top to bottom.
pub open spec fn panel_module(k: int) -> Module {
    if k == 0 {
        Module::Cockpit
    } else if k == 1 {
        Module::TelemetryBattery
    } else if k == 2 {
        Module::HighPower
    } else {
        Module::DriverInterface
    }
}

/// The position of a reporting module's row on the default panel.
pub open spec fn panel_index(m: Module) -> int {
    match m {
        Module::Cockpit => 0,
        Module::TelemetryBattery => 1,
        Module::HighPower => 2,
        _ => 3,
    }
}

/// The modules that have a row on the panel.
pub open spec fn has_panel_row(m: Module) -> bool {
    m != Module::Hydrogen && m != Module::Broadcast
}

/// The panel at start-up: one row per reporting PCB, none with an alert.
pub fn default_pcb_status() -> (rows: Vec<PcbStatus>)
    ensures
        rows@.len() == 4,
        forall|k: int|
            0 <= k < 4 ==> (#[trigger] rows@[k]).name@ == display_name_spec(panel_module(k))
                && rows@[k].alert is None,
{
    let mut rows: Vec<PcbStatus> = Vec::new();
    rows.push(PcbStatus { name: String::from_str(display_name(Module::Cockpit)), alert: None });
    rows.push(PcbStatus { name: String::from_str(display_name(Module::TelemetryBattery)), alert: None });
    rows.push(PcbStatus { name: String::from_str(display_name(Module::HighPower)), alert: None });
    rows.push(PcbStatus { name: String::from_str(display_name(Module::DriverInterface)), alert: None });
    rows
}

/// On a panel laid out as at start-up, a report from any PCB with a row lands
/// on that PCB's own row, and a report from Hydrogen or Broadcast matches no
/// row at all.
pub proof fn lemma_default_panel_routes_alerts(rows: Seq<PcbStatus>, m: Module)
    requires
        rows.len() == 4,
        forall|k: int| 0 <= k < 4 ==> (#[trigger] rows[k]).name@ == display_name_spec(panel_module(k)),
    ensures
        has_panel_row(m) ==> is_first_row(rows, display_name_spec(m), panel_index(m)),
        !has_panel_row(m) ==> forall|k: int| 0 <= k < rows.len() ==> rows[k].name@ != display_name_spec(m),
{
    reveal_strlit("Cockpit");
    reveal_strlit("Batterie de Télémétrie");
    reveal_strlit("Haute Puissance");
    reveal_strlit("Interface Pilote");
    reveal_strlit("Inconnu");
    assert(display_name_spec(Module::Cockpit)[0] != display_name_spec(Module::TelemetryBattery)[0]);
    assert(display_name_spec(Module::Cockpit)[0] != display_name_spec(Module::HighPower)[0]);
    assert(display_name_spec(Module::Cockpit)[0] != display_name_spec(Module::DriverInterface)[0]);
    assert(display_name_spec(Module::TelemetryBattery)[0] != display_name_spec(Module::HighPower)[0]);
    assert(display_name_spec(Module::TelemetryBattery)[0] != display_name_spec(Module::DriverInterface)[0]);
    assert(display_name_spec(Module::HighPower)[0] != display_name_spec(Module::DriverInterface)[0]);
    assert(display_name_spec(Module::Hydrogen)[1] != display_name_spec(Module::Cockpit)[1]);
    assert(display_name_spec(Module::Hydrogen)[0] != display_name_spec(Module::TelemetryBattery)[0]);
    assert(display_name_spec(Module::Hydrogen)[0] != display_name_spec(Module::HighPower)[0]);
    assert(display_name_spec(Module::Hydrogen)[2] != display_name_spec(Module::DriverInterface)[2]);
}

/// The raw state of charge carried by a TelemetryBattery data frame, when the
/// frame is its `Sensor` M0 frame (0..=255 spans 0..100 %).
pub fn battery_charge_raw(msg: &Messages) -> (r: Option<u8>)
    ensures
        r == (match *msg {
            Messages::LpPcb03D(TelemetryBatterySensor::M0 { batt_so_c }) => Some(batt_so_c),
            _ => None::<u8>,
        }),
{
    match msg {
        Messages::LpPcb03D(TelemetryBatterySensor::M0 { batt_so_c }) => Some(*batt_so_c),
        _ => None,
    }
}

/// The titles of all known reports, one entry per (source, critical, code).
pub open spec fn known_titles() -> Seq<(Module, bool, u16, Seq<char>)> {
    seq![
        (Module::Cockpit, true, 0x1000u16, "Défaut du bus CAN"@),
        (Module::Cockpit, true, 0x1001u16, "Défaut matériel"@),
        (Module::Cockpit, true, 0x1002u16, "Délai de confirmation dépassé"@),
        (Module::TelemetryBattery, true, 0x3000u16, "Défaut de la batterie"@),
        (Module::TelemetryBattery, true, 0x3001u16, "Surchauffe"@),
        (Module::TelemetryBattery, true, 0x3002u16, "Défaut du commutateur d'alimentation"@),
        (Module::TelemetryBattery, false, 0x3300u16, "Charge faible"@),
        (Module::TelemetryBattery, false, 0x3301u16, "Avertissement de température"@),
        (Module::HighPower, true, 0x4000u16, "Capteur de température (batterie auxiliaire) manquant"@),
        (Module::HighPower, true, 0x4001u16, "Capteur de température (batterie auxiliaire) déconnecté"@),
        (Module::HighPower, true, 0x4002u16, "Température de la batterie auxiliaire trop élevée"@),
        (Module::HighPower, true, 0x4003u16, "Défaut du DMS"@),
        (Module::HighPower, true, 0x4004u16, "Défaut d'isolation"@),
        (Module::HighPower, false, 0x4300u16, "Température élevée (batterie auxiliaire)"@),
        (Module::HighPower, false, 0x4301u16, "Retirer le DMS"@),
        (Module::HighPower, false, 0x4302u16, "Insérer le DMS"@),
        (Module::DriverInterface, true, 0x5000u16, "Défaut système"@),
        (Module::DriverInterface, true, 0x5001u16, "Défaut CAN"@),
        (Module::DriverInterface, false, 0x5300u16, "Avertissement de communication"@),
    ]
}

/// Each known report shows the title its entry of `known_titles` gives.
pub proof fn lemma_titles_match_table(i: int)
    requires
        0 <= i < known_titles().len(),
    ensures
        error_title_spec(known_titles()[i].0, known_titles()[i].1, known_titles()[i].2) == known_titles()[i].3,
{
}

/// Two different codes reported by the same PCB with the same severity never
/// show the same title, unless both are unknown.
pub proof fn lemma_known_titles_are_distinct(source: Module, critical: bool, c1: u16, c2: u16)
    requires
        c1 != c2,
        error_title_spec(source, critical, c1) != "Erreur inconnue"@,
    ensures
        error_title_spec(source, critical, c1) != error_title_spec(source, critical, c2),
{
    reveal_strlit("Défaut du bus CAN");
    reveal_strlit("Défaut matériel");
    reveal_strlit("Délai de confirmation dépassé");
    reveal_strlit("Défaut de la batterie");
    reveal_strlit("Surchauffe");
    reveal_strlit("Défaut du commutateur d'alimentation");
    reveal_strlit("Charge faible");
    reveal_strlit("Avertissement de température");
    reveal_strlit("Capteur de température (batterie auxiliaire) manquant");
    reveal_strlit("Capteur de température (batterie auxiliaire) déconnecté");
    reveal_strlit("Température de la batterie auxiliaire trop élevée");
    reveal_strlit("Défaut du DMS");
    reveal_strlit("Défaut d'isolation");
    reveal_strlit("Température élevée (batterie auxiliaire)");
    reveal_strlit("Retirer le DMS");
    reveal_strlit("Insérer le DMS");
    reveal_strlit("Défaut système");
    reveal_strlit("Défaut CAN");
    reveal_strlit("Avertissement de communication");
    reveal_strlit("Erreur inconnue");
    let t1 = error_title_spec(source, critical, c1);
    let t2 = error_title_spec(source, critical, c2);
    assert(t1.len() != t2.len() || t1[0] != t2[0] || t1[1] != t2[1]);
}

} // verus!
