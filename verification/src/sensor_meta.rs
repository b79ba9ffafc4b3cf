//! Metadata attached to every synthetic reading: the equipment hierarchy
//! slot, the node addressing, the publish topic, the measurement unit code,
//! and the quality-to-status mapping. The reading values themselves come
//! from the external value synthesizer; only this structural metadata is the
//! library's own.

use vstd::prelude::*;
use vstd::string::StringExecFns;

verus! {

/// An equipment hierarchy slot: site, area, line, unit, equipment.
#[derive(Clone, Debug)]
pub struct Isa95Equipment {
    pub site: String,
    pub area: String,
    pub line: String,
    pub unit: String,
    pub equipment: String,
}

/// Node addressing information for one sensor.
#[derive(Clone, Debug)]
pub struct OpcUaNode {
    pub node_id: String,
    pub browse_name: String,
    pub display_name: String,
    pub namespace_index: u16,
}

/// The topic a reading is published under.
#[derive(Clone, Debug)]
pub struct SparkplugTopic {
    pub version: String,
    pub group_id: String,
    pub message_type: String,
    pub edge_node_id: String,
    pub device_id: String,
}

/// A measurement unit: its machine code and its display text.
#[derive(Clone, Debug)]
pub struct UcumUnit {
    pub code: String,
    pub display: String,
}

/// The quality judgment attached to a reading.
#[derive(Clone, Copy, Debug, PartialEq, Eq, Structural)]
pub enum DataQuality {
    Good,
    GoodUncertain,
    Uncertain,
    Bad,
}

/// The status code a reading carries, mapped from its quality.
#[derive(Clone, Copy, Debug, PartialEq, Eq, Structural)]
pub enum OpcUaStatusCode {
    Good,
    GoodUncertain,
    UncertainInitialValue,
    BadSensorFailure,
    BadCommunicationError,
    BadOutOfService,
}

/// The fixed hierarchy slot for a piece of equipment: the one site, the
/// given area and line, the line's unit, the equipment name.
pub fn generate_isa95_hierarchy(equipment_name: &str, line: &str, area: &str) -> (r: Isa95Equipment)
    ensures
        r.site@ == "Thailand-Plant-01"@,
        r.area@ == area@,
        r.line@ == line@,
        r.unit@ == line@ + "-Unit"@,
        r.equipment@ == equipment_name@,
{
    Isa95Equipment {
        site: "Thailand-Plant-01".to_owned(),
        area: area.to_owned(),
        line: line.to_owned(),
        unit: line.to_owned().concat("-Unit"),
        equipment: equipment_name.to_owned(),
    }
}

/// Node addressing for one sensor: its node identifier and browse name in
/// namespace 2.
pub fn generate_opcua_node(sensor_id: &str, display_name: &str) -> (r: OpcUaNode)
    ensures
        r.node_id@ == "ns=2;s="@ + sensor_id@,
        r.browse_name@ == "2:"@ + sensor_id@,
        r.display_name@ == display_name@,
        r.namespace_index == 2,
{
    OpcUaNode {
        node_id: "ns=2;s=".to_owned().concat(sensor_id),
        browse_name: "2:".to_owned().concat(sensor_id),
        display_name: display_name.to_owned(),
        namespace_index: 2,
    }
}

/// The publish topic for one device: fixed version, message type and edge
/// node, the given group and device.
pub fn generate_sparkplug_topic(group_id: &str, device_id: &str) -> (r: SparkplugTopic)
    ensures
        r.version@ == "spBv1.0"@,
        r.group_id@ == group_id@,
        r.message_type@ == "DDATA"@,
        r.edge_node_id@ == "Edge-Node-01"@,
        r.device_id@ == device_id@,
{
    SparkplugTopic {
        version: "spBv1.0".to_owned(),
        group_id: group_id.to_owned(),
        message_type: "DDATA".to_owned(),
        edge_node_id: "Edge-Node-01".to_owned(),
        device_id: device_id.to_owned(),
    }
}

/// The unit code a display unit maps to; a unit with no listed code keeps
/// its own text as the code.
pub open spec fn ucum_code_spec(unit: Seq<char>) -> Seq<char> {
    if unit == "°C"@ {
        "Cel"@
    } else if unit == "°F"@ {
        "[degF]"@
    } else if unit == "%RH"@ {
        "%"@
    } else if unit == "bar"@ {
        "bar"@
    } else if unit == "hPa"@ {
        "hPa"@
    } else if unit == "Pa"@ {
        "Pa"@
    } else if unit == "mm/s"@ {
        "mm/s"@
    } else if unit == "Hz"@ {
        "Hz"@
    } else if unit == "kW"@ {
        "kW"@
    } else if unit == "kVA"@ {
        "kVA"@
    } else if unit == "kVAR"@ {
        "kVAR"@
    } else if unit == "V"@ {
        "V"@
    } else if unit == "A"@ {
        "A"@
    } else if unit == "m³/h"@ {
        "m3/h"@
    } else if unit == "L/min"@ {
        "L/min"@
    } else if unit == "m³"@ {
        "m3"@
    } else if unit == "kg/m³"@ {
        "kg/m3"@
    } else if unit == "cSt"@ {
        "cSt"@
    } else if unit == "ppm"@ {
        "ppm"@
    } else if unit == "µg/m³"@ {
        "ug/m3"@
    } else if unit == "pH"@ {
        "pH"@
    } else if unit == "mV"@ {
        "mV"@
    } else if unit == "NTU"@ {
        "NTU"@
    } else if unit == "µS/cm"@ {
        "uS/cm"@
    } else if unit == "m"@ {
        "m"@
    } else if unit == "mm"@ {
        "mm"@
    } else if unit == "%"@ {
        "%"@
    } else if unit == "RPM"@ {
        "rpm"@
    } else if unit == "dBm"@ {
        "dBm"@
    } else {
        unit
    }
}

/// The unit mapping: the display text stays the caller's own; the code is
/// the listed machine code, or the display text itself when none is listed.
pub fn get_ucum_unit(unit: &str) -> (r: UcumUnit)
    ensures
        r.code@ == ucum_code_spec(unit@),
        r.display@ == unit@,
{
    let u = unit.to_owned();
    let code: String = if u == "°C".to_owned() {
        "Cel".to_owned()
    } else if u == "°F".to_owned() {
        "[degF]".to_owned()
    } else if u == "%RH".to_owned() {
        "%".to_owned()
    } else if u == "bar".to_owned() {
        "bar".to_owned()
    } else if u == "hPa".to_owned() {
        "hPa".to_owned()
    } else if u == "Pa".to_owned() {
        "Pa".to_owned()
    } else if u == "mm/s".to_owned() {
        "mm/s".to_owned()
    } else if u == "Hz".to_owned() {
        "Hz".to_owned()
    } else if u == "kW".to_owned() {
        "kW".to_owned()
    } else if u == "kVA".to_owned() {
        "kVA".to_owned()
    } else if u == "kVAR".to_owned() {
        "kVAR".to_owned()
    } else if u == "V".to_owned() {
        "V".to_owned()
    } else if u == "A".to_owned() {
        "A".to_owned()
    } else if u == "m³/h".to_owned() {
        "m3/h".to_owned()
    } else if u == "L/min".to_owned() {
        "L/min".to_owned()
    } else if u == "m³".to_owned() {
        "m3".to_owned()
    } else if u == "kg/m³".to_owned() {
        "kg/m3".to_owned()
    } else if u == "cSt".to_owned() {
        "cSt".to_owned()
    } else if u == "ppm".to_owned() {
        "ppm".to_owned()
    } else if u == "µg/m³".to_owned() {
        "ug/m3".to_owned()
    } else if u == "pH".to_owned() {
        "pH".to_owned()
    } else if u == "mV".to_owned() {
        "mV".to_owned()
    } else if u == "NTU".to_owned() {
        "NTU".to_owned()
    } else if u == "µS/cm".to_owned() {
        "uS/cm".to_owned()
    } else if u == "m".to_owned() {
        "m".to_owned()
    } else if u == "mm".to_owned() {
        "mm".to_owned()
    } else if u == "%".to_owned() {
        "%".to_owned()
    } else if u == "RPM".to_owned() {
        "rpm".to_owned()
    } else if u == "dBm".to_owned() {
        "dBm".to_owned()
    } else {
        unit.to_owned()
    };
    UcumUnit { code, display: u }
}

/// The status code each quality judgment maps to.
pub fn generate_opcua_status_code(quality: &DataQuality) -> (r: OpcUaStatusCode)
    ensures
        *quality == DataQuality::Good ==> r == OpcUaStatusCode::Good,
        *quality == DataQuality::GoodUncertain ==> r == OpcUaStatusCode::GoodUncertain,
        *quality == DataQuality::Uncertain ==> r == OpcUaStatusCode::UncertainInitialValue,
        *quality == DataQuality::Bad ==> r == OpcUaStatusCode::BadSensorFailure,
{
    match quality {
        DataQuality::Good => OpcUaStatusCode::Good,
        DataQuality::GoodUncertain => OpcUaStatusCode::GoodUncertain,
        DataQuality::Uncertain => OpcUaStatusCode::UncertainInitialValue,
        DataQuality::Bad => OpcUaStatusCode::BadSensorFailure,
    }
}

} // verus!
