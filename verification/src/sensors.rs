//! Decisions for the sensor read endpoints: whether one read request is
//! served, refused as unknown, or failed by the simulated-unavailability
//! draw, and the generated descriptor list for the catalog.

use vstd::prelude::*;
use vstd::string::StrSliceExecFns;
use vstd::string::StringExecFns;

use crate::catalog::available_sensors;
use crate::catalog::catalog_contains;
use crate::catalog::catalog_spec;
use crate::catalog::is_catalog_key;

verus! {

/// How one sensor read request ends.
#[derive(Clone, Copy, Debug, PartialEq, Eq, Structural)]
pub enum SensorOutcome {
    /// The simulated-failure draw hit: the reading is withheld.
    Unavailable,
    /// The requested key is not in the catalog.
    NotFound,
    /// A reading is served.
    Served,
}

impl SensorOutcome {
    /// The HTTP status code the outcome surfaces as.
    pub fn status_code(&self) -> (code: u16)
        ensures
            *self == SensorOutcome::Unavailable ==> code == 500,
            *self == SensorOutcome::NotFound ==> code == 404,
            *self == SensorOutcome::Served ==> code == 200,
    {
        match self {
            SensorOutcome::Unavailable => 500,
            SensorOutcome::NotFound => 404,
            SensorOutcome::Served => 200,
        }
    }
}

/// Decide one sensor read request. An unknown key is always refused — the
/// failure draw never changes that — and among known keys the simulated
/// failure (drawn by the caller) withholds the reading, else it is served.
pub fn sensor_request_outcome(key: &str, simulate_error: bool) -> (r: SensorOutcome)
    ensures
        !is_catalog_key(key@) ==> r == SensorOutcome::NotFound,
        is_catalog_key(key@) && simulate_error ==> r == SensorOutcome::Unavailable,
        is_catalog_key(key@) && !simulate_error ==> r == SensorOutcome::Served,
{
    if !catalog_contains(key) {
        SensorOutcome::NotFound
    } else if simulate_error {
        SensorOutcome::Unavailable
    } else {
        SensorOutcome::Served
    }
}

/// The key with every dash turned into a space, for human-readable
/// descriptions.
pub open spec fn dash_to_space(s: Seq<char>) -> Seq<char> {
    Seq::new(
        s.len(),
        |i: int|
            if s[i] == '-' {
                ' '
            } else {
                s[i]
            },
    )
}

/// Relies on String::push: append one character.
#[verifier::external_body]
fn push_char(s: &mut String, c: char)
    ensures
        final(s)@ == old(s)@.push(c),
{
    s.push(c);
}

/// The key with dashes replaced by spaces.
pub fn display_key(key: &str) -> (r: String)
    ensures
        r@ == dash_to_space(key@),
{
    let n = key.unicode_len();
    let mut out = String::new();
    let mut i: usize = 0;
    while i < n
        invariant
            i <= n,
            n == key@.len(),
            out@ == dash_to_space(key@).take(i as int),
        decreases n - i,
    {
        let c = key.get_char(i);
        if c == '-' {
            push_char(&mut out, ' ');
        } else {
            push_char(&mut out, c);
        }
        proof {
            assert(out@ =~= dash_to_space(key@).take(i as int + 1));
        }
        i += 1;
    }
    proof {
        assert(out@ =~= dash_to_space(key@));
    }
    out
}

/// One generated endpoint descriptor.
#[derive(Debug)]
pub struct EndpointInfo {
    pub name: String,
    pub url: String,
    pub method: String,
    pub description: String,
}

/// Whether one descriptor describes the given catalog key.
pub open spec fn describes_key(e: EndpointInfo, key: Seq<char>) -> bool {
    &&& e.name@ == key
    &&& e.url@ == "/api/v1/sensors/"@ + key
    &&& e.method@ == "GET"@
    &&& e.description@ == "Returns simulated "@ + dash_to_space(key) + " IoT sensor data"@
}

/// The generated descriptor list: one entry per catalog key, in catalog
/// order, each with its read path and description.
pub fn endpoint_descriptors() -> (r: Vec<EndpointInfo>)
    ensures
        r@.len() == catalog_spec().len(),
        forall|i: int| 0 <= i < r@.len() ==> describes_key(#[trigger] r@[i], catalog_spec()[i]),
{
    let sensors = available_sensors();
    let mut r: Vec<EndpointInfo> = Vec::new();
    let mut i: usize = 0;
    while i < sensors.len()
        invariant
            i <= sensors@.len(),
            sensors@.len() == catalog_spec().len(),
            forall|j: int| 0 <= j < sensors@.len() ==> sensors@[j]@ == catalog_spec()[j],
            r@.len() == i,
            forall|j: int| 0 <= j < i ==> describes_key(#[trigger] r@[j], catalog_spec()[j]),
        decreases sensors@.len() - i,
    {
        let key = &sensors[i];
        let url = "/api/v1/sensors/".to_owned().concat(key.as_str());
        let disp = display_key(key.as_str());
        let description = "Returns simulated ".to_owned().concat(disp.as_str()).concat(
            " IoT sensor data",
        );
        r.push(
            EndpointInfo { name: key.clone(), url, method: "GET".to_owned(), description },
        );
        i += 1;
    }
    r
}

} // verus!
