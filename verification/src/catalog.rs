//! The fixed, process-wide catalog of valid sensor keys. It is read-only
//! after startup and serves both validation of client subscriptions and the
//! default "subscribe to everything" behaviour.

use vstd::prelude::*;

verus! {

/// The catalog as a mathematical sequence of keys (each a sequence of chars).
pub open spec fn catalog_spec() -> Seq<Seq<char>> {
    seq![
        "temperature"@,
        "humidity"@,
        "oil-level"@,
        "oil-pressure"@,
        "air-quality"@,
        "pressure"@,
        "vibration"@,
        "energy-meter"@,
        "amr"@,
        "flow-meter"@,
        "gas-detector"@,
        "ph-sensor"@,
        "level-sensor"@,
        "proximity-sensor"@,
    ]
}

/// Whether a key is one of the catalog's sensor keys.
pub open spec fn is_catalog_key(k: Seq<char>) -> bool {
    catalog_spec().contains(k)
}

/// The full list of sensor keys, in catalog order.
pub fn available_sensors() -> (r: Vec<String>)
    ensures
        r@.len() == catalog_spec().len(),
        forall|i: int| 0 <= i < r@.len() ==> r@[i]@ == catalog_spec()[i],
{
    let mut v: Vec<String> = Vec::new();
    v.push("temperature".to_owned());
    v.push("humidity".to_owned());
    v.push("oil-level".to_owned());
    v.push("oil-pressure".to_owned());
    v.push("air-quality".to_owned());
    v.push("pressure".to_owned());
    v.push("vibration".to_owned());
    v.push("energy-meter".to_owned());
    v.push("amr".to_owned());
    v.push("flow-meter".to_owned());
    v.push("gas-detector".to_owned());
    v.push("ph-sensor".to_owned());
    v.push("level-sensor".to_owned());
    v.push("proximity-sensor".to_owned());
    v
}

/// The views of a sequence of owned keys, each as a sequence of chars.
pub open spec fn key_views(v: Seq<String>) -> Seq<Seq<char>> {
    v.map_values(|s: String| s@)
}

/// Whether a sequence of keys holds no key twice.
pub open spec fn distinct_keys(s: Seq<Seq<char>>) -> bool {
    forall|i: int, j: int| 0 <= i < j < s.len() ==> s[i] != s[j]
}

/// Membership test of a key in an owned key list.
pub fn keys_contain(v: &Vec<String>, key: &String) -> (b: bool)
    ensures
        b == key_views(v@).contains(key@),
{
    let mut i: usize = 0;
    while i < v.len()
        invariant
            i <= v@.len(),
            forall|j: int| 0 <= j < i ==> v@[j]@ != key@,
        decreases v@.len() - i,
    {
        if v[i] == *key {
            assert(key_views(v@)[i as int] == key@);
            return true;
        }
        i += 1;
    }
    assert(forall|j: int| 0 <= j < v@.len() ==> key_views(v@)[j] != key@);
    false
}

/// An element-by-element copy of an owned key list.
pub fn clone_keys(v: &Vec<String>) -> (r: Vec<String>)
    ensures
        r@ == v@,
{
    let mut r: Vec<String> = Vec::new();
    let mut i: usize = 0;
    while i < v.len()
        invariant
            i <= v@.len(),
            r@ == v@.take(i as int),
        decreases v@.len() - i,
    {
        r.push(v[i].clone());
        assert(r@ =~= v@.take(i + 1 as int));
        i += 1;
    }
    assert(r@ =~= v@);
    r
}

/// Membership test against the catalog.
pub fn catalog_contains(key: &str) -> (b: bool)
    ensures
        b == is_catalog_key(key@),
{
    let sensors = available_sensors();
    let key_string = key.to_owned();
    let mut i: usize = 0;
    while i < sensors.len()
        invariant
            i <= sensors@.len(),
            sensors@.len() == catalog_spec().len(),
            forall|j: int| 0 <= j < sensors@.len() ==> sensors@[j]@ == catalog_spec()[j],
            key_string@ == key@,
            forall|j: int| 0 <= j < i ==> catalog_spec()[j] != key@,
        decreases sensors@.len() - i,
    {
        if sensors[i] == key_string {
            assert(catalog_spec()[i as int] == key@);
            return true;
        }
        i += 1;
    }
    false
}

} // verus!
