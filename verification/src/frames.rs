//! Decoding of inbound socket control frames: JSON objects tagged by an
//! `action` field. A frame that cannot be parsed or whose fields have the
//! wrong shape decodes to nothing — the caller ignores it silently and the
//! session stays open.

use vstd::prelude::*;

use crate::catalog::key_views;
use crate::session::ControlFrame;

verus! {

/// The control-frame parts a text frame carries — the action tag, the
/// optional sensors list, the optional interval — or nothing when the text
/// is malformed: not valid JSON, no string under `action`, a `sensors` field
/// that is not an array of strings, or an `interval` that is not an unsigned
/// integer. The parts depend on the text alone.
pub uninterp spec fn parts_of(s: Seq<char>) -> Option<
    (Seq<char>, Option<Seq<Seq<char>>>, Option<u64>),
>;

/// The views of an optional list of owned keys.
pub open spec fn option_views(v: Option<Vec<String>>) -> Option<Seq<Seq<char>>> {
    match v {
        Some(x) => Some(key_views(x@)),
        None => None,
    }
}

/// Relies on serde_json's `from_str::<Value>` and `Value`'s accessors `get`,
/// `as_str`, `as_array`, `as_u64` and `is_null`: parse one inbound text
/// frame and read its action tag and its `sensors` and `interval` fields. A
/// `null` field counts as absent; any wrongly-shaped field spoils the whole
/// frame, as the lenient tagged decoding of the protocol asks.
#[verifier::external_body]
fn extract_parts(text: &str) -> (r: Option<(String, Option<Vec<String>>, Option<u64>)>)
    ensures
        (match r {
            Some(p) => parts_of(text@) == Some((p.0@, option_views(p.1), p.2)),
            None => parts_of(text@) is None,
        }),
{
    let v: serde_json::Value = serde_json::from_str(text).ok()?;
    let action = v.get("action")?.as_str()?.to_owned();
    let sensors = match v.get("sensors") {
        Some(sv) if !sv.is_null() => {
            let items = sv.as_array()?;
            Some(items.iter().map(|e| e.as_str().map(str::to_owned)).collect::<Option<Vec<String>>>()?)
        },
        _ => None,
    };
    let interval = match v.get("interval") {
        Some(iv) if !iv.is_null() => Some(iv.as_u64()?),
        _ => None,
    };
    Some((action, sensors, interval))
}

/// The frame a set of decoded parts assembles to: the action tag alone
/// decides the variant, an unrecognized tag yields no frame.
pub open spec fn frame_of_parts(
    action: Seq<char>,
    sensors: Option<Seq<Seq<char>>>,
    interval: Option<u64>,
    r: Option<ControlFrame>,
) -> bool {
    if action == "subscribe"@ {
        match r {
            Some(ControlFrame::Subscribe { sensors: s2, interval: i2 }) => option_views(s2)
                == sensors && i2 == interval,
            _ => false,
        }
    } else if action == "unsubscribe"@ {
        match r {
            Some(ControlFrame::Unsubscribe { sensors: s2 }) => option_views(s2) == sensors,
            _ => false,
        }
    } else if action == "list"@ {
        r == Some(ControlFrame::List)
    } else if action == "ping"@ {
        r == Some(ControlFrame::Ping)
    } else {
        r is None
    }
}

/// Assemble a control frame from its decoded parts. The action name alone
/// decides the variant; an unrecognized action yields no frame.
pub fn frame_from_parts(action: &String, sensors: Option<Vec<String>>, interval: Option<u64>) -> (r:
    Option<ControlFrame>)
    ensures
        action@ == "subscribe"@ ==> (match r {
            Some(ControlFrame::Subscribe { sensors: s2, interval: i2 }) => s2 == sensors && i2
                == interval,
            _ => false,
        }),
        action@ == "unsubscribe"@ ==> (match r {
            Some(ControlFrame::Unsubscribe { sensors: s2 }) => s2 == sensors,
            _ => false,
        }),
        action@ == "list"@ ==> r == Some(ControlFrame::List),
        action@ == "ping"@ ==> r == Some(ControlFrame::Ping),
        action@ != "subscribe"@ && action@ != "unsubscribe"@ && action@ != "list"@ && action@
            != "ping"@ ==> r is None,
        frame_of_parts(action@, option_views(sensors), interval, r),
{
    proof {
        reveal_strlit("subscribe");
        reveal_strlit("unsubscribe");
        reveal_strlit("list");
        reveal_strlit("ping");
        assert("subscribe"@.len() == 9);
        assert("unsubscribe"@.len() == 11);
        assert("list"@.len() == 4);
        assert("ping"@.len() == 4);
        assert("list"@[0] == 'l' && "ping"@[0] == 'p');
    }
    if *action == "subscribe".to_owned() {
        Some(ControlFrame::Subscribe { sensors, interval })
    } else if *action == "unsubscribe".to_owned() {
        Some(ControlFrame::Unsubscribe { sensors })
    } else if *action == "list".to_owned() {
        Some(ControlFrame::List)
    } else if *action == "ping".to_owned() {
        Some(ControlFrame::Ping)
    } else {
        None
    }
}

/// Decode one inbound text frame: read its parts and assemble the control
/// frame. A malformed text — unparsable, or with a wrongly-shaped field —
/// carries no parts and decodes to nothing; an unrecognized action name also
/// decodes to nothing. The session's caller ignores such frames silently.
pub fn decode_frame(text: &str) -> (r: Option<ControlFrame>)
    ensures
        (match parts_of(text@) {
            Some(p) => frame_of_parts(p.0, p.1, p.2, r),
            None => r is None,
        }),
{
    match extract_parts(text) {
        Some((action, sensors, interval)) => frame_from_parts(&action, sensors, interval),
        None => None,
    }
}

} // verus!
