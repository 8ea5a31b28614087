//! Screen capture bookkeeping: monitor descriptions, the choice of the
//! monitor to share, and the monitor list sent to the viewer.
use crate::input::MonitorGeom;
use crate::json_protocol::{as_u64, member, JsonValue};
use crate::wire::{
    decimal, json_array, json_bool, json_object, json_str, member_texts, render_array,
    render_bool, render_object, render_str, render_u64, str_eq, texts,
};
use vstd::prelude::*;

verus! {

/// One monitor as offered to the viewer's picker.
#[derive(Debug, Clone)]
pub struct MonitorInfo {
    pub index: usize,
    pub name: String,
    pub width: u32,
    pub height: u32,
    pub x: i32,
    pub y: i32,
    pub is_primary: bool,
}

/// A captured frame in RGBA.
pub struct Frame {
    pub width: u32,
    pub height: u32,
    pub rgba_data: Vec<u8>,
}

/// A captured and VP8-encoded frame.
pub struct EncodedFrame {
    pub data: Vec<u8>,
    pub timestamp_us: u64,
    pub width: u32,
    pub height: u32,
    pub is_keyframe: bool,
}

/// The index of the primary monitor (0 if none reports as primary).
pub fn primary_index(monitors: &Vec<MonitorInfo>) -> (i: usize)
    ensures
        (exists|j: int| 0 <= j < monitors@.len() && monitors@[j].is_primary) ==> {
            &&& i < monitors@.len()
            &&& monitors@[i as int].is_primary
            &&& forall|j: int| 0 <= j < i ==> !(#[trigger] monitors@[j]).is_primary
        },
        !(exists|j: int| 0 <= j < monitors@.len() && monitors@[j].is_primary) ==> i == 0,
{
    let mut k: usize = 0;
    while k < monitors.len()
        invariant
            k <= monitors.len(),
            forall|j: int| 0 <= j < k ==> !(#[trigger] monitors@[j]).is_primary,
        decreases monitors.len() - k,
    {
        if monitors[k].is_primary {
            return k;
        }
        k += 1;
    }
    0
}

/// Geometry used when no monitor is known.
pub open spec fn default_geom() -> MonitorGeom {
    MonitorGeom { x: 0, y: 0, width: 1920, height: 1080 }
}

/// The geometry of a monitor.
pub open spec fn geom_of(m: MonitorInfo) -> MonitorGeom {
    MonitorGeom { x: m.x, y: m.y, width: m.width, height: m.height }
}

/// The geometry of monitor `index`, or 1920x1080 at the origin when there is
/// no such monitor.
pub fn monitor_geom(monitors: &Vec<MonitorInfo>, index: usize) -> (g: MonitorGeom)
    ensures
        g == (if index < monitors@.len() {
            geom_of(monitors@[index as int])
        } else {
            default_geom()
        }),
{
    if index < monitors.len() {
        let m = &monitors[index];
        MonitorGeom { x: m.x, y: m.y, width: m.width, height: m.height }
    } else {
        MonitorGeom { x: 0, y: 0, width: 1920, height: 1080 }
    }
}

/// The monitor a `select_monitor` control message picks, with its geometry:
/// the message must have type `select_monitor` and an unsigned `index` of an
/// existing monitor.
pub open spec fn selection(msg: Seq<(String, JsonValue)>, ms: Seq<MonitorInfo>) -> Option<(usize, MonitorGeom)> {
    match member(msg, "type"@) {
        JsonValue::Str(t) => if t@ == "select_monitor"@ {
            match as_u64(member(msg, "index"@)) {
                Some(i) => if i < ms.len() {
                    Some((i as usize, geom_of(ms[i as int])))
                } else {
                    None
                },
                None => None,
            }
        } else {
            None
        },
        _ => None,
    }
}

/// Applies a control message from the viewer: the selected monitor and its
/// geometry, or `None` for any other message or an out-of-range index.
pub fn select_monitor(msg: &Vec<(String, JsonValue)>, monitors: &Vec<MonitorInfo>) -> (r: Option<(usize, MonitorGeom)>)
    ensures
        r == selection(msg@, monitors@),
{
    let is_select = match crate::json_protocol::payload_member(msg, "type") {
        JsonValue::Str(t) => str_eq(t.as_str(), "select_monitor"),
        _ => false,
    };
    if !is_select {
        return None;
    }
    match crate::json_protocol::payload_member(msg, "index") {
        JsonValue::PosInt(n) => {
            let n = *n;
            if n < monitors.len() as u64 {
                let i = n as usize;
                Some((i, monitor_geom(monitors, i)))
            } else {
                None
            }
        },
        _ => None,
    }
}

/// The JSON object describing one monitor (keys in sorted order).
pub open spec fn monitor_item(m: MonitorInfo) -> Seq<char> {
    json_object(
        seq![
            ("height"@, decimal(m.height as nat)),
            ("index"@, decimal(m.index as nat)),
            ("name"@, json_str(m.name@)),
            ("primary"@, json_bool(m.is_primary)),
            ("width"@, decimal(m.width as nat)),
        ],
    )
}

/// The monitor list message: `{"list":[…],"selected":n,"type":"monitors"}`.
pub open spec fn monitors_text(ms: Seq<MonitorInfo>, selected: usize) -> Seq<char> {
    json_object(
        seq![
            ("list"@, json_array(ms.map_values(|m: MonitorInfo| monitor_item(m)))),
            ("selected"@, decimal(selected as nat)),
            ("type"@, json_str("monitors"@)),
        ],
    )
}

fn render_monitor(m: &MonitorInfo) -> (r: String)
    ensures
        r@ == monitor_item(*m),
{
    let fields = vec![
        ("height".to_string(), render_u64(m.height as u64)),
        ("index".to_string(), render_u64(m.index as u64)),
        ("name".to_string(), render_str(m.name.as_str())),
        ("primary".to_string(), render_bool(m.is_primary)),
        ("width".to_string(), render_u64(m.width as u64)),
    ];
    let r = render_object(&fields);
    assert(member_texts(fields@) =~= seq![
        ("height"@, decimal(m.height as nat)),
        ("index"@, decimal(m.index as nat)),
        ("name"@, json_str(m.name@)),
        ("primary"@, json_bool(m.is_primary)),
        ("width"@, decimal(m.width as nat)),
    ]);
    r
}

/// Serializes the monitor list for the viewer's picker, as UTF-8 bytes.
pub fn monitors_json(monitors: &Vec<MonitorInfo>, selected: usize) -> (r: Vec<u8>)
    ensures
        r@ == vstd::utf8::encode_utf8(monitors_text(monitors@, selected)),
{
    let mut items: Vec<String> = Vec::new();
    let mut k: usize = 0;
    while k < monitors.len()
        invariant
            k <= monitors.len(),
            items@.len() == k,
            forall|j: int| 0 <= j < k ==> #[trigger] items@[j]@ == monitor_item(monitors@[j]),
        decreases monitors.len() - k,
    {
        items.push(render_monitor(&monitors[k]));
        k += 1;
    }
    assert(texts(items@) =~= monitors@.map_values(|m: MonitorInfo| monitor_item(m)));
    let list = render_array(&items);
    let fields = vec![
        ("list".to_string(), list),
        ("selected".to_string(), render_u64(selected as u64)),
        ("type".to_string(), render_str("monitors")),
    ];
    let text = render_object(&fields);
    assert(member_texts(fields@) =~= seq![
        ("list"@, json_array(monitors@.map_values(|m: MonitorInfo| monitor_item(m)))),
        ("selected"@, decimal(selected as nat)),
        ("type"@, json_str("monitors"@)),
    ]);
    text.as_str().as_bytes_vec()
}

/// Law: a `select_monitor` message whose unsigned `index` names an existing
/// monitor selects that monitor, whatever the index (the first included),
/// with that monitor's position and size; an index past the last monitor
/// selects nothing.
pub proof fn law_select_monitor_by_index(msg: Seq<(String, JsonValue)>, ms: Seq<MonitorInfo>, i: u64)
    requires
        member(msg, "type"@) matches JsonValue::Str(t) && t@ == "select_monitor"@,
        member(msg, "index"@) == JsonValue::PosInt(i),
    ensures
        i < ms.len() ==> selection(msg, ms) == Some(
            (
                i as usize,
                MonitorGeom {
                    x: ms[i as int].x,
                    y: ms[i as int].y,
                    width: ms[i as int].width,
                    height: ms[i as int].height,
                },
            ),
        ),
        i >= ms.len() ==> selection(msg, ms) is None,
{
}

/// Law: a control message that is not a `select_monitor` selects nothing.
pub proof fn law_other_messages_select_nothing(msg: Seq<(String, JsonValue)>, ms: Seq<MonitorInfo>)
    requires
        !(member(msg, "type"@) matches JsonValue::Str(t) && t@ == "select_monitor"@),
    ensures
        selection(msg, ms) is None,
{
}

/// Law: each monitor in the list sent to the viewer is described by its own
/// height, index, name, primary flag and width, under those keys; the list
/// keeps the monitors' order and names the selected index.
pub proof fn law_monitor_list_fields(ms: Seq<MonitorInfo>, selected: usize)
    ensures
        forall|i: int|
            0 <= i < ms.len() ==> #[trigger] monitor_item(ms[i]) == json_object(seq![
                ("height"@, decimal(ms[i].height as nat)),
                ("index"@, decimal(ms[i].index as nat)),
                ("name"@, json_str(ms[i].name@)),
                ("primary"@, json_bool(ms[i].is_primary)),
                ("width"@, decimal(ms[i].width as nat)),
            ]),
        monitors_text(ms, selected) == json_object(seq![
            ("list"@, json_array(Seq::new(ms.len(), |i: int| monitor_item(ms[i])))),
            ("selected"@, decimal(selected as nat)),
            ("type"@, json_str("monitors"@)),
        ]),
{
    assert(ms.map_values(|m: MonitorInfo| monitor_item(m)) =~= Seq::new(ms.len(), |i: int| monitor_item(ms[i])));
}

} // verus!
