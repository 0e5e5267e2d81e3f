//! What is reported of the network: which interface counts, how strong
//! the signal is, and when a change is worth an event.

use crate::text::{equal, has_prefix};
use vstd::prelude::*;

verus! {

/// Time between two looks at the network, in seconds.
pub const NETWORK_CHECK_INTERVAL_SECS: u64 = 5;

/// The state of the network as a command reports it.
pub struct NetworkInfo {
    pub interface: String,
    pub network_type: String,
    pub ssid: Option<String>,
    pub signal_strength: Option<i32>,
    pub connected: bool,
}

/// The state of the network as the watcher announces it.
pub struct NetworkEvent {
    pub interface: String,
    pub network_type: String,
    pub ssid: Option<String>,
    pub signal_strength: Option<i32>,
    pub connected: bool,
}

/// The mathematical value of a network state.
pub struct NetworkView {
    pub interface: Seq<char>,
    pub network_type: Seq<char>,
    pub ssid: Option<Seq<char>>,
    pub signal_strength: Option<i32>,
    pub connected: bool,
}

pub open spec fn text_view(text: Option<String>) -> Option<Seq<char>> {
    match text {
        Some(t) => Some(t@),
        None => None,
    }
}

impl View for NetworkInfo {
    type V = NetworkView;

    open spec fn view(&self) -> NetworkView {
        NetworkView {
            interface: self.interface@,
            network_type: self.network_type@,
            ssid: text_view(self.ssid),
            signal_strength: self.signal_strength,
            connected: self.connected,
        }
    }
}

impl View for NetworkEvent {
    type V = NetworkView;

    open spec fn view(&self) -> NetworkView {
        NetworkView {
            interface: self.interface@,
            network_type: self.network_type@,
            ssid: text_view(self.ssid),
            signal_strength: self.signal_strength,
            connected: self.connected,
        }
    }
}

/// Signal strength in percent for a received power in dBm: -90 and below
/// is 0, -30 and above is 100, and between them it rises evenly, rounded
/// down.
pub open spec fn signal_percentage_spec(rssi: int) -> int {
    if rssi <= -90 {
        0
    } else if rssi >= -30 {
        100
    } else {
        (rssi + 90) * 100 / 60
    }
}

/// Turns a received power into a percentage.
pub fn signal_percentage(rssi: i32) -> (r: i32)
    ensures
        r == signal_percentage_spec(rssi as int),
        0 <= r <= 100,
{
    if rssi <= -90 {
        0
    } else if rssi >= -30 {
        100
    } else {
        let above: i32 = rssi + 90;
        above * 100 / 60
    }
}

/// The kind of a wired or wireless interface by its name: `en0` is the
/// wireless one.
pub fn network_type(interface: &str) -> (r: &'static str)
    ensures
        r@ == (if interface@ == "en0"@ {
            "wifi"@
        } else {
            "ethernet"@
        }),
{
    if equal(interface, "en0") {
        "wifi"
    } else {
        "ethernet"
    }
}

/// The name is that of a wired or wireless interface.
pub open spec fn is_primary_name(name: Seq<char>) -> bool {
    "en"@.is_prefix_of(name)
}

/// Position of the first interface that counts, in the order given.
pub fn primary_interface(interfaces: &Vec<String>) -> (r: Option<usize>)
    ensures
        match r {
            Some(k) => {
                &&& k < interfaces@.len()
                &&& is_primary_name(interfaces@[k as int]@)
                &&& forall|j: int| 0 <= j < k ==> !is_primary_name(#[trigger] interfaces@[j]@)
            },
            None => forall|j: int| 0 <= j < interfaces@.len() ==> !is_primary_name(#[trigger] interfaces@[j]@),
        },
{
    let mut i: usize = 0;
    while i < interfaces.len()
        invariant
            i <= interfaces@.len(),
            forall|j: int| 0 <= j < i ==> !is_primary_name(#[trigger] interfaces@[j]@),
        decreases interfaces@.len() - i,
    {
        if has_prefix(interfaces[i].as_str(), "en") {
            return Some(i);
        }
        i = i + 1;
    }
    None
}

/// The state reported while an interface is up.
pub fn connected_network(interface: &str, ssid: Option<String>, signal_strength: Option<i32>) -> (r: NetworkInfo)
    ensures
        r@ == (NetworkView {
            interface: interface@,
            network_type: if interface@ == "en0"@ {
                "wifi"@
            } else {
                "ethernet"@
            },
            ssid: text_view(ssid),
            signal_strength,
            connected: true,
        }),
{
    NetworkInfo {
        interface: interface.to_owned(),
        network_type: network_type(interface).to_owned(),
        ssid,
        signal_strength,
        connected: true,
    }
}

/// The state reported when no interface counts.
pub fn disconnected_network() -> (r: NetworkInfo)
    ensures
        r@ == (NetworkView {
            interface: "unknown"@,
            network_type: "unknown"@,
            ssid: None,
            signal_strength: None,
            connected: false,
        }),
{
    NetworkInfo {
        interface: "unknown".to_owned(),
        network_type: "unknown".to_owned(),
        ssid: None,
        signal_strength: None,
        connected: false,
    }
}

impl NetworkInfo {
    /// The same state as an event.
    pub fn into_event(self) -> (r: NetworkEvent)
        ensures
            r@ == self@,
    {
        NetworkEvent {
            interface: self.interface,
            network_type: self.network_type,
            ssid: self.ssid,
            signal_strength: self.signal_strength,
            connected: self.connected,
        }
    }
}

fn same_text(a: &Option<String>, b: &Option<String>) -> (r: bool)
    ensures
        r == (text_view(*a) == text_view(*b)),
{
    match (a, b) {
        (Some(x), Some(y)) => equal(x.as_str(), y.as_str()),
        (None, None) => true,
        _ => false,
    }
}

fn same_number(a: Option<i32>, b: Option<i32>) -> (r: bool)
    ensures
        r == (a == b),
{
    match (a, b) {
        (Some(x), Some(y)) => x == y,
        (None, None) => true,
        _ => false,
    }
}

/// Tells whether a state is worth an event: the first state always is, a
/// later one only if it differs from the one announced last.
pub fn network_changed(last: Option<&NetworkEvent>, current: &NetworkEvent) -> (r: bool)
    ensures
        r == (match last {
            Some(l) => l@ != current@,
            None => true,
        }),
{
    match last {
        Some(l) => {
            let same: bool = equal(l.interface.as_str(), current.interface.as_str()) && equal(
                l.network_type.as_str(),
                current.network_type.as_str(),
            ) && same_text(&l.ssid, &current.ssid) && same_number(l.signal_strength, current.signal_strength)
                && l.connected == current.connected;
            !same
        },
        None => true,
    }
}

} // verus!
