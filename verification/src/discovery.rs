//! The phone's announcements on the local network.
use vstd::prelude::*;
use vstd::string::*;

use crate::text;
use crate::text::ascii_at;

verus! {

/// UDP port on which the phone announces itself.
pub const BEACON_PORT: u16 = 5001;

/// Nanoseconds for which an announcement counts.
pub const BEACON_TIMEOUT: i64 = 5_000_000_000;

/// The phone that announced itself last.
#[derive(PartialEq, Debug)]
pub struct DiscoveredDevice {
    /// Address that the announcement came from.
    pub ip: String,
    /// When it came, in nanoseconds of a steady clock.
    pub last_seen: i64,
}

pub struct DiscoveredDeviceView {
    pub ip: Seq<char>,
    pub last_seen: int,
}

impl View for DiscoveredDevice {
    type V = DiscoveredDeviceView;

    open spec fn view(&self) -> DiscoveredDeviceView {
        DiscoveredDeviceView { ip: self.ip@, last_seen: self.last_seen as int }
    }
}

pub open spec fn device_view(device: Option<DiscoveredDevice>) -> Option<DiscoveredDeviceView> {
    match device {
        Some(d) => Some(d@),
        None => None,
    }
}

impl DiscoveredDeviceView {
    /// Whether the announcement still counts at `now`.
    pub open spec fn is_fresh(self, now: int) -> bool {
        now - self.last_seen < BEACON_TIMEOUT
    }
}

/// The payload of an announcement.
pub open spec fn beacon_payload() -> Seq<u8> {
    text::ascii_bytes("CAMPC_HELLO"@)
}

impl DiscoveredDevice {
    /// Whether the announcement still counts at `now`.
    pub fn is_fresh(&self, now: i64) -> (r: bool)
        ensures
            r == self@.is_fresh(now as int),
    {
        (now as i128) - (self.last_seen as i128) < BEACON_TIMEOUT as i128
    }
}

/// Takes note of a datagram that came from `ip` at `now`. An announcement replaces what was known
/// before; any other datagram changes nothing.
pub fn hear(known: &mut Option<DiscoveredDevice>, packet: &[u8], ip: String, now: i64)
    ensures
        packet@ == beacon_payload() ==> device_view(*final(known)) == Some(
            DiscoveredDeviceView { ip: ip@, last_seen: now as int },
        ),
        packet@ != beacon_payload() ==> *final(known) == *old(known),
{
    proof {
        reveal_strlit("CAMPC_HELLO");
        assert(packet@.subrange(0, packet@.len() as int) =~= packet@);
    }
    if packet.len() == 11 && ascii_at(packet, 0, "CAMPC_HELLO") {
        *known = Some(DiscoveredDevice { ip, last_seen: now });
    }
}

/// An announcement counts for five seconds after it came, and no longer; one that comes later counts
/// at least as long.
pub proof fn an_announcement_counts_for_five_seconds(
    device: DiscoveredDeviceView,
    later: DiscoveredDeviceView,
    now: int,
)
    ensures
        device.is_fresh(now) <==> now - device.last_seen < 5_000_000_000,
        device.is_fresh(now) && device.last_seen <= later.last_seen ==> later.is_fresh(now),
{
}

/// An announcement is eleven bytes long.
pub proof fn an_announcement_is_a_greeting()
    ensures
        beacon_payload() == seq![67u8, 65, 77, 80, 67, 95, 72, 69, 76, 76, 79],
{
    reveal_strlit("CAMPC_HELLO");
    assert(beacon_payload() =~= seq![67u8, 65, 77, 80, 67, 95, 72, 69, 76, 76, 79]);
}

/// The view of a device holds its address and the time of its announcement as they are.
pub proof fn a_view_keeps_address_and_time(device: DiscoveredDevice)
    ensures
        device@.ip == device.ip@,
        device@.last_seen == device.last_seen,
        device_view(Some(device)) == Some(device@),
        device_view(None) is None,
{
}

} // verus!
