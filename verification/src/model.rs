//! The values the device picker works on, and their mathematical views.
use vstd::prelude::*;

verus! {

/// The icons that the device picker draws.
#[derive(Clone, Copy, Debug, PartialEq, Eq, Structural)]
pub enum Icon {
    Laptop,
    Smartphone,
    Tablet,
    Tv,
    Gamepad,
    Car,
    Cast,
    Watch,
    Monitor,
    Speaker,
    Refresh,
}

/// How far playback on this computer has been set up.
#[derive(Clone, Copy, Debug, PartialEq, Eq, Structural)]
pub enum LocalPlayback {
    Disabled,
    Authorizing,
    Connecting,
    Ready,
}

/// An IP address as its octets: four for IPv4, sixteen for IPv6.
pub enum IpAddress {
    V4([u8; 4]),
    V6([u8; 16]),
}

impl Clone for IpAddress {
    fn clone(&self) -> (res: Self)
        ensures
            res == *self,
    {
        match self {
            IpAddress::V4(octets) => IpAddress::V4(*octets),
            IpAddress::V6(octets) => IpAddress::V6(*octets),
        }
    }
}

/// A Spotify Connect receiver announced on the local network.
pub struct Receiver {
    pub name: String,
    pub device_id: Option<String>,
    pub address: IpAddress,
    pub port: u16,
    pub path: String,
}

/// A Spotify Connect device as the account lists it.
pub struct Device {
    pub id: Option<String>,
    pub name: String,
    pub is_active: bool,
    pub is_restricted: bool,
    pub volume_percent: Option<u32>,
    pub supports_volume: Option<bool>,
    pub kind: String,
}

/// The contents of an optional string.
pub open spec fn opt_view(s: Option<String>) -> Option<Seq<char>> {
    match s {
        Some(s) => Some(s@),
        None => None,
    }
}

/// What a device is, with its strings taken as character sequences.
pub struct DeviceView {
    pub id: Option<Seq<char>>,
    pub name: Seq<char>,
    pub is_active: bool,
    pub is_restricted: bool,
    pub volume_percent: Option<u32>,
    pub supports_volume: Option<bool>,
    pub kind: Seq<char>,
}

/// What a receiver is, with its strings taken as character sequences.
pub struct ReceiverView {
    pub name: Seq<char>,
    pub device_id: Option<Seq<char>>,
    pub address: IpAddress,
    pub port: u16,
    pub path: Seq<char>,
}

impl View for Device {
    type V = DeviceView;

    open spec fn view(&self) -> DeviceView {
        DeviceView {
            id: opt_view(self.id),
            name: self.name@,
            is_active: self.is_active,
            is_restricted: self.is_restricted,
            volume_percent: self.volume_percent,
            supports_volume: self.supports_volume,
            kind: self.kind@,
        }
    }
}

impl View for Receiver {
    type V = ReceiverView;

    open spec fn view(&self) -> ReceiverView {
        ReceiverView {
            name: self.name@,
            device_id: opt_view(self.device_id),
            address: self.address,
            port: self.port,
            path: self.path@,
        }
    }
}

/// The views of a sequence of devices.
pub open spec fn device_views(s: Seq<Device>) -> Seq<DeviceView> {
    s.map_values(|d: Device| d@)
}

/// The views of a sequence of receivers.
pub open spec fn receiver_views(s: Seq<Receiver>) -> Seq<ReceiverView> {
    s.map_values(|r: Receiver| r@)
}

/// Copies an optional string.
pub fn clone_opt(s: &Option<String>) -> (res: Option<String>)
    ensures
        res == *s,
{
    match s {
        Some(s) => Some(s.clone()),
        None => None,
    }
}

/// Whether two optional strings hold the same text (or are both absent).
pub fn opt_eq(a: &Option<String>, b: &Option<String>) -> (res: bool)
    ensures
        res == (opt_view(*a) == opt_view(*b)),
{
    match (a, b) {
        (Some(x), Some(y)) => *x == *y,
        (None, None) => true,
        _ => false,
    }
}

impl Clone for Device {
    fn clone(&self) -> (res: Self)
        ensures
            res == *self,
    {
        Device {
            id: clone_opt(&self.id),
            name: self.name.clone(),
            is_active: self.is_active,
            is_restricted: self.is_restricted,
            volume_percent: self.volume_percent,
            supports_volume: self.supports_volume,
            kind: self.kind.clone(),
        }
    }
}

impl Clone for Receiver {
    fn clone(&self) -> (res: Self)
        ensures
            res == *self,
    {
        Receiver {
            name: self.name.clone(),
            device_id: clone_opt(&self.device_id),
            address: self.address.clone(),
            port: self.port,
            path: self.path.clone(),
        }
    }
}

impl Default for Device {
    fn default() -> (res: Self)
        ensures
            res.id is None,
            res.name@ == Seq::<char>::empty(),
            !res.is_active,
            !res.is_restricted,
            res.volume_percent is None,
            res.supports_volume is None,
            res.kind@ == Seq::<char>::empty(),
    {
        Device {
            id: None,
            name: String::new(),
            is_active: false,
            is_restricted: false,
            volume_percent: None,
            supports_volume: None,
            kind: String::new(),
        }
    }
}

} // verus!
