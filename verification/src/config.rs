use vstd::prelude::*;
use vstd::string::StringExecFns;

use crate::error::Error;
use crate::registry::{find, BackendDescriptor};

verus! {

/// The device classification a peer shows as an icon in its device list.
#[derive(Clone, Copy, Debug, PartialEq, Eq, Structural)]
pub enum DeviceType {
    Unknown,
    Computer,
    Tablet,
    Smartphone,
    Speaker,
    Tv,
    Avr,
    Stb,
    AudioDongle,
    GameConsole,
    CastVideo,
    CastAudio,
    Automobile,
    Smartwatch,
    Chromebook,
}

/// The numeric code each device classification is announced as.
pub open spec fn spec_device_type_code(t: DeviceType) -> u8 {
    match t {
        DeviceType::Unknown => 0,
        DeviceType::Computer => 1,
        DeviceType::Tablet => 2,
        DeviceType::Smartphone => 3,
        DeviceType::Speaker => 4,
        DeviceType::Tv => 5,
        DeviceType::Avr => 6,
        DeviceType::Stb => 7,
        DeviceType::AudioDongle => 8,
        DeviceType::GameConsole => 9,
        DeviceType::CastVideo => 10,
        DeviceType::CastAudio => 11,
        DeviceType::Automobile => 12,
        DeviceType::Smartwatch => 13,
        DeviceType::Chromebook => 14,
    }
}

impl DeviceType {
    /// The numeric code this classification is announced as.
    pub fn code(&self) -> (r: u8)
        ensures
            r == spec_device_type_code(*self),
    {
        match self {
            DeviceType::Unknown => 0,
            DeviceType::Computer => 1,
            DeviceType::Tablet => 2,
            DeviceType::Smartphone => 3,
            DeviceType::Speaker => 4,
            DeviceType::Tv => 5,
            DeviceType::Avr => 6,
            DeviceType::Stb => 7,
            DeviceType::AudioDongle => 8,
            DeviceType::GameConsole => 9,
            DeviceType::CastVideo => 10,
            DeviceType::CastAudio => 11,
            DeviceType::Automobile => 12,
            DeviceType::Smartwatch => 13,
            DeviceType::Chromebook => 14,
        }
    }
}

impl Default for DeviceType {
    /// The default classification this device announces itself as.
    fn default() -> (r: DeviceType)
        ensures
            r == DeviceType::Avr,
    {
        DeviceType::Avr
    }
}

/// An address the advertisement may be restricted to, held as plain values;
/// the networking layer converts it to its native address type.
#[derive(Clone, Copy, Debug, PartialEq, Eq, Structural)]
pub enum IpAddress {
    V4(u8, u8, u8, u8),
    V6(u16, u16, u16, u16, u16, u16, u16, u16),
}

/// What the pairing listener announces about this device. Immutable after
/// launch.
pub struct ServiceConfig {
    /// The display name peers show.
    pub name: String,
    /// The stable device identifier; also bound into the derived pairing
    /// keys.
    pub device_id: String,
    /// The client identifier announced to peers.
    pub client_id: String,
    /// The icon classification.
    pub device_type: DeviceType,
    /// Whether the device announces itself as a group.
    pub is_group: bool,
}

/// Builder-style configuration for one discovery instance.
pub struct Builder {
    pub server_config: ServiceConfig,
    pub port: u16,
    pub zeroconf_ip: Vec<IpAddress>,
    pub zeroconf_backend: Option<String>,
}

impl Builder {
    /// Starts a new builder using the provided device and client IDs, with
    /// the default name, classification and port.
    pub fn new(device_id: &str, client_id: &str) -> (r: Builder)
        ensures
            r.server_config.name@ == "Spotipi"@,
            r.server_config.device_id@ == device_id@,
            r.server_config.client_id@ == client_id@,
            r.server_config.device_type == DeviceType::Avr,
            !r.server_config.is_group,
            r.port == 0,
            r.zeroconf_ip@ =~= Seq::<IpAddress>::empty(),
            r.zeroconf_backend is None,
    {
        Builder {
            server_config: ServiceConfig {
                name: String::from_str("Spotipi"),
                device_id: String::from_str(device_id),
                client_id: String::from_str(client_id),
                device_type: DeviceType::Avr,
                is_group: false,
            },
            port: 0,
            zeroconf_ip: Vec::new(),
            zeroconf_backend: None,
        }
    }

    /// Sets the name to be displayed.
    pub fn name(self, name: &str) -> (r: Builder)
        ensures
            r.server_config.name@ == name@,
            r.server_config.device_id == self.server_config.device_id,
            r.server_config.client_id == self.server_config.client_id,
            r.server_config.device_type == self.server_config.device_type,
            r.server_config.is_group == self.server_config.is_group,
            r.port == self.port,
            r.zeroconf_ip == self.zeroconf_ip,
            r.zeroconf_backend == self.zeroconf_backend,
    {
        Builder {
            server_config: ServiceConfig { name: String::from_str(name), ..self.server_config },
            ..self
        }
    }

    /// Sets the device classification visible as an icon in peers' lists.
    pub fn device_type(self, device_type: DeviceType) -> (r: Builder)
        ensures
            r.server_config.device_type == device_type,
            r.server_config.name == self.server_config.name,
            r.server_config.device_id == self.server_config.device_id,
            r.server_config.client_id == self.server_config.client_id,
            r.server_config.is_group == self.server_config.is_group,
            r.port == self.port,
            r.zeroconf_ip == self.zeroconf_ip,
            r.zeroconf_backend == self.zeroconf_backend,
    {
        Builder { server_config: ServiceConfig { device_type, ..self.server_config }, ..self }
    }

    /// Sets whether the device announces itself as a group.
    pub fn is_group(self, is_group: bool) -> (r: Builder)
        ensures
            r.server_config.is_group == is_group,
            r.server_config.name == self.server_config.name,
            r.server_config.device_id == self.server_config.device_id,
            r.server_config.client_id == self.server_config.client_id,
            r.server_config.device_type == self.server_config.device_type,
            r.port == self.port,
            r.zeroconf_ip == self.zeroconf_ip,
            r.zeroconf_backend == self.zeroconf_backend,
    {
        Builder { server_config: ServiceConfig { is_group, ..self.server_config }, ..self }
    }

    /// Restricts the advertisement to these addresses; the default, an empty
    /// list, means all interfaces.
    pub fn zeroconf_ip(self, zeroconf_ip: Vec<IpAddress>) -> (r: Builder)
        ensures
            r.zeroconf_ip == zeroconf_ip,
            r.server_config == self.server_config,
            r.port == self.port,
            r.zeroconf_backend == self.zeroconf_backend,
    {
        Builder { zeroconf_ip, ..self }
    }

    /// Overrides the zeroconf backend to use, by its identifier.
    pub fn zeroconf_backend(self, zeroconf_backend: &str) -> (r: Builder)
        ensures
            r.zeroconf_backend matches Some(b) && b@ == zeroconf_backend@,
            r.server_config == self.server_config,
            r.port == self.port,
            r.zeroconf_ip == self.zeroconf_ip,
    {
        Builder { zeroconf_backend: Some(String::from_str(zeroconf_backend)), ..self }
    }

    /// Sets the port the pairing listener binds; 0 means an ephemeral port.
    pub fn port(self, port: u16) -> (r: Builder)
        ensures
            r.port == port,
            r.server_config == self.server_config,
            r.zeroconf_ip == self.zeroconf_ip,
            r.zeroconf_backend == self.zeroconf_backend,
    {
        Builder { port, ..self }
    }

    /// Resolves the backend this configuration launches: the explicit
    /// override takes precedence; otherwise the first compiled-in entry of
    /// `table` wins.
    pub fn resolve_backend(&self, table: &Vec<BackendDescriptor>) -> (r: Result<usize, Error>)
        ensures
            ({
                match &self.zeroconf_backend {
                    Some(n) => match r {
                        Ok(k) => crate::registry::spec_is_first_id(table@, n@, k as int)
                            && table@[k as int].available,
                        Err(e) => {
                            &&& (e.kind == crate::error::ErrorKind::NotFound || e.kind
                                == crate::error::ErrorKind::Unavailable)
                            &&& (e.kind == crate::error::ErrorKind::NotFound
                                <==> !crate::registry::spec_has_id(table@, n@))
                        },
                    },
                    None => match r {
                        Ok(k) => crate::registry::spec_is_first_available(table@, k as int),
                        Err(e) => e.kind == crate::error::ErrorKind::Unavailable
                            && !crate::registry::spec_has_available(table@),
                    },
                }
            }),
    {
        match &self.zeroconf_backend {
            Some(n) => find(table, Some(n.as_str())),
            None => find(table, None),
        }
    }
}

} // verus!
