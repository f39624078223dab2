use vstd::prelude::*;

verus! {

/// A configuration that cannot be used.
#[derive(Debug, Clone, PartialEq, Eq)]
pub enum ConfigError {
    /// The file could not be read.
    Io(String),
    /// The text is not a valid configuration.
    Parse(String),
    /// A required setting is absent or empty.
    Missing(String),
}

/// How the device authenticates to the server.
#[derive(Debug, Clone, PartialEq, Eq)]
pub enum AuthConfig {
    /// Mutual TLS with PEM files.
    Mtls { cert_path: String, key_path: String, ca_cert_path: String },
    /// Signed headers from a shared secret.
    SharedSecret { key: String, secret: String },
}

/// The firmware that the device runs, advertised on every join.
#[derive(Debug, Clone, PartialEq, Eq)]
pub struct FirmwareMetadata {
    pub uuid: String,
    pub version: String,
    pub platform: String,
    pub architecture: String,
    pub product: String,
}

/// The agent's settings.
#[derive(Debug, Clone, PartialEq, Eq)]
pub struct Config {
    pub host: String,
    pub auth: AuthConfig,
    pub serial_number_command: Option<String>,
    pub serial_number: Option<String>,
    pub fwup_devpath: Option<String>,
    pub fwup_task: Option<String>,
    pub firmware: FirmwareMetadata,
    pub heartbeat_interval_secs: Option<u64>,
    pub data_dir: Option<String>,
    pub device_api_version: Option<String>,
}

/// A configured text, or the default.
pub open spec fn or_default(o: Option<String>, default: Seq<char>) -> Seq<char> {
    match o {
        Some(s) => s@,
        None => default,
    }
}

/// Whether a configuration can be used: a host, and a way to find the serial number.
pub open spec fn config_valid(c: Config) -> bool {
    c.host@.len() > 0 && (c.serial_number is Some || c.serial_number_command is Some)
}

/// The socket address on `host`.
pub open spec fn socket_url_of(host: Seq<char>) -> Seq<char> {
    "wss://"@ + host + "/device-socket/websocket"@
}

fn configured_or<'a>(o: &'a Option<String>, default: &'a str) -> (r: &'a str)
    ensures
        r@ == or_default(*o, default@),
{
    match o {
        Some(s) => s.as_str(),
        None => default,
    }
}

impl Config {
    /// Checks the settings that parsing alone does not.
    pub fn validate(&self) -> (r: Result<(), ConfigError>)
        ensures
            r is Ok <==> config_valid(*self),
            r matches Err(ConfigError::Missing(f)) ==> if self.host@.len() == 0 {
                f@ == "host"@
            } else {
                f@ == "either serial_number or serial_number_command"@
            },
            r is Err ==> r->Err_0 is Missing,
    {
        if self.host.as_str().is_empty() {
            return Err(ConfigError::Missing("host".to_owned()));
        }
        if self.serial_number.is_none() && self.serial_number_command.is_none() {
            return Err(ConfigError::Missing("either serial_number or serial_number_command".to_owned()));
        }
        Ok(())
    }

    /// `wss://<host>/device-socket/websocket`.
    pub fn socket_url(&self) -> (r: String)
        ensures
            r@ == socket_url_of(self.host@),
    {
        let mut s = "wss://".to_owned();
        s.append(self.host.as_str());
        s.append("/device-socket/websocket");
        s
    }

    /// Seconds between heartbeats; 30 unless configured.
    pub fn heartbeat_interval_secs(&self) -> (r: u64)
        ensures
            r == match self.heartbeat_interval_secs {
                Some(s) => s,
                None => 30,
            },
    {
        match self.heartbeat_interval_secs {
            Some(s) => s,
            None => 30,
        }
    }

    /// The block device for the installer; `/dev/mmcblk0` unless configured.
    pub fn fwup_devpath(&self) -> (r: &str)
        ensures
            r@ == or_default(self.fwup_devpath, "/dev/mmcblk0"@),
    {
        configured_or(&self.fwup_devpath, "/dev/mmcblk0")
    }

    /// The installer task; `upgrade` unless configured.
    pub fn fwup_task(&self) -> (r: &str)
        ensures
            r@ == or_default(self.fwup_task, "upgrade"@),
    {
        configured_or(&self.fwup_task, "upgrade")
    }

    /// The API version advertised on join; `2.3.0` unless configured.
    pub fn device_api_version(&self) -> (r: &str)
        ensures
            r@ == or_default(self.device_api_version, "2.3.0"@),
    {
        configured_or(&self.device_api_version, "2.3.0")
    }

    /// The directory that receives downloads; `/tmp/hub_link` unless configured.
    pub fn data_dir(&self) -> (r: &str)
        ensures
            r@ == or_default(self.data_dir, "/tmp/hub_link"@),
    {
        configured_or(&self.data_dir, "/tmp/hub_link")
    }
}

} // verus!
