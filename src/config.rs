//! Client configuration: credentials, the preferred device and the local
//! port of the authorisation callback.
use vstd::prelude::*;
use vstd::string::*;

use crate::text::decimal;
use crate::text::decimal_string;

verus! {

/// The port of the authorisation callback when none is configured.
pub const DEFAULT_PORT: u16 = 8888;

/// Where configuration and the token cache live on disk.
#[verifier::external_type_specification]
#[verifier::external_body]
pub struct ExPathBuf(std::path::PathBuf);

/// The client's configuration.
#[derive(Clone, Debug, PartialEq, Eq)]
pub struct ClientConfig {
    pub client_id: String,
    pub client_secret: String,
    pub device_id: Option<String>,
    pub port: Option<u16>,
}

/// The files the client reads and writes.
pub struct ConfigPaths {
    pub config_file_path: std::path::PathBuf,
    pub token_cache_path: std::path::PathBuf,
}

impl ClientConfig {
    /// An empty configuration: no credentials, no device, the default port.
    pub fn new() -> (r: ClientConfig)
        ensures
            r.client_id@ == Seq::<char>::empty(),
            r.client_secret@ == Seq::<char>::empty(),
            r.device_id is None,
            r.port is None,
    {
        ClientConfig {
            client_id: String::new(),
            client_secret: String::new(),
            device_id: None,
            port: None,
        }
    }

    /// The port of the authorisation callback.
    pub open spec fn port_view(&self) -> u16 {
        match self.port {
            Some(p) => p,
            None => DEFAULT_PORT,
        }
    }

    pub fn get_port(&self) -> (r: u16)
        ensures
            r == self.port_view(),
    {
        match self.port {
            Some(p) => p,
            None => DEFAULT_PORT,
        }
    }

    /// The redirect URI of the authorisation callback on the local port.
    pub fn get_redirect_uri(&self) -> (r: String)
        ensures
            r@ == "http://localhost:"@ + decimal(self.port_view() as nat) + "/callback"@,
    {
        let mut r = String::from_str("http://localhost:");
        r.append(decimal_string(self.get_port() as u64).as_str());
        r.append("/callback");
        r
    }

    /// Takes over the credentials and the device of a configuration read
    /// from disk; the port stays as it was.
    pub fn apply_loaded(&mut self, loaded: ClientConfig)
        ensures
            final(self).client_id == loaded.client_id,
            final(self).client_secret == loaded.client_secret,
            final(self).device_id == loaded.device_id,
            final(self).port == old(self).port,
    {
        self.client_id = loaded.client_id;
        self.client_secret = loaded.client_secret;
        self.device_id = loaded.device_id;
    }
}

} // verus!
