use vstd::prelude::*;
use crate::policy::KEEP_ALIVE_SECS;
use crate::topics::{broker_url, broker_url_spec, DeviceIdentity};

verus! {

/// How a messaging session is opened: the broker URL, the client identifier
/// and the keep-alive interval. The credentials are handed to the transport
/// as they are.
pub struct SessionConfig {
    pub url: String,
    pub client_id: String,
    pub keep_alive_secs: u64,
}

impl SessionConfig {
    /// The configuration of a mutually authenticated session of this device
    /// with the broker at `host:port`.
    pub fn for_device(identity: &DeviceIdentity, host: &str, port: &str) -> (r: SessionConfig)
        ensures
            r.url@ == broker_url_spec(host@, port@),
            r.client_id@ == identity.device_id@,
            r.keep_alive_secs == KEEP_ALIVE_SECS,
    {
        SessionConfig {
            url: broker_url(host, port),
            client_id: identity.device_id.clone(),
            keep_alive_secs: KEEP_ALIVE_SECS,
        }
    }
}

} // verus!
