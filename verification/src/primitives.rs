//! Configuration, availability probes and endpoint addresses.

use vstd::prelude::*;

verus! {

/// Configuration of the transport.
#[derive(Debug, Clone, PartialEq, Eq)]
pub struct OfiConfig {
    /// Provider name hint (e.g., "efa", "verbs", "tcp", or empty for auto).
    pub provider: String,
    /// Maximum number of outstanding send work requests.
    pub max_send_wr: usize,
    /// Maximum number of outstanding recv work requests.
    pub max_recv_wr: usize,
    /// Whether to ask the provider for device memory support first.
    pub request_hmem: bool,
}

impl OfiConfig {
    /// The configuration that is used when none is given.
    pub open spec fn is_default(self) -> bool {
        &&& self.provider@ == Seq::<char>::empty()
        &&& self.max_send_wr == 128
        &&& self.max_recv_wr == 128
        &&& self.request_hmem
    }
}

impl Default for OfiConfig {
    fn default() -> (config: Self)
        ensures
            config.is_default(),
    {
        OfiConfig {
            provider: String::new(),
            max_send_wr: 128,
            max_recv_wr: 128,
            request_hmem: true,
        }
    }
}

/// Endpoint address for peer exchange.
///
/// The bytes are those of `fi_getname`, in the provider's own encoding; a peer
/// hands them to `fi_av_insert`.
#[derive(Debug, Clone, PartialEq, Eq)]
pub struct OfiEndpointInfo {
    /// Raw endpoint address from `fi_getname`.
    pub addr: Vec<u8>,
    /// Size of the address in bytes.
    pub addr_len: usize,
}

} // verus!
