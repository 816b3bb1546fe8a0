//! Configuration of the TLS mesh that carries MPC traffic.

use vstd::prelude::*;

verus! {

/// A network endpoint: host name and port.
#[derive(Debug, Clone, PartialEq, Eq)]
pub struct Address {
    pub hostname: String,
    pub port: u16,
}

/// Mathematical content of an [`Address`].
pub struct AddressView {
    pub hostname: Seq<char>,
    pub port: u16,
}

impl View for Address {
    type V = AddressView;

    open spec fn view(&self) -> AddressView {
        AddressView { hostname: self.hostname@, port: self.port }
    }
}

/// One party of the mesh: its index, where it listens, and where its certificate lies.
#[derive(Debug, Clone, PartialEq, Eq)]
pub struct NetworkPartyConfig {
    pub id: usize,
    pub dns_name: Address,
    pub cert_path: String,
}

/// Mathematical content of a [`NetworkPartyConfig`].
pub struct NetworkPartyConfigView {
    pub id: usize,
    pub dns_name: AddressView,
    pub cert_path: Seq<char>,
}

impl View for NetworkPartyConfig {
    type V = NetworkPartyConfigView;

    open spec fn view(&self) -> NetworkPartyConfigView {
        NetworkPartyConfigView { id: self.id, dns_name: self.dns_name@, cert_path: self.cert_path@ }
    }
}

/// The complete description of a mesh from one party's point of view.
#[derive(Debug, Clone)]
pub struct NetworkConfigFile {
    /// Index of the local party.
    pub my_id: usize,
    /// Address on which the local party listens.
    pub bind_addr: String,
    /// Location of the local party's private key.
    pub key_path: String,
    /// Every party of the mesh, ordered by index.
    pub parties: Vec<NetworkPartyConfig>,
    /// Seconds after which the handshake is given up.
    pub timeout_secs: Option<u64>,
}

} // verus!
