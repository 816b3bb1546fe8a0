//! The state that the jobs of one node share.

use crate::error::Error;
use crate::keys::PublicKey;
use crate::network::MpcNetworkManager;
use crate::state::{join, spec_join, CircuitStore};
use std::sync::Arc;
use vstd::prelude::*;

verus! {

/// Where the private key of the MPC endpoint lies, relative to the data
/// directory, unless the node is told otherwise.
pub const DEFAULT_MPC_KEY_PATH: &'static str = "mpc_certs/mpc_key.der";

/// Where the certificate of the MPC endpoint lies, relative to the data
/// directory, unless the node is told otherwise.
pub const DEFAULT_MPC_CERT_PATH: &'static str = "mpc_certs/mpc_cert.der";

/// What the node was told about the address of its MPC endpoint.
#[derive(Debug)]
pub enum ListenSetting {
    /// Nothing.
    Unset,
    /// Something that is no socket address.
    Invalid,
    /// This socket address.
    Address(String),
}

/// The setting if there is one, else the default.
pub open spec fn setting_or(setting: Option<String>, default: Seq<char>) -> Seq<char> {
    match setting {
        Some(value) => value@,
        None => default,
    }
}

/// Holder of the circuit store and of the session manager of a node.
///
/// `H` is the handle of an established MPC mesh.
pub struct CosnarksContext<H> {
    data_dir: String,
    circuit_store: CircuitStore,
    mpc_network_manager: MpcNetworkManager<H>,
}

impl<H> CosnarksContext<H> {
    /// Whether the store is laid out, and the manager set up, as the context's
    /// data directory calls for.
    pub closed spec fn wf(self) -> bool {
        &&& self.circuit_store.wf()
        &&& self.circuit_store.base() == self.data_dir@
        &&& self.mpc_network_manager.wf()
    }

    /// The node's data directory.
    pub closed spec fn spec_data_dir(self) -> Seq<char> {
        self.data_dir@
    }

    /// The node's circuit store.
    pub closed spec fn spec_circuit_store(self) -> CircuitStore {
        self.circuit_store
    }

    /// The node's session manager.
    pub closed spec fn spec_mpc_network_manager(self) -> MpcNetworkManager<H> {
        self.mpc_network_manager
    }

    /// Sets up the context of a node from its settings.
    ///
    /// The data directory and the address of the MPC endpoint are required, in
    /// this order: a missing one is a missing-configuration error, an address
    /// that is none an invalid-input error. The private key and the
    /// certificate of the MPC endpoint lie where the settings say, relative to
    /// the data directory, and by default under `mpc_certs`. The store is
    /// rooted at the data directory, and no session is established yet.
    pub fn new(
        data_dir: Option<String>,
        listen: ListenSetting,
        key_path: Option<String>,
        cert_path: Option<String>,
        local_public_key: PublicKey,
    ) -> (out: Result<Self, Error>)
        ensures
            match (data_dir, listen) {
                (None, _) => out matches Err(Error::MissingConfiguration(text)) && text@
                    == "Data directory (data_dir) must be set in Blueprint environment"@,
                (Some(_), ListenSetting::Unset) => out matches Err(
                    Error::MissingConfiguration(text),
                ) && text@ == "MPC_LISTEN_DNS environment variable not set"@,
                (Some(_), ListenSetting::Invalid) => out matches Err(Error::InvalidInput(text))
                    && text@ == "Invalid MPC_LISTEN_DNS format"@,
                (Some(dir), ListenSetting::Address(address)) => {
                    &&& out matches Ok(context)
                    &&& context.wf()
                    &&& context.spec_data_dir() == dir@
                    &&& context.spec_circuit_store().base() == dir@
                    &&& context.spec_mpc_network_manager().local_public_key() == local_public_key@
                    &&& context.spec_mpc_network_manager().mpc_listen_dns() == address@
                    &&& context.spec_mpc_network_manager().key_path() == spec_join(
                        dir@,
                        setting_or(key_path, DEFAULT_MPC_KEY_PATH@),
                    )
                    &&& context.spec_mpc_network_manager().cert_path() == spec_join(
                        dir@,
                        setting_or(cert_path, DEFAULT_MPC_CERT_PATH@),
                    )
                    &&& context.spec_mpc_network_manager().sessions() == Map::<
                        Seq<char>,
                        Arc<H>,
                    >::empty()
                },
            },
    {
        let data_dir = match data_dir {
            Some(dir) => dir,
            None => {
                return Err(
                    Error::MissingConfiguration(
                        String::from_str(
                            "Data directory (data_dir) must be set in Blueprint environment",
                        ),
                    ),
                );
            },
        };
        let mpc_listen_dns = match listen {
            ListenSetting::Address(address) => address,
            ListenSetting::Unset => {
                return Err(
                    Error::MissingConfiguration(
                        String::from_str("MPC_LISTEN_DNS environment variable not set"),
                    ),
                );
            },
            ListenSetting::Invalid => {
                return Err(Error::InvalidInput(String::from_str("Invalid MPC_LISTEN_DNS format")));
            },
        };
        let key_file = match key_path {
            Some(path) => join(data_dir.as_str(), path.as_str()),
            None => join(data_dir.as_str(), DEFAULT_MPC_KEY_PATH),
        };
        let cert_file = match cert_path {
            Some(path) => join(data_dir.as_str(), path.as_str()),
            None => join(data_dir.as_str(), DEFAULT_MPC_CERT_PATH),
        };
        let circuit_store = CircuitStore::new(data_dir.clone());
        let mpc_network_manager = MpcNetworkManager::new(
            local_public_key,
            mpc_listen_dns,
            key_file,
            cert_file,
        );
        Ok(CosnarksContext { data_dir, circuit_store, mpc_network_manager })
    }

    /// The node's circuit store.
    pub fn circuit_store(&self) -> (out: &CircuitStore)
        ensures
            *out == self.spec_circuit_store(),
    {
        &self.circuit_store
    }

    /// The node's session manager.
    pub fn mpc_network_manager(&self) -> (out: &MpcNetworkManager<H>)
        ensures
            *out == self.spec_mpc_network_manager(),
    {
        &self.mpc_network_manager
    }

    /// The node's data directory.
    pub fn data_dir(&self) -> (out: Option<String>)
        ensures
            out matches Some(dir) && dir@ == self.spec_data_dir(),
    {
        Some(self.data_dir.clone())
    }

    /// Records the end of a mesh handshake with the session manager; the store
    /// and the data directory stay as they are.
    pub fn handshake_finished(
        &mut self,
        session_instance_id: &str,
        result: Result<H, String>,
    ) -> (out: Result<Arc<H>, Error>)
        requires
            old(self).wf(),
        ensures
            final(self).wf(),
            final(self).spec_data_dir() == old(self).spec_data_dir(),
            final(self).spec_circuit_store() == old(self).spec_circuit_store(),
            final(self).spec_mpc_network_manager().local_public_key() == old(
                self,
            ).spec_mpc_network_manager().local_public_key(),
            final(self).spec_mpc_network_manager().mpc_listen_dns() == old(
                self,
            ).spec_mpc_network_manager().mpc_listen_dns(),
            final(self).spec_mpc_network_manager().key_path() == old(
                self,
            ).spec_mpc_network_manager().key_path(),
            final(self).spec_mpc_network_manager().cert_path() == old(
                self,
            ).spec_mpc_network_manager().cert_path(),
            match result {
                Ok(handler) => if old(self).spec_mpc_network_manager().sessions().contains_key(
                    session_instance_id@,
                ) {
                    &&& out matches Ok(handle)
                    &&& handle == old(self).spec_mpc_network_manager().sessions()[session_instance_id@]
                    &&& final(self).spec_mpc_network_manager().sessions() == old(
                        self,
                    ).spec_mpc_network_manager().sessions()
                } else {
                    &&& out matches Ok(handle)
                    &&& *handle == handler
                    &&& final(self).spec_mpc_network_manager().sessions() == old(
                        self,
                    ).spec_mpc_network_manager().sessions().insert(session_instance_id@, handle)
                },
                Err(reason) => {
                    &&& out matches Err(Error::NetworkError(text))
                    &&& text@ == "Failed to establish MPC network: "@ + reason@
                    &&& final(self).spec_mpc_network_manager().sessions() == old(
                        self,
                    ).spec_mpc_network_manager().sessions()
                },
            },
    {
        self.mpc_network_manager.handshake_finished(session_instance_id, result)
    }
}

} // verus!
