use vstd::prelude::*;
use crate::datastore::DataStore;

verus! {

#[verifier::external_type_specification]
#[verifier::external_body]
pub struct ExBitcoinRpcClient(bitcoincore_rpc::Client);

/// A client of the Bitcoin RPC server.
#[derive(Debug)]
pub struct RpcClient {
    pub rpc: bitcoincore_rpc::Client,
}

/// Our mode of operation: the Bitcoin RPC client and the SQL data store.
#[derive(Debug)]
pub struct Mode {
    pub rpc: RpcClient,
    pub store: DataStore,
}

impl Mode {
    /// Gives up the mode for its Bitcoin RPC client.
    pub fn getrpc(self) -> (client: bitcoincore_rpc::Client)
        ensures
            client == self.rpc.rpc,
    {
        self.rpc.rpc
    }

    /// Gives up the mode for its database client, if it is connected.
    pub fn getstoreclient(self) -> (client: Option<tokio_postgres::Client>)
        ensures
            client == self.store.client,
    {
        self.store.client
    }
}

} // verus!
