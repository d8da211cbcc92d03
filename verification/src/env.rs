//! The task environment: everything a script needs to talk to one
//! network as one account.

use vstd::prelude::*;

verus! {

use crate::client::{QueryClient, SigningClient};
use crate::errors::ClientError;
use crate::refs::NetworkSpecificRefs;

/// The environment a task runs in: a read-only client, a signing
/// client, and the network's contract references together with the path
/// they are persisted under.
pub struct Env {
    pub network: String,
    pub querier: QueryClient,
    pub executor: SigningClient,
    pub refs: NetworkSpecificRefs,
    pub refs_path: String,
}

impl Env {
    pub fn new(
        network: String,
        querier: QueryClient,
        executor: SigningClient,
        refs: NetworkSpecificRefs,
        refs_path: String,
    ) -> (res: Result<Env, ClientError>)
        ensures
            res matches Ok(e) ==> e.network == network && e.querier == querier && e.executor
                == executor && e.refs == refs && e.refs_path == refs_path,
            res is Ok,
    {
        Ok(Env { network, querier, executor, refs, refs_path })
    }
}

} // verus!
