//! A queue client kept beside the arguments it was made from. Only this
//! module makes one, so what `Queue::target` reports is what the client
//! was made for.

use vstd::prelude::*;
use azure_messaging_servicebus::service_bus::QueueClient;
use super::{QueueArgs, QueueTarget, ServiceBusError};

verus! {

/// A queue client, with the arguments it was made from.
pub struct Queue {
    client: QueueClient,
    args: QueueArgs,
}

impl Queue {
    /// The queue this client serves.
    pub closed spec fn target(self) -> QueueTarget {
        self.args@
    }

    /// The queue client.
    pub fn client(&self) -> &QueueClient {
        &self.client
    }

    /// The arguments the queue client was made from.
    pub fn args(&self) -> (r: &QueueArgs)
        ensures
            r@ == self.target(),
    {
        &self.args
    }
}

/// `QueueClient::new` of azure_messaging_servicebus on the arguments `args`
/// (in the order namespace, queue, policy name, key), handed a fresh HTTP
/// client from `azure_core::new_http_client`; the client is kept beside the
/// arguments it was made from.
///
/// Claimed: the result is `Ok` and holds `args`. The source of
/// `QueueClient::new` (0.20) base64-encodes the key and builds the struct; it
/// has no path that returns `Err`. The HTTP client is made here because
/// verified code cannot hold an `Arc<dyn HttpClient>`. What else the client
/// holds is not stated.
#[verifier::external_body]
pub(crate) fn queue_client_new(args: QueueArgs) -> (r: Result<Queue, ServiceBusError>)
    ensures
        r is Ok,
        r->Ok_0.target() == args@,
{
    let made = QueueClient::new(
        azure_core::new_http_client(),
        args.namespace.clone(),
        args.queue.clone(),
        args.policy_name.clone(),
        args.policy_key.clone(),
    );
    match made {
        Ok(client) => Ok(Queue { client, args }),
        Err(e) => Err(ServiceBusError { message: format!("{}", e) }),
    }
}

/// `Clone::clone` of `QueueClient`, which derives `Clone`.
///
/// Claimed: the clone equals the client it was made from. Every field of
/// `QueueClient` is cloned as a value (an `Arc` to the same HTTP client, and
/// strings).
#[verifier::external_body]
fn clone_queue_client(client: &QueueClient) -> (r: QueueClient)
    ensures
        r == *client,
{
    client.clone()
}

impl Clone for Queue {
    fn clone(&self) -> (r: Self)
        ensures
            r == *self,
    {
        Queue { client: clone_queue_client(&self.client), args: self.args.clone() }
    }
}

}
