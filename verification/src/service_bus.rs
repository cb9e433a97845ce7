//! Service Bus queue clients: the connection settings a host is configured
//! with, the arguments a queue client is made from, and the queue client
//! itself, kept beside the arguments it was made from.

use vstd::prelude::*;

mod queue;

pub use self::queue::Queue;
use self::queue::queue_client_new;

verus! {

/// The queue client of azure_messaging_servicebus, held opaque.
#[verifier::external_type_specification]
#[verifier::external_body]
pub struct ExQueueClient(azure_messaging_servicebus::service_bus::QueueClient);

/// A failure reported by the Service Bus client library, with its message.
#[derive(Debug)]
pub struct ServiceBusError {
    pub message: String,
}

/// The Service Bus namespace and shared access policy that every queue
/// client of a host is made with.
pub struct ServiceBusSettings {
    pub namespace: String,
    pub policy_name: String,
    pub policy_key: String,
}

/// What a queue client serves: namespace, queue, policy name and policy key,
/// in that order.
pub type QueueTarget = (Seq<char>, Seq<char>, Seq<char>, Seq<char>);

/// The queue that `settings` gives for the queue named `queue`.
pub open spec fn target_of(settings: ServiceBusSettings, queue: Seq<char>) -> QueueTarget {
    (settings.namespace@, queue, settings.policy_name@, settings.policy_key@)
}

/// The arguments a queue client is made from.
pub struct QueueArgs {
    pub namespace: String,
    pub queue: String,
    pub policy_name: String,
    pub policy_key: String,
}

impl View for QueueArgs {
    type V = QueueTarget;

    open spec fn view(&self) -> QueueTarget {
        (self.namespace@, self.queue@, self.policy_name@, self.policy_key@)
    }
}

impl Clone for QueueArgs {
    fn clone(&self) -> (r: Self)
        ensures
            r == *self,
    {
        QueueArgs {
            namespace: self.namespace.clone(),
            queue: self.queue.clone(),
            policy_name: self.policy_name.clone(),
            policy_key: self.policy_key.clone(),
        }
    }
}

/// The arguments for a client of the queue `queue`, with the namespace and
/// policy of `settings`.
pub fn queue_args(settings: &ServiceBusSettings, queue: &String) -> (r: QueueArgs)
    ensures
        r@ == target_of(*settings, queue@),
{
    QueueArgs {
        namespace: settings.namespace.clone(),
        queue: queue.clone(),
        policy_name: settings.policy_name.clone(),
        policy_key: settings.policy_key.clone(),
    }
}

/// Creates a client of the queue `queue`, with the namespace and policy of
/// `settings`. This never fails.
pub fn open_queue(settings: &ServiceBusSettings, queue: &String) -> (r: Queue)
    ensures
        r.target() == target_of(*settings, queue@),
{
    queue_client_new(queue_args(settings, queue)).unwrap()
}

/// Queue clients opened with the same settings serve the same queue exactly
/// when they were opened for the same queue name, and each serves the queue
/// it was opened for, in the settings' namespace and with their policy.
pub proof fn lemma_open_queue_serves_its_name(
    settings: ServiceBusSettings,
    a: Seq<char>,
    b: Seq<char>,
    qa: Queue,
    qb: Queue,
)
    requires
        qa.target() == target_of(settings, a),
        qb.target() == target_of(settings, b),
    ensures
        qa.target().1 == a,
        qa.target().0 == settings.namespace@,
        qa.target().2 == settings.policy_name@,
        qa.target().3 == settings.policy_key@,
        (qa.target() == qb.target()) <==> (a == b),
{
}

}
