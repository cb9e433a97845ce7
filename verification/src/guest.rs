//! The guest's side of the messaging interface: the configuration it asks
//! the host for, and its message handler.

use vstd::prelude::*;

verus! {

/// The configuration a guest hands the host: the channels it listens on and
/// optional extensions as name/value pairs.
pub struct GuestConfiguration {
    pub channels: Vec<String>,
    pub extensions: Option<Vec<(String, String)>>,
}

/// The guest's error resource; it carries nothing.
#[derive(Debug, PartialEq, Eq, Structural)]
pub struct Error {}

/// The channel a guest listens on and connects to.
pub fn default_channel() -> (r: String)
    ensures
        r@ == "default"@,
{
    String::from_str("default")
}

/// The guest's configuration: it listens on the default channel alone, with
/// no extensions. This never fails.
pub fn configure() -> (r: Result<GuestConfiguration, Error>)
    ensures
        r matches Ok(c) && c.channels@.len() == 1 && c.channels@[0]@ == "default"@
            && c.extensions is None,
{
    let mut channels: Vec<String> = Vec::new();
    channels.push(default_channel());
    Ok(GuestConfiguration { channels, extensions: None })
}

/// The guest's handler for a batch of messages: it connects to the default
/// channel through `connect`, and fails exactly when connecting fails.
/// `connect` need only accept the default channel: the handler connects to
/// no other.
pub fn handler<F: Fn(String) -> Result<(), Error>>(connect: F) -> (r: Result<(), Error>)
    requires
        forall|name: String| name@ == "default"@ ==> #[trigger] connect.requires((name,)),
    ensures
        exists|name: String| name@ == "default"@ && #[trigger] connect.ensures((name,), r),
{
    let name = default_channel();
    let ghost called = name;
    let r = connect(name);
    assert(called@ == "default"@ && connect.ensures((called,), r));
    r
}

/// The channel the handler connects to is one the guest's configuration
/// listens on.
pub proof fn lemma_handler_channel_is_configured(config: GuestConfiguration, name: String)
    requires
        config.channels@.len() == 1,
        config.channels@[0]@ == "default"@,
        name@ == "default"@,
    ensures
        exists|i: int| 0 <= i < config.channels@.len() && #[trigger] config.channels@[i]@ == name@,
{
    assert(config.channels@[0]@ == name@);
}

}
