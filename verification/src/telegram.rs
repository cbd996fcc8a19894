//! The original channel scaffold kept at the crate root; the monitor's
//! notification client performs the real channel work.

use vstd::prelude::*;
use vstd::string::*;

verus! {

/// A minimal handle on the notification channel.
#[derive(Clone)]
pub struct Telegram {
    bot_token: String,
}

impl Telegram {
    /// The token the handle was created with.
    pub closed spec fn spec_bot_token(&self) -> Seq<char> {
        self.bot_token@
    }

    /// A handle with no token configured.
    pub fn new() -> (r: Telegram)
        ensures
            r.spec_bot_token() == Seq::<char>::empty(),
    {
        Telegram { bot_token: String::new() }
    }

    /// Publishes nothing: sends go through the notification client.
    pub fn publish_message(&self) {
    }

    /// Publishes nothing: summaries go through the notification client.
    pub fn services_sumary() {
    }
}

} // verus!
