//! The original website scaffold kept at the crate root; the monitor's
//! health-check engine performs the real probing.

use vstd::prelude::*;
use vstd::string::*;
use crate::telegram::Telegram;

verus! {

/// A minimal record of what a site check would cover.
pub struct Website {
    api_url: String,
    routes_to_check: Vec<String>,
    frontend_url: String,
    telegram: Telegram,
}

impl Website {
    /// The API URL the record holds.
    pub closed spec fn spec_api_url(&self) -> Seq<char> {
        self.api_url@
    }

    /// The routes the record holds.
    pub closed spec fn spec_routes_to_check(&self) -> Seq<String> {
        self.routes_to_check@
    }

    /// The frontend URL the record holds.
    pub closed spec fn spec_frontend_url(&self) -> Seq<char> {
        self.frontend_url@
    }

    /// An empty record over the given channel handle.
    pub fn new(telegram: Telegram) -> (r: Website)
        ensures
            r.spec_api_url() == Seq::<char>::empty(),
            r.spec_routes_to_check() == Seq::<String>::empty(),
            r.spec_frontend_url() == Seq::<char>::empty(),
    {
        Website {
            api_url: String::new(),
            routes_to_check: Vec::new(),
            frontend_url: String::new(),
            telegram,
        }
    }

    /// Runs the three checks of the record, each of which covers nothing.
    pub fn sumary(&self) {
        self.api_vitaly();
        self.frontend_vitaly();
        self.certificates_vitaly();
    }

    /// Checks nothing: probing lives in the health-check engine.
    pub fn api_vitaly(&self) {
    }

    /// Checks nothing: probing lives in the health-check engine.
    pub fn frontend_vitaly(&self) {
    }

    /// Checks nothing: probing lives in the health-check engine.
    pub fn certificates_vitaly(&self) {
    }
}

} // verus!
