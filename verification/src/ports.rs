//! The entries by which user space tells the classifier which ports it runs portals on.
use vstd::prelude::*;

use crate::classify::{Port, Proto};

verus! {

/// A port that a portal listens on, with the Ockam protocol number of that portal.
#[derive(Clone, Copy, Debug)]
pub struct PortQueueElement {
    pub port: Port,
    pub proto: Proto,
}

impl PortQueueElement {
    /// The empty entry: port 0, protocol 0.
    pub fn new() -> (res: Self)
        ensures
            res.port == 0,
            res.proto == 0,
    {
        PortQueueElement { port: 0, proto: 0 }
    }
}

impl Default for PortQueueElement {
    fn default() -> (res: Self)
        ensures
            res.port == 0,
            res.proto == 0,
    {
        PortQueueElement::new()
    }
}

} // verus!
