//! The address of a node of the cluster.
use vstd::prelude::*;

verus! {

/// A host name and a port.
#[derive(Debug, PartialEq, Eq, Hash)]
pub struct HostAddress {
    pub host: String,
    pub port: i32,
}

impl Clone for HostAddress {
    fn clone(&self) -> (copy: HostAddress)
        ensures
            copy == *self,
    {
        HostAddress { host: self.host.clone(), port: self.port }
    }
}

} // verus!
