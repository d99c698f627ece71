use crate::result100::IPConfig;
use crate::types::{copy_opt_dns, copy_opt_vec, opt_dns, opt_seq, DeepCopy, IpAddress, IpNetwork, ResultModel, DNS};
use vstd::prelude::*;

verus! {

/// An interface as protocol version 1.1.0 describes it.
#[derive(Debug, Clone, PartialEq, Eq, Default)]
pub struct Interface {
    pub name: Option<String>,
    pub mac: Option<String>,
    pub sandbox: Option<String>,
    pub mtu: Option<u32>,
    /// Path of the socket of a userspace interface.
    pub socket_path: Option<String>,
    /// Bus id of the hardware device behind the interface.
    pub pci_id: Option<String>,
}

impl DeepCopy for Interface {
    fn deep_copy(&self) -> (r: Self) {
        Interface {
            name: self.name.clone(),
            mac: self.mac.clone(),
            sandbox: self.sandbox.clone(),
            mtu: self.mtu,
            socket_path: self.socket_path.clone(),
            pci_id: self.pci_id.clone(),
        }
    }
}

/// A route as protocol version 1.1.0 describes it.
#[derive(Debug, Clone, Copy, PartialEq, Eq, Structural)]
pub struct Route {
    pub dst: Option<IpNetwork>,
    pub gw: Option<IpAddress>,
    pub mtu: Option<u32>,
    /// Advertised maximum segment size.
    pub advmss: Option<u32>,
    pub priority: Option<u32>,
    /// Routing table id.
    pub table: Option<u32>,
    pub scope: Option<u32>,
}

impl DeepCopy for Route {
    fn deep_copy(&self) -> (r: Self) {
        *self
    }
}

/// The result schema of protocol version 1.1.0.
#[derive(Debug, Clone, Default)]
pub struct Result {
    pub cni_version: Option<String>,
    pub interfaces: Option<Vec<Interface>>,
    pub ips: Option<Vec<IPConfig>>,
    pub routes: Option<Vec<Route>>,
    pub dns: Option<DNS>,
}

impl View for Result {
    type V = ResultModel<Interface, Route>;

    open spec fn view(&self) -> ResultModel<Interface, Route> {
        ResultModel {
            cni_version: self.cni_version,
            interfaces: opt_seq(self.interfaces),
            ips: opt_seq(self.ips),
            routes: opt_seq(self.routes),
            dns: opt_dns(self.dns),
        }
    }
}

impl Result {
    /// A copy equal to `self` that shares nothing with it.
    pub fn copy(&self) -> (r: Result)
        ensures
            r@ == self@,
    {
        Result {
            cni_version: self.cni_version.clone(),
            interfaces: copy_opt_vec(&self.interfaces),
            ips: copy_opt_vec(&self.ips),
            routes: copy_opt_vec(&self.routes),
            dns: copy_opt_dns(&self.dns),
        }
    }

    /// The protocol version the result carries, or the empty string.
    pub fn version(&self) -> (r: String)
        ensures
            r@ == match self.cni_version {
                Some(v) => v@,
                None => Seq::<char>::empty(),
            },
    {
        match &self.cni_version {
            Some(v) => v.clone(),
            None => String::new(),
        }
    }
}

} // verus!
