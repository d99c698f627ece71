use crate::types::{copy_opt_dns, copy_opt_vec, opt_dns, opt_seq, DeepCopy, IpAddress, IpNetwork, ResultModel, Route, DNS};
use vstd::prelude::*;

verus! {

/// An interface as protocol versions 0.3.1 to 1.0.0 describe it.
#[derive(Debug, Clone, PartialEq, Eq, Default)]
pub struct Interface {
    pub name: Option<String>,
    pub mac: Option<String>,
    pub sandbox: Option<String>,
}

impl DeepCopy for Interface {
    fn deep_copy(&self) -> (r: Self) {
        Interface { name: self.name.clone(), mac: self.mac.clone(), sandbox: self.sandbox.clone() }
    }
}

/// An IP configuration: the index of the interface it belongs to, the
/// address with its network, and the gateway.
#[derive(Debug, Clone, Copy, PartialEq, Eq, Structural)]
pub struct IPConfig {
    pub interface: Option<u32>,
    pub address: IpNetwork,
    pub gateway: Option<IpAddress>,
}

impl DeepCopy for IPConfig {
    fn deep_copy(&self) -> (r: Self) {
        *self
    }
}

/// The result schema of protocol version 1.0.0.
#[derive(Debug, Clone, Default)]
pub struct Result {
    pub cni_version: Option<String>,
    pub interfaces: Option<Vec<Interface>>,
    pub ips: Option<Vec<IPConfig>>,
    pub routes: Option<Vec<Route>>,
    pub dns: Option<DNS>,
}

impl View for Result {
    type V = ResultModel<Interface, Route>;

    open spec fn view(&self) -> ResultModel<Interface, Route> {
        ResultModel {
            cni_version: self.cni_version,
            interfaces: opt_seq(self.interfaces),
            ips: opt_seq(self.ips),
            routes: opt_seq(self.routes),
            dns: opt_dns(self.dns),
        }
    }
}

impl Result {
    /// A copy equal to `self` that shares nothing with it.
    pub fn copy(&self) -> (r: Result)
        ensures
            r@ == self@,
    {
        Result {
            cni_version: self.cni_version.clone(),
            interfaces: copy_opt_vec(&self.interfaces),
            ips: copy_opt_vec(&self.ips),
            routes: copy_opt_vec(&self.routes),
            dns: copy_opt_dns(&self.dns),
        }
    }

    /// The protocol version the result carries, or the empty string.
    pub fn version(&self) -> (r: String)
        ensures
            r@ == match self.cni_version {
                Some(v) => v@,
                None => Seq::<char>::empty(),
            },
    {
        match &self.cni_version {
            Some(v) => v.clone(),
            None => String::new(),
        }
    }
}

} // verus!
