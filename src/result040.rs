use crate::result100::{IPConfig, Interface};
use crate::types::{copy_opt_dns, copy_opt_vec, opt_dns, opt_seq, ResultModel, Route, DNS};
use vstd::prelude::*;

verus! {

/// The result schema of protocol version 0.4.0.
#[derive(Debug, Clone, Default)]
pub struct Result {
    pub cni_version: Option<String>,
    pub interfaces: Option<Vec<Interface>>,
    pub ips: Option<Vec<IPConfig>>,
    pub routes: Option<Vec<Route>>,
    pub dns: Option<DNS>,
}

impl View for Result {
    type V = ResultModel<Interface, Route>;

    open spec fn view(&self) -> ResultModel<Interface, Route> {
        ResultModel {
            cni_version: self.cni_version,
            interfaces: opt_seq(self.interfaces),
            ips: opt_seq(self.ips),
            routes: opt_seq(self.routes),
            dns: opt_dns(self.dns),
        }
    }
}

impl Result {
    /// A copy equal to `self` that shares nothing with it.
    pub fn copy(&self) -> (r: Result)
        ensures
            r@ == self@,
    {
        Result {
            cni_version: self.cni_version.clone(),
            interfaces: copy_opt_vec(&self.interfaces),
            ips: copy_opt_vec(&self.ips),
            routes: copy_opt_vec(&self.routes),
            dns: copy_opt_dns(&self.dns),
        }
    }

    /// The protocol version the result carries, or the empty string.
    pub fn version(&self) -> (r: String)
        ensures
            r@ == match self.cni_version {
                Some(v) => v@,
                None => Seq::<char>::empty(),
            },
    {
        match &self.cni_version {
            Some(v) => v.clone(),
            None => String::new(),
        }
    }
}

} // verus!
