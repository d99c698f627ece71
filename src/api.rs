use crate::error::CNIError;
use crate::result031;
use crate::result040;
use crate::result100;
use crate::result100::IPConfig;
use crate::result110;
use crate::types::{copy_opt_dns, copy_opt_vec, opt_dns, opt_seq, ResultModel, Route, DNS};
use vstd::prelude::*;

verus! {

/// A protocol version that has a result schema.
#[derive(Debug, Clone, Copy, PartialEq, Eq, Structural)]
pub enum CniVersion {
    V031,
    V040,
    V100,
    V110,
}

/// The version assumed for a payload that carries no version tag.
pub open spec fn spec_default_version() -> CniVersion {
    CniVersion::V100
}

impl CniVersion {
    /// The version string a schema is registered under.
    pub open spec fn spec_text(self) -> Seq<char> {
        match self {
            CniVersion::V031 => "0.3.1"@,
            CniVersion::V040 => "0.4.0"@,
            CniVersion::V100 => "1.0.0"@,
            CniVersion::V110 => "1.1.0"@,
        }
    }

    pub fn as_str(&self) -> (r: &'static str)
        ensures
            r@ == self.spec_text(),
    {
        match self {
            CniVersion::V031 => "0.3.1",
            CniVersion::V040 => "0.4.0",
            CniVersion::V100 => "1.0.0",
            CniVersion::V110 => "1.1.0",
        }
    }

    /// The version that the tag names, if any schema is registered under it.
    pub open spec fn spec_parse(s: Seq<char>) -> Option<CniVersion> {
        if s == "0.3.1"@ {
            Some(CniVersion::V031)
        } else if s == "0.4.0"@ {
            Some(CniVersion::V040)
        } else if s == "1.0.0"@ {
            Some(CniVersion::V100)
        } else if s == "1.1.0"@ {
            Some(CniVersion::V110)
        } else {
            None
        }
    }

    /// Looks up the schema registered under exactly the string `s`.
    pub fn parse(s: &String) -> (r: Option<CniVersion>)
        ensures
            r == CniVersion::spec_parse(s@),
    {
        if *s == String::from_str("0.3.1") {
            Some(CniVersion::V031)
        } else if *s == String::from_str("0.4.0") {
            Some(CniVersion::V040)
        } else if *s == String::from_str("1.0.0") {
            Some(CniVersion::V100)
        } else if *s == String::from_str("1.1.0") {
            Some(CniVersion::V110)
        } else {
            None
        }
    }

    pub fn default_version() -> (r: CniVersion)
        ensures
            r == spec_default_version(),
    {
        CniVersion::V100
    }
}

/// Every schema is registered under exactly one string, no two schemas share
/// one, and looking up a schema's own string finds that schema.
pub proof fn lemma_registry_unique(a: CniVersion, b: CniVersion)
    ensures
        CniVersion::spec_parse(a.spec_text()) == Some(a),
        a.spec_text() == b.spec_text() ==> a == b,
{
    reveal_strlit("0.3.1");
    reveal_strlit("0.4.0");
    reveal_strlit("1.0.0");
    reveal_strlit("1.1.0");
    assert("0.3.1"@[2] != "0.4.0"@[2]);
    assert("0.3.1"@[0] != "1.0.0"@[0]);
    assert("0.3.1"@[0] != "1.1.0"@[0]);
    assert("0.4.0"@[0] != "1.0.0"@[0]);
    assert("0.4.0"@[0] != "1.1.0"@[0]);
    assert("1.0.0"@[2] != "1.1.0"@[2]);
}

/// Picks the schema for a payload from its version tag: the tag's schema
/// when one is registered under it, the default version when the payload has
/// no tag, and a decoding failure otherwise.
pub fn dispatch_version(tag: Option<&String>) -> (r: Result<CniVersion, CNIError>)
    ensures
        match tag {
            None => r == Ok::<CniVersion, CNIError>(spec_default_version()),
            Some(t) => match CniVersion::spec_parse(t@) {
                Some(v) => r == Ok::<CniVersion, CNIError>(v),
                None => r matches Err(CNIError::VarDecode(m)) && m@ == "unknown CNI version: "@ + t@,
            },
        },
{
    match tag {
        None => Ok(CniVersion::default_version()),
        Some(t) => match CniVersion::parse(t) {
            Some(v) => Ok(v),
            None => Err(unknown_version(t)),
        },
    }
}

fn unknown_version(t: &String) -> (e: CNIError)
    ensures
        e matches CNIError::VarDecode(m) && m@ == "unknown CNI version: "@ + t@,
{
    let mut m = String::from_str("unknown CNI version: ");
    m.append(t.as_str());
    CNIError::VarDecode(m)
}

/// The abstract value of a schema before 1.1.0.
pub type LegacyModel = ResultModel<result100::Interface, Route>;

/// The abstract value of a 1.1.0 schema.
pub type Model110 = ResultModel<result110::Interface, result110::Route>;

/// A result of any supported protocol version.
#[derive(Debug, Clone)]
pub enum APIResult {
    V031(result031::Result),
    V040(result040::Result),
    V100(result100::Result),
    V110(result110::Result),
}

/// The abstract value of an [`APIResult`]: its schema and that schema's value.
pub enum APIResultModel {
    V031(LegacyModel),
    V040(LegacyModel),
    V100(LegacyModel),
    V110(Model110),
}

impl APIResultModel {
    pub open spec fn schema(self) -> CniVersion {
        match self {
            APIResultModel::V031(_) => CniVersion::V031,
            APIResultModel::V040(_) => CniVersion::V040,
            APIResultModel::V100(_) => CniVersion::V100,
            APIResultModel::V110(_) => CniVersion::V110,
        }
    }

    /// The protocol version field of the value, if set.
    pub open spec fn cni_version(self) -> Option<String> {
        match self {
            APIResultModel::V031(m) => m.cni_version,
            APIResultModel::V040(m) => m.cni_version,
            APIResultModel::V100(m) => m.cni_version,
            APIResultModel::V110(m) => m.cni_version,
        }
    }
}

impl View for APIResult {
    type V = APIResultModel;

    open spec fn view(&self) -> APIResultModel {
        match self {
            APIResult::V031(r) => APIResultModel::V031(r@),
            APIResult::V040(r) => APIResultModel::V040(r@),
            APIResult::V100(r) => APIResultModel::V100(r@),
            APIResult::V110(r) => APIResultModel::V110(r@),
        }
    }
}

/// A 1.0.0 interface as 1.1.0 describes it: the fields added in 1.1.0 unset.
pub open spec fn interface_up(i: result100::Interface) -> result110::Interface {
    result110::Interface {
        name: i.name,
        mac: i.mac,
        sandbox: i.sandbox,
        mtu: None,
        socket_path: None,
        pci_id: None,
    }
}

/// A 1.1.0 interface as 1.0.0 describes it: the fields 1.0.0 lacks dropped.
pub open spec fn interface_down(i: result110::Interface) -> result100::Interface {
    result100::Interface { name: i.name, mac: i.mac, sandbox: i.sandbox }
}

/// A route before 1.1.0 as 1.1.0 describes it: the fields added in 1.1.0
/// unset.
pub open spec fn route_up(r: Route) -> result110::Route {
    result110::Route {
        dst: Some(r.dst),
        gw: r.gw,
        mtu: None,
        advmss: None,
        priority: None,
        table: None,
        scope: None,
    }
}

/// A 1.1.0 route as earlier versions describe it; only defined for a route
/// with a destination.
pub open spec fn route_down(r: result110::Route) -> Route {
    Route { dst: r.dst.unwrap(), gw: r.gw }
}

/// Whether every route of a 1.1.0 value has a destination, which the earlier
/// versions require.
pub open spec fn routes_have_dst(routes: Option<Seq<result110::Route>>) -> bool {
    match routes {
        Some(s) => forall|i: int| 0 <= i < s.len() ==> (#[trigger] s[i]).dst.is_some(),
        None => true,
    }
}

/// The value before 1.1.0, tagged with `version`, as 1.1.0 describes it.
pub open spec fn legacy_up(m: LegacyModel, version: String) -> Model110 {
    ResultModel {
        cni_version: Some(version),
        interfaces: match m.interfaces {
            Some(s) => Some(s.map_values(|i: result100::Interface| interface_up(i))),
            None => None,
        },
        ips: m.ips,
        routes: match m.routes {
            Some(s) => Some(s.map_values(|r: Route| route_up(r))),
            None => None,
        },
        dns: m.dns,
    }
}

/// The 1.1.0 value, tagged with `version`, as earlier versions describe it.
pub open spec fn v110_down(m: Model110, version: String) -> LegacyModel {
    ResultModel {
        cni_version: Some(version),
        interfaces: match m.interfaces {
            Some(s) => Some(s.map_values(|i: result110::Interface| interface_down(i))),
            None => None,
        },
        ips: m.ips,
        routes: match m.routes {
            Some(s) => Some(s.map_values(|r: result110::Route| route_down(r))),
            None => None,
        },
        dns: m.dns,
    }
}

/// A value before 1.1.0 tagged with `version`.
pub open spec fn legacy_retag(m: LegacyModel, version: String) -> LegacyModel {
    ResultModel {
        cni_version: Some(version),
        interfaces: m.interfaces,
        ips: m.ips,
        routes: m.routes,
        dns: m.dns,
    }
}

/// A value before 1.1.0, already tagged, placed in the schema of `t`.
pub open spec fn legacy_into(t: CniVersion, m: LegacyModel) -> APIResultModel {
    match t {
        CniVersion::V031 => APIResultModel::V031(m),
        CniVersion::V040 => APIResultModel::V040(m),
        CniVersion::V100 => APIResultModel::V100(m),
        CniVersion::V110 => APIResultModel::V110(legacy_up(m, m.cni_version.unwrap())),
    }
}

/// Whether the value declares exactly the protocol version `version`.
pub open spec fn declares(m: APIResultModel, version: Seq<char>) -> bool {
    match m.cni_version() {
        Some(v) => v@ == version,
        None => false,
    }
}

/// A 1.1.0 value tagged with `version`.
pub open spec fn v110_retag(m: Model110, version: String) -> Model110 {
    ResultModel {
        cni_version: Some(version),
        interfaces: m.interfaces,
        ips: m.ips,
        routes: m.routes,
        dns: m.dns,
    }
}

/// The value of `m` made compatible with `version`, whose schema is `t`:
/// `m` itself when it already declares `version`; otherwise the value in the
/// schema of `t` (its own schema included) declaring `version`, with every
/// field that both schemas define carried over and the others dropped or
/// left unset. `None` when a 1.1.0 route without destination would have to
/// go to an earlier version.
pub open spec fn migrate(m: APIResultModel, t: CniVersion, version: String) -> Option<
    APIResultModel,
> {
    if declares(m, version@) {
        Some(m)
    } else {
        match m {
            APIResultModel::V031(l) => Some(legacy_into(t, legacy_retag(l, version))),
            APIResultModel::V040(l) => Some(legacy_into(t, legacy_retag(l, version))),
            APIResultModel::V100(l) => Some(legacy_into(t, legacy_retag(l, version))),
            APIResultModel::V110(n) => if t == CniVersion::V110 {
                Some(APIResultModel::V110(v110_retag(n, version)))
            } else if routes_have_dst(n.routes) {
                Some(legacy_into(t, v110_down(n, version)))
            } else {
                None
            },
        }
    }
}

/// Asking a result for the version it already declares gives back a value
/// equal to it in every field.
pub proof fn lemma_same_version_is_copy(m: APIResultModel, t: CniVersion, version: String)
    requires
        declares(m, version@),
    ensures
        migrate(m, t, version) == Some(m),
{
}

/// Whatever a result is converted to declares the version asked for.
pub proof fn lemma_result_declares_target(m: APIResultModel, t: CniVersion, version: String)
    ensures
        migrate(m, t, version) matches Some(x) ==> declares(x, version@),
{
}

/// Taking a result held in a schema before 1.1.0 up to 1.1.0 and back to
/// its own schema loses nothing: every field comes back as it was, with only
/// the protocol version field set to the version asked for last.
pub proof fn lemma_upgrade_then_downgrade(l: LegacyModel, t: CniVersion, up: String, down: String)
    requires
        t != CniVersion::V110,
        CniVersion::spec_parse(up@) == Some(CniVersion::V110),
        CniVersion::spec_parse(down@) == Some(t),
        !declares(legacy_into(t, l), up@),
    ensures
        migrate(legacy_into(t, l), CniVersion::V110, up) matches Some(n) && migrate(
            n,
            t,
            down,
        ) == Some(legacy_into(t, legacy_retag(l, down))),
{
    let n = legacy_up(legacy_retag(l, up), up);
    lemma_registry_unique(t, CniVersion::V110);
    assert(up@ != down@);
    if let Some(s) = l.routes {
        let u = s.map_values(|r: Route| route_up(r));
        assert(n.routes == Some(u));
        assert(routes_have_dst(n.routes));
        assert(u.map_values(|r: result110::Route| route_down(r)) =~= s);
    }
    if let Some(s) = l.interfaces {
        let u = s.map_values(|i: result100::Interface| interface_up(i));
        assert(u.map_values(|i: result110::Interface| interface_down(i)) =~= s);
    }
    assert(v110_down(n, down) == legacy_retag(l, down));
}

fn interface_up_exec(i: &result100::Interface) -> (r: result110::Interface)
    ensures
        r == interface_up(*i),
{
    result110::Interface {
        name: i.name.clone(),
        mac: i.mac.clone(),
        sandbox: i.sandbox.clone(),
        mtu: None,
        socket_path: None,
        pci_id: None,
    }
}

fn interface_down_exec(i: &result110::Interface) -> (r: result100::Interface)
    ensures
        r == interface_down(*i),
{
    result100::Interface { name: i.name.clone(), mac: i.mac.clone(), sandbox: i.sandbox.clone() }
}

fn interfaces_up(o: &Option<Vec<result100::Interface>>) -> (r: Option<Vec<result110::Interface>>)
    ensures
        opt_seq(r) == match opt_seq(*o) {
            Some(s) => Some(s.map_values(|i: result100::Interface| interface_up(i))),
            None => None,
        },
{
    match o {
        None => None,
        Some(v) => {
            let mut r: Vec<result110::Interface> = Vec::new();
            let mut k: usize = 0;
            while k < v.len()
                invariant
                    k <= v.len(),
                    r@ == v@.subrange(0, k as int).map_values(
                        |i: result100::Interface| interface_up(i),
                    ),
                decreases v.len() - k,
            {
                r.push(interface_up_exec(&v[k]));
                k = k + 1;
                assert(r@ =~= v@.subrange(0, k as int).map_values(
                    |i: result100::Interface| interface_up(i),
                ));
            }
            assert(v@.subrange(0, k as int) =~= v@);
            Some(r)
        },
    }
}

fn interfaces_down(o: &Option<Vec<result110::Interface>>) -> (r: Option<Vec<result100::Interface>>)
    ensures
        opt_seq(r) == match opt_seq(*o) {
            Some(s) => Some(s.map_values(|i: result110::Interface| interface_down(i))),
            None => None,
        },
{
    match o {
        None => None,
        Some(v) => {
            let mut r: Vec<result100::Interface> = Vec::new();
            let mut k: usize = 0;
            while k < v.len()
                invariant
                    k <= v.len(),
                    r@ == v@.subrange(0, k as int).map_values(
                        |i: result110::Interface| interface_down(i),
                    ),
                decreases v.len() - k,
            {
                r.push(interface_down_exec(&v[k]));
                k = k + 1;
                assert(r@ =~= v@.subrange(0, k as int).map_values(
                    |i: result110::Interface| interface_down(i),
                ));
            }
            assert(v@.subrange(0, k as int) =~= v@);
            Some(r)
        },
    }
}

fn routes_up(o: &Option<Vec<Route>>) -> (r: Option<Vec<result110::Route>>)
    ensures
        opt_seq(r) == match opt_seq(*o) {
            Some(s) => Some(s.map_values(|x: Route| route_up(x))),
            None => None,
        },
{
    match o {
        None => None,
        Some(v) => {
            let mut r: Vec<result110::Route> = Vec::new();
            let mut k: usize = 0;
            while k < v.len()
                invariant
                    k <= v.len(),
                    r@ == v@.subrange(0, k as int).map_values(|x: Route| route_up(x)),
                decreases v.len() - k,
            {
                let x = v[k];
                r.push(
                    result110::Route {
                        dst: Some(x.dst),
                        gw: x.gw,
                        mtu: None,
                        advmss: None,
                        priority: None,
                        table: None,
                        scope: None,
                    },
                );
                k = k + 1;
                assert(r@ =~= v@.subrange(0, k as int).map_values(|x: Route| route_up(x)));
            }
            assert(v@.subrange(0, k as int) =~= v@);
            Some(r)
        },
    }
}

/// The routes of a 1.1.0 value as earlier versions describe them: the outer
/// `None` when some route has no destination.
fn routes_down(o: &Option<Vec<result110::Route>>) -> (r: Option<Option<Vec<Route>>>)
    ensures
        r.is_some() <==> routes_have_dst(opt_seq(*o)),
        r.is_some() ==> opt_seq(r.unwrap()) == match opt_seq(*o) {
            Some(s) => Some(s.map_values(|x: result110::Route| route_down(x))),
            None => None,
        },
{
    match o {
        None => Some(None),
        Some(v) => {
            let mut r: Vec<Route> = Vec::new();
            let mut k: usize = 0;
            while k < v.len()
                invariant
                    k <= v.len(),
                    opt_seq(*o) == Some(v@),
                    forall|j: int| 0 <= j < k ==> (#[trigger] v@[j]).dst.is_some(),
                    r@ == v@.subrange(0, k as int).map_values(|x: result110::Route| route_down(x)),
                decreases v.len() - k,
            {
                let x = v[k];
                match x.dst {
                    Some(dst) => {
                        r.push(Route { dst, gw: x.gw });
                    },
                    None => {
                        assert(v@[k as int].dst.is_none());
                        return None;
                    },
                }
                k = k + 1;
                assert(r@ =~= v@.subrange(0, k as int).map_values(
                    |x: result110::Route| route_down(x),
                ));
            }
            assert(v@.subrange(0, k as int) =~= v@);
            Some(Some(r))
        },
    }
}

/// Places the fields of a value before 1.1.0 in the schema of `t`.
fn legacy_build(
    t: CniVersion,
    cni_version: Option<String>,
    interfaces: Option<Vec<result100::Interface>>,
    ips: Option<Vec<IPConfig>>,
    routes: Option<Vec<Route>>,
    dns: Option<DNS>,
) -> (r: APIResult)
    requires
        t != CniVersion::V110,
    ensures
        r@ == legacy_into(
            t,
            ResultModel {
                cni_version,
                interfaces: opt_seq(interfaces),
                ips: opt_seq(ips),
                routes: opt_seq(routes),
                dns: opt_dns(dns),
            },
        ),
{
    match t {
        CniVersion::V031 => APIResult::V031(
            result031::Result { cni_version, interfaces, ips, routes, dns },
        ),
        CniVersion::V040 => APIResult::V040(
            result040::Result { cni_version, interfaces, ips, routes, dns },
        ),
        _ => APIResult::V100(result100::Result { cni_version, interfaces, ips, routes, dns }),
    }
}

/// The fields of a value before 1.1.0, tagged with `version`, in the schema
/// of `t`.
fn legacy_to(
    t: CniVersion,
    version: String,
    interfaces: &Option<Vec<result100::Interface>>,
    ips: &Option<Vec<IPConfig>>,
    routes: &Option<Vec<Route>>,
    dns: &Option<DNS>,
) -> (r: APIResult)
    ensures
        r@ == legacy_into(
            t,
            ResultModel {
                cni_version: Some(version),
                interfaces: opt_seq(*interfaces),
                ips: opt_seq(*ips),
                routes: opt_seq(*routes),
                dns: opt_dns(*dns),
            },
        ),
{
    match t {
        CniVersion::V110 => APIResult::V110(
            result110::Result {
                cni_version: Some(version),
                interfaces: interfaces_up(interfaces),
                ips: copy_opt_vec(ips),
                routes: routes_up(routes),
                dns: copy_opt_dns(dns),
            },
        ),
        _ => legacy_build(
            t,
            Some(version),
            copy_opt_vec(interfaces),
            copy_opt_vec(ips),
            copy_opt_vec(routes),
            copy_opt_dns(dns),
        ),
    }
}

/// A 1.1.0 value, tagged with `version`, in the earlier schema `t`; `None`
/// when one of its routes has no destination.
fn v110_to(t: CniVersion, version: String, r: &result110::Result) -> (o: Option<APIResult>)
    requires
        t != CniVersion::V110,
    ensures
        o.is_some() <==> routes_have_dst(r@.routes),
        o.is_some() ==> o.unwrap()@ == legacy_into(t, v110_down(r@, version)),
{
    match routes_down(&r.routes) {
        None => None,
        Some(routes) => Some(
            legacy_build(
                t,
                Some(version),
                interfaces_down(&r.interfaces),
                copy_opt_vec(&r.ips),
                routes,
                copy_opt_dns(&r.dns),
            ),
        ),
    }
}

/// A copy of a 1.1.0 value that declares `version`.
fn retag_110(r: &result110::Result, version: String) -> (o: result110::Result)
    ensures
        o@ == v110_retag(r@, version),
{
    result110::Result {
        cni_version: Some(version),
        interfaces: copy_opt_vec(&r.interfaces),
        ips: copy_opt_vec(&r.ips),
        routes: copy_opt_vec(&r.routes),
        dns: copy_opt_dns(&r.dns),
    }
}

fn unrepresentable(version: &String) -> (e: CNIError)
    ensures
        e matches CNIError::Config(m) && m@ == "route without destination in version "@ + version@,
{
    let mut m = String::from_str("route without destination in version ");
    m.append(version.as_str());
    CNIError::Config(m)
}

impl APIResult {
    /// Whether the result declares exactly the protocol version `version`.
    pub fn declares_version(&self, version: &String) -> (b: bool)
        ensures
            b == declares(self@, version@),
    {
        let v = match self {
            APIResult::V031(r) => &r.cni_version,
            APIResult::V040(r) => &r.cni_version,
            APIResult::V100(r) => &r.cni_version,
            APIResult::V110(r) => &r.cni_version,
        };
        match v {
            Some(s) => *s == *version,
            None => false,
        }
    }

    /// The schema the result is held in.
    pub fn schema(&self) -> (r: CniVersion)
        ensures
            r == self@.schema(),
    {
        match self {
            APIResult::V031(_) => CniVersion::V031,
            APIResult::V040(_) => CniVersion::V040,
            APIResult::V100(_) => CniVersion::V100,
            APIResult::V110(_) => CniVersion::V110,
        }
    }

    /// The protocol version the result carries, or the empty string.
    pub fn version(&self) -> (r: String)
        ensures
            r@ == match self@.cni_version() {
                Some(v) => v@,
                None => Seq::<char>::empty(),
            },
    {
        match self {
            APIResult::V031(r) => r.version(),
            APIResult::V040(r) => r.version(),
            APIResult::V100(r) => r.version(),
            APIResult::V110(r) => r.version(),
        }
    }

    /// An independent copy equal to `self`.
    pub fn clone_box(&self) -> (r: APIResult)
        ensures
            r@ == self@,
    {
        match self {
            APIResult::V031(r) => APIResult::V031(r.copy()),
            APIResult::V040(r) => APIResult::V040(r.copy()),
            APIResult::V100(r) => APIResult::V100(r.copy()),
            APIResult::V110(r) => APIResult::V110(r.copy()),
        }
    }

    /// The result made compatible with `version` (see `migrate`): a copy
    /// when it already declares `version`, whatever that version is;
    /// otherwise a conversion to the schema registered under `version` that
    /// declares it. Only in that second case does it fail: with a decoding
    /// failure when no schema is registered under `version`, and with a
    /// configuration failure when the result cannot be expressed in that
    /// schema.
    pub fn get_as_version(&self, version: String) -> (r: Result<APIResult, CNIError>)
        ensures
            declares(self@, version@) ==> (r matches Ok(x) && x@ == self@),
            !declares(self@, version@) ==> match CniVersion::spec_parse(version@) {
                None => r matches Err(CNIError::VarDecode(m)) && m@ == "unknown CNI version: "@
                    + version@,
                Some(t) => match migrate(self@, t, version) {
                    Some(m) => r matches Ok(x) && x@ == m && declares(x@, version@),
                    None => r matches Err(CNIError::Config(m)) && m@
                        == "route without destination in version "@ + version@,
                },
            },
    {
        if self.declares_version(&version) {
            return Ok(self.clone_box());
        }
        let t = match CniVersion::parse(&version) {
            Some(t) => t,
            None => {
                return Err(unknown_version(&version));
            },
        };
        match self {
            APIResult::V031(r) => Ok(legacy_to(t, version, &r.interfaces, &r.ips, &r.routes, &r.dns)),
            APIResult::V040(r) => Ok(legacy_to(t, version, &r.interfaces, &r.ips, &r.routes, &r.dns)),
            APIResult::V100(r) => Ok(legacy_to(t, version, &r.interfaces, &r.ips, &r.routes, &r.dns)),
            APIResult::V110(r) => {
                if t == CniVersion::V110 {
                    return Ok(APIResult::V110(retag_110(r, version)));
                }
                let msg = unrepresentable(&version);
                match v110_to(t, version, r) {
                    Some(x) => Ok(x),
                    None => Err(msg),
                }
            },
        }
    }
}

} // verus!
