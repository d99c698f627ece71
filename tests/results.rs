use cni_result::api::{APIResult, CniVersion};
use cni_result::dispatch_version;
use cni_result::result040;
use cni_result::result100::{IPConfig, Interface};
use cni_result::result110;
use cni_result::types::{IpAddress, IpNetwork, Route, DNS};
use cni_result::CNIError;

fn net(a: u32, p: u8) -> IpNetwork {
    IpNetwork::new(IpAddress::V4(a), p).unwrap()
}

fn sample040() -> result040::Result {
    result040::Result {
        cni_version: Some("0.4.0".to_string()),
        interfaces: Some(vec![Interface {
            name: Some("eth0".to_string()),
            mac: Some("aa:bb:cc:dd:ee:ff".to_string()),
            sandbox: Some("/var/run/netns/x".to_string()),
        }]),
        ips: Some(vec![IPConfig {
            interface: Some(0),
            address: net(0x0a000102, 24),
            gateway: Some(IpAddress::V4(0x0a000101)),
        }]),
        routes: Some(vec![Route { dst: net(0, 0), gw: Some(IpAddress::V4(0x0a000101)) }]),
        dns: Some(DNS {
            nameservers: Some(vec!["10.0.0.53".to_string()]),
            domain: None,
            search: Some(vec!["example.com".to_string()]),
            options: None,
        }),
    }
}

fn sample110(dst: Option<IpNetwork>) -> result110::Result {
    result110::Result {
        cni_version: Some("1.1.0".to_string()),
        interfaces: Some(vec![result110::Interface {
            name: Some("eth0".to_string()),
            mac: None,
            sandbox: None,
            mtu: Some(1500),
            socket_path: Some("/run/sock".to_string()),
            pci_id: Some("0000:00:1f.6".to_string()),
        }]),
        ips: None,
        routes: Some(vec![result110::Route {
            dst,
            gw: None,
            mtu: Some(1400),
            advmss: Some(1360),
            priority: None,
            table: Some(100),
            scope: None,
        }]),
        dns: None,
    }
}

#[test]
fn dispatch_picks_tagged_schema() {
    let tag = "1.1.0".to_string();
    assert_eq!(dispatch_version(Some(&tag)).unwrap(), CniVersion::V110);
    let tag = "0.3.1".to_string();
    assert_eq!(dispatch_version(Some(&tag)).unwrap(), CniVersion::V031);
}

#[test]
fn dispatch_defaults_when_untagged() {
    assert_eq!(dispatch_version(None).unwrap(), CniVersion::V100);
    assert_eq!(CniVersion::default_version().as_str(), "1.0.0");
}

#[test]
fn dispatch_rejects_unknown_tag() {
    let tag = "9.9.9".to_string();
    match dispatch_version(Some(&tag)) {
        Err(CNIError::VarDecode(m)) => assert_eq!(m, "unknown CNI version: 9.9.9"),
        other => panic!("unexpected {other:?}"),
    }
}

#[test]
fn version_reads_tag_or_empty() {
    let r = APIResult::V040(sample040());
    assert_eq!(r.version(), "0.4.0");
    let r = APIResult::V110(result110::Result::default());
    assert_eq!(r.version(), "");
}

#[test]
fn same_version_gives_equal_copy() {
    let r = APIResult::V040(sample040());
    let c = r.get_as_version("0.4.0".to_string()).unwrap();
    match (&r, &c) {
        (APIResult::V040(a), APIResult::V040(b)) => {
            assert_eq!(a.cni_version, b.cni_version);
            assert_eq!(a.interfaces, b.interfaces);
            assert_eq!(a.ips, b.ips);
            assert_eq!(a.routes, b.routes);
            assert_eq!(
                a.dns.as_ref().unwrap().nameservers,
                b.dns.as_ref().unwrap().nameservers
            );
        }
        _ => panic!("schema changed"),
    }
}

#[test]
fn upgrade_to_110_maps_fields() {
    let r = APIResult::V040(sample040());
    match r.get_as_version("1.1.0".to_string()).unwrap() {
        APIResult::V110(n) => {
            assert_eq!(n.cni_version.as_deref(), Some("1.1.0"));
            let i = &n.interfaces.as_ref().unwrap()[0];
            assert_eq!(i.name.as_deref(), Some("eth0"));
            assert_eq!(i.mtu, None);
            assert_eq!(i.socket_path, None);
            let rt = n.routes.as_ref().unwrap()[0];
            assert_eq!(rt.dst, Some(net(0, 0)));
            assert_eq!(rt.advmss, None);
            assert_eq!(n.ips.as_ref().unwrap().len(), 1);
        }
        _ => panic!("expected the 1.1.0 schema"),
    }
}

#[test]
fn downgrade_from_110_drops_new_fields() {
    let r = APIResult::V110(sample110(Some(net(0x0a000000, 8))));
    match r.get_as_version("1.0.0".to_string()).unwrap() {
        APIResult::V100(o) => {
            assert_eq!(o.cni_version.as_deref(), Some("1.0.0"));
            let i = &o.interfaces.as_ref().unwrap()[0];
            assert_eq!(i.name.as_deref(), Some("eth0"));
            assert_eq!(
                o.routes.as_ref().unwrap()[0],
                Route { dst: net(0x0a000000, 8), gw: None }
            );
        }
        _ => panic!("expected the 1.0.0 schema"),
    }
}

#[test]
fn downgrade_fails_for_route_without_destination() {
    let r = APIResult::V110(sample110(None));
    match r.get_as_version("0.4.0".to_string()) {
        Err(CNIError::Config(m)) => assert_eq!(m, "route without destination in version 0.4.0"),
        _ => panic!("expected a configuration failure"),
    }
}

#[test]
fn unknown_target_version_fails() {
    let r = APIResult::V040(sample040());
    assert!(matches!(
        r.get_as_version("2.0.0".to_string()),
        Err(CNIError::VarDecode(_))
    ));
}

#[test]
fn clone_box_is_independent() {
    let r = APIResult::V040(sample040());
    let mut c = r.clone_box();
    if let APIResult::V040(inner) = &mut c {
        inner.cni_version = Some("changed".to_string());
        inner.interfaces.as_mut().unwrap().clear();
    }
    assert_eq!(r.version(), "0.4.0");
    match &r {
        APIResult::V040(a) => assert_eq!(a.interfaces.as_ref().unwrap().len(), 1),
        _ => panic!("schema changed"),
    }
    assert_eq!(c.version(), "changed");
}

#[test]
fn network_prefix_is_bounded() {
    assert!(IpNetwork::new(IpAddress::V4(0), 33).is_none());
    assert!(IpNetwork::new(IpAddress::V4(0), 32).is_some());
    assert!(IpNetwork::new(IpAddress::V6(1), 128).is_some());
    assert!(IpNetwork::new(IpAddress::V6(1), 129).is_none());
}

#[test]
fn legacy_to_legacy_retags_only() {
    let r = APIResult::V040(sample040());
    match r.get_as_version("0.3.1".to_string()).unwrap() {
        APIResult::V031(o) => {
            let src = sample040();
            assert_eq!(o.cni_version.as_deref(), Some("0.3.1"));
            assert_eq!(o.interfaces, src.interfaces);
            assert_eq!(o.ips, src.ips);
            assert_eq!(o.routes, src.routes);
            assert_eq!(o.dns.unwrap().search, src.dns.unwrap().search);
        }
        _ => panic!("expected the 0.3.1 schema"),
    }
}

#[test]
fn upgrade_then_downgrade_restores_fields() {
    let r = APIResult::V040(sample040());
    let up = r.get_as_version("1.1.0".to_string()).unwrap();
    match up.get_as_version("0.4.0".to_string()).unwrap() {
        APIResult::V040(o) => {
            let src = sample040();
            assert_eq!(o.cni_version.as_deref(), Some("0.4.0"));
            assert_eq!(o.interfaces, src.interfaces);
            assert_eq!(o.ips, src.ips);
            assert_eq!(o.routes, src.routes);
            assert_eq!(o.dns.unwrap().nameservers, src.dns.unwrap().nameservers);
        }
        _ => panic!("expected the 0.4.0 schema"),
    }
}

#[test]
fn version_strings_are_distinct() {
    let all = [CniVersion::V031, CniVersion::V040, CniVersion::V100, CniVersion::V110];
    for a in all {
        let text = a.as_str().to_string();
        assert_eq!(CniVersion::parse(&text), Some(a));
    }
    assert_eq!(CniVersion::parse(&"1.0".to_string()), None);
}

#[test]
fn same_schema_without_version_gets_tagged() {
    let mut src = sample040();
    src.cni_version = None;
    let r = APIResult::V040(src);
    match r.get_as_version("0.4.0".to_string()).unwrap() {
        APIResult::V040(o) => {
            let src = sample040();
            assert_eq!(o.cni_version.as_deref(), Some("0.4.0"));
            assert_eq!(o.interfaces, src.interfaces);
            assert_eq!(o.routes, src.routes);
        }
        _ => panic!("expected the 0.4.0 schema"),
    }
}

#[test]
fn declared_version_is_copied_as_is() {
    let mut src = sample040();
    src.cni_version = Some("1.1.0".to_string());
    let r = APIResult::V040(src);
    let c = r.get_as_version("1.1.0".to_string()).unwrap();
    assert!(c.declares_version(&"1.1.0".to_string()));
    match c {
        APIResult::V040(o) => assert_eq!(o.interfaces, sample040().interfaces),
        _ => panic!("a value that declares the target must be copied"),
    }
}

#[test]
fn same_schema_110_with_other_tag_is_retagged() {
    let mut src = sample110(None);
    src.cni_version = Some("1.0.0".to_string());
    let r = APIResult::V110(src);
    match r.get_as_version("1.1.0".to_string()).unwrap() {
        APIResult::V110(o) => {
            assert_eq!(o.cni_version.as_deref(), Some("1.1.0"));
            assert_eq!(o.routes.as_ref().unwrap()[0].advmss, Some(1360));
            assert_eq!(o.interfaces, sample110(None).interfaces);
        }
        _ => panic!("expected the 1.1.0 schema"),
    }
}

#[test]
fn network_parts_are_kept() {
    let n = IpNetwork::new(IpAddress::V6(7), 64).unwrap();
    assert_eq!(n.addr(), IpAddress::V6(7));
    assert_eq!(n.prefix(), 64);
}

#[test]
fn unregistered_declared_version_is_copied() {
    let mut src = sample110(None);
    src.cni_version = Some("9.9.9".to_string());
    let r = APIResult::V110(src);
    match r.get_as_version("9.9.9".to_string()).unwrap() {
        APIResult::V110(o) => {
            assert_eq!(o.cni_version.as_deref(), Some("9.9.9"));
            assert_eq!(o.interfaces, sample110(None).interfaces);
            assert_eq!(o.routes.as_ref().unwrap()[0].table, Some(100));
        }
        _ => panic!("a value that declares the target must be copied"),
    }
}
