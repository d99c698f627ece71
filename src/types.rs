use vstd::prelude::*;

verus! {

/// Values that can be copied with a proof that the copy is equal to the
/// original.
pub trait DeepCopy: Sized {
    fn deep_copy(&self) -> (r: Self)
        ensures
            r == *self,
    ;
}

impl DeepCopy for String {
    fn deep_copy(&self) -> (r: Self) {
        self.clone()
    }
}

/// Copies every element of a vector.
pub fn copy_vec<T: DeepCopy>(v: &Vec<T>) -> (r: Vec<T>)
    ensures
        r@ == v@,
{
    let mut r: Vec<T> = Vec::new();
    let mut i: usize = 0;
    while i < v.len()
        invariant
            i <= v.len(),
            r@ == v@.subrange(0, i as int),
        decreases v.len() - i,
    {
        r.push(v[i].deep_copy());
        i = i + 1;
    }
    assert(r@ =~= v@);
    r
}

/// The elements of an optional vector, if there is one.
pub open spec fn opt_seq<T>(o: Option<Vec<T>>) -> Option<Seq<T>> {
    match o {
        Some(v) => Some(v@),
        None => None,
    }
}

/// Copies an optional vector element by element.
pub fn copy_opt_vec<T: DeepCopy>(o: &Option<Vec<T>>) -> (r: Option<Vec<T>>)
    ensures
        opt_seq(r) == opt_seq(*o),
{
    match o {
        Some(v) => Some(copy_vec(v)),
        None => None,
    }
}

/// An IP address: IPv4 as a 32-bit and IPv6 as a 128-bit number, most
/// significant byte first.
#[derive(Debug, Clone, Copy, PartialEq, Eq, Structural)]
pub enum IpAddress {
    V4(u32),
    V6(u128),
}

impl IpAddress {
    /// The number of bits in an address of this family.
    pub open spec fn spec_bits(self) -> nat {
        match self {
            IpAddress::V4(_) => 32,
            IpAddress::V6(_) => 128,
        }
    }

    pub fn bits(&self) -> (r: u8)
        ensures
            r as nat == self.spec_bits(),
    {
        match self {
            IpAddress::V4(_) => 32,
            IpAddress::V6(_) => 128,
        }
    }
}

/// An IP network: an address together with a prefix length that does not
/// exceed the address's width.
#[derive(Debug, Clone, Copy, PartialEq, Eq, Structural)]
pub struct IpNetwork {
    addr: IpAddress,
    prefix: u8,
}

impl IpNetwork {
    #[verifier::type_invariant]
    spec fn inv(self) -> bool {
        self.prefix as nat <= self.addr.spec_bits()
    }

    pub closed spec fn spec_addr(self) -> IpAddress {
        self.addr
    }

    pub closed spec fn spec_prefix(self) -> u8 {
        self.prefix
    }

    /// A network from an address and a prefix length; `None` when the prefix
    /// is longer than the address.
    pub fn new(addr: IpAddress, prefix: u8) -> (r: Option<IpNetwork>)
        ensures
            r.is_some() <==> prefix as nat <= addr.spec_bits(),
            r.is_some() ==> r.unwrap().spec_addr() == addr && r.unwrap().spec_prefix() == prefix,
    {
        if prefix <= addr.bits() {
            Some(IpNetwork { addr, prefix })
        } else {
            None
        }
    }

    pub fn addr(&self) -> (r: IpAddress)
        ensures
            r == self.spec_addr(),
    {
        self.addr
    }

    /// The prefix length, which never exceeds the address's width.
    pub fn prefix(&self) -> (r: u8)
        ensures
            r == self.spec_prefix(),
            r as nat <= self.spec_addr().spec_bits(),
    {
        proof {
            use_type_invariant(self);
        }
        self.prefix
    }
}

/// A route as the protocol versions before 1.1.0 describe it.
#[derive(Debug, Clone, Copy, PartialEq, Eq, Structural)]
pub struct Route {
    pub dst: IpNetwork,
    pub gw: Option<IpAddress>,
}

impl DeepCopy for Route {
    fn deep_copy(&self) -> (r: Self) {
        *self
    }
}

/// DNS settings; every field is optional.
#[derive(Debug, Clone, Default)]
pub struct DNS {
    pub nameservers: Option<Vec<String>>,
    pub domain: Option<String>,
    pub search: Option<Vec<String>>,
    pub options: Option<Vec<String>>,
}

/// The abstract value of a [`DNS`].
pub struct DNSModel {
    pub nameservers: Option<Seq<String>>,
    pub domain: Option<String>,
    pub search: Option<Seq<String>>,
    pub options: Option<Seq<String>>,
}

impl View for DNS {
    type V = DNSModel;

    open spec fn view(&self) -> DNSModel {
        DNSModel {
            nameservers: opt_seq(self.nameservers),
            domain: self.domain,
            search: opt_seq(self.search),
            options: opt_seq(self.options),
        }
    }
}

impl DNS {
    /// A copy equal to `self`.
    pub fn copy(&self) -> (r: DNS)
        ensures
            r@ == self@,
    {
        DNS {
            nameservers: copy_opt_vec(&self.nameservers),
            domain: self.domain.clone(),
            search: copy_opt_vec(&self.search),
            options: copy_opt_vec(&self.options),
        }
    }
}

/// The abstract value of an optional [`DNS`].
pub open spec fn opt_dns(o: Option<DNS>) -> Option<DNSModel> {
    match o {
        Some(d) => Some(d@),
        None => None,
    }
}

pub fn copy_opt_dns(o: &Option<DNS>) -> (r: Option<DNS>)
    ensures
        opt_dns(r) == opt_dns(*o),
{
    match o {
        Some(d) => Some(d.copy()),
        None => None,
    }
}

/// The abstract value of a result schema: the protocol version it carries
/// and the elements of each optional list. `I` is the schema's interface
/// type and `R` its route type.
pub struct ResultModel<I, R> {
    pub cni_version: Option<String>,
    pub interfaces: Option<Seq<I>>,
    pub ips: Option<Seq<crate::result100::IPConfig>>,
    pub routes: Option<Seq<R>>,
    pub dns: Option<DNSModel>,
}

} // verus!
