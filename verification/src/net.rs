//! IP addresses and networks as plain integers, read from text by the
//! standard library and by `ipnet`.
use vstd::arithmetic::div_mod::{lemma_fundamental_div_mod, lemma_mod_bound, lemma_small_mod};
use vstd::arithmetic::power2::{lemma2_to64, lemma_pow2_adds, lemma_pow2_pos, pow2};
use vstd::prelude::*;

verus! {

/// An IP address, held as the number that its octets spell in network order.
#[derive(Clone, Copy, Debug, PartialEq, Eq, Structural)]
pub enum IpAddr {
    V4(u32),
    V6(u128),
}

impl IpAddr {
    /// The number of bits of an address of this family, which is also the
    /// longest prefix that a network of this family can have.
    pub open spec fn width(self) -> nat {
        match self {
            IpAddr::V4(_) => 32,
            IpAddr::V6(_) => 128,
        }
    }

    /// The address as a number.
    pub open spec fn value(self) -> nat {
        match self {
            IpAddr::V4(a) => a as nat,
            IpAddr::V6(a) => a as nat,
        }
    }

    /// Whether `self` and `other` are of one family.
    pub open spec fn same_family(self, other: IpAddr) -> bool {
        self is V4 <==> other is V4
    }

    /// Reads an address from its text, as the standard library does.
    pub fn parse(s: &str) -> (r: Option<IpAddr>)
        ensures
            r == ip_addr_of_text(s@),
    {
        parse_ip_addr(s)
    }
}

/// An address with a prefix length: what an `IpNet` holds.
pub struct IpNetView {
    pub addr: IpAddr,
    pub prefix_len: u8,
}

impl IpNetView {
    /// The prefix is no longer than an address of the family.
    pub open spec fn wf(self) -> bool {
        self.prefix_len <= self.addr.width()
    }

    /// The number of addresses of the network.
    pub open spec fn size(self) -> nat {
        pow2((self.addr.width() - self.prefix_len) as nat)
    }

    /// The lowest address of the network: `addr` with the bits behind the
    /// prefix cleared.
    pub open spec fn network(self) -> nat {
        (self.addr.value() - self.addr.value() % self.size()) as nat
    }

    /// The highest address of the network: `addr` with the bits behind the
    /// prefix set.
    pub open spec fn broadcast(self) -> nat {
        (self.network() + self.size() - 1) as nat
    }

    /// Whether `a` is an address of the network: of its family, and from
    /// its lowest address to its highest.
    pub open spec fn contains(self, a: IpAddr) -> bool {
        self.addr.same_family(a) && self.network() <= a.value() <= self.broadcast()
    }
}

/// An IP network in CIDR form: an address and the length of its prefix, which
/// is at most 32 for IPv4 and at most 128 for IPv6. The address keeps the bits
/// behind the prefix.
#[derive(Clone, Copy, Debug, PartialEq, Eq, Structural)]
pub struct IpNet {
    addr: IpAddr,
    prefix_len: u8,
}

impl View for IpNet {
    type V = IpNetView;

    closed spec fn view(&self) -> IpNetView {
        IpNetView { addr: self.addr, prefix_len: self.prefix_len }
    }
}

impl DeepView for IpNet {
    type V = IpNetView;

    open spec fn deep_view(&self) -> IpNetView {
        self@
    }
}

impl IpNet {
    #[verifier::type_invariant]
    spec fn inv(self) -> bool {
        self@.wf()
    }

    /// What `parse` reads from a text: what `ipnet` reads from it, where
    /// the prefix fits the family.
    pub open spec fn spec_parse(s: Seq<char>) -> Option<IpNetView> {
        match ip_net_of_text(s) {
            Some((addr, prefix_len)) => {
                let v = IpNetView { addr, prefix_len };
                if v.wf() {
                    Some(v)
                } else {
                    None
                }
            },
            None => None,
        }
    }

    /// The network of `addr` with a prefix of `prefix_len` bits, unless the
    /// prefix is longer than the address.
    pub fn new(addr: IpAddr, prefix_len: u8) -> (r: Option<IpNet>)
        ensures
            r.deep_view() == (if (IpNetView { addr, prefix_len }).wf() {
                Some(IpNetView { addr, prefix_len })
            } else {
                None
            }),
    {
        let max: u8 = match addr {
            IpAddr::V4(_) => 32,
            IpAddr::V6(_) => 128,
        };
        if prefix_len <= max {
            Some(IpNet { addr, prefix_len })
        } else {
            None
        }
    }

    /// Reads a network from its text in CIDR notation, as `ipnet` does.
    pub fn parse(s: &str) -> (r: Option<IpNet>)
        ensures
            r.deep_view() == Self::spec_parse(s@),
    {
        match parse_ip_net(s) {
            Some((addr, prefix_len)) => IpNet::new(addr, prefix_len),
            None => None,
        }
    }

    /// Two networks with one view are one network.
    pub proof fn view_is_injective(a: IpNet, b: IpNet)
        ensures
            a@ == b@ <==> a == b,
    {
    }

    /// The address that the network was made of, with the bits behind the
    /// prefix as they were given.
    pub fn addr(&self) -> (r: IpAddr)
        ensures
            r == self@.addr,
            self@.wf(),
    {
        proof {
            use_type_invariant(self);
        }
        self.addr
    }

    /// The length of the prefix in bits.
    pub fn prefix_len(&self) -> (r: u8)
        ensures
            r == self@.prefix_len,
            self@.wf(),
    {
        proof {
            use_type_invariant(self);
        }
        self.prefix_len
    }

    /// Whether `addr` lies in this network.
    pub fn contains(&self, addr: &IpAddr) -> (r: bool)
        ensures
            r == self@.contains(*addr),
            self@.wf(),
    {
        proof {
            use_type_invariant(self);
        }
        net_contains(self.addr, self.prefix_len, *addr)
    }
}

/// A network that is read from a text has a prefix that fits its family.
pub proof fn parsed_network_is_wf(s: Seq<char>)
    ensures
        IpNet::spec_parse(s) matches Some(net) ==> net.wf(),
{
}

/// A network contains the address that it was made of.
pub proof fn contains_own_address(net: IpNetView)
    requires
        net.wf(),
    ensures
        net.contains(net.addr),
{
    lemma_pow2_pos((net.addr.width() - net.prefix_len) as nat);
    lemma_fundamental_div_mod(net.addr.value() as int, net.size() as int);
    lemma_mod_bound(net.addr.value() as int, net.size() as int);
}

/// A network whose prefix is as long as its addresses contains its own
/// address and no other.
pub proof fn full_prefix_contains_one(net: IpNetView, a: IpAddr)
    requires
        net.prefix_len == net.addr.width(),
    ensures
        net.contains(a) <==> a == net.addr,
{
    lemma2_to64();
}

/// A network without a prefix contains every address of its family.
pub proof fn empty_prefix_contains_all(net: IpNetView, a: IpAddr)
    requires
        net.prefix_len == 0,
    ensures
        net.contains(a) <==> net.addr.same_family(a),
{
    lemma2_to64();
    lemma_pow2_adds(64, 64);
    assert(pow2(128) == 0x1_0000_0000_0000_0000_0000_0000_0000_0000) by {
        assert(0x1_0000_0000_0000_0000int * 0x1_0000_0000_0000_0000int
            == 0x1_0000_0000_0000_0000_0000_0000_0000_0000int) by (nonlinear_arith);
    }
    lemma_small_mod(net.addr.value(), net.size());
}

/// The address that a value holds, if there is a value and it is an address.
pub open spec fn addr_of_value(value: Option<Seq<char>>) -> Option<IpAddr> {
    match value {
        Some(v) => ip_addr_of_text(v),
        None => None,
    }
}

/// The network that a value holds, if there is a value and it is a network.
pub open spec fn net_of_value(value: Option<Seq<char>>) -> Option<IpNetView> {
    match value {
        Some(v) => IpNet::spec_parse(v),
        None => None,
    }
}

/// Reads the address that a value holds.
pub fn parse_addr_value(value: &Option<String>) -> (r: Option<IpAddr>)
    ensures
        r == addr_of_value(value.deep_view()),
{
    match value {
        Some(v) => IpAddr::parse(v.as_str()),
        None => None,
    }
}

/// Reads the network that a value holds.
pub fn parse_net_value(value: &Option<String>) -> (r: Option<IpNet>)
    ensures
        r.deep_view() == net_of_value(value.deep_view()),
{
    match value {
        Some(v) => IpNet::parse(v.as_str()),
        None => None,
    }
}

/// The address that the standard library reads from a text, if it reads one.
pub uninterp spec fn ip_addr_of_text(s: Seq<char>) -> Option<IpAddr>;

/// The address and the prefix length that `ipnet` reads from a text in CIDR
/// notation, if it reads them.
pub uninterp spec fn ip_net_of_text(s: Seq<char>) -> Option<(IpAddr, u8)>;

/// Calls `str::parse` for `core::net::IpAddr`, which is that type's
/// `FromStr::from_str`. Whether an address comes back, and which, depends on
/// the text alone. An IPv4 address comes back as `u32::from` gives it and an
/// IPv6 address as `u128::from` gives it: the number that the octets spell,
/// the first octet highest.
#[verifier::external_body]
fn parse_ip_addr(s: &str) -> (r: Option<IpAddr>)
    ensures
        r == ip_addr_of_text(s@),
{
    match s.parse::<core::net::IpAddr>() {
        Ok(core::net::IpAddr::V4(a)) => Some(IpAddr::V4(u32::from(a))),
        Ok(core::net::IpAddr::V6(a)) => Some(IpAddr::V6(u128::from(a))),
        Err(_) => None,
    }
}

/// Calls `str::parse` for `ipnet::IpNet`, which is that type's
/// `FromStr::from_str`. Whether a network comes back, and which, depends on
/// the text alone. A network comes back as what its `addr` and `prefix_len`
/// give: the address as it stands in the text, with the bits behind the
/// prefix, as a number like that of `parse_ip_addr`, and the prefix length.
#[verifier::external_body]
fn parse_ip_net(s: &str) -> (r: Option<(IpAddr, u8)>)
    ensures
        r == ip_net_of_text(s@),
{
    match s.parse::<ipnet::IpNet>() {
        Ok(ipnet::IpNet::V4(n)) => Some((IpAddr::V4(u32::from(n.addr())), n.prefix_len())),
        Ok(ipnet::IpNet::V6(n)) => Some((IpAddr::V6(u128::from(n.addr())), n.prefix_len())),
        Err(_) => None,
    }
}

/// Calls `ipnet::IpNet::contains` with an address, on the network that
/// `ipnet::Ipv4Net::new` or `ipnet::Ipv6Net::new` makes of `net_addr` and
/// `prefix_len`; `new` fails only on a prefix longer than the address.
///
/// `ipnet` answers no where the families differ. Else the address must lie
/// between `network()` and `broadcast()`, both included. `network()` is the
/// address and-ed with a mask of `prefix_len` high bits, which is the address
/// less its remainder by `size()`; `broadcast()` is the address or-ed with
/// the other bits, which is `network()` plus `size()` less one. Addresses
/// are ordered as their numbers are.
#[verifier::external_body]
fn net_contains(net_addr: IpAddr, prefix_len: u8, addr: IpAddr) -> (r: bool)
    requires
        (IpNetView { addr: net_addr, prefix_len }).wf(),
    ensures
        r == (IpNetView { addr: net_addr, prefix_len }).contains(addr),
{
    let net = match net_addr {
        IpAddr::V4(a) => ipnet::IpNet::V4(ipnet::Ipv4Net::new(a.into(), prefix_len).unwrap()),
        IpAddr::V6(a) => ipnet::IpNet::V6(ipnet::Ipv6Net::new(a.into(), prefix_len).unwrap()),
    };
    let other = match addr {
        IpAddr::V4(a) => core::net::IpAddr::V4(a.into()),
        IpAddr::V6(a) => core::net::IpAddr::V6(a.into()),
    };
    net.contains(&other)
}

} // verus!
