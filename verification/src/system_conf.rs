//! The system configuration: eight optional fields, read from `KEY=value`
//! text and merged layer over layer.
use crate::error::PotError;
use crate::net::{
    addr_of_value, net_of_value, parse_addr_value, parse_net_value, IpAddr, IpNet, IpNetView,
};
use crate::text::{
    comments_give_no_value, is_comment, is_whitespace, lines, lookup, same_text,
    single_line_gives_value, trim, TextLines,
};
use core::str::FromStr;
use vstd::prelude::*;
use vstd::std_specs::cmp::PartialEqSpecImpl;

verus! {

/// The configuration of the host's pot system. A field is absent until a
/// layer of configuration text sets it.
#[derive(Clone, Debug)]
pub struct SystemConf {
    pub zfs_root: Option<String>,
    pub fs_root: Option<String>,
    pub network: Option<IpNet>,
    pub netmask: Option<IpAddr>,
    pub gateway: Option<IpAddr>,
    pub ext_if: Option<String>,
    pub dns_name: Option<String>,
    pub dns_ip: Option<IpAddr>,
}

/// The mathematical model of a `SystemConf`.
pub struct SystemConfView {
    pub zfs_root: Option<Seq<char>>,
    pub fs_root: Option<Seq<char>>,
    pub network: Option<IpNetView>,
    pub netmask: Option<IpAddr>,
    pub gateway: Option<IpAddr>,
    pub ext_if: Option<Seq<char>>,
    pub dns_name: Option<Seq<char>>,
    pub dns_ip: Option<IpAddr>,
}

/// A system configuration that lacks nothing.
#[derive(Clone, Debug)]
pub struct PotSystemConfig {
    pub zfs_root: String,
    pub fs_root: String,
    pub network: IpNet,
    pub netmask: IpAddr,
    pub gateway: IpAddr,
    pub ext_if: String,
    pub dns_name: String,
    pub dns_ip: IpAddr,
}

impl View for PotSystemConfig {
    type V = SystemConfView;

    /// The configuration with all eight fields present.
    open spec fn view(&self) -> SystemConfView {
        SystemConfView {
            zfs_root: Some(self.zfs_root@),
            fs_root: Some(self.fs_root@),
            network: Some(self.network@),
            netmask: Some(self.netmask),
            gateway: Some(self.gateway),
            ext_if: Some(self.ext_if@),
            dns_name: Some(self.dns_name@),
            dns_ip: Some(self.dns_ip),
        }
    }
}

/// `right` where it is present, else `left`.
pub open spec fn right_biased<T>(left: Option<T>, right: Option<T>) -> Option<T> {
    if right is Some {
        right
    } else {
        left
    }
}

impl SystemConfView {
    /// The configuration with every field absent.
    pub open spec fn empty() -> SystemConfView {
        SystemConfView {
            zfs_root: None,
            fs_root: None,
            network: None,
            netmask: None,
            gateway: None,
            ext_if: None,
            dns_name: None,
            dns_ip: None,
        }
    }

    /// All eight fields are present.
    pub open spec fn is_valid(self) -> bool {
        &&& self.zfs_root is Some
        &&& self.fs_root is Some
        &&& self.network is Some
        &&& self.netmask is Some
        &&& self.gateway is Some
        &&& self.ext_if is Some
        &&& self.dns_name is Some
        &&& self.dns_ip is Some
    }

    /// `self` with each field replaced that `rhs` holds.
    pub open spec fn merge(self, rhs: SystemConfView) -> SystemConfView {
        SystemConfView {
            zfs_root: right_biased(self.zfs_root, rhs.zfs_root),
            fs_root: right_biased(self.fs_root, rhs.fs_root),
            network: right_biased(self.network, rhs.network),
            netmask: right_biased(self.netmask, rhs.netmask),
            gateway: right_biased(self.gateway, rhs.gateway),
            ext_if: right_biased(self.ext_if, rhs.ext_if),
            dns_name: right_biased(self.dns_name, rhs.dns_name),
            dns_ip: right_biased(self.dns_ip, rhs.dns_ip),
        }
    }

    /// What a configuration text says: each field has the value of its key,
    /// and a value that is no address, or no network, leaves its field
    /// absent.
    pub open spec fn parse(text: Seq<char>) -> SystemConfView {
        let ls = lines(text);
        SystemConfView {
            zfs_root: lookup(ls, "POT_ZFS_ROOT"@),
            fs_root: lookup(ls, "POT_FS_ROOT"@),
            network: net_of_value(lookup(ls, "POT_NETWORK"@)),
            netmask: addr_of_value(lookup(ls, "POT_NETMASK"@)),
            gateway: addr_of_value(lookup(ls, "POT_GATEWAY"@)),
            ext_if: lookup(ls, "POT_EXTIF"@),
            dns_name: lookup(ls, "POT_DNS_NAME"@),
            dns_ip: addr_of_value(lookup(ls, "POT_DNS_IP"@)),
        }
    }

    /// What one layer of configuration says: nothing where its text could
    /// not be had.
    pub open spec fn layer(text: Option<Seq<char>>) -> SystemConfView {
        match text {
            Some(t) => Self::parse(t),
            None => Self::empty(),
        }
    }
}

impl View for SystemConf {
    type V = SystemConfView;

    open spec fn view(&self) -> SystemConfView {
        SystemConfView {
            zfs_root: self.zfs_root.deep_view(),
            fs_root: self.fs_root.deep_view(),
            network: self.network.deep_view(),
            netmask: self.netmask,
            gateway: self.gateway,
            ext_if: self.ext_if.deep_view(),
            dns_name: self.dns_name.deep_view(),
            dns_ip: self.dns_ip,
        }
    }
}

impl DeepView for SystemConf {
    type V = SystemConfView;

    open spec fn deep_view(&self) -> SystemConfView {
        self@
    }
}

impl Default for SystemConf {
    fn default() -> (r: SystemConf)
        ensures
            r@ == SystemConfView::empty(),
    {
        SystemConf {
            zfs_root: None,
            fs_root: None,
            network: None,
            netmask: None,
            gateway: None,
            ext_if: None,
            dns_name: None,
            dns_ip: None,
        }
    }
}

impl PartialEq for SystemConf {
    fn eq(&self, other: &SystemConf) -> (r: bool) {
        same_text(&self.zfs_root, &other.zfs_root)
            && same_text(&self.fs_root, &other.fs_root)
            && same_net(self.network, other.network)
            && same_addr(self.netmask, other.netmask)
            && same_addr(self.gateway, other.gateway)
            && same_text(&self.ext_if, &other.ext_if)
            && same_text(&self.dns_name, &other.dns_name)
            && same_addr(self.dns_ip, other.dns_ip)
    }
}

impl PartialEqSpecImpl for SystemConf {
    open spec fn obeys_eq_spec() -> bool {
        true
    }

    open spec fn eq_spec(&self, other: &SystemConf) -> bool {
        self@ == other@
    }
}

fn same_net(a: Option<IpNet>, b: Option<IpNet>) -> (r: bool)
    ensures
        r == (a.deep_view() == b.deep_view()),
{
    match (a, b) {
        (Some(x), Some(y)) => {
            proof {
                IpNet::view_is_injective(x, y);
            }
            x == y
        },
        (None, None) => true,
        _ => false,
    }
}

fn same_addr(a: Option<IpAddr>, b: Option<IpAddr>) -> (r: bool)
    ensures
        r == (a == b),
{
    match (a, b) {
        (Some(x), Some(y)) => x == y,
        (None, None) => true,
        _ => false,
    }
}

impl FromStr for SystemConf {
    type Err = PotError;

    /// Reads a configuration from its text. This never fails: what the text
    /// does not set, or sets to what cannot be read, is absent.
    fn from_str(s: &str) -> (r: Result<SystemConf, PotError>)
        ensures
            r matches Ok(conf) && conf@ == SystemConfView::parse(s@),
    {
        let ls = TextLines::new(s);
        Ok(
            SystemConf {
                zfs_root: ls.value_of("POT_ZFS_ROOT"),
                fs_root: ls.value_of("POT_FS_ROOT"),
                network: parse_net_value(&ls.value_of("POT_NETWORK")),
                netmask: parse_addr_value(&ls.value_of("POT_NETMASK")),
                gateway: parse_addr_value(&ls.value_of("POT_GATEWAY")),
                ext_if: ls.value_of("POT_EXTIF"),
                dns_name: ls.value_of("POT_DNS_NAME"),
                dns_ip: parse_addr_value(&ls.value_of("POT_DNS_IP")),
            },
        )
    }
}

impl SystemConf {
    /// The configuration that two layers of text give: the default layer,
    /// with each field replaced that the override layer sets. A layer whose
    /// text could not be had sets nothing.
    pub fn new(default_text: Option<&str>, override_text: Option<&str>) -> (r: SystemConf)
        ensures
            r@ == SystemConfView::layer(default_text.deep_view()).merge(
                SystemConfView::layer(override_text.deep_view()),
            ),
    {
        let mut conf = Self::read_layer(default_text);
        conf.merge(Self::read_layer(override_text));
        conf
    }

    fn read_layer(text: Option<&str>) -> (r: SystemConf)
        ensures
            r@ == SystemConfView::layer(text.deep_view()),
    {
        match text {
            Some(t) => match SystemConf::from_str(t) {
                Ok(conf) => conf,
                Err(_) => SystemConf::default(),
            },
            None => SystemConf::default(),
        }
    }

    /// Whether all eight fields are present.
    pub fn is_valid(&self) -> (r: bool)
        ensures
            r == self@.is_valid(),
    {
        self.zfs_root.is_some() && self.fs_root.is_some() && self.network.is_some()
            && self.netmask.is_some() && self.gateway.is_some() && self.ext_if.is_some()
            && self.dns_name.is_some() && self.dns_ip.is_some()
    }

    /// Lays `rhs` over `self`: each field that `rhs` holds replaces that of
    /// `self`, and the others stay.
    pub fn merge(&mut self, rhs: SystemConf)
        ensures
            final(self)@ == old(self)@.merge(rhs@),
    {
        if rhs.zfs_root.is_some() {
            self.zfs_root = rhs.zfs_root;
        }
        if rhs.fs_root.is_some() {
            self.fs_root = rhs.fs_root;
        }
        if rhs.network.is_some() {
            self.network = rhs.network;
        }
        if rhs.netmask.is_some() {
            self.netmask = rhs.netmask;
        }
        if rhs.gateway.is_some() {
            self.gateway = rhs.gateway;
        }
        if rhs.ext_if.is_some() {
            self.ext_if = rhs.ext_if;
        }
        if rhs.dns_name.is_some() {
            self.dns_name = rhs.dns_name;
        }
        if rhs.dns_ip.is_some() {
            self.dns_ip = rhs.dns_ip;
        }
    }
}

/// Laying a configuration that holds nothing over another leaves the other
/// as it was.
pub proof fn merge_of_empty(c: SystemConfView)
    ensures
        c.merge(SystemConfView::empty()) == c,
{
}

/// Laying a configuration over one that holds nothing gives the
/// configuration laid over.
pub proof fn merge_onto_empty(c: SystemConfView)
    ensures
        SystemConfView::empty().merge(c) == c,
{
}

/// Laying a valid configuration over any other gives the valid one.
pub proof fn merge_of_valid(c: SystemConfView, d: SystemConfView)
    requires
        d.is_valid(),
    ensures
        c.merge(d) == d,
{
}

/// A field of a merge is the right side's where the right side holds it, and
/// the left side's where it does not.
pub proof fn merge_is_right_biased(c: SystemConfView, d: SystemConfView)
    ensures
        c.merge(d).zfs_root == (if d.zfs_root is Some { d.zfs_root } else { c.zfs_root }),
        c.merge(d).fs_root == (if d.fs_root is Some { d.fs_root } else { c.fs_root }),
        c.merge(d).network == (if d.network is Some { d.network } else { c.network }),
        c.merge(d).netmask == (if d.netmask is Some { d.netmask } else { c.netmask }),
        c.merge(d).gateway == (if d.gateway is Some { d.gateway } else { c.gateway }),
        c.merge(d).ext_if == (if d.ext_if is Some { d.ext_if } else { c.ext_if }),
        c.merge(d).dns_name == (if d.dns_name is Some { d.dns_name } else { c.dns_name }),
        c.merge(d).dns_ip == (if d.dns_ip is Some { d.dns_ip } else { c.dns_ip }),
{
}

/// A text whose lines are all empty or comments once they are trimmed, as
/// the empty text is, sets no field.
pub proof fn comments_set_nothing(text: Seq<char>)
    requires
        forall|i: int|
            0 <= i < lines(text).len() ==> trim(lines(text)[i]).len() == 0 || is_comment(
                trim(lines(text)[i]),
            ),
    ensures
        SystemConfView::parse(text) == SystemConfView::empty(),
{
    let ls = lines(text);
    comments_give_no_value(ls, "POT_ZFS_ROOT"@);
    comments_give_no_value(ls, "POT_FS_ROOT"@);
    comments_give_no_value(ls, "POT_NETWORK"@);
    comments_give_no_value(ls, "POT_NETMASK"@);
    comments_give_no_value(ls, "POT_GATEWAY"@);
    comments_give_no_value(ls, "POT_EXTIF"@);
    comments_give_no_value(ls, "POT_DNS_NAME"@);
    comments_give_no_value(ls, "POT_DNS_IP"@);
}

/// A text of the one line `POT_NETWORK=` and a value without whitespace,
/// with nothing or a space and anything behind the value, gives the network
/// that the value alone is read as.
pub proof fn network_line_round_trip(value: Seq<char>, tail: Seq<char>)
    requires
        forall|i: int| 0 <= i < value.len() ==> !is_whitespace(value[i]),
        tail.len() == 0 || tail[0] == ' ',
        forall|i: int| 0 <= i < tail.len() ==> tail[i] != '\n',
    ensures
        SystemConfView::parse("POT_NETWORK="@ + value + tail).network == IpNet::spec_parse(value),
{
    reveal_strlit("POT_NETWORK");
    reveal_strlit("POT_NETWORK=");
    assert("POT_NETWORK="@ == "POT_NETWORK"@ + seq!['=']);
    single_line_gives_value("POT_NETWORK"@, value, tail);
}

/// A text of the one line `POT_DNS_NAME=` and a value without whitespace,
/// with nothing or a space and anything behind the value, gives the name of
/// the DNS pot as the value stands: quotes stay, and what follows the space
/// does not count.
pub proof fn dns_name_line_keeps_value(value: Seq<char>, tail: Seq<char>)
    requires
        forall|i: int| 0 <= i < value.len() ==> !is_whitespace(value[i]),
        tail.len() == 0 || tail[0] == ' ',
        forall|i: int| 0 <= i < tail.len() ==> tail[i] != '\n',
    ensures
        SystemConfView::parse("POT_DNS_NAME="@ + value + tail).dns_name == Some(value),
{
    reveal_strlit("POT_DNS_NAME");
    reveal_strlit("POT_DNS_NAME=");
    assert("POT_DNS_NAME="@ == "POT_DNS_NAME"@ + seq!['=']);
    single_line_gives_value("POT_DNS_NAME"@, value, tail);
}

/// A configuration without any one of its eight fields is not valid.
pub proof fn valid_needs_every_field(c: SystemConfView)
    ensures
        !(SystemConfView { zfs_root: None, ..c }).is_valid(),
        !(SystemConfView { fs_root: None, ..c }).is_valid(),
        !(SystemConfView { network: None, ..c }).is_valid(),
        !(SystemConfView { netmask: None, ..c }).is_valid(),
        !(SystemConfView { gateway: None, ..c }).is_valid(),
        !(SystemConfView { ext_if: None, ..c }).is_valid(),
        !(SystemConfView { dns_name: None, ..c }).is_valid(),
        !(SystemConfView { dns_ip: None, ..c }).is_valid(),
{
}

} // verus!
