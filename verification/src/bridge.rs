//! Bridge definitions: a name, a network, and a gateway inside the network.
use crate::dir::{child_paths, collect_child_paths, DirEntry, EntryKind};
use crate::error::PotError;
use crate::net::{
    addr_of_value, net_of_value, parse_addr_value, parse_net_value, IpAddr, IpNet, IpNetView,
};
use crate::text::{lines, lookup, TextLines};
use core::str::FromStr;
use vstd::prelude::*;

verus! {

/// A network bridge that pots can attach to.
#[derive(Debug)]
pub struct BridgeConf {
    pub name: String,
    pub network: IpNet,
    pub gateway: IpAddr,
}

/// The mathematical model of a `BridgeConf`.
pub struct BridgeConfView {
    pub name: Seq<char>,
    pub network: IpNetView,
    pub gateway: IpAddr,
}

impl BridgeConfView {
    /// The gateway is an address of the network.
    pub open spec fn wf(self) -> bool {
        self.network.wf() && self.network.contains(self.gateway)
    }

    /// The bridge of the three fields, if all are present and the network
    /// contains the gateway.
    pub open spec fn optional_new(
        o_name: Option<Seq<char>>,
        o_network: Option<IpNetView>,
        o_gateway: Option<IpAddr>,
    ) -> Option<BridgeConfView> {
        if o_name is Some && o_network is Some && o_gateway is Some && o_network->0.contains(
            o_gateway->0,
        ) {
            Some(BridgeConfView { name: o_name->0, network: o_network->0, gateway: o_gateway->0 })
        } else {
            None
        }
    }

    /// The bridge that a definition text describes, if it describes one: the
    /// values of `name`, `net` and `gateway`, where all are present, `net`
    /// is a network, `gateway` an address, and the network contains it.
    pub open spec fn parse(text: Seq<char>) -> Option<BridgeConfView> {
        let ls = lines(text);
        Self::optional_new(
            lookup(ls, "name"@),
            net_of_value(lookup(ls, "net"@)),
            addr_of_value(lookup(ls, "gateway"@)),
        )
    }
}

impl View for BridgeConf {
    type V = BridgeConfView;

    open spec fn view(&self) -> BridgeConfView {
        BridgeConfView { name: self.name@, network: self.network@, gateway: self.gateway }
    }
}

impl DeepView for BridgeConf {
    type V = BridgeConfView;

    open spec fn deep_view(&self) -> BridgeConfView {
        self@
    }
}

impl BridgeConf {
    /// Makes a bridge of three optional fields, if all are present and the
    /// network contains the gateway.
    pub fn optional_new(
        o_name: Option<String>,
        o_network: Option<IpNet>,
        o_gateway: Option<IpAddr>,
    ) -> (r: Option<BridgeConf>)
        ensures
            r.deep_view() == BridgeConfView::optional_new(
                o_name.deep_view(),
                o_network.deep_view(),
                o_gateway,
            ),
            r matches Some(b) ==> b@.wf(),
    {
        if let Some(name) = o_name {
            if let Some(network) = o_network {
                if let Some(gateway) = o_gateway {
                    if network.contains(&gateway) {
                        return Some(BridgeConf { name, network, gateway });
                    }
                }
            }
        }
        None
    }
}

impl FromStr for BridgeConf {
    type Err = PotError;

    /// Reads a bridge definition. It fails where the text lacks one of
    /// `name`, `net` and `gateway`, where `net` is no network or `gateway` no
    /// address, and where the gateway lies outside the network.
    fn from_str(s: &str) -> (r: Result<BridgeConf, PotError>)
        ensures
            match BridgeConfView::parse(s@) {
                Some(v) => r matches Ok(b) && b@ == v && b@.wf(),
                None => r matches Err(e) && e == PotError::BridgeConfError,
            },
    {
        let ls = TextLines::new(s);
        let name = ls.value_of("name");
        let network = parse_net_value(&ls.value_of("net"));
        let gateway = parse_addr_value(&ls.value_of("gateway"));
        match BridgeConf::optional_new(name, network, gateway) {
            Some(b) => Ok(b),
            None => Err(PotError::BridgeConfError),
        }
    }
}

/// With all three fields present, the gateway decides: inside the network,
/// the bridge is made of the three fields unchanged; outside, none is made.
pub proof fn gateway_decides(name: Seq<char>, network: IpNetView, gateway: IpAddr)
    ensures
        network.contains(gateway) ==> BridgeConfView::optional_new(
            Some(name),
            Some(network),
            Some(gateway),
        ) == Some(BridgeConfView { name, network, gateway }),
        !network.contains(gateway) ==> BridgeConfView::optional_new(
            Some(name),
            Some(network),
            Some(gateway),
        ) is None,
{
}

/// A definition that gives no value to one of `name`, `net` and `gateway`
/// defines no bridge; so the empty text defines none.
pub proof fn bridge_needs_every_field(text: Seq<char>)
    ensures
        lookup(lines(text), "name"@) is None ==> BridgeConfView::parse(text) is None,
        lookup(lines(text), "net"@) is None ==> BridgeConfView::parse(text) is None,
        lookup(lines(text), "gateway"@) is None ==> BridgeConfView::parse(text) is None,
        text.len() == 0 ==> BridgeConfView::parse(text) is None,
{
}

/// A definition whose `net` is no network, or whose `gateway` is no address,
/// defines no bridge.
pub proof fn bridge_needs_readable_fields(text: Seq<char>)
    ensures
        net_of_value(lookup(lines(text), "net"@)) is None ==> BridgeConfView::parse(text) is None,
        addr_of_value(lookup(lines(text), "gateway"@)) is None ==> BridgeConfView::parse(text)
            is None,
{
}

/// Every bridge that a text defines has its gateway inside its network.
pub proof fn defined_bridge_is_wf(text: Seq<char>)
    ensures
        BridgeConfView::parse(text) matches Some(b) ==> b.wf(),
{
}

/// The bridges that the texts define, in the order of the texts. A text that
/// could not be had, and one that defines no bridge, gives none.
pub open spec fn bridges_of(texts: Seq<Option<Seq<char>>>) -> Seq<BridgeConfView>
    decreases texts.len(),
{
    if texts.len() == 0 {
        Seq::empty()
    } else {
        let rest = bridges_of(texts.drop_last());
        match texts.last() {
            Some(t) => match BridgeConfView::parse(t) {
                Some(b) => rest.push(b),
                None => rest,
            },
            None => rest,
        }
    }
}

/// The paths of the bridge definitions among the entries of the bridges
/// directory: the regular files that stand directly in it.
pub fn get_bridges_path_list(entries: &Vec<DirEntry>) -> (r: Vec<String>)
    ensures
        r.deep_view() == child_paths(entries.deep_view(), EntryKind::File),
{
    collect_child_paths(entries, EntryKind::File)
}

/// The bridges that the definition files hold. `texts` has the content of
/// each file, or nothing for a file that could not be read.
pub fn get_bridges_list(texts: &Vec<Option<String>>) -> (r: Vec<BridgeConf>)
    ensures
        r.deep_view() == bridges_of(texts.deep_view()),
        forall|i: int| 0 <= i < r.len() ==> (#[trigger] r[i])@.wf(),
{
    let mut r: Vec<BridgeConf> = Vec::new();
    let n = texts.len();
    for i in 0..n
        invariant
            n == texts.len(),
            r.deep_view() == bridges_of(texts.deep_view().take(i as int)),
            forall|j: int| 0 <= j < r.len() ==> (#[trigger] r[j])@.wf(),
    {
        assert(texts.deep_view().take(i + 1).drop_last() == texts.deep_view().take(i as int));
        if let Some(text) = &texts[i] {
            if let Ok(bridge) = BridgeConf::from_str(text.as_str()) {
                r.push(bridge);
            }
        }
    }
    assert(texts.deep_view().take(n as int) == texts.deep_view());
    r
}

} // verus!
