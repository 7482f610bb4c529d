//! The pots of a host: which directories are pots, and what network
//! configuration each pot's configuration file gives it.
use crate::dir::{
    child_dir_names, child_paths, collect_child_paths, DirEntry, DirEntryView, EntryKind,
};
use crate::error::PotError;
use crate::net::{addr_of_value, parse_addr_value, IpAddr};
use crate::system_conf::SystemConf;
use crate::text::{lines, lookup_raw, same_str, TextLines};
use vstd::prelude::*;

verus! {

/// How a pot is attached to the network.
#[derive(Clone, Copy, Debug, PartialEq, Eq, Structural)]
pub enum NetType {
    Inherit,
    Alias,
    PublicBridge,
    PrivateBridge,
}

impl NetType {
    /// The network type that a configuration file names by `s`, if `s` names
    /// one.
    pub open spec fn spec_parse(s: Seq<char>) -> Option<NetType> {
        if s == "inherit"@ {
            Some(NetType::Inherit)
        } else if s == "alias"@ {
            Some(NetType::Alias)
        } else if s == "public-bridge"@ {
            Some(NetType::PublicBridge)
        } else if s == "private-bridge"@ {
            Some(NetType::PrivateBridge)
        } else {
            None
        }
    }

    /// Reads a network type from its name.
    pub fn parse(s: &str) -> (r: Option<NetType>)
        ensures
            r == NetType::spec_parse(s@),
    {
        if same_str(s, "inherit") {
            Some(NetType::Inherit)
        } else if same_str(s, "alias") {
            Some(NetType::Alias)
        } else if same_str(s, "public-bridge") {
            Some(NetType::PublicBridge)
        } else if same_str(s, "private-bridge") {
            Some(NetType::PrivateBridge)
        } else {
            None
        }
    }
}

/// The network configuration of a pot.
#[derive(Debug)]
pub struct PotConf {
    pub name: String,
    pub ip_addr: Option<IpAddr>,
    pub network_type: NetType,
}

/// The mathematical model of a `PotConf`.
pub struct PotConfView {
    pub name: Seq<char>,
    pub ip_addr: Option<IpAddr>,
    pub network_type: NetType,
}

/// The values that a pot's configuration file gives to the keys that decide
/// its network configuration, each as it stands in the file.
#[derive(Debug)]
pub struct PotConfVerbatim {
    pub vnet: Option<String>,
    pub ip4: Option<String>,
    pub ip: Option<String>,
    pub network_type: Option<String>,
}

/// The mathematical model of a `PotConfVerbatim`.
pub struct PotConfVerbatimView {
    pub vnet: Option<Seq<char>>,
    pub ip4: Option<Seq<char>>,
    pub ip: Option<Seq<char>>,
    pub network_type: Option<Seq<char>>,
}

impl View for PotConf {
    type V = PotConfView;

    open spec fn view(&self) -> PotConfView {
        PotConfView { name: self.name@, ip_addr: self.ip_addr, network_type: self.network_type }
    }
}

impl DeepView for PotConf {
    type V = PotConfView;

    open spec fn deep_view(&self) -> PotConfView {
        self@
    }
}

impl View for PotConfVerbatim {
    type V = PotConfVerbatimView;

    open spec fn view(&self) -> PotConfVerbatimView {
        PotConfVerbatimView {
            vnet: self.vnet.deep_view(),
            ip4: self.ip4.deep_view(),
            ip: self.ip.deep_view(),
            network_type: self.network_type.deep_view(),
        }
    }
}

impl DeepView for PotConfVerbatim {
    type V = PotConfVerbatimView;

    open spec fn deep_view(&self) -> PotConfVerbatimView {
        self@
    }
}

impl PotConfVerbatimView {
    /// No key has a value.
    pub open spec fn empty() -> PotConfVerbatimView {
        PotConfVerbatimView { vnet: None, ip4: None, ip: None, network_type: None }
    }

    /// The values that a configuration text gives to the four keys. A line
    /// counts as it stands, and a value is all that follows the equals sign.
    pub open spec fn parse(text: Seq<char>) -> PotConfVerbatimView {
        let ls = lines(text);
        PotConfVerbatimView {
            vnet: lookup_raw(ls, "vnet"@),
            ip4: lookup_raw(ls, "ip4"@),
            ip: lookup_raw(ls, "ip"@),
            network_type: lookup_raw(ls, "network_type"@),
        }
    }
}

impl PotConfView {
    /// A pot on a bridge has an address.
    pub open spec fn wf(self) -> bool {
        (self.network_type is PublicBridge || self.network_type is PrivateBridge)
            ==> self.ip_addr is Some
    }

    /// A pot that shares the network of its host.
    pub open spec fn inherit(name: Seq<char>) -> PotConfView {
        PotConfView { name, ip_addr: None, network_type: NetType::Inherit }
    }

    /// What the values `raw` say of the pot `name`, where `ip` and `ip4` are
    /// the addresses that the values of these keys hold: the pot's network
    /// configuration, or nothing for a pot that is left out, or an error.
    ///
    /// Where `network_type` has a value, it decides: a name of no network
    /// type, and `alias`, leave the pot out; `inherit` needs no address; a
    /// bridge needs the value of `ip`, and the pot is left out without one.
    /// Where `network_type` has none, the file is of the older form and `ip4`
    /// decides: the pot is left out without it, inherits where it says so, and
    /// else it gives the address, and `vnet` tells a bridge from an alias; the
    /// pot is left out without `vnet`. A value that should hold an address
    /// and holds none is an error.
    pub open spec fn resolve(
        name: Seq<char>,
        raw: PotConfVerbatimView,
        ip: Option<IpAddr>,
        ip4: Option<IpAddr>,
    ) -> Result<Option<PotConfView>, PotError> {
        match raw.network_type {
            Some(t) => match NetType::spec_parse(t) {
                None => Ok(None),
                Some(NetType::Alias) => Ok(None),
                Some(NetType::Inherit) => Ok(Some(Self::inherit(name))),
                Some(bridge) => if raw.ip is None {
                    Ok(None)
                } else if ip is None {
                    Err(PotError::PotConfError)
                } else {
                    Ok(Some(PotConfView { name, ip_addr: ip, network_type: bridge }))
                },
            },
            None => if raw.ip4 is None {
                Ok(None)
            } else if raw.ip4->0 == "inherit"@ {
                Ok(Some(Self::inherit(name)))
            } else if ip4 is None {
                Err(PotError::PotConfError)
            } else if raw.vnet is None {
                Ok(None)
            } else {
                Ok(
                    Some(
                        PotConfView {
                            name,
                            ip_addr: ip4,
                            network_type: if raw.vnet->0 == "true"@ {
                                NetType::PublicBridge
                            } else {
                                NetType::Alias
                            },
                        },
                    ),
                )
            },
        }
    }

    /// What a pot's configuration text says of the pot `name`; nothing where
    /// the text could not be had.
    pub open spec fn of_text(name: Seq<char>, conf_text: Option<Seq<char>>) -> Result<
        Option<PotConfView>,
        PotError,
    > {
        match conf_text {
            Some(t) => {
                let raw = PotConfVerbatimView::parse(t);
                Self::resolve(name, raw, addr_of_value(raw.ip), addr_of_value(raw.ip4))
            },
            None => Ok(None),
        }
    }
}

impl Default for PotConf {
    fn default() -> (r: PotConf)
        ensures
            r@ == PotConfView::inherit(Seq::empty()),
    {
        PotConf { name: String::new(), ip_addr: None, network_type: NetType::Inherit }
    }
}

impl Default for PotConfVerbatim {
    fn default() -> (r: PotConfVerbatim)
        ensures
            r@ == PotConfVerbatimView::empty(),
    {
        PotConfVerbatim { vnet: None, ip4: None, ip: None, network_type: None }
    }
}

impl PotConfVerbatim {
    /// Reads the values of the four keys from a pot's configuration text.
    pub fn parse(s: &str) -> (r: PotConfVerbatim)
        ensures
            r@ == PotConfVerbatimView::parse(s@),
    {
        let ls = TextLines::new(s);
        PotConfVerbatim {
            vnet: ls.raw_value_of("vnet"),
            ip4: ls.raw_value_of("ip4"),
            ip: ls.raw_value_of("ip"),
            network_type: ls.raw_value_of("network_type"),
        }
    }
}

impl PotConf {
    /// Decides the network configuration of the pot `name` from the values
    /// `raw`, where `ip` and `ip4` are the addresses read from the values of
    /// these keys.
    pub fn resolve(
        name: String,
        raw: &PotConfVerbatim,
        ip: Option<IpAddr>,
        ip4: Option<IpAddr>,
    ) -> (r: Result<Option<PotConf>, PotError>)
        ensures
            match PotConfView::resolve(name@, raw@, ip, ip4) {
                Ok(Some(v)) => r matches Ok(Some(c)) && c@ == v && c@.wf(),
                Ok(None) => r matches Ok(None),
                Err(e) => r matches Err(x) && x == e,
            },
    {
        if let Some(t) = &raw.network_type {
            let network_type = match NetType::parse(t.as_str()) {
                Some(n) => n,
                None => return Ok(None),
            };
            match network_type {
                NetType::Alias => Ok(None),
                NetType::Inherit => Ok(Some(PotConf { name, ip_addr: None, network_type })),
                _ => {
                    if raw.ip.is_none() {
                        Ok(None)
                    } else if ip.is_none() {
                        Err(PotError::PotConfError)
                    } else {
                        Ok(Some(PotConf { name, ip_addr: ip, network_type }))
                    }
                },
            }
        } else if let Some(t) = &raw.ip4 {
            if same_str(t.as_str(), "inherit") {
                Ok(Some(PotConf { name, ip_addr: None, network_type: NetType::Inherit }))
            } else if ip4.is_none() {
                Err(PotError::PotConfError)
            } else if let Some(vnet) = &raw.vnet {
                let network_type = if same_str(vnet.as_str(), "true") {
                    NetType::PublicBridge
                } else {
                    NetType::Alias
                };
                Ok(Some(PotConf { name, ip_addr: ip4, network_type }))
            } else {
                Ok(None)
            }
        } else {
            Ok(None)
        }
    }
}

/// A pot whose file names the network type `alias` is left out, whatever
/// else the file holds.
pub proof fn alias_is_left_out(
    name: Seq<char>,
    raw: PotConfVerbatimView,
    ip: Option<IpAddr>,
    ip4: Option<IpAddr>,
)
    requires
        raw.network_type == Some("alias"@),
    ensures
        PotConfView::resolve(name, raw, ip, ip4) == Ok::<Option<PotConfView>, PotError>(None),
{
    reveal_strlit("alias");
    reveal_strlit("inherit");
    assert("alias"@.len() != "inherit"@.len());
}

/// A pot whose file names a network type that there is not is left out.
pub proof fn unknown_network_type_is_left_out(
    name: Seq<char>,
    raw: PotConfVerbatimView,
    ip: Option<IpAddr>,
    ip4: Option<IpAddr>,
)
    requires
        raw.network_type is Some,
        NetType::spec_parse(raw.network_type->0) is None,
    ensures
        PotConfView::resolve(name, raw, ip, ip4) == Ok::<Option<PotConfView>, PotError>(None),
{
}

/// A pot whose file names the network type `inherit` shares the network of
/// its host and has no address, whatever else the file holds.
pub proof fn inherit_needs_no_address(
    name: Seq<char>,
    raw: PotConfVerbatimView,
    ip: Option<IpAddr>,
    ip4: Option<IpAddr>,
)
    requires
        raw.network_type == Some("inherit"@),
    ensures
        PotConfView::resolve(name, raw, ip, ip4) == Ok::<Option<PotConfView>, PotError>(
            Some(PotConfView::inherit(name)),
        ),
{
}

/// A pot whose file names a bridge as its network type is left out without
/// a value of `ip`; with a value that is an address it is on that bridge
/// with that address; a value that is no address is an error.
pub proof fn bridge_needs_ip(
    name: Seq<char>,
    raw: PotConfVerbatimView,
    ip: Option<IpAddr>,
    ip4: Option<IpAddr>,
)
    requires
        raw.network_type is Some,
        NetType::spec_parse(raw.network_type->0) matches Some(t) && (t is PublicBridge
            || t is PrivateBridge),
    ensures
        raw.ip is None ==> PotConfView::resolve(name, raw, ip, ip4) == Ok::<
            Option<PotConfView>,
            PotError,
        >(None),
        raw.ip is Some && ip is None ==> PotConfView::resolve(name, raw, ip, ip4) == Err::<
            Option<PotConfView>,
            PotError,
        >(PotError::PotConfError),
        raw.ip is Some && ip is Some ==> PotConfView::resolve(name, raw, ip, ip4) == Ok::<
            Option<PotConfView>,
            PotError,
        >(
            Some(
                PotConfView {
                    name,
                    ip_addr: ip,
                    network_type: NetType::spec_parse(raw.network_type->0)->0,
                },
            ),
        ),
{
}

/// Each of the four network types has its name.
pub proof fn network_type_names()
    ensures
        NetType::spec_parse("public-bridge"@) == Some(NetType::PublicBridge),
        NetType::spec_parse("private-bridge"@) == Some(NetType::PrivateBridge),
        NetType::spec_parse("inherit"@) == Some(NetType::Inherit),
        NetType::spec_parse("alias"@) == Some(NetType::Alias),
{
    reveal_strlit("alias");
    reveal_strlit("inherit");
    reveal_strlit("public-bridge");
    reveal_strlit("private-bridge");
    assert("alias"@.len() == 5);
    assert("inherit"@.len() == 7);
    assert("public-bridge"@.len() == 13);
    assert("private-bridge"@.len() == 14);
}

/// A file of the older form, which names no network type: the pot is left
/// out without a value of `ip4`, and with the value `inherit` it shares the
/// network of its host, whatever `vnet` says.
pub proof fn older_form_inherit(
    name: Seq<char>,
    raw: PotConfVerbatimView,
    ip: Option<IpAddr>,
    ip4: Option<IpAddr>,
)
    requires
        raw.network_type is None,
    ensures
        raw.ip4 is None ==> PotConfView::resolve(name, raw, ip, ip4) == Ok::<
            Option<PotConfView>,
            PotError,
        >(None),
        raw.ip4 == Some("inherit"@) ==> PotConfView::resolve(name, raw, ip, ip4) == Ok::<
            Option<PotConfView>,
            PotError,
        >(Some(PotConfView::inherit(name))),
{
}

/// A file of the older form whose `ip4` holds the address `a`: with `vnet`
/// set to `true` the pot is on the public bridge with that address; with
/// `vnet` set to anything else it is an alias with that address; without
/// `vnet` it is left out.
pub proof fn older_form_address(
    name: Seq<char>,
    raw: PotConfVerbatimView,
    ip: Option<IpAddr>,
    a: IpAddr,
)
    requires
        raw.network_type is None,
        raw.ip4 is Some,
        raw.ip4->0 != "inherit"@,
    ensures
        raw.vnet is None ==> PotConfView::resolve(name, raw, ip, Some(a)) == Ok::<
            Option<PotConfView>,
            PotError,
        >(None),
        raw.vnet == Some("true"@) ==> PotConfView::resolve(name, raw, ip, Some(a)) == Ok::<
            Option<PotConfView>,
            PotError,
        >(Some(PotConfView { name, ip_addr: Some(a), network_type: NetType::PublicBridge })),
        raw.vnet is Some && raw.vnet->0 != "true"@ ==> PotConfView::resolve(
            name,
            raw,
            ip,
            Some(a),
        ) == Ok::<Option<PotConfView>, PotError>(
            Some(PotConfView { name, ip_addr: Some(a), network_type: NetType::Alias }),
        ),
        PotConfView::resolve(name, raw, ip, None) == Err::<Option<PotConfView>, PotError>(
            PotError::PotConfError,
        ),
{
}

/// A pot that is not left out and is on a bridge has an address.
pub proof fn resolved_pot_is_wf(
    name: Seq<char>,
    raw: PotConfVerbatimView,
    ip: Option<IpAddr>,
    ip4: Option<IpAddr>,
)
    ensures
        PotConfView::resolve(name, raw, ip, ip4) matches Ok(Some(c)) ==> c.wf() && c.name == name,
{
}

/// The network configuration that a pot's configuration text gives the pot
/// `pot_name`. The pot is left out where the text could not be had.
pub fn resolve_pot_conf(pot_name: &str, conf_text: Option<&str>) -> (r: Result<
    Option<PotConf>,
    PotError,
>)
    ensures
        match PotConfView::of_text(pot_name@, conf_text.deep_view()) {
            Ok(Some(v)) => r matches Ok(Some(c)) && c@ == v && c@.wf(),
            Ok(None) => r matches Ok(None),
            Err(e) => r matches Err(x) && x == e,
        },
{
    match conf_text {
        Some(text) => {
            let raw = PotConfVerbatim::parse(text);
            let ip = parse_addr_value(&raw.ip);
            let ip4 = parse_addr_value(&raw.ip4);
            PotConf::resolve(pot_name.to_owned(), &raw, ip, ip4)
        },
        None => Ok(None),
    }
}

/// A pot's name with the text of its configuration file, or nothing where
/// the file could not be read.
#[derive(Debug)]
pub struct PotSource {
    pub name: String,
    pub conf_text: Option<String>,
}

/// The mathematical model of a `PotSource`.
pub struct PotSourceView {
    pub name: Seq<char>,
    pub conf_text: Option<Seq<char>>,
}

impl View for PotSource {
    type V = PotSourceView;

    open spec fn view(&self) -> PotSourceView {
        PotSourceView { name: self.name@, conf_text: self.conf_text.deep_view() }
    }
}

impl DeepView for PotSource {
    type V = PotSourceView;

    open spec fn deep_view(&self) -> PotSourceView {
        self@
    }
}

/// The network configurations of the pots `pots`, in their order, without
/// the pots that are left out and those whose configuration is in error.
pub open spec fn pot_confs_of(pots: Seq<PotSourceView>) -> Seq<PotConfView>
    decreases pots.len(),
{
    if pots.len() == 0 {
        Seq::empty()
    } else {
        let rest = pot_confs_of(pots.drop_last());
        match PotConfView::of_text(pots.last().name, pots.last().conf_text) {
            Ok(Some(c)) => rest.push(c),
            _ => rest,
        }
    }
}

/// The paths of the pots among the entries of the jails directory: the
/// directories that stand directly in it.
pub fn get_pot_path_list(entries: &Vec<DirEntry>) -> (r: Vec<String>)
    ensures
        r.deep_view() == child_paths(entries.deep_view(), EntryKind::Dir),
{
    collect_child_paths(entries, EntryKind::Dir)
}

/// The names of the pots among the entries of the jails directory.
pub fn get_pot_list(entries: &Vec<DirEntry>) -> (r: Vec<String>)
    ensures
        r.deep_view() == child_dir_names(entries.deep_view()),
{
    let mut r: Vec<String> = Vec::new();
    let n = entries.len();
    for i in 0..n
        invariant
            n == entries.len(),
            r.deep_view() == child_dir_names(entries.deep_view().take(i as int)),
    {
        let e = &entries[i];
        assert(entries.deep_view().take(i + 1).drop_last() == entries.deep_view().take(i as int));
        if e.depth == 1 && e.kind == EntryKind::Dir {
            if let Some(name) = &e.file_name {
                r.push(name.clone());
            }
        }
    }
    assert(entries.deep_view().take(n as int) == entries.deep_view());
    r
}

/// The network configurations of the pots of a host; none where the system
/// configuration is not valid.
pub fn get_pot_conf_list(conf: SystemConf, pots: &Vec<PotSource>) -> (r: Vec<PotConf>)
    ensures
        r.deep_view() == (if conf@.is_valid() {
            pot_confs_of(pots.deep_view())
        } else {
            Seq::empty()
        }),
        forall|i: int| 0 <= i < r.len() ==> (#[trigger] r[i])@.wf(),
{
    let mut r: Vec<PotConf> = Vec::new();
    if !conf.is_valid() {
        return r;
    }
    let n = pots.len();
    for i in 0..n
        invariant
            n == pots.len(),
            r.deep_view() == pot_confs_of(pots.deep_view().take(i as int)),
            forall|j: int| 0 <= j < r.len() ==> (#[trigger] r[j])@.wf(),
    {
        let pot = &pots[i];
        assert(pots.deep_view().take(i + 1).drop_last() == pots.deep_view().take(i as int));
        let conf_text = match &pot.conf_text {
            Some(t) => Some(t.as_str()),
            None => None,
        };
        if let Ok(Some(pot_conf)) = resolve_pot_conf(pot.name.as_str(), conf_text) {
            r.push(pot_conf);
        }
    }
    assert(pots.deep_view().take(n as int) == pots.deep_view());
    r
}

} // verus!
