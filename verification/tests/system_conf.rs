use potnet::net::{IpAddr, IpNet};
use potnet::system_conf::SystemConf;
use std::str::FromStr;

/// The IPv4 address `a.b.c.d`.
fn v4(a: u8, b: u8, c: u8, d: u8) -> IpAddr {
    IpAddr::V4(u32::from_be_bytes([a, b, c, d]))
}

/// The IPv6 address of the eight groups `g`.
fn v6(g: [u16; 8]) -> IpAddr {
    let mut n: u128 = 0;
    for x in g {
        n = (n << 16) | u128::from(x);
    }
    IpAddr::V6(n)
}

/// The network that `ipnet` reads from `text`, as the library holds it.
fn net(text: &str) -> IpNet {
    let n = text.parse::<ipnet::IpNet>().unwrap();
    let a = match n {
        ipnet::IpNet::V4(n) => IpAddr::V4(u32::from(n.addr())),
        ipnet::IpNet::V6(n) => IpAddr::V6(u128::from(n.addr())),
    };
    IpNet::new(a, n.prefix_len()).unwrap()
}

const FULL_V4: &str = "POT_ZFS_ROOT=zroot/pot\nPOT_FS_ROOT=/opt/pot\nPOT_EXTIF=em0\n
            POT_NETWORK=192.168.0.0/24\nPOT_NETMASK=255.255.255.0\nPOT_GATEWAY=192.168.0.1\n
            POT_DNS_IP=192.168.0.2\nPOT_DNS_NAME=bar_dns";

#[test]
fn system_conf_default() {
    let uut = SystemConf::default();
    assert_eq!(uut.is_valid(), false);
    assert_eq!(uut.dns_ip, None);
    assert_eq!(uut.dns_name, None);
    assert_eq!(uut.ext_if, None);
    assert_eq!(uut.fs_root, None);
    assert_eq!(uut.gateway, None);
    assert_eq!(uut.netmask, None);
    assert_eq!(uut.network, None);
    assert_eq!(uut.zfs_root, None);
}

#[test]
fn system_conf_fromstr_001() {
    let uut = SystemConf::from_str("");
    assert_eq!(uut.is_ok(), true);
    let uut = uut.unwrap();
    assert_eq!(uut.is_valid(), false);
    assert_eq!(uut, SystemConf::default());
}

#[test]
fn system_conf_fromstr_002() {
    let uut = SystemConf::from_str("# Comment 1\n # Comment with space");
    assert_eq!(uut.is_ok(), true);
    let uut = uut.unwrap();
    assert_eq!(uut.is_valid(), false);
    assert_eq!(uut, SystemConf::default());
}

#[test]
fn system_conf_fromstr_003() {
    let uut = SystemConf::from_str(" # POT_GATEWAY=192.168.0.1");
    assert_eq!(uut.is_ok(), true);
    let uut = uut.unwrap();
    assert_eq!(uut.is_valid(), false);
    assert_eq!(uut, SystemConf::default());
}

#[test]
fn system_conf_fromstr_004() {
    let uut = SystemConf::from_str("POT_GATEWAY=192.168.0.1");
    assert_eq!(uut.is_ok(), true);
    let uut = uut.unwrap();
    assert_eq!(uut.is_valid(), false);
    assert_ne!(uut, SystemConf::default());
    assert_eq!(uut.gateway.is_some(), true);
    assert_eq!(uut.gateway.unwrap(), v4(192, 168, 0, 1));
    assert_eq!(uut.gateway.unwrap(), IpAddr::parse("192.168.0.1").unwrap());
}

#[test]
fn system_conf_fromstr_005() {
    let uut = SystemConf::from_str("POT_NETWORK=192.168.0.0");
    assert_eq!(uut.is_ok(), true);
    let uut = uut.unwrap();
    assert_eq!(uut.is_valid(), false);
    assert_eq!(uut.network.is_some(), false);
}

#[test]
fn system_conf_fromstr_006() {
    let uut = SystemConf::from_str("POT_NETWORK=192.168.0.0/24");
    assert_eq!(uut.is_ok(), true);
    let uut = uut.unwrap();
    assert_eq!(uut.is_valid(), false);
    assert_ne!(uut, SystemConf::default());
    assert_eq!(uut.network.is_some(), true);
    assert_eq!(uut.network.unwrap(), net("192.168.0.0/24"));
}

#[test]
fn system_conf_fromstr_007() {
    let uut = SystemConf::from_str("POT_DNS_NAME=FOO_DNS");
    assert_eq!(uut.is_ok(), true);
    let uut = uut.unwrap();
    assert_eq!(uut.is_valid(), false);
    assert_ne!(uut, SystemConf::default());
    assert_eq!(uut.dns_name.is_some(), true);
    assert_eq!(uut.dns_name.unwrap(), "FOO_DNS".to_string());
}

#[test]
fn system_conf_fromstr_008() {
    let uut = SystemConf::from_str("POT_DNS_NAME=\"FOO_DNS\"");
    assert_eq!(uut.is_ok(), true);
    let uut = uut.unwrap();
    assert_eq!(uut.is_valid(), false);
    assert_ne!(uut, SystemConf::default());
    assert_eq!(uut.dns_name.is_some(), true);
    assert_ne!(uut.dns_name.unwrap(), "FOO_DNS".to_string());
}

#[test]
fn system_conf_fromstr_009() {
    let uut = SystemConf::from_str("POT_DNS_NAME=FOO_DNS # dns pot name");
    assert_eq!(uut.is_ok(), true);
    let uut = uut.unwrap();
    assert_eq!(uut.is_valid(), false);
    assert_ne!(uut, SystemConf::default());
    assert_eq!(uut.dns_name.is_some(), true);
    assert_eq!(uut.dns_name.unwrap(), "FOO_DNS".to_string());
}

#[test]
fn system_conf_fromstr_010() {
    let uut = SystemConf::from_str("POT_DNS_IP=192.168.240.240 # dns pot ip");
    assert_eq!(uut.is_ok(), true);
    let uut = uut.unwrap();
    assert_eq!(uut.is_valid(), false);
    assert_ne!(uut, SystemConf::default());
    assert_eq!(uut.dns_ip.is_some(), true);
    assert_eq!(uut.dns_ip.unwrap(), v4(192, 168, 240, 240));
    assert_eq!(uut.dns_ip.unwrap(), IpAddr::parse("192.168.240.240").unwrap());
}

#[test]
fn system_conf_fromstr_011() {
    let uut = SystemConf::from_str("POT_NETWORK=192.168.0.0/22 # pots internal network");
    assert_eq!(uut.is_ok(), true);
    let uut = uut.unwrap();
    assert_eq!(uut.is_valid(), false);
    assert_ne!(uut, SystemConf::default());
    assert_eq!(uut.network.is_some(), true);
    assert_eq!(uut.network.unwrap(), net("192.168.0.0/22"));
}

#[test]
fn system_conf_fromstr_012() {
    let uut =
        SystemConf::from_str("POT_NETWORK=fdf1:186e:49e6:76d8::/64 # pots internal network");
    assert_eq!(uut.is_ok(), true);
    let uut = uut.unwrap();
    assert_eq!(uut.is_valid(), false);
    assert_ne!(uut, SystemConf::default());
    assert_eq!(uut.network.is_some(), true);
    assert_eq!(uut.network.unwrap(), net("fdf1:186e:49e6:76d8::/64"));
}

#[test]
fn system_conf_fromstr_050() {
    let uut = SystemConf::from_str(FULL_V4);
    assert_eq!(uut.is_ok(), true);
    let uut = uut.unwrap();
    assert_eq!(uut.is_valid(), true);
    assert_ne!(uut, SystemConf::default());
    assert_eq!(uut.network.is_some(), true);
    assert_eq!(uut.network.unwrap(), net("192.168.0.0/24"));
    assert_eq!(uut.netmask.is_some(), true);
    assert_eq!(uut.netmask.unwrap(), v4(255, 255, 255, 0));
    assert_eq!(uut.netmask.unwrap(), IpAddr::parse("255.255.255.0").unwrap());
    assert_eq!(uut.gateway.is_some(), true);
    assert_eq!(uut.gateway.unwrap(), v4(192, 168, 0, 1));
    assert_eq!(uut.gateway.unwrap(), IpAddr::parse("192.168.0.1").unwrap());
    assert_eq!(uut.dns_ip.is_some(), true);
    assert_eq!(uut.dns_ip.unwrap(), v4(192, 168, 0, 2));
    assert_eq!(uut.dns_ip.unwrap(), IpAddr::parse("192.168.0.2").unwrap());
    assert_eq!(uut.zfs_root.is_some(), true);
    assert_eq!(uut.zfs_root.unwrap(), "zroot/pot".to_string());
    assert_eq!(uut.fs_root.is_some(), true);
    assert_eq!(uut.fs_root.unwrap(), "/opt/pot".to_string());
    assert_eq!(uut.ext_if.is_some(), true);
    assert_eq!(uut.ext_if.unwrap(), "em0".to_string());
    assert_eq!(uut.dns_name.is_some(), true);
    assert_eq!(uut.dns_name.unwrap(), "bar_dns".to_string());
}

#[test]
fn system_conf_fromstr_051() {
    let uut = SystemConf::from_str(
        "POT_ZFS_ROOT=zroot/pot\nPOT_FS_ROOT=/opt/pot\nPOT_EXTIF=em0\n
            POT_NETWORK=fdf1:186e:49e6:76d8::/64\nPOT_NETMASK=ffff:ffff:ffff:ffff::\nPOT_GATEWAY=fdf1:186e:49e6:76d8::1\n
            POT_DNS_IP=fdf1:186e:49e6:76d8::2\nPOT_DNS_NAME=bar_dns",
    );
    assert_eq!(uut.is_ok(), true);
    let uut = uut.unwrap();
    assert_eq!(uut.is_valid(), true);
    assert_ne!(uut, SystemConf::default());
    assert_eq!(uut.network.is_some(), true);
    assert_eq!(uut.network.unwrap(), net("fdf1:186e:49e6:76d8::/64"));
    assert_eq!(uut.netmask.is_some(), true);
    assert_eq!(uut.netmask.unwrap(), v6([0xffff, 0xffff, 0xffff, 0xffff, 0, 0, 0, 0]));
    assert_eq!(uut.netmask.unwrap(), IpAddr::parse("ffff:ffff:ffff:ffff::").unwrap());
    assert_eq!(uut.gateway.is_some(), true);
    assert_eq!(uut.gateway.unwrap(), v6([0xfdf1, 0x186e, 0x49e6, 0x76d8, 0, 0, 0, 1]));
    assert_eq!(uut.gateway.unwrap(), IpAddr::parse("fdf1:186e:49e6:76d8::1").unwrap());
    assert_eq!(uut.dns_ip.is_some(), true);
    assert_eq!(uut.dns_ip.unwrap(), v6([0xfdf1, 0x186e, 0x49e6, 0x76d8, 0, 0, 0, 2]));
    assert_eq!(uut.dns_ip.unwrap(), IpAddr::parse("fdf1:186e:49e6:76d8::2").unwrap());
    assert_eq!(uut.zfs_root.is_some(), true);
    assert_eq!(uut.zfs_root.unwrap(), "zroot/pot".to_string());
    assert_eq!(uut.fs_root.is_some(), true);
    assert_eq!(uut.fs_root.unwrap(), "/opt/pot".to_string());
    assert_eq!(uut.ext_if.is_some(), true);
    assert_eq!(uut.ext_if.unwrap(), "em0".to_string());
    assert_eq!(uut.dns_name.is_some(), true);
    assert_eq!(uut.dns_name.unwrap(), "bar_dns".to_string());
}

#[test]
fn system_conf_merge_001() {
    let mut uut = SystemConf::default();
    let uut2 = SystemConf::from_str(FULL_V4).unwrap();
    uut.merge(uut2.clone());
    assert_eq!(uut, uut2);
}

#[test]
fn system_conf_merge_002() {
    let mut uut = SystemConf::from_str(FULL_V4).unwrap();
    let uut2 = SystemConf::from_str("POT_DNS_NAME=foo_dns").unwrap();
    uut.merge(uut2);
    assert_eq!(
        uut,
        SystemConf::from_str(
            "POT_ZFS_ROOT=zroot/pot\nPOT_FS_ROOT=/opt/pot\nPOT_EXTIF=em0\n
            POT_NETWORK=192.168.0.0/24\nPOT_NETMASK=255.255.255.0\nPOT_GATEWAY=192.168.0.1\n
            POT_DNS_IP=192.168.0.2\nPOT_DNS_NAME=foo_dns"
        )
        .unwrap()
    );
}

#[test]
fn parse_never_fails() {
    for text in ["", "\n\n", "#", "garbage", "POT_NETWORK=", "POT_GATEWAY=not-an-address", "=\n=="] {
        assert!(SystemConf::from_str(text).is_ok(), "{:?}", text);
    }
    let uut = SystemConf::from_str("POT_NETWORK=\nPOT_GATEWAY=not-an-address").unwrap();
    assert_eq!(uut, SystemConf::default());
}

#[test]
fn value_ends_at_the_first_space() {
    let uut = SystemConf::from_str("POT_FS_ROOT=/opt/my pot").unwrap();
    assert_eq!(uut.fs_root, Some("/opt/my".to_string()));
    let uut = SystemConf::from_str("POT_EXTIF= em0").unwrap();
    assert_eq!(uut.ext_if, Some("".to_string()));
}

#[test]
fn value_is_what_follows_the_first_equals_sign() {
    let uut = SystemConf::from_str("POT_ZFS_ROOT=zroot/pot=a").unwrap();
    assert_eq!(uut.zfs_root, Some("zroot/pot=a".to_string()));
    let uut = SystemConf::from_str("POT_ZFS_ROOT=").unwrap();
    assert_eq!(uut.zfs_root, Some("".to_string()));
}

#[test]
fn last_line_of_a_key_wins() {
    let uut = SystemConf::from_str("POT_EXTIF=em0\nPOT_EXTIF=em1\nPOT_DNS_NAME=a").unwrap();
    assert_eq!(uut.ext_if, Some("em1".to_string()));
    assert_eq!(uut.dns_name, Some("a".to_string()));
    let uut = SystemConf::from_str("POT_GATEWAY=192.168.0.1\nPOT_GATEWAY=junk").unwrap();
    assert_eq!(uut.gateway, None);
    let uut = SystemConf::from_str("POT_GATEWAY=junk\nPOT_GATEWAY=192.168.0.1").unwrap();
    assert_eq!(uut.gateway, Some(v4(192, 168, 0, 1)));
}

#[test]
fn lines_are_trimmed_and_comments_dropped() {
    let uut = SystemConf::from_str("\t POT_EXTIF=em0 \r\n#POT_DNS_NAME=a\r\n\u{3000}POT_FS_ROOT=/p\u{2003}").unwrap();
    assert_eq!(uut.ext_if, Some("em0".to_string()));
    assert_eq!(uut.dns_name, None);
    assert_eq!(uut.fs_root, Some("/p".to_string()));
}

#[test]
fn other_keys_are_ignored() {
    let uut = SystemConf::from_str("POT_CACHE=/var/cache\nXPOT_EXTIF=em0\nPOT_EXTIF:em0\npot_extif=em0").unwrap();
    assert_eq!(uut, SystemConf::default());
}

#[test]
fn netmask_is_not_held_against_the_network() {
    let uut = SystemConf::from_str("POT_NETWORK=10.0.0.0/8\nPOT_NETMASK=1.2.3.4").unwrap();
    assert_eq!(uut.network, Some(IpNet::new(v4(10, 0, 0, 0), 8).unwrap()));
    assert_eq!(uut.netmask, Some(v4(1, 2, 3, 4)));
}

#[test]
fn merge_of_empty_changes_nothing() {
    let full = SystemConf::from_str(FULL_V4).unwrap();
    let mut uut = full.clone();
    uut.merge(SystemConf::default());
    assert_eq!(uut, full);
    let partial = SystemConf::from_str("POT_EXTIF=em0").unwrap();
    let mut uut = partial.clone();
    uut.merge(SystemConf::default());
    assert_eq!(uut, partial);
}

#[test]
fn merge_of_valid_gives_the_valid_one() {
    let mut uut = SystemConf::from_str(FULL_V4).unwrap();
    let other = SystemConf::from_str(
        "POT_ZFS_ROOT=tank\nPOT_FS_ROOT=/pot\nPOT_EXTIF=vtnet0\nPOT_NETWORK=10.192.0.0/10\n\
         POT_NETMASK=255.192.0.0\nPOT_GATEWAY=10.192.0.1\nPOT_DNS_IP=10.192.0.2\nPOT_DNS_NAME=dns",
    )
    .unwrap();
    assert!(other.is_valid());
    uut.merge(other.clone());
    assert_eq!(uut, other);
}

#[test]
fn merge_keeps_what_the_right_side_lacks() {
    let mut uut = SystemConf::from_str("POT_EXTIF=em0\nPOT_GATEWAY=10.0.0.1").unwrap();
    uut.merge(SystemConf::from_str("POT_GATEWAY=10.0.0.2\nPOT_DNS_NAME=dns").unwrap());
    assert_eq!(uut.ext_if, Some("em0".to_string()));
    assert_eq!(uut.gateway, Some(v4(10, 0, 0, 2)));
    assert_eq!(uut.dns_name, Some("dns".to_string()));
    assert_eq!(uut.network, None);
}

#[test]
fn valid_needs_every_field() {
    let lines = [
        "POT_ZFS_ROOT=zroot/pot",
        "POT_FS_ROOT=/opt/pot",
        "POT_EXTIF=em0",
        "POT_NETWORK=192.168.0.0/24",
        "POT_NETMASK=255.255.255.0",
        "POT_GATEWAY=192.168.0.1",
        "POT_DNS_IP=192.168.0.2",
        "POT_DNS_NAME=bar_dns",
    ];
    assert!(SystemConf::from_str(&lines.join("\n")).unwrap().is_valid());
    for skip in 0..lines.len() {
        let mut text = String::new();
        for (i, line) in lines.iter().enumerate() {
            if i != skip {
                text.push_str(line);
                text.push('\n');
            }
        }
        assert!(!SystemConf::from_str(&text).unwrap().is_valid(), "without {}", lines[skip]);
    }
    let mut uut = SystemConf::from_str(&lines.join("\n")).unwrap();
    uut.dns_ip = None;
    assert!(!uut.is_valid());
}

#[test]
fn new_lays_the_override_over_the_default() {
    assert_eq!(SystemConf::new(None, None), SystemConf::default());
    let full = SystemConf::from_str(FULL_V4).unwrap();
    assert_eq!(SystemConf::new(Some(FULL_V4), None), full);
    assert_eq!(SystemConf::new(None, Some(FULL_V4)), full);
    let uut = SystemConf::new(Some(FULL_V4), Some("POT_DNS_NAME=foo_dns\nPOT_GATEWAY=192.168.0.254"));
    assert!(uut.is_valid());
    assert_eq!(uut.dns_name, Some("foo_dns".to_string()));
    assert_eq!(uut.gateway, Some(v4(192, 168, 0, 254)));
    assert_eq!(uut.ext_if, Some("em0".to_string()));
    let uut = SystemConf::new(Some("POT_DNS_NAME=foo_dns"), Some(FULL_V4));
    assert_eq!(uut, full);
}

#[test]
fn equality_is_by_fields() {
    let a = SystemConf::from_str("POT_NETWORK=10.0.0.0/8").unwrap();
    let b = SystemConf::from_str("POT_NETWORK=10.0.0.0/9").unwrap();
    let c = SystemConf::from_str("POT_NETWORK=10.0.0.1/8").unwrap();
    assert_ne!(a, b);
    assert_ne!(a, c);
    assert_eq!(a, SystemConf::from_str(" POT_NETWORK=10.0.0.0/8 # net").unwrap());
}

#[test]
fn text_parses_to_a_system_conf() {
    let uut: SystemConf = "POT_EXTIF=em0".parse().unwrap();
    assert_eq!(uut.ext_if, Some("em0".to_string()));
    assert_eq!(uut, SystemConf::from_str("POT_EXTIF=em0").unwrap());
}
