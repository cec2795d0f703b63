//! Reading settings back from drbd-reactor promoter configuration files.

use vstd::prelude::*;
use crate::text::{
    chars_of, contains, contains_str, ends_with, ends_with_str, find, find_exec, last_with_prefix,
    last_with_prefix_exec, lines, lines_exec, parse_u8, parse_u8_exec, replace_char,
    replace_char_exec, slice_chars, split_char, split_char_exec, string_of, tokens, tokens_exec,
    views, push_chars, push_str,
};

verus! {

/// VIP configuration of an HA profile.
#[derive(Debug, Clone)]
pub struct VipConfig {
    pub address: String,
    pub netmask: u8,
    pub interface: String,
}

/// The VIP (address and netmask) named on one line, if the line starts an
/// `ocf:heartbeat:IPaddr2` agent: the agent definition runs from the agent name to the next
/// `"` (or the end of the line); its last `ip=` word gives the address and its last
/// `cidr_netmask=` word the netmask, which must parse as a `u8`.
pub open spec fn vip_in_line(l: Seq<char>) -> Option<(Seq<char>, u8)> {
    match find(l, "ocf:heartbeat:IPaddr2"@) {
        None => None,
        Some(start) => {
            let after = l.skip(start);
            let def = match find(after, "\""@) {
                Some(e) => after.take(e),
                None => after,
            };
            let toks = tokens(def);
            let mask = match last_with_prefix(toks, "cidr_netmask="@) {
                Some(m) => parse_u8(m),
                None => None,
            };
            match (last_with_prefix(toks, "ip="@), mask) {
                (Some(a), Some(m)) => Some((a, m)),
                _ => None,
            }
        },
    }
}

/// The first line that names a VIP.
pub open spec fn vip_in_lines(ls: Seq<Seq<char>>) -> Option<(Seq<char>, u8)>
    decreases ls.len(),
{
    if ls.len() == 0 {
        None
    } else {
        match vip_in_line(ls[0]) {
            Some(v) => Some(v),
            None => vip_in_lines(ls.drop_first()),
        }
    }
}

/// The VIP named in a promoter configuration, if any.
pub open spec fn config_vip(content: Seq<char>) -> Option<(Seq<char>, u8)> {
    vip_in_lines(lines(content))
}

fn vip_in_line_exec(l: &Vec<char>) -> (r: Option<(Vec<char>, u8)>)
    ensures
        match r {
            Some(v) => vip_in_line(l@) == Some((v.0@, v.1)),
            None => vip_in_line(l@) is None,
        },
{
    let marker = chars_of("ocf:heartbeat:IPaddr2");
    let start = match find_exec(l.as_slice(), marker.as_slice()) {
        Some(s) => s,
        None => {
            return None;
        },
    };
    proof {
        crate::text::lemma_find_contains(l@, marker@);
    }
    let after = slice_chars(l.as_slice(), start, l.len());
    assert(after@ =~= l@.skip(start as int));
    let quote = chars_of("\"");
    let def = match find_exec(after.as_slice(), quote.as_slice()) {
        Some(e) => {
            proof {
                crate::text::lemma_find_contains(after@, quote@);
            }
            let d = slice_chars(after.as_slice(), 0, e);
            assert(d@ =~= after@.take(e as int));
            d
        },
        None => after,
    };
    let toks = tokens_exec(def.as_slice());
    let mask = match last_with_prefix_exec(&toks, "cidr_netmask=") {
        Some(m) => parse_u8_exec(m.as_slice()),
        None => None,
    };
    match (last_with_prefix_exec(&toks, "ip="), mask) {
        (Some(a), Some(m)) => Some((a, m)),
        _ => None,
    }
}

/// Reads the VIP from drbd-reactor promoter content: the first line with an
/// `ocf:heartbeat:IPaddr2` agent that has both an `ip=` and a valid `cidr_netmask=`
/// parameter; the interface is reported as `eth0`.
pub fn parse_vip_from_config(content: &str) -> (r: Option<VipConfig>)
    ensures
        match r {
            Some(v) => config_vip(content@) == Some((v.address@, v.netmask)) && v.interface@
                == "eth0"@,
            None => config_vip(content@) is None,
        },
{
    let chars = chars_of(content);
    let ls = lines_exec(chars.as_slice());
    let ghost v = views(ls@);
    let mut i: usize = 0;
    assert(v.skip(0) =~= v);
    while i < ls.len()
        invariant
            i <= ls.len(),
            v == views(ls@),
            v == lines(content@),
            vip_in_lines(v) == vip_in_lines(v.skip(i as int)),
        decreases ls.len() - i,
    {
        assert(v.skip(i as int)[0] == ls[i as int]@);
        match vip_in_line_exec(&ls[i]) {
            Some((a, m)) => {
                return Some(
                    VipConfig {
                        address: string_of(a.as_slice()),
                        netmask: m,
                        interface: "eth0".to_owned(),
                    },
                );
            },
            None => {},
        }
        assert(v.skip(i as int).drop_first() =~= v.skip(i + 1));
        i = i + 1;
    }
    None
}

/// The first piece that ends with `suf`.
pub open spec fn first_ending_with(parts: Seq<Seq<char>>, suf: Seq<char>) -> Option<Seq<char>>
    decreases parts.len(),
{
    if parts.len() == 0 {
        None
    } else if ends_with(parts[0], suf) {
        Some(parts[0])
    } else {
        first_ending_with(parts.drop_first(), suf)
    }
}

/// The mount unit quoted on a line that mentions `.mount`: the first `"`-separated piece
/// ending with `.mount`.
pub open spec fn mount_unit_in_line(l: Seq<char>) -> Option<Seq<char>> {
    if contains(l, ".mount"@) {
        first_ending_with(split_char(l, '"'), ".mount"@)
    } else {
        None
    }
}

/// The first mount unit named in the lines.
pub open spec fn mount_unit_in_lines(ls: Seq<Seq<char>>) -> Option<Seq<char>>
    decreases ls.len(),
{
    if ls.len() == 0 {
        None
    } else {
        match mount_unit_in_line(ls[0]) {
            Some(u) => Some(u),
            None => mount_unit_in_lines(ls.drop_first()),
        }
    }
}

/// The mount point a systemd mount unit name stands for: `var-lib-mysql.mount` is
/// `/var/lib/mysql`.
pub open spec fn unit_mount_point(unit: Seq<char>) -> Seq<char> {
    "/"@ + replace_char(unit.take(unit.len() - ".mount"@.len()), '-', '/')
}

/// The mount point named in a promoter configuration, if any.
pub open spec fn config_mount_point(content: Seq<char>) -> Option<Seq<char>> {
    match mount_unit_in_lines(lines(content)) {
        Some(u) => Some(unit_mount_point(u)),
        None => None,
    }
}

fn mount_unit_in_line_exec(l: &Vec<char>) -> (r: Option<Vec<char>>)
    ensures
        match r {
            Some(u) => mount_unit_in_line(l@) == Some(u@) && ends_with(u@, ".mount"@),
            None => mount_unit_in_line(l@) is None,
        },
{
    if !contains_str(l.as_slice(), ".mount") {
        return None;
    }
    let parts = split_char_exec(l.as_slice(), '"');
    let ghost pv = views(parts@);
    let mut i: usize = 0;
    assert(pv.skip(0) =~= pv);
    while i < parts.len()
        invariant
            i <= parts.len(),
            pv == views(parts@),
            pv == split_char(l@, '"'),
            contains(l@, ".mount"@),
            first_ending_with(pv, ".mount"@) == first_ending_with(pv.skip(i as int), ".mount"@),
        decreases parts.len() - i,
    {
        assert(pv.skip(i as int)[0] == parts[i as int]@);
        if ends_with_str(parts[i].as_slice(), ".mount") {
            let u = slice_chars(parts[i].as_slice(), 0, parts[i].len());
            assert(u@ =~= parts[i as int]@);
            return Some(u);
        }
        assert(pv.skip(i as int).drop_first() =~= pv.skip(i + 1));
        i = i + 1;
    }
    None
}

/// Reads the mount point from drbd-reactor promoter content: the first quoted systemd mount
/// unit, converted to its path (`var-lib-mongodb.mount` gives `/var/lib/mongodb`).
pub fn parse_mount_point_from_config(content: &str) -> (r: Option<String>)
    ensures
        match r {
            Some(p) => config_mount_point(content@) == Some(p@),
            None => config_mount_point(content@) is None,
        },
{
    let chars = chars_of(content);
    let ls = lines_exec(chars.as_slice());
    let ghost v = views(ls@);
    let mut i: usize = 0;
    assert(v.skip(0) =~= v);
    while i < ls.len()
        invariant
            i <= ls.len(),
            v == views(ls@),
            v == lines(content@),
            mount_unit_in_lines(v) == mount_unit_in_lines(v.skip(i as int)),
        decreases ls.len() - i,
    {
        assert(v.skip(i as int)[0] == ls[i as int]@);
        match mount_unit_in_line_exec(&ls[i]) {
            Some(u) => {
                proof {
                    reveal_strlit(".mount");
                }
                let suffix = chars_of(".mount");
                let name = slice_chars(u.as_slice(), 0, u.len() - suffix.len());
                let path_part = replace_char_exec(name.as_slice(), '-', '/');
                let mut p = String::new();
                push_str(&mut p, "/");
                push_chars(&mut p, path_part.as_slice());
                assert(p@ =~= unit_mount_point(u@));
                return Some(p);
            },
            None => {},
        }
        assert(v.skip(i as int).drop_first() =~= v.skip(i + 1));
        i = i + 1;
    }
    None
}

} // verus!
