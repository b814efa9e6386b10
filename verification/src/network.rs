//! The LAN interfaces the drone can reach, and which one is offered: the
//! addresses each OS reports, the interface the default route leaves
//! through, and the choice between them.
use vstd::prelude::*;
use crate::error::{BridgeError, ErrorKind};
use crate::text::{
    all_digits, before_char, decimal, digits_value, eq_str, first_token, first_token_of, has_prefix,
    is_digit, lemma_less_irreflexive, lemma_less_total, lemma_less_transitive, opt_view,
    seq_less, split_char, split_lines, split_on, starts_with, str_less, str_lines, strip_prefix,
    trim, trim_str, u64_to_string,
};

verus! {

#[derive(Debug, Clone)]
pub struct NetworkInterface {
    pub name: String,
    pub ipv4: String,
    pub is_default_route: bool,
    pub recommended: bool,
}

/// An IPv4 address by its four octets.
pub type Ipv4 = (u8, u8, u8, u8);

/// Not loopback (127/8), link-local (169.254/16), unspecified (0.0.0.0) or
/// multicast (224/4): an address the drone can be told to send to.
pub open spec fn usable_lan_address(a: Ipv4) -> bool {
    &&& a.0 != 127
    &&& !(a.0 == 169 && a.1 == 254)
    &&& !(a.0 == 0 && a.1 == 0 && a.2 == 0 && a.3 == 0)
    &&& !(224 <= a.0 && a.0 <= 239)
}

pub fn is_usable_lan_address(address: Ipv4) -> (b: bool)
    ensures
        b == usable_lan_address(address),
{
    let (a, b, c, d) = address;
    a != 127 && !(a == 169 && b == 254) && !(a == 0 && b == 0 && c == 0 && d == 0) && !(224 <= a
        && a <= 239)
}

/// The dotted-decimal text of an address.
pub open spec fn ipv4_text(a: Ipv4) -> Seq<char> {
    decimal(a.0 as nat) + "."@ + decimal(a.1 as nat) + "."@ + decimal(a.2 as nat) + "."@ + decimal(
        a.3 as nat,
    )
}

pub fn ipv4_to_string(address: Ipv4) -> (s: String)
    ensures
        s@ == ipv4_text(address),
{
    let (a, b, c, d) = address;
    u64_to_string(a as u64).concat(".").concat(u64_to_string(b as u64).as_str()).concat(".").concat(
        u64_to_string(c as u64).as_str(),
    ).concat(".").concat(u64_to_string(d as u64).as_str())
}

/// One octet as `Ipv4Addr::from_str` reads it: one to three ASCII digits,
/// no leading zero, at most 255.
pub open spec fn octet_value(p: Seq<char>) -> Option<u8> {
    if 1 <= p.len() <= 3 && all_digits(p) && (p.len() == 1 || p[0] != '0') && digits_value(p)
        <= 255 {
        Some(digits_value(p) as u8)
    } else {
        None
    }
}

/// `Ipv4Addr::from_str`: exactly four octets separated by dots.
pub open spec fn parse_ipv4_spec(s: Seq<char>) -> Option<Ipv4> {
    let parts = split_on(s, '.');
    if parts.len() == 4 && octet_value(parts[0]) is Some && octet_value(parts[1]) is Some
        && octet_value(parts[2]) is Some && octet_value(parts[3]) is Some {
        Some(
            (
                octet_value(parts[0])->0,
                octet_value(parts[1])->0,
                octet_value(parts[2])->0,
                octet_value(parts[3])->0,
            ),
        )
    } else {
        None
    }
}

fn parse_octet(p: &str) -> (r: Option<u8>)
    ensures
        r == octet_value(p@),
{
    let v = crate::text::chars_of(p);
    let n = v.len();
    if n < 1 || n > 3 {
        return None;
    }
    if n > 1 && v[0] == '0' {
        return None;
    }
    let mut value: u32 = 0;
    let mut i: usize = 0;
    while i < n
        invariant
            v@ == p@,
            n == v@.len(),
            1 <= n <= 3,
            i <= n,
            all_digits(v@.subrange(0, i as int)),
            value as nat == digits_value(v@.subrange(0, i as int)),
            value < 1000,
        decreases n - i,
    {
        let c = v[i];
        if !('0' <= c && c <= '9') {
            assert(!is_digit(v@[i as int]));
            return None;
        }
        assert(v@.subrange(0, i + 1).drop_last() =~= v@.subrange(0, i as int));
        assert(v@.subrange(0, i + 1) =~= v@.subrange(0, i as int).push(c));
        proof {
            assert(value < 100) by {
                if i >= 1 {
                    lemma_digits_bound(v@.subrange(0, i as int));
                }
            }
        }
        value = value * 10 + (c as u32 - '0' as u32);
        i = i + 1;
    }
    assert(v@.subrange(0, n as int) =~= v@);
    if value > 255 {
        return None;
    }
    Some(value as u8)
}

proof fn lemma_digits_bound(s: Seq<char>)
    requires
        s.len() <= 2,
        all_digits(s),
    ensures
        digits_value(s) < 100,
        s.len() <= 1 ==> digits_value(s) < 10,
    decreases s.len(),
{
    if s.len() > 0 {
        let d = s.drop_last();
        assert(all_digits(d)) by {
            assert forall|i: int| 0 <= i < d.len() implies is_digit(#[trigger] d[i]) by {
                assert(d[i] == s[i]);
            }
        }
        lemma_digits_bound(d);
        assert(is_digit(s[s.len() - 1]));
        assert(s.last() as nat - '0' as nat <= 9);
    }
}

/// `s.parse::<Ipv4Addr>().ok()`.
pub fn parse_ipv4(s: &str) -> (r: Option<Ipv4>)
    ensures
        r == parse_ipv4_spec(s@),
{
    let parts = split_char(s, '.');
    if parts.len() != 4 {
        return None;
    }
    let a = parse_octet(parts[0].as_str());
    let b = parse_octet(parts[1].as_str());
    let c = parse_octet(parts[2].as_str());
    let d = parse_octet(parts[3].as_str());
    match (a, b, c, d) {
        (Some(a), Some(b), Some(c), Some(d)) => Some((a, b, c, d)),
        _ => None,
    }
}

/// Interfaces that never carry the drone's LAN on macOS: loopback, VPN
/// tunnels, AirDrop and the other link-local helpers.
pub open spec fn excluded_interface(name: Seq<char>) -> bool {
    name == "lo0"@ || starts_with(name, "utun"@) || starts_with(name, "awdl"@) || starts_with(
        name,
        "llw"@,
    ) || starts_with(name, "gif"@) || starts_with(name, "stf"@)
}

pub fn is_excluded_interface(name: &str) -> (b: bool)
    ensures
        b == excluded_interface(name@),
{
    eq_str(name, "lo0") || has_prefix(name, "utun") || has_prefix(name, "awdl") || has_prefix(
        name,
        "llw",
    ) || has_prefix(name, "gif") || has_prefix(name, "stf")
}

/// The interface chosen: the preferred one while it is listed, else the
/// recommended one, else the first.
pub open spec fn first_named(ifs: Seq<NetworkInterface>, name: Seq<char>, i: int) -> Option<int>
    decreases ifs.len() - i,
{
    if i < 0 || i >= ifs.len() {
        None
    } else if ifs[i].name@ == name {
        Some(i)
    } else {
        first_named(ifs, name, i + 1)
    }
}

pub open spec fn first_recommended(ifs: Seq<NetworkInterface>, i: int) -> Option<int>
    decreases ifs.len() - i,
{
    if i < 0 || i >= ifs.len() {
        None
    } else if ifs[i].recommended {
        Some(i)
    } else {
        first_recommended(ifs, i + 1)
    }
}

proof fn lemma_first_named(ifs: Seq<NetworkInterface>, name: Seq<char>, i: int)
    requires
        0 <= i,
    ensures
        first_named(ifs, name, i) matches Some(k) ==> i <= k < ifs.len() && ifs[k].name@ == name
            && forall|j: int| i <= j < k ==> (#[trigger] ifs[j]).name@ != name,
        first_named(ifs, name, i) is None ==> forall|j: int|
            i <= j < ifs.len() ==> (#[trigger] ifs[j]).name@ != name,
    decreases ifs.len() - i,
{
    if i < ifs.len() && ifs[i].name@ != name {
        lemma_first_named(ifs, name, i + 1);
    }
}

proof fn lemma_first_recommended(ifs: Seq<NetworkInterface>, i: int)
    requires
        0 <= i,
    ensures
        first_recommended(ifs, i) matches Some(k) ==> i <= k < ifs.len() && ifs[k].recommended
            && forall|j: int| i <= j < k ==> !(#[trigger] ifs[j]).recommended,
        first_recommended(ifs, i) is None ==> forall|j: int|
            i <= j < ifs.len() ==> !(#[trigger] ifs[j]).recommended,
    decreases ifs.len() - i,
{
    if i < ifs.len() && !ifs[i].recommended {
        lemma_first_recommended(ifs, i + 1);
    }
}

pub open spec fn selected_index(ifs: Seq<NetworkInterface>, preferred: Option<Seq<char>>) -> Option<int> {
    let named = match preferred {
        Some(n) => first_named(ifs, n, 0),
        None => None,
    };
    match named {
        Some(i) => Some(i),
        None => match first_recommended(ifs, 0) {
            Some(i) => Some(i),
            None => if ifs.len() > 0 {
                Some(0)
            } else {
                None
            },
        },
    }
}

/// The preferred name is the name of a listed interface.
pub open spec fn preferred_listed(ifs: Seq<NetworkInterface>, preferred: Option<Seq<char>>) -> bool {
    preferred matches Some(n) && exists|j: int| 0 <= j < ifs.len() && (#[trigger] ifs[j]).name@ == n
}

/// The interface choice: none only when there is no interface; the
/// preferred one (its first listing) whenever it is listed; else the first
/// recommended one when there is one; else the first interface.
pub proof fn law_interface_choice(ifs: Seq<NetworkInterface>, preferred: Option<Seq<char>>)
    ensures
        selected_index(ifs, preferred) is None <==> ifs.len() == 0,
        selected_index(ifs, preferred) matches Some(k) ==> 0 <= k < ifs.len(),
        preferred matches Some(n) ==> ((exists|j: int| 0 <= j < ifs.len() && (#[trigger] ifs[j]).name@ == n)
            ==> (selected_index(ifs, preferred) matches Some(k) && ifs[k].name@ == n && forall|j: int|
            0 <= j < k ==> (#[trigger] ifs[j]).name@ != n)),
        !preferred_listed(ifs, preferred) && (exists|j: int| 0 <= j < ifs.len() && (#[trigger] ifs[j]).recommended)
            ==> (selected_index(ifs, preferred) matches Some(k) && ifs[k].recommended && forall|j: int|
            0 <= j < k ==> !(#[trigger] ifs[j]).recommended),
        !preferred_listed(ifs, preferred) && !(exists|j: int| 0 <= j < ifs.len() && (#[trigger] ifs[j]).recommended)
            && ifs.len() > 0 ==> selected_index(ifs, preferred) == Some(0int),
{
    if let Some(n) = preferred {
        lemma_first_named(ifs, n, 0);
    }
    lemma_first_recommended(ifs, 0);
}

fn find_named(ifs: &Vec<NetworkInterface>, name: &str) -> (r: Option<usize>)
    ensures
        r matches Some(i) ==> first_named(ifs@, name@, 0) == Some(i as int) && i < ifs@.len(),
        r is None ==> first_named(ifs@, name@, 0) is None,
{
    let mut i: usize = 0;
    while i < ifs.len()
        invariant
            i <= ifs@.len(),
            first_named(ifs@, name@, 0) == first_named(ifs@, name@, i as int),
        decreases ifs@.len() - i,
    {
        if eq_str(ifs[i].name.as_str(), name) {
            return Some(i);
        }
        i = i + 1;
    }
    None
}

fn find_recommended(ifs: &Vec<NetworkInterface>) -> (r: Option<usize>)
    ensures
        r matches Some(i) ==> first_recommended(ifs@, 0) == Some(i as int) && i < ifs@.len(),
        r is None ==> first_recommended(ifs@, 0) is None,
{
    let mut i: usize = 0;
    while i < ifs.len()
        invariant
            i <= ifs@.len(),
            first_recommended(ifs@, 0) == first_recommended(ifs@, i as int),
        decreases ifs@.len() - i,
    {
        if ifs[i].recommended {
            return Some(i);
        }
        i = i + 1;
    }
    None
}

pub fn select_interface<'a>(interfaces: &'a Vec<NetworkInterface>, preferred: Option<&str>) -> (r:
    Option<&'a NetworkInterface>)
    ensures
        match selected_index(interfaces@, match preferred {
            Some(p) => Some(p@),
            None => None,
        }) {
            Some(i) => r matches Some(x) && 0 <= i < interfaces@.len() && *x == interfaces@[i],
            None => r is None,
        },
{
    let named = match preferred {
        Some(name) => find_named(interfaces, name),
        None => None,
    };
    match named {
        Some(i) => Some(&interfaces[i]),
        None => match find_recommended(interfaces) {
            Some(i) => Some(&interfaces[i]),
            None => if interfaces.len() > 0 {
                Some(&interfaces[0])
            } else {
                None
            },
        },
    }
}

/// The interface the user asked for must still be listed.
pub fn require_listed(interfaces: &Vec<NetworkInterface>, name: &str) -> (r: Result<(), BridgeError>)
    ensures
        r is Ok <==> first_named(interfaces@, name@, 0) is Some,
        r matches Err(e) ==> e@ == (ErrorKind::Validation, "Selected interface is no longer active"@),
{
    match find_named(interfaces, name) {
        Some(_) => Ok(()),
        None => Err(
            BridgeError::Validation(String::from_str("Selected interface is no longer active")),
        ),
    }
}

/// What the snapshot shows of the network after a discovery: the chosen
/// interface's name and address, the RTMP URL the drone publishes to, and a
/// warning when a known address changed (only when changes are watched).
#[derive(Debug, Clone)]
pub struct NetworkView {
    pub selected_name: Option<String>,
    pub selected_ip: Option<String>,
    pub rtmp_url: Option<String>,
    pub ip_change_warning: bool,
}

pub open spec fn rtmp_url_for(ip: Seq<char>) -> Seq<char> {
    "rtmp://"@ + ip + ":1935/drone"@
}

pub fn network_view(
    interfaces: &Vec<NetworkInterface>,
    preferred: Option<&str>,
    before_ip: &Option<String>,
    detect_change: bool,
) -> (v: NetworkView)
    ensures
        ({
            let sel = selected_index(interfaces@, match preferred {
                Some(p) => Some(p@),
                None => None,
            });
            &&& opt_view(v.selected_name) == (match sel {
                Some(i) => Some(interfaces@[i].name@),
                None => None,
            })
            &&& opt_view(v.selected_ip) == (match sel {
                Some(i) => Some(interfaces@[i].ipv4@),
                None => None,
            })
            &&& opt_view(v.rtmp_url) == (match sel {
                Some(i) => Some(rtmp_url_for(interfaces@[i].ipv4@)),
                None => None,
            })
            &&& v.ip_change_warning == (detect_change && before_ip is Some && opt_view(*before_ip)
                != opt_view(v.selected_ip))
        }),
{
    let selected = select_interface(interfaces, preferred);
    let (name, ip, url) = match selected {
        Some(x) => (
            Some(x.name.clone()),
            Some(x.ipv4.clone()),
            Some(String::from_str("rtmp://").concat(x.ipv4.as_str()).concat(":1935/drone")),
        ),
        None => (None, None, None),
    };
    let changed = match (before_ip, &ip) {
        (Some(b), Some(a)) => !eq_str(b.as_str(), a.as_str()),
        (Some(_), None) => true,
        _ => false,
    };
    NetworkView {
        selected_name: name,
        selected_ip: ip,
        rtmp_url: url,
        ip_change_warning: detect_change && before_ip.is_some() && changed,
    }
}


/// An interface header line of `ifconfig` starts in the first column.
pub open spec fn indented(line: Seq<char>) -> bool {
    line.len() > 0 && (line[0] == ' ' || line[0] == '\t')
}

/// The address of an `inet <address> ...` line.
pub open spec fn inet_address(line: Seq<char>) -> Option<Ipv4> {
    let t = trim(line);
    if starts_with(t, "inet "@) {
        match first_token(t.subrange(5, t.len() as int)) {
            Some(raw) => parse_ipv4_spec(raw),
            None => None,
        }
    } else {
        None
    }
}

/// Reading the first `n` lines of `ifconfig -a`: the interface the lines
/// belong to, and each interface's usable LAN address (the last one listed
/// wins), excluded interfaces left out.
pub open spec fn ifconfig_scan(lines: Seq<Seq<char>>, n: int) -> (Seq<char>, Map<Seq<char>, Ipv4>)
    decreases n,
{
    if n <= 0 {
        (Seq::<char>::empty(), Map::empty())
    } else {
        let (current, found) = ifconfig_scan(lines, n - 1);
        let line = lines[n - 1];
        if !indented(line) {
            (split_on(line, ':')[0], found)
        } else {
            match inet_address(line) {
                Some(a) => if usable_lan_address(a) && !excluded_interface(current) {
                    (current, found.insert(current, a))
                } else {
                    (current, found)
                },
                None => (current, found),
            }
        }
    }
}

/// The addresses `ifconfig -a` lists, by interface.
pub open spec fn ifconfig_addresses(text: Seq<char>) -> Map<Seq<char>, Ipv4> {
    ifconfig_scan(str_lines(text), str_lines(text).len() as int).1
}

/// Entries strictly ordered by name (so each name once).
///
/// The addresses by interface are held as a vector of `(name, address)`
/// pairs in strictly increasing name order, with this predicate as its
/// invariant: that is what a map ordered by name holds and walks in. Over a
/// vector, what an insertion keeps, replaces and where it places an entry
/// is proved here (`insert_entry`, `lists`); a map keyed by `String` would
/// give the same calls with little of that provable.
pub open spec fn sorted_entries(es: Seq<(String, Ipv4)>) -> bool {
    forall|i: int, j: int| 0 <= i < j < es.len() ==> seq_less(#[trigger] es[i].0@, #[trigger] es[j].0@)
}

/// The entries list exactly the map, in name order.
pub open spec fn lists(es: Seq<(String, Ipv4)>, m: Map<Seq<char>, Ipv4>) -> bool {
    &&& sorted_entries(es)
    &&& forall|i: int| 0 <= i < es.len() ==> m.contains_key(#[trigger] es[i].0@) && m[es[i].0@] == es[i].1
    &&& forall|k: Seq<char>| m.contains_key(k) ==> exists|i: int| 0 <= i < es.len() && #[trigger] es[i].0@ == k
}

/// Sets `name`'s address in the name-ordered entries.
fn insert_entry(entries: &mut Vec<(String, Ipv4)>, name: String, address: Ipv4, Ghost(m): Ghost<Map<Seq<char>, Ipv4>>)
    requires
        lists(old(entries)@, m),
    ensures
        lists(final(entries)@, m.insert(name@, address)),
{
    let ghost old_es = entries@;
    let mut p: usize = 0;
    while p < entries.len() && str_less(entries[p].0.as_str(), name.as_str())
        invariant
            entries@ == old_es,
            p <= entries@.len(),
            forall|i: int| 0 <= i < p ==> seq_less(#[trigger] entries@[i].0@, name@),
        decreases entries@.len() - p,
    {
        p = p + 1;
    }
    let ghost n = name@;
    let ghost m2 = m.insert(n, address);
    if p < entries.len() && eq_str(entries[p].0.as_str(), name.as_str()) {
        let ghost before = entries@;
        entries.set(p, (name, address));
        assert forall|i: int| 0 <= i < entries@.len() implies m2.contains_key(
            #[trigger] entries@[i].0@,
        ) && m2[entries@[i].0@] == entries@[i].1 by {
            if i != p {
                assert(before[i].0@ != n) by {
                    if i < p {
                        lemma_less_irreflexive(n);
                    } else {
                        assert(seq_less(before[p as int].0@, before[i].0@));
                        lemma_less_irreflexive(n);
                    }
                }
            }
        }
        assert forall|k: Seq<char>| m2.contains_key(k) implies exists|i: int|
            0 <= i < entries@.len() && #[trigger] entries@[i].0@ == k by {
            if k == n {
                assert(entries@[p as int].0@ == k);
            } else {
                let i = choose|i: int| 0 <= i < before.len() && #[trigger] before[i].0@ == k;
                assert(entries@[i].0@ == k);
            }
        }
        assert(sorted_entries(entries@)) by {
            assert forall|i: int, j: int| 0 <= i < j < entries@.len() implies seq_less(
                #[trigger] entries@[i].0@,
                #[trigger] entries@[j].0@,
            ) by {
                assert(seq_less(before[i].0@, before[j].0@));
            }
        }
    } else {
        proof {
            if p < entries@.len() {
                lemma_less_total(entries@[p as int].0@, n);
            }
        }
        let ghost before = entries@;
        entries.insert(p, (name, address));
        assert(forall|j: int| p <= j < before.len() ==> seq_less(n, #[trigger] before[j].0@)) by {
            assert forall|j: int| p <= j < before.len() implies seq_less(n, #[trigger] before[j].0@) by {
                if j > p {
                    assert(seq_less(before[p as int].0@, before[j].0@));
                    lemma_less_transitive(n, before[p as int].0@, before[j].0@);
                }
            }
        }
        assert(sorted_entries(entries@)) by {
            assert forall|i: int, j: int| 0 <= i < j < entries@.len() implies seq_less(
                #[trigger] entries@[i].0@,
                #[trigger] entries@[j].0@,
            ) by {
                if j < p {
                    assert(entries@[i] == before[i] && entries@[j] == before[j]);
                } else if j == p {
                    assert(entries@[i] == before[i]);
                } else if i == p {
                    assert(entries@[j] == before[j - 1]);
                } else if i < p {
                    assert(entries@[i] == before[i] && entries@[j] == before[j - 1]);
                    lemma_less_transitive(before[i].0@, n, before[j - 1].0@);
                } else {
                    assert(entries@[i] == before[i - 1] && entries@[j] == before[j - 1]);
                }
            }
        }
        assert forall|i: int| 0 <= i < entries@.len() implies m2.contains_key(
            #[trigger] entries@[i].0@,
        ) && m2[entries@[i].0@] == entries@[i].1 by {
            if i < p {
                assert(entries@[i] == before[i]);
                lemma_less_irreflexive(n);
            } else if i > p {
                assert(entries@[i] == before[i - 1]);
                lemma_less_irreflexive(n);
            }
        }
        assert forall|k: Seq<char>| m2.contains_key(k) implies exists|i: int|
            0 <= i < entries@.len() && #[trigger] entries@[i].0@ == k by {
            if k == n {
                assert(entries@[p as int].0@ == k);
            } else {
                let i = choose|i: int| 0 <= i < before.len() && #[trigger] before[i].0@ == k;
                if i < p {
                    assert(entries@[i].0@ == k);
                } else {
                    assert(entries@[i + 1].0@ == k);
                }
            }
        }
    }
}

/// The usable LAN address of each interface in `ifconfig -a`'s output, in
/// name order.
pub fn parse_ifconfig(text: &str) -> (entries: Vec<(String, Ipv4)>)
    ensures
        lists(entries@, ifconfig_addresses(text@)),
{
    let lines = split_lines(text);
    let ghost ls = str_lines(text@);
    let mut entries: Vec<(String, Ipv4)> = Vec::new();
    let mut current = String::new();
    let mut i: usize = 0;
    while i < lines.len()
        invariant
            lines.deep_view() == ls,
            i <= ls.len(),
            current@ == ifconfig_scan(ls, i as int).0,
            lists(entries@, ifconfig_scan(ls, i as int).1),
        decreases ls.len() - i,
    {
        proof {
            reveal_strlit(" ");
            reveal_strlit("\t");
            reveal_strlit("inet ");
        }
        let line = lines[i].as_str();
        assert(line@ == ls[i as int]);
        let ghost found = ifconfig_scan(ls, i as int).1;
        let ghost cur = ifconfig_scan(ls, i as int).0;
        assert(ifconfig_scan(ls, i + 1) == {
            let l = ls[i as int];
            if !indented(l) {
                (split_on(l, ':')[0], found)
            } else {
                match inet_address(l) {
                    Some(a) => if usable_lan_address(a) && !excluded_interface(cur) {
                        (cur, found.insert(cur, a))
                    } else {
                        (cur, found)
                    },
                    None => (cur, found),
                }
            }
        });
        let space = has_prefix(line, " ");
        let tab = has_prefix(line, "\t");
        proof {
            assert(" "@.len() == 1 && " "@[0] == ' ');
            assert("\t"@.len() == 1 && "\t"@[0] == '\t');
            if line@.len() > 0 {
                assert(line@.subrange(0, 1) =~= seq![line@[0]]);
                if line@[0] == ' ' {
                    assert(line@.subrange(0, 1) =~= " "@);
                }
                if line@[0] == '\t' {
                    assert(line@.subrange(0, 1) =~= "\t"@);
                }
            }
        }
        assert(space == (line@.len() > 0 && line@[0] == ' '));
        assert(tab == (line@.len() > 0 && line@[0] == '\t'));
        let is_indented = space || tab;
        if !is_indented {
            current = before_char(line, ':');
        } else {
            let trimmed = trim_str(line);
            let address = match strip_prefix(trimmed.as_str(), "inet ") {
                Some(rest) => match first_token_of(rest.as_str()) {
                    Some(raw) => parse_ipv4(raw.as_str()),
                    None => None,
                },
                None => None,
            };
            assert(address == inet_address(line@));
            match address {
                Some(a) => {
                    if is_usable_lan_address(a) && !is_excluded_interface(current.as_str()) {
                        insert_entry(&mut entries, current.clone(), a, Ghost(found));
                    }
                },
                None => {},
            }
        }
        i = i + 1;
    }
    entries
}

/// The interface `route -n get default` names: the first line that reads
/// `interface: <name>` once trimmed.
pub open spec fn route_interface_from(lines: Seq<Seq<char>>, i: int) -> Option<Seq<char>>
    decreases lines.len() - i,
{
    if i < 0 || i >= lines.len() {
        None
    } else {
        let t = trim(lines[i]);
        if starts_with(t, "interface:"@) {
            Some(trim(t.subrange(10, t.len() as int)))
        } else {
            route_interface_from(lines, i + 1)
        }
    }
}

pub fn default_route_interface(route_output: &str) -> (r: Option<String>)
    ensures
        opt_view(r) == route_interface_from(str_lines(route_output@), 0),
{
    let lines = split_lines(route_output);
    let mut i: usize = 0;
    while i < lines.len()
        invariant
            lines.deep_view() == str_lines(route_output@),
            i <= lines@.len(),
            route_interface_from(str_lines(route_output@), 0) == route_interface_from(
                str_lines(route_output@),
                i as int,
            ),
        decreases lines@.len() - i,
    {
        proof {
            reveal_strlit("interface:");
        }
        let t = trim_str(lines[i].as_str());
        assert(t@ == trim(lines.deep_view()[i as int]));
        match strip_prefix(t.as_str(), "interface:") {
            Some(rest) => {
                return Some(trim_str(rest.as_str()));
            },
            None => {},
        }
        i = i + 1;
    }
    None
}

/// `x` shows entry `e`, which is recommended when the default route leaves
/// through it.
pub open spec fn shows_entry(x: NetworkInterface, e: (String, Ipv4), default_name: Option<Seq<char>>) -> bool {
    let is_default = default_name == Some(e.0@);
    &&& x.name@ == e.0@
    &&& x.ipv4@ == ipv4_text(e.1)
    &&& x.is_default_route == is_default
    &&& x.recommended == is_default
}

/// Where the default route's entry is, if listed.
pub open spec fn default_position(es: Seq<(String, Ipv4)>, default_name: Option<Seq<char>>) -> Option<int> {
    match default_name {
        Some(d) => entry_named(es, d, 0),
        None => None,
    }
}

pub open spec fn entry_named(es: Seq<(String, Ipv4)>, name: Seq<char>, i: int) -> Option<int>
    decreases es.len() - i,
{
    if i < 0 || i >= es.len() {
        None
    } else if es[i].0@ == name {
        Some(i)
    } else {
        entry_named(es, name, i + 1)
    }
}

/// The entry shown at position `k`: the default route's first, then the
/// others in name order.
pub open spec fn shown_entry(q: Option<int>, k: int) -> int {
    match q {
        Some(p) => if k == 0 {
            p
        } else if k <= p {
            k - 1
        } else {
            k
        },
        None => k,
    }
}

fn find_entry(entries: &Vec<(String, Ipv4)>, name: &str) -> (r: Option<usize>)
    ensures
        r matches Some(i) ==> entry_named(entries@, name@, 0) == Some(i as int) && i < entries@.len(),
        r is None ==> entry_named(entries@, name@, 0) is None,
{
    let mut i: usize = 0;
    while i < entries.len()
        invariant
            i <= entries@.len(),
            entry_named(entries@, name@, 0) == entry_named(entries@, name@, i as int),
        decreases entries@.len() - i,
    {
        if eq_str(entries[i].0.as_str(), name) {
            return Some(i);
        }
        i = i + 1;
    }
    None
}

proof fn lemma_entry_named_some(es: Seq<(String, Ipv4)>, name: Seq<char>, i: int)
    requires
        entry_named(es, name, i) is Some,
    ensures
        i <= entry_named(es, name, i)->0 < es.len(),
        es[entry_named(es, name, i)->0].0@ == name,
    decreases es.len() - i,
{
    if i >= 0 && i < es.len() && es[i].0@ != name {
        lemma_entry_named_some(es, name, i + 1);
    }
}

proof fn lemma_entry_named_none(es: Seq<(String, Ipv4)>, name: Seq<char>, i: int)
    requires
        0 <= i,
        entry_named(es, name, i) is None,
    ensures
        forall|j: int| i <= j < es.len() ==> #[trigger] es[j].0@ != name,
    decreases es.len() - i,
{
    if i < es.len() {
        lemma_entry_named_none(es, name, i + 1);
    }
}

fn to_interface(e: &(String, Ipv4), is_default: bool) -> (x: NetworkInterface)
    ensures
        x.name@ == e.0@,
        x.ipv4@ == ipv4_text(e.1),
        x.is_default_route == is_default,
        x.recommended == is_default,
{
    NetworkInterface {
        name: e.0.clone(),
        ipv4: ipv4_to_string(e.1),
        is_default_route: is_default,
        recommended: is_default,
    }
}

/// The interfaces to offer, from the name-ordered addresses and the
/// interface the default route leaves through.
pub fn interfaces_from(entries: &Vec<(String, Ipv4)>, default_name: Option<&str>) -> (r: Vec<
    NetworkInterface,
>)
    requires
        sorted_entries(entries@),
    ensures
        ({
            let d = match default_name {
                Some(n) => Some(n@),
                None => None,
            };
            let q = default_position(entries@, d);
            &&& r@.len() == entries@.len()
            &&& forall|k: int|
                0 <= k < r@.len() ==> shows_entry(
                    #[trigger] r@[k],
                    entries@[shown_entry(q, k)],
                    d,
                )
        }),
{
    let ghost d = match default_name {
        Some(n) => Some(n@),
        None => None,
    };
    let position: Option<usize> = match default_name {
        Some(n) => find_entry(entries, n),
        None => None,
    };
    proof {
        match position {
            Some(p) => {
                lemma_entry_named_some(entries@, d->0, 0);
                assert(default_position(entries@, d) == Some(p as int));
            },
            None => {
                if d is Some {
                    lemma_entry_named_none(entries@, d->0, 0);
                }
            },
        }
    }
    let ghost q = default_position(entries@, d);
    let mut r: Vec<NetworkInterface> = Vec::new();
    match position {
        Some(p) => {
            r.push(to_interface(&entries[p], true));
        },
        None => {},
    }
    let mut j: usize = 0;
    while j < entries.len()
        invariant
            j <= entries@.len(),
            d == (match default_name {
                Some(n) => Some(n@),
                None => None,
            }),
            q == (match position {
                Some(p) => Some(p as int),
                None => None,
            }),
            match position {
                Some(p) => p < entries@.len() && d == Some(entries@[p as int].0@) && r@.len() == (
                if j <= p {
                    j + 1
                } else {
                    j as int
                }),
                None => r@.len() == j && forall|k: int|
                    0 <= k < entries@.len() ==> d != Some(#[trigger] entries@[k].0@),
            },
            sorted_entries(entries@),
            forall|k: int| 0 <= k < r@.len() ==> shows_entry(#[trigger] r@[k], entries@[shown_entry(q, k)], d),
        decreases entries@.len() - j,
    {
        let skip = match position {
            Some(p) => j == p,
            None => false,
        };
        if !skip {
            proof {
                match position {
                    Some(p) => {
                        if d == Some(entries@[j as int].0@) {
                            if j < p {
                                assert(seq_less(entries@[j as int].0@, entries@[p as int].0@));
                            } else {
                                assert(seq_less(entries@[p as int].0@, entries@[j as int].0@));
                            }
                            lemma_less_irreflexive(d->0);
                        }
                    },
                    None => {},
                }
            }
            r.push(to_interface(&entries[j], false));
        }
        j = j + 1;
    }
    r
}

/// One network adapter as the Windows IP Helper API reports it: its name
/// (`None` when it could not be read), whether it is up, its IPv4 unicast
/// addresses in order, whether it has a gateway, and its IPv4 route metric.
#[derive(Debug, Clone)]
pub struct AdapterInfo {
    pub name: Option<String>,
    pub up: bool,
    pub addresses: Vec<Ipv4>,
    pub has_gateway: bool,
    pub metric: u32,
}

/// The first usable LAN address of an adapter.
pub open spec fn first_usable(addresses: Seq<Ipv4>, i: int) -> Option<Ipv4>
    decreases addresses.len() - i,
{
    if i < 0 || i >= addresses.len() {
        None
    } else if usable_lan_address(addresses[i]) {
        Some(addresses[i])
    } else {
        first_usable(addresses, i + 1)
    }
}

fn first_usable_of(addresses: &Vec<Ipv4>) -> (r: Option<Ipv4>)
    ensures
        r == first_usable(addresses@, 0),
{
    let mut i: usize = 0;
    while i < addresses.len()
        invariant
            i <= addresses@.len(),
            first_usable(addresses@, 0) == first_usable(addresses@, i as int),
        decreases addresses@.len() - i,
    {
        if is_usable_lan_address(addresses[i]) {
            return Some(addresses[i]);
        }
        i = i + 1;
    }
    None
}

/// An adapter counts when it is up, named and has a usable address.
pub open spec fn counted(a: AdapterInfo) -> bool {
    a.up && a.name is Some && first_usable(a.addresses@, 0) is Some
}

/// Reading the first `n` adapters: each counted adapter's address by name
/// (a later one with the same name wins), and the counted adapter with a
/// gateway and the lowest metric (the first of equals), which is the one
/// the default route leaves through.
pub open spec fn adapter_scan(adapters: Seq<AdapterInfo>, n: int) -> (Map<Seq<char>, Ipv4>, Option<Seq<char>>, u32)
    decreases n,
{
    if n <= 0 {
        (Map::empty(), None, u32::MAX)
    } else {
        let (found, default_name, best) = adapter_scan(adapters, n - 1);
        let a = adapters[n - 1];
        if !counted(a) {
            (found, default_name, best)
        } else {
            let name = a.name->0@;
            let address = first_usable(a.addresses@, 0)->0;
            if a.has_gateway && a.metric < best {
                (found.insert(name, address), Some(name), a.metric)
            } else {
                (found.insert(name, address), default_name, best)
            }
        }
    }
}

/// The usable LAN address of each Windows adapter, in name order, and the
/// adapter the default route leaves through.
pub fn windows_discovery(adapters: &Vec<AdapterInfo>) -> (r: (Vec<(String, Ipv4)>, Option<String>))
    ensures
        lists(r.0@, adapter_scan(adapters@, adapters@.len() as int).0),
        opt_view(r.1) == adapter_scan(adapters@, adapters@.len() as int).1,
{
    let mut entries: Vec<(String, Ipv4)> = Vec::new();
    let mut default_name: Option<String> = None;
    let mut best: u32 = u32::MAX;
    let mut i: usize = 0;
    while i < adapters.len()
        invariant
            i <= adapters@.len(),
            lists(entries@, adapter_scan(adapters@, i as int).0),
            opt_view(default_name) == adapter_scan(adapters@, i as int).1,
            best == adapter_scan(adapters@, i as int).2,
        decreases adapters@.len() - i,
    {
        let a = &adapters[i];
        let ghost found = adapter_scan(adapters@, i as int).0;
        if a.up {
            match &a.name {
                Some(name) => match first_usable_of(&a.addresses) {
                    Some(address) => {
                        if a.has_gateway && a.metric < best {
                            best = a.metric;
                            default_name = Some(name.clone());
                        }
                        insert_entry(&mut entries, name.clone(), address, Ghost(found));
                    },
                    None => {},
                },
                None => {},
            }
        }
        i = i + 1;
    }
    (entries, default_name)
}


/// Every interface read from `ifconfig -a` has a usable LAN address and is
/// none of the excluded ones (loopback, tunnels, AirDrop and the like).
pub proof fn law_ifconfig_excludes(lines: Seq<Seq<char>>, n: int, name: Seq<char>)
    requires
        ifconfig_scan(lines, n).1.contains_key(name),
    ensures
        !excluded_interface(name),
        usable_lan_address(ifconfig_scan(lines, n).1[name]),
    decreases n,
{
    if n > 0 {
        let (current, found) = ifconfig_scan(lines, n - 1);
        if found.contains_key(name) {
            law_ifconfig_excludes(lines, n - 1, name);
        }
    }
}

/// The default route's interface, when listed, is shown first, and no other
/// interface is shown as recommended.
pub proof fn law_default_interface_first(es: Seq<(String, Ipv4)>, d: Seq<char>, k: int)
    requires
        sorted_entries(es),
        default_position(es, Some(d)) is Some,
        0 <= k < es.len(),
    ensures
        es[shown_entry(default_position(es, Some(d)), 0)].0@ == d,
        k > 0 ==> es[shown_entry(default_position(es, Some(d)), k)].0@ != d,
{
    let p = default_position(es, Some(d))->0;
    lemma_entry_named_some(es, d, 0);
    if k > 0 {
        let j = shown_entry(Some(p), k);
        assert(j != p);
        if es[j].0@ == d {
            if j < p {
                assert(seq_less(es[j].0@, es[p].0@));
            } else {
                assert(seq_less(es[p].0@, es[j].0@));
            }
            lemma_less_irreflexive(d);
        }
    }
}

} // verus!
