//! The host's network interfaces and the choice of an address among them.

use crate::text::{contains_bytes, occurs_in};
use vstd::prelude::*;
use vstd::utf8::encode_utf8;

verus! {

/// One address of one network interface of the host.
#[derive(Debug, Clone, PartialEq, Eq)]
pub struct NetInterface {
    pub name: String,
    pub ip: String,
    pub loopback: bool,
}

/// `if_addrs::get_if_addrs`: the addresses of the host's interfaces at the moment of the
/// call, each with the interface's name, the address as text and whether it is a
/// loopback address; `None` where the host does not give them out.
#[verifier::external_body]
fn host_interfaces() -> (found: Option<Vec<NetInterface>>) {
    match if_addrs::get_if_addrs() {
        Ok(list) => Some(
            list.iter().map(
                |i| NetInterface {
                    name: i.name.clone(),
                    ip: i.ip().to_string(),
                    loopback: i.is_loopback(),
                },
            ).collect(),
        ),
        Err(_) => None,
    }
}

/// Whether the address `i` can be chosen by the interface name `if_name`: it is no
/// loopback address and `if_name` occurs in its interface's name.
pub open spec fn answers_to(i: NetInterface, if_name: Seq<char>) -> bool {
    !i.loopback && occurs_in(encode_utf8(if_name), encode_utf8(i.name@))
}

/// The addresses that can be offered for authentication: those of `all` that are no
/// loopback addresses, in their order.
pub open spec fn offered(all: Seq<NetInterface>) -> Seq<NetInterface> {
    all.filter(|i: NetInterface| !i.loopback)
}

/// Picks the address of the first interface in `all` that is no loopback and whose name
/// holds `if_name`.
pub fn find_ip_by_name(all: &Vec<NetInterface>, if_name: &str) -> (ip: Option<String>)
    ensures
        ip is None <==> forall|k: int| 0 <= k < all@.len() ==> !answers_to(all@[k], if_name@),
        ip matches Some(found) ==> exists|k: int|
            0 <= k < all@.len() && answers_to(#[trigger] all@[k], if_name@) && found == all@[k].ip
                && forall|j: int| 0 <= j < k ==> !answers_to(all@[j], if_name@),
{
    let mut k: usize = 0;
    while k < all.len()
        invariant
            k <= all@.len(),
            forall|j: int| 0 <= j < k ==> !answers_to(all@[j], if_name@),
        decreases all@.len() - k,
    {
        let i = &all[k];
        if !i.loopback && contains_bytes(i.name.as_str().as_bytes(), if_name.as_bytes()) {
            assert(answers_to(all@[k as int], if_name@));
            return Some(i.ip.clone());
        }
        k = k + 1;
    }
    None
}

/// The addresses of `all` that are no loopback addresses, in their order.
pub fn without_loopback(all: Vec<NetInterface>) -> (kept: Vec<NetInterface>)
    ensures
        kept@ == offered(all@),
{
    let mut kept: Vec<NetInterface> = Vec::new();
    let mut k: usize = 0;
    while k < all.len()
        invariant
            k <= all@.len(),
            kept@ == offered(all@.take(k as int)),
        decreases all@.len() - k,
    {
        proof {
            assert(all@.take(k + 1).drop_last() =~= all@.take(k as int));
            reveal(Seq::filter);
        }
        if !all[k].loopback {
            let i = &all[k];
            kept.push(NetInterface { name: i.name.clone(), ip: i.ip.clone(), loopback: false });
        }
        k = k + 1;
    }
    assert(all@.take(all@.len() as int) =~= all@);
    kept
}

/// The addresses of this host's interfaces that are no loopback addresses, or `None`
/// where the host does not give its interfaces out.
pub fn get_ifs() -> (found: Option<Vec<NetInterface>>)
    ensures
        found matches Some(list) ==> forall|k: int|
            0 <= k < list@.len() ==> !(#[trigger] list@[k]).loopback,
{
    match host_interfaces() {
        Some(all) => {
            let ghost whole = all@;
            let kept = without_loopback(all);
            assert forall|k: int| 0 <= k < kept@.len() implies !(#[trigger] kept@[k]).loopback by {
                whole.lemma_filter_pred(|i: NetInterface| !i.loopback, k);
            }
            Some(kept)
        },
        None => None,
    }
}

/// Looks up the address of the first interface of this host that is no loopback and
/// whose name holds `if_name`. `None` where there is none, or where the host does not
/// give its interfaces out.
pub fn get_ip_by_if_name(if_name: &str) -> Option<String> {
    match get_ifs() {
        Some(all) => find_ip_by_name(&all, if_name),
        None => None,
    }
}

/// The number of times that a user is asked to choose among several addresses.
pub const CHOICE_TRIES: u32 = 3;

/// The choice among `ips` that needs no question: none where there is no address, the
/// address where there is one, and otherwise the `choice`-th, counted from 1, where
/// `choice` is given and in range.
pub open spec fn chosen(ips: Seq<String>, choice: Option<usize>) -> Option<String> {
    if ips.len() == 1 {
        Some(ips[0])
    } else if ips.len() > 1 && choice is Some && 1 <= choice->0 <= ips.len() {
        Some(ips[choice->0 - 1])
    } else {
        None
    }
}

/// Picks an address among `ips`: the only one where there is just one, else the one
/// that `choice` names, counted from 1.
pub fn choose_ip(ips: &Vec<String>, choice: Option<usize>) -> (ip: Option<String>)
    ensures
        ip == chosen(ips@, choice),
{
    if ips.len() == 1 {
        return Some(ips[0].clone());
    }
    match choice {
        Some(c) => {
            if ips.len() > 1 && c >= 1 && c <= ips.len() {
                Some(ips[c - 1].clone())
            } else {
                None
            }
        },
        None => None,
    }
}

/// Where the address of a session comes from.
#[derive(Debug, Clone, PartialEq, Eq)]
pub enum AddressSource {
    /// It was given.
    Given(String),
    /// It is to be selected among the host's addresses.
    Select,
    /// The controller is to detect it: the session starts without one.
    Detect,
    /// Nowhere: no address was given and none is to be selected or detected.
    Missing,
}

/// Settles where the address comes from: a given address goes first, then selection,
/// then detection.
pub fn address_source(given: Option<String>, select: bool, detect: bool) -> (source: AddressSource)
    ensures
        source == match given {
            Some(ip) => AddressSource::Given(ip),
            None => if select {
                AddressSource::Select
            } else if detect {
                AddressSource::Detect
            } else {
                AddressSource::Missing
            },
        },
{
    match given {
        Some(ip) => AddressSource::Given(ip),
        None => if select {
            AddressSource::Select
        } else if detect {
            AddressSource::Detect
        } else {
            AddressSource::Missing
        },
    }
}

/// Whether `c` is white space: a space, a tab, a line break or any other character
/// that Unicode counts as white space.
pub open spec fn is_blank(c: char) -> bool {
    let v = c as u32;
    (0x09 <= v && v <= 0x0d) || v == 0x20 || v == 0x85 || v == 0xa0 || v == 0x1680 || (0x2000 <= v
        && v <= 0x200a) || v == 0x2028 || v == 0x2029 || v == 0x202f || v == 0x205f || v
        == 0x3000
}

/// `s` without the white space at its start.
pub open spec fn trim_start(s: Seq<char>) -> Seq<char>
    decreases s.len(),
{
    if s.len() > 0 && is_blank(s[0]) {
        trim_start(s.drop_first())
    } else {
        s
    }
}

/// `s` without the white space at its end.
pub open spec fn trim_end(s: Seq<char>) -> Seq<char>
    decreases s.len(),
{
    if s.len() > 0 && is_blank(s.last()) {
        trim_end(s.drop_last())
    } else {
        s
    }
}

/// Whether `c` is one of the digits `0` to `9`.
pub open spec fn is_digit(c: char) -> bool {
    48 <= c as u32 && c as u32 <= 57
}

/// The number that the decimal digits `s` write, or `None` where `s` is empty or holds
/// anything but digits.
pub open spec fn number(s: Seq<char>) -> Option<nat>
    decreases s.len(),
{
    if s.len() == 0 || !is_digit(s.last()) {
        None
    } else if s.len() == 1 {
        Some((s.last() as u32 - 48) as nat)
    } else {
        match number(s.drop_last()) {
            Some(v) => Some(10 * v + (s.last() as u32 - 48) as nat),
            None => None,
        }
    }
}

/// The number that `s` writes, where `usize` holds it.
pub open spec fn small_number(s: Seq<char>) -> Option<usize> {
    match number(s) {
        Some(v) => if v <= usize::MAX {
            Some(v as usize)
        } else {
            None
        },
        None => None,
    }
}

/// The choice that a line of input makes: the number it holds between white space,
/// with or without a plus sign before it, where `usize` holds that number.
pub open spec fn choice_of(line: Seq<char>) -> Option<usize> {
    let word = trim_end(trim_start(line));
    if word.len() > 0 && word[0] == '+' {
        small_number(word.drop_first())
    } else {
        small_number(word)
    }
}

/// Where a start of `s` writes no number, neither does `s`; and the number that `s`
/// writes is no smaller than the number that a start of it writes.
proof fn lemma_number_prefix(s: Seq<char>, k: int)
    requires
        0 < k <= s.len(),
    ensures
        number(s.take(k)) is None ==> number(s) is None,
        number(s) is Some ==> number(s)->0 >= number(s.take(k))->0,
    decreases s.len() - k,
{
    if k < s.len() {
        lemma_number_prefix(s, k + 1);
        assert(s.take(k + 1).drop_last() =~= s.take(k));
    } else {
        assert(s.take(k) =~= s);
    }
}

/// Whether `c` is white space.
fn blank(c: char) -> (is: bool)
    ensures
        is == is_blank(c),
{
    let v: u32 = c as u32;
    (0x09 <= v && v <= 0x0d) || v == 0x20 || v == 0x85 || v == 0xa0 || v == 0x1680 || (0x2000 <= v
        && v <= 0x200a) || v == 0x2028 || v == 0x2029 || v == 0x202f || v == 0x205f || v
        == 0x3000
}

/// Reads the number that the characters of `line` from `from` up to `to` write.
fn parse_number(line: &str, from: usize, to: usize) -> (out: Option<usize>)
    requires
        from <= to <= line@.len(),
    ensures
        out == small_number(line@.subrange(from as int, to as int)),
{
    let ghost s = line@.subrange(from as int, to as int);
    if from == to {
        return None;
    }
    let mut value: usize = 0;
    let mut k: usize = from;
    while k < to
        invariant
            from <= k <= to <= line@.len(),
            s == line@.subrange(from as int, to as int),
            k > from ==> number(s.take(k - from)) == Some(value as nat),
            k == from ==> value == 0,
        decreases to - k,
    {
        let c = line.get_char(k);
        let v: u32 = c as u32;
        proof {
            assert(s.take(k - from + 1).drop_last() =~= s.take(k - from));
            assert(s.take(k - from + 1).last() == c);
        }
        if v < 48 || v > 57 {
            proof {
                lemma_number_prefix(s, k - from + 1);
            }
            return None;
        }
        let d: usize = (v - 48) as usize;
        if value > (usize::MAX - d) / 10 {
            proof {
                lemma_number_prefix(s, k - from + 1);
            }
            return None;
        }
        value = 10 * value + d;
        k = k + 1;
    }
    assert(s.take(s.len() as int) =~= s);
    Some(value)
}

/// Reads the choice that a line of input makes.
pub fn parse_choice(line: &str) -> (choice: Option<usize>)
    ensures
        choice == choice_of(line@),
{
    let n: usize = line.unicode_len();
    let mut a: usize = 0;
    assert(line@.subrange(0, n as int) =~= line@);
    while a < n && blank(line.get_char(a))
        invariant
            a <= n,
            n == line@.len(),
            trim_start(line@) == trim_start(line@.subrange(a as int, n as int)),
        decreases n - a,
    {
        proof {
            assert(line@.subrange(a as int, n as int).drop_first() =~= line@.subrange(
                a + 1,
                n as int,
            ));
        }
        a = a + 1;
    }
    let ghost rest = line@.subrange(a as int, n as int);
    assert(trim_start(line@) == rest);
    let mut b: usize = n;
    while b > a && blank(line.get_char(b - 1))
        invariant
            a <= b <= n,
            n == line@.len(),
            trim_end(rest) == trim_end(line@.subrange(a as int, b as int)),
            rest == line@.subrange(a as int, n as int),
        decreases b - a,
    {
        proof {
            assert(line@.subrange(a as int, b as int).drop_last() =~= line@.subrange(
                a as int,
                b - 1,
            ));
        }
        b = b - 1;
    }
    let ghost word = line@.subrange(a as int, b as int);
    assert(trim_end(rest) == word);
    if a < b && line.get_char(a) == '+' {
        assert(word.drop_first() =~= line@.subrange(a + 1, b as int));
        parse_number(line, a + 1, b)
    } else {
        parse_number(line, a, b)
    }
}

} // verus!
