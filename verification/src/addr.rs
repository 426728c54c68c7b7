//! Choosing the server's bind address: the first interface address that
//! is neither loopback nor unspecified.  Enumerating the interfaces is
//! the caller's business; this module only picks.

use vstd::prelude::*;

verus! {

/// An IPv4 address as four plain octets.
#[derive(Clone, Copy, PartialEq, Eq, Structural, Debug)]
pub struct Ipv4Octets {
    pub a: u8,
    pub b: u8,
    pub c: u8,
    pub d: u8,
}

/// Whether the address is in the loopback block.
pub open spec fn spec_is_loopback(ip: Ipv4Octets) -> bool {
    ip.a == 127
}

/// Whether the address is the unspecified address.
pub open spec fn spec_is_unspecified(ip: Ipv4Octets) -> bool {
    ip.a == 0 && ip.b == 0 && ip.c == 0 && ip.d == 0
}

/// Whether the address can serve as an externally visible bind address.
pub open spec fn spec_is_external(ip: Ipv4Octets) -> bool {
    !spec_is_loopback(ip) && !spec_is_unspecified(ip)
}

/// Index of the first external address at or after position `k`, or -1.
pub open spec fn find_external_from(s: Seq<Ipv4Octets>, k: int) -> int
    decreases s.len() - k,
{
    if k < 0 || k >= s.len() {
        -1
    } else if spec_is_external(s[k]) {
        k
    } else {
        find_external_from(s, k + 1)
    }
}

/// What `find_external_from` returns: the first external address at or
/// after `k`, if any.
pub proof fn lemma_find_external_from(s: Seq<Ipv4Octets>, k: int)
    requires
        0 <= k <= s.len(),
    ensures
        find_external_from(s, k) == -1 ==> forall|j: int|
            k <= j < s.len() ==> !spec_is_external(#[trigger] s[j]),
        find_external_from(s, k) != -1 ==> {
            let i = find_external_from(s, k);
            &&& k <= i < s.len()
            &&& spec_is_external(s[i])
            &&& forall|j: int| k <= j < i ==> !spec_is_external(#[trigger] s[j])
        },
    decreases s.len() - k,
{
    if k < s.len() && !spec_is_external(s[k]) {
        lemma_find_external_from(s, k + 1);
    }
}

pub fn is_loopback(ip: &Ipv4Octets) -> (r: bool)
    ensures
        r == spec_is_loopback(*ip),
{
    ip.a == 127
}

pub fn is_unspecified(ip: &Ipv4Octets) -> (r: bool)
    ensures
        r == spec_is_unspecified(*ip),
{
    ip.a == 0 && ip.b == 0 && ip.c == 0 && ip.d == 0
}

/// The first address in interface order that is neither loopback nor
/// unspecified, or `None` when every candidate is one of the two.
pub fn pick_external_ipv4(addrs: &Vec<Ipv4Octets>) -> (r: Option<Ipv4Octets>)
    ensures
        match r {
            Some(ip) => {
                let i = find_external_from(addrs@, 0);
                i != -1 && ip == addrs@[i]
            },
            None => find_external_from(addrs@, 0) == -1,
        },
{
    let mut i: usize = 0;
    while i < addrs.len()
        invariant
            0 <= i <= addrs@.len(),
            find_external_from(addrs@, 0) == find_external_from(addrs@, i as int),
        decreases addrs@.len() - i,
    {
        let ip = addrs[i];
        if !is_loopback(&ip) && !is_unspecified(&ip) {
            return Some(ip);
        }
        i = i + 1;
    }
    None
}

} // verus!
