//! Socket addresses of peers, and which of them may be shared with others.
use vstd::prelude::*;
use crate::assoc_map::KeyEq;

verus! {

broadcast use vstd::array::group_array_axioms;

/// An IP address: four octets for IPv4, eight 16-bit segments for IPv6.
#[derive(Clone, Copy, Debug, PartialEq, Eq, Hash)]
pub enum IpAddress {
    /// An IPv4 address, octets in network order.
    V4([u8; 4]),
    /// An IPv6 address, segments in network order.
    V6([u16; 8]),
}

/// An IP address together with a port.
#[derive(Clone, Copy, Debug, PartialEq, Eq, Hash)]
pub struct SocketAddress {
    /// The IP address.
    pub ip: IpAddress,
    /// The port.
    pub port: u16,
}

impl SocketAddress {
    /// An IPv4 socket address.
    pub fn v4(a: u8, b: u8, c: u8, d: u8, port: u16) -> (r: Self)
        ensures
            r.ip == IpAddress::V4([a, b, c, d]),
            r.port == port,
    {
        SocketAddress { ip: IpAddress::V4([a, b, c, d]), port }
    }

    /// An IPv6 socket address.
    pub fn v6(segments: [u16; 8], port: u16) -> (r: Self)
        ensures
            r.ip == IpAddress::V6(segments),
            r.port == port,
    {
        SocketAddress { ip: IpAddress::V6(segments), port }
    }

    /// The port of the address.
    pub fn port(&self) -> (r: u16)
        ensures
            r == self.port,
    {
        self.port
    }
}

/// Compares two IP addresses.
pub fn ip_eq(a: &IpAddress, b: &IpAddress) -> (r: bool)
    ensures
        r == (*a == *b),
{
    match a {
        IpAddress::V4(x) => match b {
            IpAddress::V4(y) => {
                let r = x[0] == y[0] && x[1] == y[1] && x[2] == y[2] && x[3] == y[3];
                proof {
                    if r {
                        assert(*x =~= *y);
                    }
                }
                r
            },
            IpAddress::V6(_) => false,
        },
        IpAddress::V6(x) => match b {
            IpAddress::V4(_) => false,
            IpAddress::V6(y) => {
                let mut i: usize = 0;
                while i < 8
                    invariant
                        0 <= i <= 8,
                        *a == IpAddress::V6(*x),
                        *b == IpAddress::V6(*y),
                        forall|j: int| 0 <= j < i ==> x[j] == y[j],
                    decreases 8 - i,
                {
                    if x[i] != y[i] {
                        assert(x[i as int] != y[i as int]);
                        return false;
                    }
                    i += 1;
                }
                assert(*x =~= *y);
                true
            },
        },
    }
}

impl KeyEq for SocketAddress {
    fn key_eq(&self, other: &Self) -> (r: bool) {
        self.port == other.port && ip_eq(&self.ip, &other.ip)
    }
}

/// The numeric value of an IP address: its octets (IPv4) or segments
/// (IPv6) read as one big-endian number.
pub open spec fn ip_value(ip: IpAddress) -> nat {
    match ip {
        IpAddress::V4(o) => (o[0] as nat) * 16777216 + (o[1] as nat) * 65536 + (o[2] as nat) * 256 + (o[3] as nat),
        IpAddress::V6(s) => (s[0] as nat) * 5192296858534827628530496329220096 + (s[1] as nat)
            * 79228162514264337593543950336 + (s[2] as nat) * 1208925819614629174706176 + (s[3] as nat)
            * 18446744073709551616 + (s[4] as nat) * 281474976710656 + (s[5] as nat) * 4294967296 + (s[6] as nat)
            * 65536 + (s[7] as nat),
    }
}

/// The position of an address in the standard order of socket addresses:
/// every IPv4 address before every IPv6 one, then by IP address, then by
/// port.
pub open spec fn address_rank(a: SocketAddress) -> nat {
    ((if a.ip is V6 { 340282366920938463463374607431768211456nat } else { 0nat }) + ip_value(a.ip)) * 65536
        + (a.port as nat)
}

/// Whether `s` is in the standard order of socket addresses.
pub open spec fn rank_sorted(s: Seq<SocketAddress>) -> bool {
    forall|i: int, j: int| 0 <= i < j < s.len() ==> address_rank(#[trigger] s[i]) <= address_rank(#[trigger] s[j])
}

/// The IP value of an address, computed.
fn ip_value_exec(ip: &IpAddress) -> (r: u128)
    ensures
        r == ip_value(*ip),
{
    match ip {
        IpAddress::V4(o) => (o[0] as u128) * 16777216 + (o[1] as u128) * 65536 + (o[2] as u128) * 256 + (o[3] as u128),
        IpAddress::V6(s) => {
            let v: u128 = (s[0] as u128) * 5192296858534827628530496329220096u128 + (s[1] as u128)
                * 79228162514264337593543950336u128 + (s[2] as u128) * 1208925819614629174706176u128 + (s[3] as u128)
                * 18446744073709551616u128 + (s[4] as u128) * 281474976710656u128 + (s[5] as u128) * 4294967296u128
                + (s[6] as u128) * 65536u128 + (s[7] as u128);
            v
        },
    }
}

/// Whether `a` comes no later than `b` in the standard order.
pub fn address_le(a: &SocketAddress, b: &SocketAddress) -> (r: bool)
    ensures
        r == (address_rank(*a) <= address_rank(*b)),
{
    let a6 = match a.ip {
        IpAddress::V4(_) => false,
        IpAddress::V6(_) => true,
    };
    let b6 = match b.ip {
        IpAddress::V4(_) => false,
        IpAddress::V6(_) => true,
    };
    let va = ip_value_exec(&a.ip);
    let vb = ip_value_exec(&b.ip);
    if a6 != b6 {
        !a6
    } else if va != vb {
        va < vb
    } else {
        a.port <= b.port
    }
}

/// The addresses of `addrs`, each once, in the standard order (IPv4 before
/// IPv6, then by IP address, then by port).
pub fn distinct_sorted(addrs: &Vec<SocketAddress>) -> (r: Vec<SocketAddress>)
    ensures
        r@.no_duplicates(),
        rank_sorted(r@),
        r@.to_set() == addrs@.to_set(),
{
    let mut out: Vec<SocketAddress> = Vec::new();
    let mut i: usize = 0;
    proof {
        assert(addrs@.take(0).to_set() =~= Set::<SocketAddress>::empty());
        assert(out@.to_set() =~= Set::<SocketAddress>::empty());
    }
    while i < addrs.len()
        invariant
            0 <= i <= addrs@.len(),
            out@.no_duplicates(),
            rank_sorted(out@),
            out@.to_set() == addrs@.take(i as int).to_set(),
        decreases addrs@.len() - i,
    {
        let a = addrs[i];
        let mut j: usize = 0;
        let mut held = false;
        while j < out.len()
            invariant_except_break
                0 <= j <= out@.len(),
                !held,
                forall|k: int| 0 <= k < j ==> out@[k] != a,
            ensures
                held ==> out@.contains(a),
                !held ==> forall|k: int| 0 <= k < out@.len() ==> out@[k] != a,
            decreases out@.len() - j,
        {
            if out[j].key_eq(&a) {
                held = true;
                assert(out@[j as int] == a);
                break;
            }
            j += 1;
        }
        let ghost before = out@;
        proof {
            let t = addrs@.take(i + 1);
            assert(t =~= addrs@.take(i as int).push(a));
            assert(t.to_set() =~= addrs@.take(i as int).to_set().insert(a)) by {
                addrs@.take(i as int).lemma_push_to_set_commute(a);
            }
        }
        if held {
            proof {
                assert(out@.contains(a));
                assert(out@.to_set().insert(a) =~= out@.to_set());
            }
        } else {
            assert(!out@.contains(a));
            let mut p: usize = 0;
            while p < out.len() && address_le(&out[p], &a)
                invariant
                    0 <= p <= out@.len(),
                    out@ == before,
                    forall|k: int| 0 <= k < p ==> address_rank(#[trigger] before[k]) <= address_rank(a),
                decreases out@.len() - p,
            {
                p += 1;
            }
            proof {
                assert forall|k: int| p <= k < before.len() implies address_rank(a) < address_rank(#[trigger] before[k]) by {
                    assert(address_rank(a) < address_rank(before[p as int]));
                    assert(address_rank(before[p as int]) <= address_rank(before[k]));
                }
            }
            out.insert(p, a);
            proof {
                let n = out@;
                assert(n == before.insert(p as int, a));
                assert forall|x: int, y: int| 0 <= x < y < n.len() implies address_rank(#[trigger] n[x]) <= address_rank(
                    #[trigger] n[y],
                ) by {
                    if x < p {
                        if y < p {
                        } else if y == p {
                        } else {
                            assert(n[y] == before[y - 1]);
                        }
                    } else if x == p {
                        assert(n[y] == before[y - 1]);
                    } else {
                        assert(n[x] == before[x - 1] && n[y] == before[y - 1]);
                    }
                }
                assert forall|x: int, y: int| 0 <= x < n.len() && 0 <= y < n.len() && x != y implies n[x] != n[y] by {
                    if x != p && y != p {
                        let x0 = if x < p { x } else { x - 1 };
                        let y0 = if y < p { y } else { y - 1 };
                        assert(n[x] == before[x0] && n[y] == before[y0]);
                    } else if x == p {
                        let y0 = if y < p { y } else { y - 1 };
                        assert(n[y] == before[y0]);
                    } else {
                        let x0 = if x < p { x } else { x - 1 };
                        assert(n[x] == before[x0]);
                    }
                }
                assert(n.to_set() =~= before.to_set().insert(a)) by {
                    assert forall|z: SocketAddress| n.to_set().contains(z) implies before.to_set().insert(a).contains(z) by {
                        let k = choose|k: int| 0 <= k < n.len() && n[k] == z;
                        if k != p {
                            let k0 = if k < p { k } else { k - 1 };
                            assert(n[k] == before[k0]);
                        }
                    }
                    assert forall|z: SocketAddress| before.to_set().insert(a).contains(z) implies n.to_set().contains(z) by {
                        if z == a {
                            assert(n[p as int] == a);
                        } else {
                            let k = choose|k: int| 0 <= k < before.len() && before[k] == z;
                            let k1 = if k < p { k } else { k + 1 };
                            assert(n[k1] == z);
                        }
                    }
                }
            }
        }
        i += 1;
    }
    proof {
        assert(addrs@.take(addrs@.len() as int) =~= addrs@);
    }
    out
}

/// Whether an IPv4 address is private, loopback, link-local, broadcast,
/// reserved for documentation, or unspecified.
pub open spec fn v4_private_or_local(o: [u8; 4]) -> bool {
    // loopback 127.0.0.0/8
    ||| o[0] == 127
    // private 10.0.0.0/8, 172.16.0.0/12, 192.168.0.0/16
    ||| o[0] == 10
    ||| (o[0] == 172 && 16 <= o[1] <= 31)
    ||| (o[0] == 192 && o[1] == 168)
    // link-local 169.254.0.0/16
    ||| (o[0] == 169 && o[1] == 254)
    // broadcast 255.255.255.255
    ||| (o[0] == 255 && o[1] == 255 && o[2] == 255 && o[3] == 255)
    // documentation 192.0.2.0/24, 198.51.100.0/24, 203.0.113.0/24
    ||| (o[0] == 192 && o[1] == 0 && o[2] == 2)
    ||| (o[0] == 198 && o[1] == 51 && o[2] == 100)
    ||| (o[0] == 203 && o[1] == 0 && o[2] == 113)
    // unspecified 0.0.0.0
    ||| (o[0] == 0 && o[1] == 0 && o[2] == 0 && o[3] == 0)
}

/// Whether an IPv6 address is loopback, unspecified, link-local unicast
/// (fe80::/10) or unique local (fc00::/7).
pub open spec fn v6_private_or_local(s: [u16; 8]) -> bool {
    let zero_prefix = s[0] == 0 && s[1] == 0 && s[2] == 0 && s[3] == 0 && s[4] == 0 && s[5]
        == 0 && s[6] == 0;
    ||| (zero_prefix && s[7] == 1)
    ||| (zero_prefix && s[7] == 0)
    ||| 0xfe80 <= s[0] <= 0xfebf
    ||| 0xfc00 <= s[0] <= 0xfdff
}

/// Whether an address is private or local and must not be shared.
pub open spec fn spec_private_or_local(addr: SocketAddress) -> bool {
    match addr.ip {
        IpAddress::V4(o) => v4_private_or_local(o),
        IpAddress::V6(s) => v6_private_or_local(s),
    }
}

/// Check if an IP address is a private/local address that should be rejected.
pub fn is_private_or_local(addr: &SocketAddress) -> (r: bool)
    ensures
        r == spec_private_or_local(*addr),
{
    match &addr.ip {
        IpAddress::V4(o) => {
            let a = o[0];
            let b = o[1];
            let c = o[2];
            let d = o[3];
            a == 127 || a == 10 || (a == 172 && 16 <= b && b <= 31) || (a == 192 && b == 168)
                || (a == 169 && b == 254) || (a == 255 && b == 255 && c == 255 && d == 255)
                || (a == 192 && b == 0 && c == 2) || (a == 198 && b == 51 && c == 100) || (a
                == 203 && b == 0 && c == 113) || (a == 0 && b == 0 && c == 0 && d == 0)
        },
        IpAddress::V6(s) => {
            let zero_prefix = s[0] == 0 && s[1] == 0 && s[2] == 0 && s[3] == 0 && s[4] == 0
                && s[5] == 0 && s[6] == 0;
            (zero_prefix && s[7] == 1) || (zero_prefix && s[7] == 0) || (0xfe80 <= s[0] && s[0]
                <= 0xfebf) || (0xfc00 <= s[0] && s[0] <= 0xfdff)
        },
    }
}

/// Whether an address may be used and shared as a peer address.
pub open spec fn spec_valid_peer_address(addr: SocketAddress, our_addr: Option<SocketAddress>) -> bool {
    &&& !spec_private_or_local(addr)
    &&& our_addr != Some(addr)
    &&& addr.port != 0
}

/// Validate a peer address for external use.
pub fn is_valid_peer_address(addr: &SocketAddress, our_addr: Option<&SocketAddress>) -> (r: bool)
    ensures
        r == spec_valid_peer_address(
            *addr,
            match our_addr {
                Some(a) => Some(*a),
                None => None,
            },
        ),
{
    if is_private_or_local(addr) {
        return false;
    }
    if let Some(own) = our_addr {
        if addr.key_eq(own) {
            return false;
        }
    }
    if addr.port == 0 {
        return false;
    }
    true
}

} // verus!
