use vstd::prelude::*;

verus! {

/// The port used when a destination names none (secure HTTP).
pub const DEFAULT_PORT: u16 = 443;

/// An IP address as its numeric value.
#[derive(Clone, Copy, Debug, PartialEq, Eq, Structural)]
pub enum IpAddress {
    V4(u32),
    V6(u128),
}

/// An IP address together with a port.
#[derive(Clone, Copy, Debug, PartialEq, Eq, Structural)]
pub struct SocketAddress {
    pub ip: IpAddress,
    pub port: u16,
}

/// The port a destination is reached on: its own, else the default.
pub open spec fn port_or_default(port: Option<u16>) -> u16 {
    match port {
        Some(p) => p,
        None => DEFAULT_PORT,
    }
}

/// `s` without its leading `[` characters.
pub open spec fn trim_open(s: Seq<char>) -> Seq<char>
    decreases s.len(),
{
    if s.len() > 0 && s[0] == '[' {
        trim_open(s.drop_first())
    } else {
        s
    }
}

/// `s` without its trailing `]` characters.
pub open spec fn trim_close(s: Seq<char>) -> Seq<char>
    decreases s.len(),
{
    if s.len() > 0 && s.last() == ']' {
        trim_close(s.drop_last())
    } else {
        s
    }
}

/// A host with the bracket delimiters of IPv6 literal notation removed.
pub open spec fn unbracketed(s: Seq<char>) -> Seq<char> {
    trim_close(trim_open(s))
}

/// Each resolved address, moved to `port`.
pub open spec fn ported(addrs: Seq<SocketAddress>, port: u16) -> Seq<SocketAddress> {
    addrs.map_values(|a: SocketAddress| SocketAddress { ip: a.ip, port })
}

/// The local address a connector binds to: the chosen IP, or the IPv6
/// unspecified address, with a port the system assigns.
pub open spec fn bind_spec(local: Option<IpAddress>) -> SocketAddress {
    match local {
        Some(ip) => SocketAddress { ip, port: 0 },
        None => SocketAddress { ip: IpAddress::V6(0), port: 0 },
    }
}

pub fn effective_port(port: Option<u16>) -> (r: u16)
    ensures
        r == port_or_default(port),
{
    match port {
        Some(p) => p,
        None => DEFAULT_PORT,
    }
}

pub fn bind_address(local: Option<IpAddress>) -> (r: SocketAddress)
    ensures
        r == bind_spec(local),
{
    match local {
        Some(ip) => SocketAddress { ip, port: 0 },
        None => SocketAddress { ip: IpAddress::V6(0), port: 0 },
    }
}

proof fn lemma_trim_open_step(s: Seq<char>, i: int)
    requires
        0 <= i < s.len(),
        s[i] == '[',
    ensures
        trim_open(s.subrange(i, s.len() as int)) == trim_open(s.subrange(i + 1, s.len() as int)),
{
    assert(s.subrange(i, s.len() as int).drop_first() =~= s.subrange(i + 1, s.len() as int));
}

proof fn lemma_trim_close_step(s: Seq<char>, j: int)
    requires
        0 < j <= s.len(),
        s[j - 1] == ']',
    ensures
        trim_close(s.subrange(0, j)) == trim_close(s.subrange(0, j - 1)),
{
    assert(s.subrange(0, j).drop_last() =~= s.subrange(0, j - 1));
}

/// Removes every leading `[` and then every trailing `]`.
pub fn normalize_host(host: &str) -> (r: &str)
    ensures
        r@ == unbracketed(host@),
{
    let n = host.unicode_len();
    let mut i: usize = 0;
    proof {
        assert(host@.subrange(0, n as int) =~= host@);
    }
    while i < n && host.get_char(i) == '['
        invariant
            n == host@.len(),
            i <= n,
            trim_open(host@) == trim_open(host@.subrange(i as int, n as int)),
        decreases n - i,
    {
        proof {
            lemma_trim_open_step(host@, i as int);
        }
        i = i + 1;
    }
    let ghost rest = host@.subrange(i as int, n as int);
    proof {
        if i < n {
            assert(rest[0] == host@[i as int]);
        }
        assert(trim_open(host@) == rest);
        assert(rest.subrange(0, rest.len() as int) =~= rest);
    }
    let mut j: usize = n;
    while j > i && host.get_char(j - 1) == ']'
        invariant
            n == host@.len(),
            i <= j <= n,
            rest == host@.subrange(i as int, n as int),
            trim_close(rest) == trim_close(rest.subrange(0, j - i)),
        decreases j,
    {
        proof {
            assert(rest[j - i - 1] == host@[j - 1]);
            lemma_trim_close_step(rest, j - i);
        }
        j = j - 1;
    }
    let r = host.substring_char(i, j);
    proof {
        let kept = rest.subrange(0, j - i);
        assert(kept =~= host@.subrange(i as int, j as int));
        if j > i {
            assert(kept.last() == host@[j - 1]);
        }
        assert(trim_close(kept) == kept);
    }
    r
}

/// Gives every resolved address the destination's port, keeping their order.
pub fn with_port(addrs: Vec<SocketAddress>, port: u16) -> (r: Vec<SocketAddress>)
    ensures
        r@ == ported(addrs@, port),
{
    let mut out: Vec<SocketAddress> = Vec::new();
    let mut k: usize = 0;
    while k < addrs.len()
        invariant
            k <= addrs@.len(),
            out@ == ported(addrs@.subrange(0, k as int), port),
        decreases addrs@.len() - k,
    {
        let a = addrs[k];
        out.push(SocketAddress { ip: a.ip, port });
        proof {
            assert(addrs@.subrange(0, k + 1) =~= addrs@.subrange(0, k as int).push(a));
            assert(ported(addrs@.subrange(0, k + 1), port) =~= ported(addrs@.subrange(0, k as int), port).push(SocketAddress { ip: a.ip, port }));
        }
        k = k + 1;
    }
    proof {
        assert(addrs@.subrange(0, k as int) =~= addrs@);
    }
    out
}

} // verus!
