//! Socket addresses as plain values. The sessions only compare addresses and
//! hand them back for sends, so an address is its numeric parts; the I/O
//! layer converts to and from its own socket address type.
use vstd::prelude::*;

verus! {

/// A UDP peer address: the numeric parts of a socket address.
#[derive(Debug, Clone, Copy, PartialEq, Eq, Structural)]
pub struct PeerAddr {
    /// True for an IPv6 address; `ip` then holds all 128 bits, otherwise the
    /// low 32 bits hold the IPv4 address.
    pub is_v6: bool,
    pub ip: u128,
    pub port: u16,
    /// IPv6 flow information; zero for IPv4.
    pub flowinfo: u32,
    /// IPv6 scope id; zero for IPv4.
    pub scope_id: u32,
}

/// Whether an address survives the family restriction flags: `ipv4_only`
/// drops IPv6 addresses and `ipv6_only` drops IPv4 ones.
pub open spec fn addr_allowed(a: PeerAddr, ipv4_only: bool, ipv6_only: bool) -> bool {
    if a.is_v6 {
        !ipv4_only
    } else {
        !ipv6_only
    }
}

/// The candidates that survive the restriction flags, in order.
pub open spec fn kept_addrs(s: Seq<PeerAddr>, ipv4_only: bool, ipv6_only: bool) -> Seq<PeerAddr>
    decreases s.len(),
{
    if s.len() == 0 {
        Seq::empty()
    } else {
        kept_addrs(s.drop_last(), ipv4_only, ipv6_only) + (if addr_allowed(
            s.last(),
            ipv4_only,
            ipv6_only,
        ) {
            seq![s.last()]
        } else {
            Seq::empty()
        })
    }
}

/// Why no address could be selected.
#[derive(Debug, Clone, Copy, PartialEq, Eq, Structural)]
pub enum AddrSelectError {
    /// Resolution yielded no usable address under the restriction flags.
    NoUsableAddress,
    /// More than one usable address; listening or connecting to several is
    /// not supported.
    Ambiguous,
}

/// Selects the single usable address among the resolved candidates: exactly
/// one candidate must survive the family restriction flags.
pub fn select_address(addrs: &Vec<PeerAddr>, ipv4_only: bool, ipv6_only: bool) -> (r: Result<
    PeerAddr,
    AddrSelectError,
>)
    ensures
        match r {
            Ok(a) => kept_addrs(addrs@, ipv4_only, ipv6_only) == seq![a],
            Err(AddrSelectError::NoUsableAddress) => kept_addrs(addrs@, ipv4_only, ipv6_only).len()
                == 0,
            Err(AddrSelectError::Ambiguous) => kept_addrs(addrs@, ipv4_only, ipv6_only).len() >= 2,
        },
{
    let mut kept: Vec<PeerAddr> = Vec::new();
    let mut i: usize = 0;
    let n: usize = addrs.len();
    while i < n
        invariant
            i <= n,
            n == addrs@.len(),
            kept@ == kept_addrs(addrs@.take(i as int), ipv4_only, ipv6_only),
        decreases n - i,
    {
        let a = addrs[i];
        if (a.is_v6 && !ipv4_only) || (!a.is_v6 && !ipv6_only) {
            kept.push(a);
        }
        i = i + 1;
        proof {
            let t = addrs@.take(i as int);
            assert(t.drop_last() =~= addrs@.take(i as int - 1));
            assert(t.last() == addrs@[i as int - 1]);
            assert(kept@ =~= kept_addrs(t, ipv4_only, ipv6_only));
        }
    }
    proof {
        assert(addrs@.take(n as int) =~= addrs@);
    }
    if kept.len() == 0 {
        Err(AddrSelectError::NoUsableAddress)
    } else if kept.len() > 1 {
        Err(AddrSelectError::Ambiguous)
    } else {
        let a = kept[0];
        proof {
            assert(kept@ =~= seq![a]);
        }
        Ok(a)
    }
}

} // verus!
