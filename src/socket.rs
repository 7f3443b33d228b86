use vstd::prelude::*;

verus! {

/// Relies on nothing of `std::io::Error` but its existence: values are only carried.
#[verifier::external_type_specification]
#[verifier::external_body]
pub struct ExIoError(std::io::Error);

/// Address family of a socket address.
#[derive(Clone, Copy, Debug, PartialEq, Eq, Structural)]
pub enum Family {
    V4,
    V6,
}

/// A resolved socket address: the IP address as its integer value and a port.
#[allow(inconsistent_fields)]
#[derive(Clone, Copy, Debug, PartialEq, Eq, Structural)]
pub enum SocketAddress {
    V4 { ip: u32, port: u16 },
    V6 { ip: u128, port: u16 },
}

impl SocketAddress {
    pub open spec fn family_spec(self) -> Family {
        match self {
            SocketAddress::V4 { .. } => Family::V4,
            SocketAddress::V6 { .. } => Family::V6,
        }
    }

    #[verifier::when_used_as_spec(family_spec)]
    pub fn family(self) -> (r: Family)
        ensures
            r == self.family_spec(),
    {
        match self {
            SocketAddress::V4 { .. } => Family::V4,
            SocketAddress::V6 { .. } => Family::V6,
        }
    }
}

/// The local endpoint that an outbound socket of `family` binds: the wildcard
/// address of the family with port 0, so that the system picks the port.
pub open spec fn wildcard(family: Family) -> SocketAddress {
    match family {
        Family::V4 => SocketAddress::V4 { ip: 0, port: 0 },
        Family::V6 => SocketAddress::V6 { ip: 0, port: 0 },
    }
}

pub fn bind_address(family: Family) -> (r: SocketAddress)
    ensures
        r == wildcard(family),
        r.family() == family,
{
    match family {
        Family::V4 => SocketAddress::V4 { ip: 0, port: 0 },
        Family::V6 => SocketAddress::V6 { ip: 0, port: 0 },
    }
}

/// Why a socket could not be handed out.
#[derive(Debug)]
pub enum Error {
    /// Binding the family's socket failed; the slot stays empty.
    Bind { source: std::io::Error },
}

/// What the caller of `Factory::get` has to do to obtain a socket.
#[derive(Clone, Copy, Debug, PartialEq, Eq, Structural)]
pub enum Acquire {
    /// The family's socket exists: use it.
    Reuse(Family),
    /// The family has no socket yet: bind one on `local`, then report the
    /// outcome with `Factory::bound`.
    Bind { family: Family, local: SocketAddress },
}

impl Acquire {
    pub open spec fn family_of(self) -> Family {
        match self {
            Acquire::Reuse(f) => f,
            Acquire::Bind { family, .. } => family,
        }
    }
}

/// The two socket slots of a prober, one per address family.
///
/// A slot is filled at most once: `get` asks for a bind only while the slot
/// is empty, and only a successful bind fills it. A failed bind leaves the
/// slot empty, so that a later caller may try again. The caller runs each
/// `get` and the bind that it asks for under one lock.
pub struct Factory {
    ipv4_socket: bool,
    ipv6_socket: bool,
}

impl Factory {
    /// Whether the slot of `family` holds a socket.
    pub closed spec fn is_ready(self, family: Family) -> bool {
        match family {
            Family::V4 => self.ipv4_socket,
            Family::V6 => self.ipv6_socket,
        }
    }

    /// What `get` asks for on `address`.
    pub open spec fn acquire_spec(self, address: SocketAddress) -> Acquire {
        if self.is_ready(address.family()) {
            Acquire::Reuse(address.family())
        } else {
            Acquire::Bind { family: address.family(), local: wildcard(address.family()) }
        }
    }

    /// The slots after a successful bind for `family`.
    pub closed spec fn filled(self, family: Family) -> Factory {
        match family {
            Family::V4 => Factory { ipv4_socket: true, ..self },
            Family::V6 => Factory { ipv6_socket: true, ..self },
        }
    }

    /// Family isolation: serving an address of one family, whether its bind
    /// succeeds or not, leaves the slot of the other family as it was.
    pub proof fn lemma_family_isolation(self, address: SocketAddress, other: Family)
        requires
            other != address.family(),
        ensures
            self.acquire_spec(address).family_of() == address.family(),
            self.filled(address.family()).is_ready(other) == self.is_ready(other),
            self.filled(address.family()).is_ready(address.family()),
    {
    }

    /// The number of binds of `family` when `addresses` are served one after
    /// another, each in a `get` followed by a successful bind where it asks
    /// for one.
    pub open spec fn binds(self, addresses: Seq<SocketAddress>, family: Family) -> nat
        decreases addresses.len(),
    {
        if addresses.len() == 0 {
            0
        } else {
            let a = addresses[0];
            let here: nat = if !self.is_ready(a.family()) && a.family() == family { 1 } else { 0 };
            let next = if self.is_ready(a.family()) { self } else { self.filled(a.family()) };
            here + next.binds(addresses.drop_first(), family)
        }
    }

    /// Single initialisation: however many callers ask for a family's socket,
    /// one after another under the factory's lock, at most one bind happens;
    /// exactly one when the slot was empty and some caller asked, none when
    /// the socket already existed. Every other caller reuses that socket.
    pub proof fn lemma_single_bind(self, addresses: Seq<SocketAddress>, family: Family)
        ensures
            self.binds(addresses, family) == if !self.is_ready(family) && exists|i: int|
                0 <= i < addresses.len() && (#[trigger] addresses[i]).family() == family {
                1nat
            } else {
                0nat
            },
        decreases addresses.len(),
    {
        if addresses.len() > 0 {
            let a = addresses[0];
            let next = if self.is_ready(a.family()) { self } else { self.filled(a.family()) };
            let rest = addresses.drop_first();
            next.lemma_single_bind(rest, family);
            if exists|i: int| 0 <= i < rest.len() && (#[trigger] rest[i]).family() == family {
                let i = choose|i: int| 0 <= i < rest.len() && (#[trigger] rest[i]).family() == family;
                assert(addresses[i + 1] == rest[i]);
            }
            if a.family() == family {
                assert(addresses[0].family() == family);
            } else {
                assert forall|i: int| 0 <= i < addresses.len() && (#[trigger] addresses[i]).family() == family
                    implies 0 <= i - 1 < rest.len() && rest[i - 1].family() == family by {
                    assert(rest[i - 1] == addresses[i]);
                }
            }
        }
    }

    pub fn new() -> (r: Factory)
        ensures
            !r.is_ready(Family::V4),
            !r.is_ready(Family::V6),
    {
        Factory { ipv4_socket: false, ipv6_socket: false }
    }

    /// Asks for the socket of `address`'s family: reuse it where it exists,
    /// else bind the family's wildcard endpoint.
    pub fn get(&self, address: &SocketAddress) -> (r: Acquire)
        ensures
            r == self.acquire_spec(*address),
    {
        let family = address.family();
        let ready = match family {
            Family::V4 => self.ipv4_socket,
            Family::V6 => self.ipv6_socket,
        };
        if ready {
            Acquire::Reuse(family)
        } else {
            Acquire::Bind { family, local: bind_address(family) }
        }
    }

    /// Records the outcome of the bind that `get` asked for on `family`.
    pub fn bound(&mut self, family: Family, outcome: Result<(), std::io::Error>) -> (r: Result<(), Error>)
        ensures
            outcome is Ok ==> r is Ok && *final(self) == old(self).filled(family),
            outcome is Ok ==> final(self).is_ready(family),
            forall|other: Family|
                other != family ==> #[trigger] final(self).is_ready(other) == old(self).is_ready(other),
            outcome matches Err(e) ==> r == Err::<(), Error>(Error::Bind { source: e }) && *final(self) == *old(self),
    {
        match outcome {
            Ok(()) => {
                match family {
                    Family::V4 => self.ipv4_socket = true,
                    Family::V6 => self.ipv6_socket = true,
                }
                Ok(())
            },
            Err(e) => Err(Error::Bind { source: e }),
        }
    }
}

} // verus!
