use vstd::prelude::*;

use crate::exchange::{Action, Exchange, Stage};

verus! {

/// The standard DNS service port, used when the destination names none.
pub const DNS_PORT: u16 = 53;

/// Whether a destination string holds a colon, and so names its own port.
pub open spec fn has_colon(s: Seq<char>) -> bool {
    exists|i: int| 0 <= i < s.len() && s[i] == ':'
}

/// Where the socket of one exchange is connected.
#[derive(Debug, PartialEq, Eq)]
pub enum Destination {
    /// The destination string as it was given, port included.
    AsGiven(String),
    /// A host without a port, connected to on the given port.
    HostPort(String, u16),
}

/// The UDP transport, which sends DNS wire data inside a UDP datagram.
///
/// It holds the destination (a host or IP address, optionally followed by
/// `:port`) verbatim; nothing is resolved or checked until a request is sent.
pub struct UdpTransport {
    addr: String,
}

impl UdpTransport {
    /// The destination string this transport was created with.
    pub closed spec fn addr_spec(&self) -> Seq<char> {
        self.addr@
    }

    /// Creates a new UDP transport that connects to the given host. The
    /// destination is stored verbatim: nothing is checked or resolved here.
    pub fn new(sa: &str) -> (r: Self)
        ensures
            r.addr_spec() == sa@,
    {
        Self { addr: sa.to_owned() }
    }

    /// The destination string, as given at construction.
    pub fn addr(&self) -> (r: &str)
        ensures
            r@ == self.addr_spec(),
    {
        self.addr.as_str()
    }

    /// Where an exchange of this transport connects: a destination string
    /// with a colon is used exactly as given, any other is given port 53.
    pub fn destination(&self) -> (d: Destination)
        ensures
            destination_of(self.addr_spec(), d),
    {
        destination_for(&self.addr)
    }

    /// Starts one exchange: a request sent over a socket of its own, which
    /// is opened first. No state of an earlier exchange carries over.
    pub fn begin_send<R>(&self) -> (r: (Exchange, Action<R>))
        ensures
            r.0.addr_spec() == self.addr_spec(),
            r.0.stage_spec() == Stage::Binding,
            r.1 is Bind,
    {
        (Exchange::new(self.addr.clone()), Action::Bind)
    }
}

/// The destination that an exchange with destination string `addr` connects
/// to: the string itself when it holds a colon, otherwise the host on the
/// standard DNS port.
pub open spec fn destination_of(addr: Seq<char>, d: Destination) -> bool {
    if has_colon(addr) {
        d matches Destination::AsGiven(s) && s@ == addr
    } else {
        d matches Destination::HostPort(h, p) && h@ == addr && p == DNS_PORT
    }
}

/// The destination for the destination string `addr`.
pub fn destination_for(addr: &String) -> (d: Destination)
    ensures
        destination_of(addr@, d),
{
    let s = addr.as_str();
    let n = s.unicode_len();
    let mut i: usize = 0;
    while i < n
        invariant
            n == s@.len(),
            s@ == addr@,
            i <= n,
            forall|j: int| 0 <= j < i ==> s@[j] != ':',
        decreases n - i,
    {
        if s.get_char(i) == ':' {
            return Destination::AsGiven(addr.clone());
        }
        i = i + 1;
    }
    Destination::HostPort(addr.clone(), DNS_PORT)
}

} // verus!
