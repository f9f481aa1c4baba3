//! What a server or a client is set up with: an address, the size of a chunk,
//! the wait before an echo, and what to do when an accept fails.

use vstd::prelude::*;

verus! {

/// The port that both roles use unless told otherwise.
pub const DEFAULT_PORT: u16 = 8080;

/// The most bytes that one read may return, unless told otherwise.
pub const DEFAULT_CAPACITY: usize = 1024;

/// The wait of the client between a chunk and its echo, in milliseconds.
pub const DEFAULT_DELAY_MS: u64 = 1000;

/// An IPv4 address and a port.
#[derive(Clone, Copy, Debug, PartialEq, Eq)]
pub struct Endpoint {
    pub host: [u8; 4],
    pub port: u16,
}

impl Endpoint {
    /// The endpoint `a.b.c.d:port`.
    pub fn new(a: u8, b: u8, c: u8, d: u8, port: u16) -> (e: Endpoint)
        ensures
            e.host@ == seq![a, b, c, d],
            e.port == port,
    {
        let e = Endpoint { host: [a, b, c, d], port };
        assert(e.host@ =~= seq![a, b, c, d]);
        e
    }

    /// The endpoint `127.0.0.1:port`.
    pub fn loopback(port: u16) -> (e: Endpoint)
        ensures
            e.host@ == seq![127u8, 0u8, 0u8, 1u8],
            e.port == port,
    {
        Endpoint::new(127, 0, 0, 1, port)
    }
}

/// How one connection is run: the size of a chunk and the wait before an echo.
/// The capacity is never zero: a read into no room at all could not be told
/// from a peer that closed.
#[derive(Clone, Copy, Debug, PartialEq, Eq)]
pub struct SessionConfig {
    capacity: usize,
    delay_ms: u64,
}

impl SessionConfig {
    #[verifier::type_invariant]
    spec fn holds_room(self) -> bool {
        self.capacity > 0
    }

    /// The most bytes that one read may return.
    pub closed spec fn spec_capacity(self) -> nat {
        self.capacity as nat
    }

    /// The wait between a chunk and its echo, in milliseconds; zero for none.
    pub closed spec fn spec_delay_ms(self) -> nat {
        self.delay_ms as nat
    }

    /// Chunks of the default capacity, echoed at once.
    pub fn immediate() -> (c: SessionConfig)
        ensures
            c.spec_capacity() == DEFAULT_CAPACITY,
            c.spec_delay_ms() == 0,
    {
        SessionConfig { capacity: DEFAULT_CAPACITY, delay_ms: 0 }
    }

    /// Chunks of the default capacity, echoed after the default wait.
    pub fn delayed() -> (c: SessionConfig)
        ensures
            c.spec_capacity() == DEFAULT_CAPACITY,
            c.spec_delay_ms() == DEFAULT_DELAY_MS,
    {
        SessionConfig { capacity: DEFAULT_CAPACITY, delay_ms: DEFAULT_DELAY_MS }
    }

    /// The same settings with another capacity, or `None` for a capacity of zero.
    pub fn with_capacity(self, capacity: usize) -> (c: Option<SessionConfig>)
        ensures
            capacity == 0 <==> c is None,
            c matches Some(n) ==> n.spec_capacity() == capacity && n.spec_delay_ms()
                == self.spec_delay_ms(),
    {
        if capacity == 0 {
            None
        } else {
            Some(SessionConfig { capacity, delay_ms: self.delay_ms })
        }
    }

    /// The same settings with another wait; zero switches the wait off.
    pub fn with_delay_ms(self, delay_ms: u64) -> (c: SessionConfig)
        ensures
            c.spec_capacity() == self.spec_capacity(),
            c.spec_delay_ms() == delay_ms,
    {
        proof {
            use_type_invariant(&self);
        }
        SessionConfig { capacity: self.capacity, delay_ms }
    }

    /// The most bytes that one read may return.
    pub fn capacity(&self) -> (c: usize)
        ensures
            c == self.spec_capacity(),
            c > 0,
    {
        proof {
            use_type_invariant(self);
        }
        self.capacity
    }

    /// The wait between a chunk and its echo, in milliseconds; zero for none.
    pub fn delay_ms(&self) -> (d: u64)
        ensures
            d == self.spec_delay_ms(),
    {
        self.delay_ms
    }
}

/// What a listener does when an accept fails.
#[derive(Clone, Copy, Debug, PartialEq, Eq, Structural)]
pub enum AcceptPolicy {
    /// Stop the whole server.
    Fatal,
    /// Report the failure and accept again.
    Resilient,
}

/// What a server is set up with.
#[derive(Clone, Copy, Debug, PartialEq, Eq)]
pub struct ServerConfig {
    pub address: Endpoint,
    pub session: SessionConfig,
    pub accept_policy: AcceptPolicy,
}

impl ServerConfig {
    /// A server on `127.0.0.1:8080` that echoes chunks of up to 1024 bytes at
    /// once and stops when an accept fails.
    pub fn new() -> (c: ServerConfig)
        ensures
            c.address.host@ == seq![127u8, 0u8, 0u8, 1u8],
            c.address.port == DEFAULT_PORT,
            c.session.spec_capacity() == DEFAULT_CAPACITY,
            c.session.spec_delay_ms() == 0,
            c.accept_policy == AcceptPolicy::Fatal,
    {
        ServerConfig {
            address: Endpoint::loopback(DEFAULT_PORT),
            session: SessionConfig::immediate(),
            accept_policy: AcceptPolicy::Fatal,
        }
    }

    /// The same server on another address.
    pub fn with_address(self, address: Endpoint) -> (c: ServerConfig)
        ensures
            c == (ServerConfig { address, ..self }),
    {
        ServerConfig { address, session: self.session, accept_policy: self.accept_policy }
    }

    /// The same server with other settings for its connections.
    pub fn with_session(self, session: SessionConfig) -> (c: ServerConfig)
        ensures
            c == (ServerConfig { session, ..self }),
    {
        ServerConfig { address: self.address, session, accept_policy: self.accept_policy }
    }

    /// The same server with another answer to a failed accept.
    pub fn with_accept_policy(self, accept_policy: AcceptPolicy) -> (c: ServerConfig)
        ensures
            c == (ServerConfig { accept_policy, ..self }),
    {
        ServerConfig { address: self.address, session: self.session, accept_policy }
    }
}

/// What a client is set up with.
#[derive(Clone, Copy, Debug, PartialEq, Eq)]
pub struct ClientConfig {
    pub address: Endpoint,
    pub session: SessionConfig,
}

impl ClientConfig {
    /// A client of `127.0.0.1:8080` that echoes chunks of up to 1024 bytes
    /// after a wait of 1000 ms.
    pub fn new() -> (c: ClientConfig)
        ensures
            c.address.host@ == seq![127u8, 0u8, 0u8, 1u8],
            c.address.port == DEFAULT_PORT,
            c.session.spec_capacity() == DEFAULT_CAPACITY,
            c.session.spec_delay_ms() == DEFAULT_DELAY_MS,
    {
        ClientConfig { address: Endpoint::loopback(DEFAULT_PORT), session: SessionConfig::delayed() }
    }

    /// The same client of another address.
    pub fn with_address(self, address: Endpoint) -> (c: ClientConfig)
        ensures
            c == (ClientConfig { address, ..self }),
    {
        ClientConfig { address, session: self.session }
    }

    /// The same client with other settings for its connection.
    pub fn with_session(self, session: SessionConfig) -> (c: ClientConfig)
        ensures
            c == (ClientConfig { session, ..self }),
    {
        ClientConfig { address: self.address, session }
    }
}

} // verus!
