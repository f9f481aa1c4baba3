//! What a session says on its own account: a greeting when the connection
//! opens, and an answer to each chunk.

use vstd::prelude::*;
use vstd::slice::slice_to_vec;

verus! {

/// A strategy for one connection. A session asks it once for a greeting and
/// once per chunk for the bytes to send back; the session does the sending.
pub trait Client {
    /// The bytes to send when the connection opens, if any.
    spec fn greeting(&self) -> Option<Seq<u8>>;

    /// The bytes to send back for the chunk `msg`.
    spec fn response(&self, msg: Seq<u8>) -> Seq<u8>;

    /// Called once, when the connection opens.
    fn on_connect(&self) -> (hello: Option<Vec<u8>>)
        ensures
            bytes_of(hello) == self.greeting(),
    ;

    /// Called for each chunk that arrives.
    fn handle(&self, msg: &[u8]) -> (reply: Vec<u8>)
        ensures
            reply@ == self.response(msg@),
    ;
}

/// The bytes in an optional buffer.
pub open spec fn bytes_of(buffer: Option<Vec<u8>>) -> Option<Seq<u8>> {
    match buffer {
        Some(v) => Some(v@),
        None => None,
    }
}

/// The greeting of a handler made by `TrollHandler::new`: `hello!`.
pub open spec fn hello() -> Seq<u8> {
    seq![104u8, 101u8, 108u8, 108u8, 111u8, 33u8]
}

/// The one strategy of this crate: it sends every chunk back as it came, and
/// may greet first.
#[derive(Debug, PartialEq, Eq)]
pub struct TrollHandler {
    greeting: Option<Vec<u8>>,
}

impl TrollHandler {
    /// A handler that greets with `hello!`.
    pub fn new() -> (h: TrollHandler)
        ensures
            h.greeting() == Some(hello()),
    {
        let mut g: Vec<u8> = Vec::new();
        g.push(104);
        g.push(101);
        g.push(108);
        g.push(108);
        g.push(111);
        g.push(33);
        assert(g@ =~= hello());
        TrollHandler { greeting: Some(g) }
    }

    /// A handler that sends nothing of its own.
    pub fn silent() -> (h: TrollHandler)
        ensures
            h.greeting() == None::<Seq<u8>>,
    {
        TrollHandler { greeting: None }
    }

    /// A handler that greets with `greeting`.
    pub fn with_greeting(greeting: Vec<u8>) -> (h: TrollHandler)
        ensures
            h.greeting() == Some(greeting@),
    {
        TrollHandler { greeting: Some(greeting) }
    }
}

impl Client for TrollHandler {
    closed spec fn greeting(&self) -> Option<Seq<u8>> {
        bytes_of(self.greeting)
    }

    open spec fn response(&self, msg: Seq<u8>) -> Seq<u8> {
        msg
    }

    fn on_connect(&self) -> (hello: Option<Vec<u8>>) {
        match &self.greeting {
            Some(g) => Some(slice_to_vec(g.as_slice())),
            None => None,
        }
    }

    fn handle(&self, msg: &[u8]) -> (reply: Vec<u8>) {
        slice_to_vec(msg)
    }
}

} // verus!
