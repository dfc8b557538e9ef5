use vstd::prelude::*;

use crate::config::SSLConfig;
use crate::endpoint::{
    endpoint_of_url, endpoint_usable, spec_endpoint, url_is_usable, url_usable, Endpoint,
    EndpointView,
};
use crate::tables::{no_tags, tag_map, TagTable};
use crate::server::{spec_handshake, HandshakeOutcome, Server};

verus! {

/// The kind of stream a connection runs on.
#[derive(Clone, Copy, Debug, PartialEq, Eq, Structural)]
pub enum StreamKind {
    /// A plain TCP stream.
    UnsecuredTcpStream,
    /// A unix domain socket stream.
    UdsStream,
    /// A TLS stream over TCP whose handshake is complete.
    SslTcpStream,
    /// A TLS stream over TCP whose handshake is still going on.
    SslMidHandshakeStream,
    /// No stream.
    Invalid,
}

/// The address of a connection's peer, as text.
#[derive(Clone, Debug, PartialEq, Eq)]
pub enum NetAddr {
    /// A TCP socket address.
    NetSocketAddress(String),
    /// A unix domain socket address.
    UdsSocketAddress(String),
}

impl NetAddr {
    /// The text of the address.
    pub open spec fn text(self) -> Seq<char> {
        match self {
            NetAddr::NetSocketAddress(s) => s@,
            NetAddr::UdsSocketAddress(s) => s@,
        }
    }

    /// The address as text.
    pub fn to_string(&self) -> (r: String)
        ensures
            r@ == self.text(),
    {
        match self {
            NetAddr::NetSocketAddress(s) => s.clone(),
            NetAddr::UdsSocketAddress(s) => s.clone(),
        }
    }
}

/// What a read or write on a stream came to.
#[derive(Clone, Copy, Debug, PartialEq, Eq, Structural)]
pub enum IoOutcome {
    /// The call moved this many bytes.
    Done(usize),
    /// The call would have blocked.
    WouldBlock,
    /// The peer reset the connection.
    ConnectionReset,
    /// Any other error.
    Failed,
}

/// What is left of `output` once its first `n` bytes are sent.
pub open spec fn output_after_write(output: Seq<u8>, n: nat) -> Seq<u8> {
    if n < output.len() {
        output.subrange(n as int, output.len() as int)
    } else {
        Seq::empty()
    }
}

/// A write of `n` bytes removes exactly the first `n` bytes of the output
/// (all of it when `n` covers it): what was sent followed by what is left
/// is the output as it was.
pub proof fn lemma_write_removes_sent_prefix(output: Seq<u8>, n: nat)
    ensures
        ({
            let sent = if n < output.len() {
                n
            } else {
                output.len()
            };
            &&& output_after_write(output, n).len() == output.len() - sent
            &&& output.subrange(0, sent as int) + output_after_write(output, n) == output
        }),
{
    let sent = if n < output.len() {
        n
    } else {
        output.len()
    };
    assert(output.subrange(0, sent as int) + output_after_write(output, n) =~= output);
}

/// A connection being made: the URL and the usable endpoint it names.
#[derive(Debug)]
pub struct PendingConn {
    url: String,
    endpoint: Endpoint,
}

impl PendingConn {
    #[verifier::type_invariant]
    spec fn names_endpoint(self) -> bool {
        &&& spec_endpoint(self.url@) == Ok::<EndpointView, Seq<char>>(self.endpoint@)
        &&& endpoint_usable(self.endpoint@)
    }

    /// The URL being connected to.
    pub closed spec fn url_view(self) -> Seq<char> {
        self.url@
    }

    /// The endpoint that the URL names.
    pub closed spec fn endpoint_view(self) -> EndpointView {
        self.endpoint@
    }

    /// The endpoint to open a socket on.
    pub fn endpoint(&self) -> (r: &Endpoint)
        ensures
            r@ == self.endpoint_view(),
            spec_endpoint(self.url_view()) == Ok::<EndpointView, Seq<char>>(r@),
            endpoint_usable(r@),
    {
        proof {
            use_type_invariant(self);
        }
        &self.endpoint
    }

    /// The URL being connected to.
    pub fn url(&self) -> (r: &String)
        ensures
            r@ == self.url_view(),
    {
        &self.url
    }

    /// The connection, given what opening a socket on the endpoint came
    /// to: a fresh connection that remembers the URL, or the error.
    pub fn established(self, connected: Result<(StreamKind, NetAddr), String>) -> (r: Result<
        Conn,
        String,
    >)
        ensures
            match connected {
                Ok((s, a)) => r matches Ok(c) && {
                    &&& c.url@ == self.url_view()
                    &&& spec_endpoint(c.url@) == Ok::<EndpointView, Seq<char>>(
                        self.endpoint_view(),
                    )
                    &&& c.stream == s
                    &&& c.addr == a
                    &&& c.input@ == Seq::<u8>::empty()
                    &&& c.output@ == Seq::<u8>::empty()
                    &&& !c.close
                    &&& !c.reg_write
                    &&& tag_map(c.tags) == no_tags()
                    &&& c.server_ssl_config is None
                },
                Err(e) => r == Err::<Conn, String>(e),
            },
    {
        proof {
            use_type_invariant(&self);
        }
        match connected {
            Ok((s, a)) => {
                let mut conn = Conn::new(s, a);
                conn.url = self.url;
                Ok(conn)
            },
            Err(e) => Err(e),
        }
    }

    /// Takes up the new stream of a reconnected connection, given what
    /// opening a socket on the endpoint came to: the buffers, flags and
    /// tags start afresh. When opening the socket failed the connection is
    /// left as it was and the error is handed back.
    pub fn reestablish(self, conn: &mut Conn, connected: Result<(StreamKind, NetAddr), String>) -> (r:
        Result<(), String>)
        requires
            self.url_view() == old(conn).url@,
        ensures
            match connected {
                Ok((s, a)) => {
                    &&& r is Ok
                    &&& final(conn).url == old(conn).url
                    &&& final(conn).stream == s
                    &&& final(conn).addr == a
                    &&& final(conn).input@ == Seq::<u8>::empty()
                    &&& final(conn).output@ == Seq::<u8>::empty()
                    &&& !final(conn).close
                    &&& !final(conn).reg_write
                    &&& tag_map(final(conn).tags) == no_tags()
                    &&& final(conn).server_ssl_config == old(conn).server_ssl_config
                },
                Err(e) => r == Err::<(), String>(e) && *final(conn) == *old(conn),
            },
    {
        match connected {
            Ok((s, a)) => {
                conn.close = false;
                conn.input.clear();
                conn.output.clear();
                conn.reg_write = false;
                conn.stream = s;
                conn.addr = a;
                conn.tags.raw_clear();
                Ok(())
            },
            Err(e) => Err(e),
        }
    }
}

/// The state of one connection: where it goes, the bytes waiting to be
/// handled, and its flags.
pub struct Conn {
    /// The URL that the connection was made to (empty for an accepted one).
    pub url: String,
    /// The kind of stream the connection runs on.
    pub stream: StreamKind,
    /// The peer's address.
    pub addr: NetAddr,
    /// Bytes received and not yet consumed.
    pub input: Vec<u8>,
    /// Bytes waiting to be sent.
    pub output: Vec<u8>,
    /// The connection is to be closed.
    pub close: bool,
    /// The connection is registered for writability.
    pub reg_write: bool,
    /// Named values attached to the connection.
    pub tags: TagTable,
    /// The TLS settings that the peer is checked against after a handshake.
    pub server_ssl_config: Option<SSLConfig>,
}

impl Conn {
    /// A connection on a fresh stream: nothing buffered, no flag set, no
    /// tag, no URL and no TLS settings.
    pub fn new(net_conn: StreamKind, net_addr: NetAddr) -> (r: Conn)
        ensures
            r.url@ == Seq::<char>::empty(),
            r.stream == net_conn,
            r.addr == net_addr,
            r.input@ == Seq::<u8>::empty(),
            r.output@ == Seq::<u8>::empty(),
            !r.close,
            !r.reg_write,
            tag_map(r.tags) == no_tags(),
            r.server_ssl_config is None,
    {
        Conn {
            url: String::new(),
            stream: net_conn,
            addr: net_addr,
            close: false,
            reg_write: false,
            input: Vec::with_capacity(32768),
            output: Vec::with_capacity(32768),
            tags: TagTable::raw_with_capacity(2),
            server_ssl_config: None,
        }
    }

    /// An accepted connection has no URL; one made by `connect` has.
    pub fn is_remote_connection(&self) -> (r: bool)
        ensures
            r == (self.url@.len() == 0),
    {
        self.url.as_str().is_empty()
    }

    pub fn get_address(&self) -> (r: &NetAddr)
        ensures
            *r == self.addr,
    {
        &self.addr
    }

    pub fn get_stream(&self) -> (r: &StreamKind)
        ensures
            *r == self.stream,
    {
        &self.stream
    }

    /// Two connections differ at most in their buffers and close flag.
    pub open spec fn same_but_buffers(self, other: Conn) -> bool {
        &&& self.url == other.url
        &&& self.stream == other.stream
        &&& self.addr == other.addr
        &&& self.reg_write == other.reg_write
        &&& self.tags == other.tags
        &&& self.server_ssl_config == other.server_ssl_config
    }

    /// Replaces the bytes waiting to be sent.
    pub fn set_output_buffer(&mut self, output: Vec<u8>)
        ensures
            final(self).output == output,
            final(self).input == old(self).input,
            final(self).close == old(self).close,
            final(self).same_but_buffers(*old(self)),
    {
        self.output = output;
    }

    /// Sets a tag; a tag of the same name is replaced.
    pub fn add_tag(&mut self, tag: &str, tag_val: &str)
        ensures
            tag_map(final(self).tags) == tag_map(old(self).tags).insert(tag@, tag_val@),
            final(self).url == old(self).url,
            final(self).stream == old(self).stream,
            final(self).addr == old(self).addr,
            final(self).input == old(self).input,
            final(self).output == old(self).output,
            final(self).close == old(self).close,
            final(self).reg_write == old(self).reg_write,
            final(self).server_ssl_config == old(self).server_ssl_config,
    {
        let _ = self.tags.raw_insert(tag.to_owned(), tag_val.to_owned());
    }

    /// Where a connection to `addr_url` goes, or why it cannot be made.
    fn connect_internal(addr_url: &str) -> (r: Result<Endpoint, String>)
        ensures
            match r {
                Ok(e) => spec_endpoint(addr_url@) == Ok::<EndpointView, Seq<char>>(e@),
                Err(m) => spec_endpoint(addr_url@) == Err::<EndpointView, Seq<char>>(m@),
            },
    {
        endpoint_of_url(addr_url)
    }

    /// Starts a connection to `addr_url`: the endpoint to open a socket on,
    /// or the message that refuses the URL. A `tcp` URL whose host is not
    /// an IP address literal is outside this function's domain.
    pub fn connect(addr_url: &str) -> (r: Result<PendingConn, String>)
        requires
            url_usable(addr_url@),
        ensures
            match r {
                Ok(p) => p.url_view() == addr_url@ && spec_endpoint(addr_url@) == Ok::<
                    EndpointView,
                    Seq<char>,
                >(p.endpoint_view()),
                Err(m) => spec_endpoint(addr_url@) == Err::<EndpointView, Seq<char>>(m@),
            },
    {
        match Conn::connect_internal(addr_url) {
            Ok(e) => Ok(PendingConn { url: addr_url.to_owned(), endpoint: e }),
            Err(m) => Err(m),
        }
    }

    /// `connect` for any URL: `None` where the URL names a `tcp` host that
    /// is not an IP address literal, else what `connect` gives.
    pub fn try_connect(addr_url: &str) -> (r: Option<Result<PendingConn, String>>)
        ensures
            r is None <==> !url_usable(addr_url@),
            r matches Some(x) ==> match x {
                Ok(p) => p.url_view() == addr_url@ && spec_endpoint(addr_url@) == Ok::<
                    EndpointView,
                    Seq<char>,
                >(p.endpoint_view()),
                Err(m) => spec_endpoint(addr_url@) == Err::<EndpointView, Seq<char>>(m@),
            },
    {
        if url_is_usable(addr_url) {
            Some(Conn::connect(addr_url))
        } else {
            None
        }
    }

    /// Starts reconnecting to the connection's URL: the endpoint to open a
    /// socket on, or the message that refuses the URL. A `tcp` URL whose
    /// host is not an IP address literal is outside this function's domain.
    pub fn reconnect(&self) -> (r: Result<PendingConn, String>)
        requires
            url_usable(self.url@),
        ensures
            match r {
                Ok(p) => p.url_view() == self.url@ && spec_endpoint(self.url@) == Ok::<
                    EndpointView,
                    Seq<char>,
                >(p.endpoint_view()),
                Err(m) => spec_endpoint(self.url@) == Err::<EndpointView, Seq<char>>(m@),
            },
    {
        Conn::connect(self.url.as_str())
    }

    /// `reconnect` for any connection: `None` where its URL names a `tcp`
    /// host that is not an IP address literal, else what `reconnect` gives.
    pub fn try_reconnect(&self) -> (r: Option<Result<PendingConn, String>>)
        ensures
            r is None <==> !url_usable(self.url@),
            r matches Some(x) ==> match x {
                Ok(p) => p.url_view() == self.url@ && spec_endpoint(self.url@) == Ok::<
                    EndpointView,
                    Seq<char>,
                >(p.endpoint_view()),
                Err(m) => spec_endpoint(self.url@) == Err::<EndpointView, Seq<char>>(m@),
            },
    {
        if url_is_usable(self.url.as_str()) {
            Some(self.reconnect())
        } else {
            None
        }
    }

    /// Takes in what a write of the whole output buffer came to. The bytes
    /// that were sent leave the buffer; a reset or other error marks the
    /// connection for closing; a write that would block changes nothing.
    /// Returns whether the connection is to be closed.
    pub fn write(&mut self, outcome: IoOutcome) -> (close: bool)
        ensures
            final(self).same_but_buffers(*old(self)),
            final(self).input == old(self).input,
            match outcome {
                IoOutcome::Done(n) => {
                    &&& final(self).output@ == output_after_write(old(self).output@, n as nat)
                    &&& final(self).close == old(self).close
                },
                IoOutcome::WouldBlock => {
                    &&& final(self).output == old(self).output
                    &&& final(self).close == old(self).close
                },
                _ => {
                    &&& final(self).output == old(self).output
                    &&& final(self).close
                },
            },
            close == final(self).close,
    {
        match outcome {
            IoOutcome::Done(n) => {
                if n < self.output.len() {
                    let rest = self.output.split_off(n);
                    self.output = rest;
                } else {
                    self.output.clear();
                }
            },
            IoOutcome::WouldBlock => {},
            IoOutcome::ConnectionReset => {
                self.close = true;
            },
            IoOutcome::Failed => {
                self.close = true;
            },
        }
        self.close
    }

    /// Takes in what a read into `packet` came to. Bytes read are appended
    /// to the input buffer; a read of no bytes (the peer closed), a reset or
    /// another error marks the connection for closing; a read that would
    /// block changes nothing. Returns whether the connection is to be closed.
    pub fn read(&mut self, packet: &[u8], outcome: IoOutcome) -> (close: bool)
        requires
            outcome matches IoOutcome::Done(n) ==> n <= packet@.len(),
        ensures
            final(self).same_but_buffers(*old(self)),
            final(self).output == old(self).output,
            match outcome {
                IoOutcome::Done(n) => if n == 0 {
                    &&& final(self).input == old(self).input
                    &&& final(self).close
                } else {
                    &&& final(self).input@ == old(self).input@ + packet@.subrange(0, n as int)
                    &&& final(self).close == old(self).close
                },
                IoOutcome::WouldBlock => {
                    &&& final(self).input == old(self).input
                    &&& final(self).close == old(self).close
                },
                _ => {
                    &&& final(self).input == old(self).input
                    &&& final(self).close
                },
            },
            close == final(self).close,
    {
        match outcome {
            IoOutcome::Done(n) => {
                if n == 0 {
                    self.close = true;
                } else {
                    let ghost before = self.input@;
                    let ghost start = *self;
                    let mut i: usize = 0;
                    while i < n
                        invariant
                            i <= n,
                            self.same_but_buffers(start),
                            self.output == start.output,
                            self.close == start.close,
                            n <= packet@.len(),
                            self.input@ == before + packet@.subrange(0, i as int),
                        decreases n - i,
                    {
                        self.input.push(packet[i]);
                        i = i + 1;
                        assert(self.input@ == before + packet@.subrange(0, i as int));
                    }
                }
            },
            IoOutcome::WouldBlock => {},
            IoOutcome::ConnectionReset => {
                self.close = true;
            },
            IoOutcome::Failed => {
                self.close = true;
            },
        }
        self.close
    }

    /// A TLS handshake on the connection has not finished yet.
    pub fn is_ssl_handshake_pending(&self) -> (r: bool)
        ensures
            r == (self.stream == StreamKind::SslMidHandshakeStream),
    {
        match self.stream {
            StreamKind::SslMidHandshakeStream => true,
            _ => false,
        }
    }

    /// Takes the next step of a pending TLS handshake, given what the step
    /// came to. A connection whose handshake is not pending loses its stream
    /// (callers check `is_ssl_handshake_pending` first). A complete handshake turns the stream into a TLS stream once the
    /// peer passes the connection's TLS settings, a handshake that needs more
    /// I/O stays pending, and a failure leaves no stream and an error.
    pub fn ssl_handshake(&mut self, outcome: HandshakeOutcome) -> (r: Result<(), String>)
        ensures
            final(self).url == old(self).url,
            final(self).addr == old(self).addr,
            final(self).input == old(self).input,
            final(self).output == old(self).output,
            final(self).close == old(self).close,
            final(self).reg_write == old(self).reg_write,
            final(self).tags == old(self).tags,
            final(self).server_ssl_config == old(self).server_ssl_config,
            old(self).stream != StreamKind::SslMidHandshakeStream ==> r is Ok && final(self).stream
                == StreamKind::Invalid,
            old(self).stream == StreamKind::SslMidHandshakeStream ==> match spec_handshake(
                old(self).server_ssl_config,
                outcome,
            ) {
                Ok(k) => r is Ok && final(self).stream == k,
                Err(m) => (r matches Err(e) && e@ == m) && final(self).stream
                    == StreamKind::Invalid,
            },
    {
        match self.stream {
            StreamKind::SslMidHandshakeStream => {
                match Server::handshake_result(self.server_ssl_config.as_ref(), &outcome) {
                    Ok(k) => {
                        self.stream = k;
                        Ok(())
                    },
                    Err(e) => {
                        self.stream = StreamKind::Invalid;
                        Err(e)
                    },
                }
            },
            _ => {
                self.stream = StreamKind::Invalid;
                Ok(())
            },
        }
    }

    pub fn get_url(&self) -> (r: &String)
        ensures
            r@ == self.url@,
    {
        &self.url
    }
}

} // verus!
