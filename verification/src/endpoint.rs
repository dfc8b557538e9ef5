use vstd::prelude::*;

verus! {

/// The parts of a parsed URL that an endpoint is made from.
#[derive(Clone, Debug, PartialEq, Eq)]
pub struct UrlParts {
    /// The scheme, lower-cased, without the `:`.
    pub scheme: String,
    /// The host, when the URL has one.
    pub host: Option<String>,
    /// The port, when the URL names one that is not the scheme's default.
    pub port: Option<u16>,
    /// The path.
    pub path: String,
}

/// The value of a [`UrlParts`].
pub struct UrlView {
    pub scheme: Seq<char>,
    pub host: Option<Seq<char>>,
    pub port: Option<u16>,
    pub path: Seq<char>,
}

pub open spec fn opt_string_view(s: Option<String>) -> Option<Seq<char>> {
    match s {
        Some(v) => Some(v@),
        None => None,
    }
}

impl View for UrlParts {
    type V = UrlView;

    open spec fn view(&self) -> UrlView {
        UrlView {
            scheme: self.scheme@,
            host: opt_string_view(self.host),
            port: self.port,
            path: self.path@,
        }
    }
}

/// What the `url` crate's parser makes of a text: its parts, or the text of
/// its error.
pub uninterp spec fn parsed_url(text: Seq<char>) -> Result<UrlView, Seq<char>>;

/// Parses `text` with `url::Url::parse` and reads the scheme, host, port and
/// path of the result (`scheme`, `host_str`, `port`, `path`); an error is
/// turned into its message. The contract claims only that the result is a
/// function of the text, named `parsed_url`.
#[verifier::external_body]
fn parse_url(text: &str) -> (r: Result<UrlParts, String>)
    ensures
        match r {
            Ok(p) => parsed_url(text@) == Ok::<UrlView, Seq<char>>(p@),
            Err(e) => parsed_url(text@) == Err::<UrlView, Seq<char>>(e@),
        },
{
    match url::Url::parse(text) {
        Ok(u) => Ok(UrlParts {
            scheme: u.scheme().to_string(),
            host: u.host_str().map(String::from),
            port: u.port(),
            path: u.path().to_string(),
        }),
        Err(e) => Err(e.to_string()),
    }
}

/// Whether Rust's socket-address parser (`core::net::SocketAddr`'s
/// `FromStr`) accepts a text: an IP address literal and a port.
pub uninterp spec fn socket_addr_parses(text: Seq<char>) -> bool;

/// Parses `text` with `str::parse::<core::net::SocketAddr>`; the contract
/// claims only that whether it succeeds is a function of the text, named
/// `socket_addr_parses`.
#[verifier::external_body]
fn parse_socket_addr(text: &str) -> (r: bool)
    ensures
        r == socket_addr_parses(text@),
{
    match text.parse::<core::net::SocketAddr>() {
        Ok(_) => true,
        Err(_) => false,
    }
}

/// Where a connection goes or a listener binds.
#[derive(Clone, Debug, PartialEq, Eq)]
pub enum Endpoint {
    /// A TCP socket address written as `host:port`.
    Tcp { addr: String },
    /// A unix domain socket path.
    Unix { path: String },
}

/// The value of an [`Endpoint`].
pub enum EndpointView {
    Tcp { addr: Seq<char> },
    Unix { path: Seq<char> },
}

impl View for Endpoint {
    type V = EndpointView;

    open spec fn view(&self) -> EndpointView {
        match self {
            Endpoint::Tcp { addr } => EndpointView::Tcp { addr: addr@ },
            Endpoint::Unix { path } => EndpointView::Unix { path: path@ },
        }
    }
}

pub open spec fn digit_char(d: nat) -> char {
    if d == 0 {
        '0'
    } else if d == 1 {
        '1'
    } else if d == 2 {
        '2'
    } else if d == 3 {
        '3'
    } else if d == 4 {
        '4'
    } else if d == 5 {
        '5'
    } else if d == 6 {
        '6'
    } else if d == 7 {
        '7'
    } else if d == 8 {
        '8'
    } else {
        '9'
    }
}

/// The decimal digits of `n`, most significant first, with no leading zero.
pub open spec fn decimal(n: nat) -> Seq<char>
    decreases n,
{
    if n < 10 {
        seq![digit_char(n)]
    } else {
        decimal(n / 10).push(digit_char(n % 10))
    }
}

/// The number a string of decimal digits stands for, most significant digit
/// first, each character counted by its code's distance from `'0'`.
pub open spec fn numeral_value(s: Seq<char>) -> int
    decreases s.len(),
{
    if s.len() == 0 {
        0
    } else {
        numeral_value(s.drop_last()) * 10 + (s.last() as int - '0' as int)
    }
}

/// A character is one of the ten decimal digits.
pub open spec fn is_digit(c: char) -> bool {
    '0' as int <= c as int <= '9' as int
}

/// Each digit is the character whose code is `'0'` plus its value.
pub proof fn lemma_digit_char_code(d: nat)
    requires
        d < 10,
    ensures
        digit_char(d) as int == '0' as int + d,
{
}

/// The decimal text of a number is its standard numeral: made of digits
/// only, with no leading zero (unless the number is zero), and it reads
/// back as the number.
pub proof fn lemma_decimal_reads_back(n: nat)
    ensures
        decimal(n).len() > 0,
        forall|i: int| 0 <= i < decimal(n).len() ==> is_digit(#[trigger] decimal(n)[i]),
        n > 0 ==> decimal(n)[0] != '0',
        numeral_value(decimal(n)) == n,
    decreases n,
{
    if n < 10 {
        lemma_digit_char_code(n);
        assert(decimal(n) == seq![digit_char(n)]);
        assert(decimal(n).drop_last() =~= Seq::<char>::empty());
        assert(numeral_value(Seq::<char>::empty()) == 0);
        assert(numeral_value(decimal(n)) == 0 * 10 + (digit_char(n) as int - '0' as int));
    } else {
        lemma_decimal_reads_back(n / 10);
        lemma_digit_char_code(n % 10);
        let s = decimal(n);
        assert(s == decimal(n / 10).push(digit_char(n % 10)));
        assert(s.drop_last() =~= decimal(n / 10));
        assert forall|i: int| 0 <= i < s.len() implies is_digit(#[trigger] s[i]) by {
            if i < s.len() - 1 {
                assert(s[i] == decimal(n / 10)[i]);
            }
        }
        assert(s[0] == decimal(n / 10)[0]);
        assert(numeral_value(s) == numeral_value(decimal(n / 10)) * 10 + (n % 10));
        assert((n / 10) * 10 + n % 10 == n);
    }
}

/// A `tcp` endpoint is the URL's host, a colon, and the port's standard
/// decimal numeral, which reads back as the port.
pub proof fn lemma_tcp_endpoint_names_port(u: UrlView)
    requires
        endpoint_of_view(u) matches Ok(EndpointView::Tcp { .. }),
    ensures
        u.scheme == "tcp"@,
        u.host is Some,
        u.port is Some,
        ({
            let addr = endpoint_of_view(u)->Ok_0->Tcp_addr;
            let t = addr.subrange(u.host->0.len() as int + 1, addr.len() as int);
            &&& addr.subrange(0, u.host->0.len() as int) == u.host->0
            &&& addr[u.host->0.len() as int] == ':'
            &&& numeral_value(t) == u.port->0 as int
            &&& forall|i: int| 0 <= i < t.len() ==> is_digit(#[trigger] t[i])
        }),
{
    reveal_strlit(":");
    let h = u.host->0;
    let p = u.port->0;
    lemma_decimal_reads_back(p as nat);
    let addr = h + ":"@ + decimal(p as nat);
    assert(addr.subrange(0, h.len() as int) =~= h);
    assert(addr.subrange(h.len() as int + 1, addr.len() as int) =~= decimal(p as nat));
}

pub open spec fn host_missing_msg() -> Seq<char> {
    "Invalid Url.  It must have host defined. e.g. tcp://host:port"@
}

pub open spec fn port_missing_msg() -> Seq<char> {
    "Invalid Url.  It must have port defined. e.g. tcp://host:port"@
}

pub open spec fn bad_scheme_msg() -> Seq<char> {
    "Unsupported scheme. Valid schemes are unix and tcp"@
}

/// The endpoint that a URL text names: a `tcp` URL with a host and a port
/// gives `host:port`, a `unix` URL gives its path, and anything else is
/// refused with a message.
pub open spec fn spec_endpoint(text: Seq<char>) -> Result<EndpointView, Seq<char>> {
    match parsed_url(text) {
        Err(e) => Err(e),
        Ok(u) => endpoint_of_view(u),
    }
}

/// The endpoint that the parts of a parsed URL name: a `tcp` URL with a host
/// and a port gives `host:port`, a `unix` URL gives its path, and anything
/// else is refused with a message.
pub open spec fn endpoint_of_view(u: UrlView) -> Result<EndpointView, Seq<char>> {
    if u.scheme == "tcp"@ {
        match u.host {
            None => Err(host_missing_msg()),
            Some(h) => match u.port {
                None => Err(port_missing_msg()),
                Some(p) => Ok(EndpointView::Tcp { addr: h + ":"@ + decimal(p as nat) }),
            },
        }
    } else if u.scheme == "unix"@ {
        Ok(EndpointView::Unix { path: u.path })
    } else {
        Err(bad_scheme_msg())
    }
}

/// An endpoint that a socket can be opened on: a TCP address must be an IP
/// address literal with a port.
pub open spec fn endpoint_usable(e: EndpointView) -> bool {
    match e {
        EndpointView::Tcp { addr } => socket_addr_parses(addr),
        EndpointView::Unix { .. } => true,
    }
}

/// A URL that is either refused with a message or names a usable endpoint.
pub open spec fn url_usable(text: Seq<char>) -> bool {
    match spec_endpoint(text) {
        Ok(e) => endpoint_usable(e),
        Err(_) => true,
    }
}

/// Whether a socket can be opened on the endpoint.
pub fn endpoint_is_usable(e: &Endpoint) -> (r: bool)
    ensures
        r == endpoint_usable(e@),
{
    match e {
        Endpoint::Tcp { addr } => parse_socket_addr(addr.as_str()),
        Endpoint::Unix { .. } => true,
    }
}

/// Whether `addr_url` is refused with a message or names a usable endpoint.
pub fn url_is_usable(addr_url: &str) -> (r: bool)
    ensures
        r == url_usable(addr_url@),
{
    match endpoint_of_url(addr_url) {
        Ok(e) => endpoint_is_usable(&e),
        Err(_) => true,
    }
}

fn digit_text(d: u16) -> (s: &'static str)
    requires
        d < 10,
    ensures
        s@ == seq![digit_char(d as nat)],
{
    proof {
        reveal_strlit("0");
        reveal_strlit("1");
        reveal_strlit("2");
        reveal_strlit("3");
        reveal_strlit("4");
        reveal_strlit("5");
        reveal_strlit("6");
        reveal_strlit("7");
        reveal_strlit("8");
        reveal_strlit("9");
    }
    if d == 0 {
        "0"
    } else if d == 1 {
        "1"
    } else if d == 2 {
        "2"
    } else if d == 3 {
        "3"
    } else if d == 4 {
        "4"
    } else if d == 5 {
        "5"
    } else if d == 6 {
        "6"
    } else if d == 7 {
        "7"
    } else if d == 8 {
        "8"
    } else {
        "9"
    }
}

/// The decimal text of a port number.
pub fn port_text(p: u16) -> (r: String)
    ensures
        r@ == decimal(p as nat),
        numeral_value(r@) == p as int,
        r@.len() > 0,
        forall|i: int| 0 <= i < r@.len() ==> is_digit(#[trigger] r@[i]),
        p > 0 ==> r@[0] != '0',
    decreases p,
{
    proof {
        lemma_decimal_reads_back(p as nat);
    }
    if p < 10 {
        digit_text(p).to_owned()
    } else {
        let head = port_text(p / 10);
        let tail = digit_text(p % 10);
        let r = head.concat(tail);
        r
    }
}

/// Tells whether two strings hold the same text.
fn same_text(a: &String, b: &str) -> (r: bool)
    ensures
        r == (a@ == b@),
{
    let b2 = b.to_owned();
    *a == b2
}

/// The endpoint that `addr_url` names, or the message that refuses it.
pub fn endpoint_of_url(addr_url: &str) -> (r: Result<Endpoint, String>)
    ensures
        match r {
            Ok(e) => spec_endpoint(addr_url@) == Ok::<EndpointView, Seq<char>>(e@),
            Err(m) => spec_endpoint(addr_url@) == Err::<EndpointView, Seq<char>>(m@),
        },
{
    match parse_url(addr_url) {
        Ok(p) => endpoint_of_parts(p),
        Err(e) => Err(e),
    }
}

/// The endpoint that the parts of a parsed URL name, or the message that
/// refuses them.
pub fn endpoint_of_parts(parts: UrlParts) -> (r: Result<Endpoint, String>)
    ensures
        match r {
            Ok(e) => endpoint_of_view(parts@) == Ok::<EndpointView, Seq<char>>(e@),
            Err(m) => endpoint_of_view(parts@) == Err::<EndpointView, Seq<char>>(m@),
        },
{
    proof {
        reveal_strlit("tcp");
        reveal_strlit("unix");
        reveal_strlit(":");
        reveal_strlit("Invalid Url.  It must have host defined. e.g. tcp://host:port");
        reveal_strlit("Invalid Url.  It must have port defined. e.g. tcp://host:port");
        reveal_strlit("Unsupported scheme. Valid schemes are unix and tcp");
    }
    if same_text(&parts.scheme, "tcp") {
        let host = match parts.host {
            Some(h) => h,
            None => {
                return Err(
                    "Invalid Url.  It must have host defined. e.g. tcp://host:port".to_owned(),
                );
            },
        };
        let port = match parts.port {
            Some(p) => p,
            None => {
                return Err(
                    "Invalid Url.  It must have port defined. e.g. tcp://host:port".to_owned(),
                );
            },
        };
        let addr = host.concat(":").concat(port_text(port).as_str());
        Ok(Endpoint::Tcp { addr })
    } else if same_text(&parts.scheme, "unix") {
        Ok(Endpoint::Unix { path: parts.path })
    } else {
        Err("Unsupported scheme. Valid schemes are unix and tcp".to_owned())
    }
}

} // verus!
