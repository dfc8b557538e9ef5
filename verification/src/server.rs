use vstd::prelude::*;

use crate::config::{GaduConfig, SSLConfig};
use crate::conn::{Conn, NetAddr, StreamKind};
use crate::endpoint::{
    endpoint_of_url, endpoint_usable, spec_endpoint, url_is_usable, url_usable, Endpoint,
    EndpointView,
};
use crate::tables::{no_tags, tag_map};

verus! {

/// One common-name entry of a peer certificate's subject.
#[derive(Clone, Debug, PartialEq, Eq)]
pub struct CnEntry {
    /// The short name of the entry's object, when it has one.
    pub short_name: Option<String>,
    /// The entry's data as UTF-8, when it is valid UTF-8.
    pub data: Option<String>,
}

pub open spec fn text_or_empty(s: Option<String>) -> Seq<char> {
    match s {
        Some(v) => v@,
        None => Seq::empty(),
    }
}

/// The text of one entry: `short=data`.
pub open spec fn entry_text(e: CnEntry) -> Seq<char> {
    text_or_empty(e.short_name) + "="@ + text_or_empty(e.data)
}

/// The name a peer is known by: the texts of its common-name entries, one
/// after another.
pub open spec fn friendly_name(entries: Seq<CnEntry>) -> Seq<char>
    decreases entries.len(),
{
    if entries.len() == 0 {
        Seq::empty()
    } else {
        friendly_name(entries.drop_last()) + entry_text(entries.last())
    }
}

pub open spec fn no_cert_msg() -> Seq<char> {
    "ERR No certificate was provided\r\n"@
}

pub open spec fn auth_failed_msg(cn: Seq<char>) -> Seq<char> {
    "ERR Client SSL Authentication failed for CN: "@ + cn + " \r\n"@
}

pub open spec fn ssl_error_msg(detail: Seq<char>) -> Seq<char> {
    "An SSL error occurred."@ + detail
}

/// A name is among the allowed ones.
pub open spec fn cn_allowed(cns: Seq<String>, cn: Seq<char>) -> bool {
    exists|i: int| 0 <= i < cns.len() && #[trigger] cns[i]@ == cn
}

/// Whether a peer with these certificate entries (none: no certificate) may
/// connect: it must present a certificate with a common name, and that name
/// must be allowed when a list of names is configured.
pub open spec fn spec_validate(cfg: SSLConfig, peer: Option<Seq<CnEntry>>) -> Result<(), Seq<char>> {
    match peer {
        None => Err(no_cert_msg()),
        Some(es) => {
            let cn = friendly_name(es);
            if cn.len() == 0 {
                Err(no_cert_msg())
            } else {
                match cfg.valid_cns {
                    None => Ok(()),
                    Some(v) => if cn_allowed(v@, cn) {
                        Ok(())
                    } else {
                        Err(auth_failed_msg(cn))
                    },
                }
            }
        },
    }
}

/// A peer is admitted exactly when it presented a certificate whose
/// friendly name is not empty and, when names are listed, equals one of
/// them character for character. A peer with a name that is refused gets
/// the message that names it.
pub proof fn lemma_validate_exact(cfg: SSLConfig, peer: Option<Seq<CnEntry>>)
    ensures
        spec_validate(cfg, peer) is Ok <==> (peer matches Some(es) && friendly_name(es).len() > 0
            && (cfg.valid_cns matches Some(v) ==> exists|i: int|
            0 <= i < v@.len() && #[trigger] v@[i]@ == friendly_name(es))),
        peer is None ==> spec_validate(cfg, peer) == Err::<(), Seq<char>>(no_cert_msg()),
        (peer matches Some(es) && friendly_name(es).len() > 0 && spec_validate(cfg, peer) is Err)
            ==> spec_validate(cfg, peer) == Err::<(), Seq<char>>(
            "ERR Client SSL Authentication failed for CN: "@ + friendly_name(peer->0) + " \r\n"@,
        ),
{
}

/// The friendly name of a list of entries is the friendly names of its
/// parts, one after the other.
pub proof fn lemma_friendly_name_concat(a: Seq<CnEntry>, b: Seq<CnEntry>)
    ensures
        friendly_name(a + b) == friendly_name(a) + friendly_name(b),
    decreases b.len(),
{
    if b.len() == 0 {
        assert(a + b =~= a);
        assert(friendly_name(b) =~= Seq::<char>::empty());
    } else {
        lemma_friendly_name_concat(a, b.drop_last());
        assert((a + b).drop_last() =~= a + b.drop_last());
        assert((a + b).last() == b.last());
    }
}

/// A single entry with a short name and data is known as `short=data`.
pub proof fn lemma_friendly_name_single(e: CnEntry)
    requires
        e.short_name is Some,
        e.data is Some,
    ensures
        friendly_name(seq![e]) == e.short_name->0@ + "="@ + e.data->0@,
{
    assert(seq![e].drop_last() =~= Seq::<CnEntry>::empty());
    assert(friendly_name(Seq::<CnEntry>::empty()) =~= Seq::<char>::empty());
    assert(Seq::<char>::empty() + (e.short_name->0@ + "="@ + e.data->0@) =~= e.short_name->0@ + "="@ + e.data->0@);
}

pub open spec fn peer_view(peer: Option<Vec<CnEntry>>) -> Option<Seq<CnEntry>> {
    match peer {
        Some(v) => Some(v@),
        None => None,
    }
}

/// What a TLS handshake step came to.
#[derive(Clone, Debug, PartialEq, Eq)]
pub enum HandshakeOutcome {
    /// The handshake is complete; the common-name entries of the peer's
    /// certificate, or `None` when the peer sent no certificate.
    Done(Option<Vec<CnEntry>>),
    /// The handshake needs more I/O.
    WouldBlock,
    /// The handshake failed with this message.
    Failed(String),
}

/// The stream that a handshake step leaves, or the error it ends in. A
/// complete handshake is checked against the settings when there are some.
pub open spec fn spec_handshake(cfg: Option<SSLConfig>, outcome: HandshakeOutcome) -> Result<
    StreamKind,
    Seq<char>,
> {
    match outcome {
        HandshakeOutcome::Done(peer) => match cfg {
            None => Ok(StreamKind::SslTcpStream),
            Some(c) => match spec_validate(c, peer_view(peer)) {
                Ok(_) => Ok(StreamKind::SslTcpStream),
                Err(e) => Err(ssl_error_msg(e)),
            },
        },
        HandshakeOutcome::WouldBlock => Ok(StreamKind::SslMidHandshakeStream),
        HandshakeOutcome::Failed(m) => Err(ssl_error_msg(m@)),
    }
}

/// A handshake checked against TLS settings ends in a TLS stream only when
/// it completed and the peer passed validation.
pub proof fn lemma_tls_stream_only_after_validation(cfg: SSLConfig, outcome: HandshakeOutcome)
    requires
        spec_handshake(Some(cfg), outcome) == Ok::<StreamKind, Seq<char>>(
            StreamKind::SslTcpStream,
        ),
    ensures
        outcome matches HandshakeOutcome::Done(peer) && spec_validate(cfg, peer_view(peer)) is Ok,
{
}

/// A handshake step that needs more I/O leaves the handshake pending; a
/// complete one gives a TLS stream when there are no settings to check or
/// the peer passes them; every error begins with "An SSL error occurred."
/// and carries the handshake's own message or the validation's.
pub proof fn lemma_handshake_outcomes(cfg: Option<SSLConfig>, outcome: HandshakeOutcome)
    ensures
        outcome is WouldBlock ==> spec_handshake(cfg, outcome) == Ok::<StreamKind, Seq<char>>(
            StreamKind::SslMidHandshakeStream,
        ),
        (outcome is Done && cfg is None) ==> spec_handshake(cfg, outcome) == Ok::<
            StreamKind,
            Seq<char>,
        >(StreamKind::SslTcpStream),
        outcome matches HandshakeOutcome::Done(peer) ==> (cfg matches Some(c) ==> (spec_validate(
            c,
            peer_view(peer),
        ) is Ok ==> spec_handshake(cfg, outcome) == Ok::<StreamKind, Seq<char>>(
            StreamKind::SslTcpStream,
        ))),
        outcome matches HandshakeOutcome::Done(peer) ==> (cfg matches Some(c) ==> (spec_validate(
            c,
            peer_view(peer),
        ) matches Err(e) ==> spec_handshake(cfg, outcome) == Err::<StreamKind, Seq<char>>(
            "An SSL error occurred."@ + e,
        ))),
        outcome matches HandshakeOutcome::Failed(m) ==> spec_handshake(cfg, outcome) == Err::<
            StreamKind,
            Seq<char>,
        >("An SSL error occurred."@ + m@),
{
}

/// The listener follows the URL's scheme and the TLS switch: a unix
/// socket listener for a `unix` URL, a TLS listener for a `tcp` URL with
/// TLS enabled, a plain TCP listener for a `tcp` URL without; an acceptor is
/// built exactly when TLS is enabled.
pub proof fn lemma_listen_plan_listener(config: GaduConfig)
    ensures
        spec_listen_plan(config) is Ok <==> spec_endpoint(config.url@) is Ok,
        spec_listen_plan(config) matches Ok((ep, kind, acc)) ==> {
            &&& spec_endpoint(config.url@) == Ok::<EndpointView, Seq<char>>(ep)
            &&& acc == config.ssl_config.enabled
            &&& (kind == NetListener::UdsListener <==> ep is Unix)
            &&& (kind == NetListener::SslTcpListener <==> (ep is Tcp
                && config.ssl_config.enabled))
            &&& (kind == NetListener::UnsecuredTcpListener <==> (ep is Tcp
                && !config.ssl_config.enabled))
        },
        spec_endpoint(config.url@) matches Err(m) ==> spec_listen_plan(config) == Err::<
            (EndpointView, NetListener, bool),
            Seq<char>,
        >(m),
{
}

/// With an empty list of allowed names, every peer is refused.
pub proof fn lemma_empty_name_list_refuses(cfg: SSLConfig, peer: Option<Seq<CnEntry>>)
    requires
        cfg.valid_cns matches Some(v) && v@.len() == 0,
    ensures
        spec_validate(cfg, peer) is Err,
{
}

/// The kind of listener a server runs.
#[derive(Clone, Copy, Debug, PartialEq, Eq, Structural)]
pub enum NetListener {
    UnsecuredTcpListener,
    SslTcpListener,
    UdsListener,
}

/// How a server is to be set up: where it listens, on what kind of
/// listener, and whether a TLS acceptor is to be built.
#[derive(Clone, Debug, PartialEq, Eq)]
pub struct ListenPlan {
    pub endpoint: Endpoint,
    pub listener: NetListener,
    pub build_acceptor: bool,
}

/// One step of setting up a TLS acceptor.
#[derive(Clone, Debug, PartialEq, Eq)]
pub enum AcceptorStep {
    SetDefaultVerifyPaths,
    SetModeAutoRetry,
    /// Ask for the peer's certificate and accept any (self-signed too).
    VerifyPeerAcceptingAll,
    VerifyNone,
    SetVerifyDepth(u32),
    SetCertificateChainFile(String),
    SetPrivateKeyFile(String),
    CheckPrivateKey,
    SetCaFile(String),
}

/// The value of an [`AcceptorStep`].
pub enum AcceptorStepView {
    SetDefaultVerifyPaths,
    SetModeAutoRetry,
    VerifyPeerAcceptingAll,
    VerifyNone,
    SetVerifyDepth(u32),
    SetCertificateChainFile(Seq<char>),
    SetPrivateKeyFile(Seq<char>),
    CheckPrivateKey,
    SetCaFile(Seq<char>),
}

impl View for AcceptorStep {
    type V = AcceptorStepView;

    open spec fn view(&self) -> AcceptorStepView {
        match self {
            AcceptorStep::SetDefaultVerifyPaths => AcceptorStepView::SetDefaultVerifyPaths,
            AcceptorStep::SetModeAutoRetry => AcceptorStepView::SetModeAutoRetry,
            AcceptorStep::VerifyPeerAcceptingAll => AcceptorStepView::VerifyPeerAcceptingAll,
            AcceptorStep::VerifyNone => AcceptorStepView::VerifyNone,
            AcceptorStep::SetVerifyDepth(d) => AcceptorStepView::SetVerifyDepth(*d),
            AcceptorStep::SetCertificateChainFile(f) => AcceptorStepView::SetCertificateChainFile(
                f@,
            ),
            AcceptorStep::SetPrivateKeyFile(f) => AcceptorStepView::SetPrivateKeyFile(f@),
            AcceptorStep::CheckPrivateKey => AcceptorStepView::CheckPrivateKey,
            AcceptorStep::SetCaFile(f) => AcceptorStepView::SetCaFile(f@),
        }
    }
}

pub open spec fn steps_view(s: Seq<AcceptorStep>) -> Seq<AcceptorStepView> {
    s.map_values(|x: AcceptorStep| x@)
}

/// The steps that set up a TLS acceptor for these settings, in order:
/// default verify paths, auto-retry mode, peer verification (accepting any
/// certificate) or none, the verify depth when it is positive, then the
/// certificate chain file, the private key file with a check of the key,
/// and the CA file, each when it is configured.
pub open spec fn acceptor_plan(cfg: SSLConfig) -> Seq<AcceptorStepView> {
    let base = seq![AcceptorStepView::SetDefaultVerifyPaths, AcceptorStepView::SetModeAutoRetry];
    let verify = if cfg.verify == Some(true) {
        seq![AcceptorStepView::VerifyPeerAcceptingAll]
    } else {
        seq![AcceptorStepView::VerifyNone]
    };
    let depth = match cfg.verify_depth {
        Some(d) => if d > 0 {
            seq![AcceptorStepView::SetVerifyDepth(d)]
        } else {
            Seq::empty()
        },
        None => Seq::empty(),
    };
    let cert = match cfg.certificate_file {
        Some(f) => seq![AcceptorStepView::SetCertificateChainFile(f@)],
        None => Seq::empty(),
    };
    let key = match cfg.private_key_file {
        Some(f) => seq![AcceptorStepView::SetPrivateKeyFile(f@), AcceptorStepView::CheckPrivateKey],
        None => Seq::empty(),
    };
    let ca = match cfg.ca_file {
        Some(f) => seq![AcceptorStepView::SetCaFile(f@)],
        None => Seq::empty(),
    };
    base + verify + depth + cert + key + ca
}

/// The set-up steps start with the default verify paths and auto-retry
/// mode; the third step, and only it, sets verification, and it asks for the
/// peer's certificate exactly when the settings say `verify: Some(true)`,
/// whatever the files and depth are. The verify depth is set exactly when
/// it is positive, each configured file is set, and the private key is
/// checked right after it is set.
pub proof fn lemma_acceptor_plan_shape(cfg: SSLConfig)
    ensures
        ({
            let p = acceptor_plan(cfg);
            &&& p.len() >= 3
            &&& p[0] == AcceptorStepView::SetDefaultVerifyPaths
            &&& p[1] == AcceptorStepView::SetModeAutoRetry
            &&& p[2] == (if cfg.verify == Some(true) {
                AcceptorStepView::VerifyPeerAcceptingAll
            } else {
                AcceptorStepView::VerifyNone
            })
            &&& forall|i: int|
                0 <= i < p.len() && i != 2 ==> #[trigger] p[i] != AcceptorStepView::VerifyPeerAcceptingAll
                    && p[i] != AcceptorStepView::VerifyNone
            &&& (exists|i: int| 0 <= i < p.len() && #[trigger] p[i] == AcceptorStepView::SetVerifyDepth(
                cfg.verify_depth->0,
            )) <== (cfg.verify_depth matches Some(d) && d > 0)
            &&& (forall|i: int| 0 <= i < p.len() && #[trigger] p[i] is SetVerifyDepth
                ==> cfg.verify_depth == Some(p[i]->SetVerifyDepth_0) && p[i]->SetVerifyDepth_0 > 0)
            &&& (forall|i: int| 0 <= i < p.len() && #[trigger] p[i] == AcceptorStepView::SetPrivateKeyFile(
                cfg.private_key_file->0@,
            ) ==> i + 1 < p.len() && p[i + 1] == AcceptorStepView::CheckPrivateKey)
            &&& p.len() == 3 + (if cfg.verify_depth matches Some(d) && d > 0 { 1int } else { 0 })
                + (if cfg.certificate_file is Some { 1int } else { 0 })
                + (if cfg.private_key_file is Some { 2int } else { 0 })
                + (if cfg.ca_file is Some { 1int } else { 0 })
        }),
{
    let p = acceptor_plan(cfg);
    match cfg.verify_depth {
        Some(d) => {
            if d > 0 {
                assert(p[3] == AcceptorStepView::SetVerifyDepth(d));
            }
        },
        None => {},
    }
}

/// A listening server: the token of its listener, its settings and the
/// kind of listener it runs.
pub struct Server {
    pub id: usize,
    pub config: GaduConfig,
    pub server: NetListener,
    /// How long one wait for new connections lasts, in milliseconds.
    pub poll_timeout_ms: u64,
}


fn opt_text(s: &Option<String>) -> (r: &str)
    ensures
        r@ == text_or_empty(*s),
{
    proof {
        reveal_strlit("");
    }
    match s {
        Some(v) => v.as_str(),
        None => "",
    }
}

/// The name a peer is known by, from its certificate's common-name entries.
fn get_friendly_name(entries: &Vec<CnEntry>) -> (r: String)
    ensures
        r@ == friendly_name(entries@),
{
    proof {
        reveal_strlit("=");
    }
    let mut name = String::new();
    let mut i: usize = 0;
    while i < entries.len()
        invariant
            i <= entries@.len(),
            name@ == friendly_name(entries@.subrange(0, i as int)),
        decreases entries.len() - i,
    {
        let e = &entries[i];
        name = name.concat(opt_text(&e.short_name)).concat("=").concat(opt_text(&e.data));
        proof {
            let s = entries@.subrange(0, i + 1);
            assert(s.drop_last() == entries@.subrange(0, i as int));
            assert(s.last() == entries@[i as int]);
        }
        i = i + 1;
    }
    assert(entries@.subrange(0, entries@.len() as int) == entries@);
    name
}

/// Whether a name is in the list.
fn contains_name(cns: &Vec<String>, cn: &String) -> (r: bool)
    ensures
        r == cn_allowed(cns@, cn@),
{
    let mut i: usize = 0;
    while i < cns.len()
        invariant
            i <= cns@.len(),
            forall|j: int| 0 <= j < i ==> cns@[j]@ != cn@,
        decreases cns.len() - i,
    {
        if cns[i] == *cn {
            return true;
        }
        i = i + 1;
    }
    false
}

/// How a server with these settings is to be set up: a `tcp` URL gives a
/// TCP listener (a TLS one when TLS is enabled), a `unix` URL a unix domain
/// socket listener; an acceptor is built whenever TLS is enabled.
pub open spec fn spec_listen_plan(config: GaduConfig) -> Result<(EndpointView, NetListener, bool), Seq<char>> {
    match spec_endpoint(config.url@) {
        Err(e) => Err(e),
        Ok(ep) => {
            let kind = match ep {
                EndpointView::Tcp { .. } => if config.ssl_config.enabled {
                    NetListener::SslTcpListener
                } else {
                    NetListener::UnsecuredTcpListener
                },
                EndpointView::Unix { .. } => NetListener::UdsListener,
            };
            Ok((ep, kind, config.ssl_config.enabled))
        },
    }
}

impl Server {
    /// How a server with these settings is to be set up, or why it cannot
    /// be.
    pub fn listen_plan(config: &GaduConfig) -> (r: Result<ListenPlan, String>)
        ensures
            match r {
                Ok(p) => spec_listen_plan(*config) == Ok::<(EndpointView, NetListener, bool), Seq<char>>((p.endpoint@, p.listener, p.build_acceptor)),
                Err(m) => spec_listen_plan(*config) == Err::<(EndpointView, NetListener, bool), Seq<char>>(m@),
            },
    {
        let endpoint = match endpoint_of_url(config.url.as_str()) {
            Ok(e) => e,
            Err(m) => {
                return Err(m);
            },
        };
        let listener = match &endpoint {
            Endpoint::Tcp { .. } => if config.ssl_config.enabled {
                NetListener::SslTcpListener
            } else {
                NetListener::UnsecuredTcpListener
            },
            Endpoint::Unix { .. } => NetListener::UdsListener,
        };
        Ok(ListenPlan { endpoint, listener, build_acceptor: config.ssl_config.enabled })
    }

    /// Sets up a server with the given token: from the settings' URL, the
    /// endpoint to bind, the kind of listener and whether to build a TLS
    /// acceptor (see `spec_listen_plan`), and the server that listens on
    /// it, with a copy of the settings and a 250 ms wait for connections;
    /// or the message that refuses the URL. A `tcp` URL whose host is not
    /// an IP address literal is outside this function's domain.
    pub fn init(token_id: usize, config: &GaduConfig) -> (r: Result<(Server, ListenPlan), String>)
        requires
            url_usable(config.url@),
        ensures
            match r {
                Ok((s, p)) => {
                    &&& spec_listen_plan(*config) == Ok::<
                        (EndpointView, NetListener, bool),
                        Seq<char>,
                    >((p.endpoint@, p.listener, p.build_acceptor))
                    &&& endpoint_usable(p.endpoint@)
                    &&& s.id == token_id
                    &&& s.config.same_settings(*config)
                    &&& s.config.url@ == config.url@
                    &&& s.config.read_timeout == config.read_timeout
                    &&& s.config.write_timeout == config.write_timeout
                    &&& s.config.keep_alive_time == config.keep_alive_time
                    &&& s.config.ssl_config.enabled == config.ssl_config.enabled
                    &&& s.config.ssl_config.verify == config.ssl_config.verify
                    &&& s.config.ssl_config.verify_depth == config.ssl_config.verify_depth
                    &&& s.config.ssl_config.certificate_file == config.ssl_config.certificate_file
                    &&& s.config.ssl_config.private_key_file == config.ssl_config.private_key_file
                    &&& s.config.ssl_config.ca_file == config.ssl_config.ca_file
                    &&& s.server == p.listener
                    &&& s.poll_timeout_ms == 250
                },
                Err(m) => spec_listen_plan(*config) == Err::<
                    (EndpointView, NetListener, bool),
                    Seq<char>,
                >(m@),
            },
    {
        match Server::listen_plan(config) {
            Ok(plan) => {
                let server = Server {
                    id: token_id,
                    config: config.duplicate(),
                    server: plan.listener,
                    poll_timeout_ms: 250,
                };
                Ok((server, plan))
            },
            Err(m) => Err(m),
        }
    }

    /// `init` for any settings: `None` where the URL names a `tcp` host
    /// that is not an IP address literal, else what `init` gives.
    pub fn try_init(token_id: usize, config: &GaduConfig) -> (r: Option<
        Result<(Server, ListenPlan), String>,
    >)
        ensures
            r is None <==> !url_usable(config.url@),
            r matches Some(x) ==> match x {
                Ok((s, p)) => {
                    &&& spec_listen_plan(*config) == Ok::<
                        (EndpointView, NetListener, bool),
                        Seq<char>,
                    >((p.endpoint@, p.listener, p.build_acceptor))
                    &&& endpoint_usable(p.endpoint@)
                    &&& s.id == token_id
                    &&& s.config.same_settings(*config)
                    &&& s.config.url@ == config.url@
                    &&& s.config.read_timeout == config.read_timeout
                    &&& s.config.write_timeout == config.write_timeout
                    &&& s.config.keep_alive_time == config.keep_alive_time
                    &&& s.config.ssl_config.enabled == config.ssl_config.enabled
                    &&& s.config.ssl_config.verify == config.ssl_config.verify
                    &&& s.config.ssl_config.verify_depth == config.ssl_config.verify_depth
                    &&& s.config.ssl_config.certificate_file == config.ssl_config.certificate_file
                    &&& s.config.ssl_config.private_key_file == config.ssl_config.private_key_file
                    &&& s.config.ssl_config.ca_file == config.ssl_config.ca_file
                    &&& s.server == p.listener
                    &&& s.poll_timeout_ms == 250
                },
                Err(m) => spec_listen_plan(*config) == Err::<
                    (EndpointView, NetListener, bool),
                    Seq<char>,
                >(m@),
            },
    {
        if url_is_usable(config.url.as_str()) {
            Some(Server::init(token_id, config))
        } else {
            None
        }
    }

    /// The connection for a newly accepted stream; on a TLS server it
    /// carries a copy of the TLS settings so that its handshake can be
    /// checked.
    pub fn accept_connection(&self, net_stream: StreamKind, net_addr: NetAddr) -> (r: Conn)
        ensures
            r.url@ == Seq::<char>::empty(),
            r.stream == net_stream,
            r.addr == net_addr,
            r.input@ == Seq::<u8>::empty(),
            r.output@ == Seq::<u8>::empty(),
            !r.close,
            !r.reg_write,
            tag_map(r.tags) == no_tags(),
            match r.server_ssl_config {
                Some(c) => self.config.ssl_config.enabled && c.same_settings(self.config.ssl_config),
                None => !self.config.ssl_config.enabled,
            },
    {
        let mut conn = Conn::new(net_stream, net_addr);
        if self.config.ssl_config.enabled {
            conn.server_ssl_config = Some(self.config.ssl_config.duplicate());
        }
        conn
    }

    /// The stream of a newly accepted TLS connection, given what its first
    /// handshake step came to, checked against the server's TLS settings.
    pub fn accept_ssl_connection(&self, outcome: &HandshakeOutcome, addr: NetAddr) -> (r: Result<
        (StreamKind, NetAddr),
        String,
    >)
        ensures
            match r {
                Ok((k, a)) => a == addr && spec_handshake(Some(self.config.ssl_config), *outcome)
                    == Ok::<StreamKind, Seq<char>>(k),
                Err(m) => spec_handshake(Some(self.config.ssl_config), *outcome) == Err::<
                    StreamKind,
                    Seq<char>,
                >(m@),
            },
    {
        match Server::handshake_result(Some(&self.config.ssl_config), outcome) {
            Ok(k) => Ok((k, addr)),
            Err(m) => Err(m),
        }
    }

    /// Checks the certificate that a TLS peer presented: its common-name
    /// entries, or `None` when it presented none. The peer must have a
    /// certificate with a common name, and when the settings list allowed
    /// names, the name must be among them.
    pub fn validate_ssl_connection(ssl_config: &SSLConfig, peer: &Option<Vec<CnEntry>>) -> (r:
        Result<(), String>)
        ensures
            match r {
                Ok(_) => spec_validate(*ssl_config, peer_view(*peer)) is Ok,
                Err(m) => spec_validate(*ssl_config, peer_view(*peer)) == Err::<(), Seq<char>>(
                    m@,
                ),
            },
            r is Ok <==> (peer matches Some(es) && friendly_name(es@).len() > 0 && (
            ssl_config.valid_cns matches Some(v) ==> exists|i: int|
                0 <= i < v@.len() && #[trigger] v@[i]@ == friendly_name(es@))),
    {
        proof {
            lemma_validate_exact(*ssl_config, peer_view(*peer));
            reveal_strlit("ERR No certificate was provided\r\n");
            reveal_strlit("ERR Client SSL Authentication failed for CN: ");
            reveal_strlit(" \r\n");
        }
        match peer {
            None => Err("ERR No certificate was provided\r\n".to_owned()),
            Some(entries) => {
                let client_cn = get_friendly_name(entries);
                if client_cn.as_str().is_empty() {
                    return Err("ERR No certificate was provided\r\n".to_owned());
                }
                match &ssl_config.valid_cns {
                    None => Ok(()),
                    Some(cns) => {
                        if contains_name(cns, &client_cn) {
                            Ok(())
                        } else {
                            let msg = "ERR Client SSL Authentication failed for CN: ".to_owned();
                            Err(msg.concat(client_cn.as_str()).concat(" \r\n"))
                        }
                    },
                }
            },
        }
    }

    /// The stream that a TLS handshake step leaves, or the error it ends
    /// in: a complete handshake gives a TLS stream once the peer passes
    /// `validate_ssl_connection` (when there are settings to check it
    /// against), a handshake that needs more I/O stays pending, and a
    /// failed one is an error.
    pub fn handshake_result(ssl_config: Option<&SSLConfig>, outcome: &HandshakeOutcome) -> (r:
        Result<StreamKind, String>)
        ensures
            match r {
                Ok(k) => spec_handshake(
                    match ssl_config {
                        Some(c) => Some(*c),
                        None => None,
                    },
                    *outcome,
                ) == Ok::<StreamKind, Seq<char>>(k),
                Err(m) => spec_handshake(
                    match ssl_config {
                        Some(c) => Some(*c),
                        None => None,
                    },
                    *outcome,
                ) == Err::<StreamKind, Seq<char>>(m@),
            },
    {
        proof {
            reveal_strlit("An SSL error occurred.");
        }
        match outcome {
            HandshakeOutcome::Done(peer) => match ssl_config {
                None => Ok(StreamKind::SslTcpStream),
                Some(c) => match Server::validate_ssl_connection(c, peer) {
                    Ok(_) => Ok(StreamKind::SslTcpStream),
                    Err(e) => Err("An SSL error occurred.".to_owned().concat(e.as_str())),
                },
            },
            HandshakeOutcome::WouldBlock => Ok(StreamKind::SslMidHandshakeStream),
            HandshakeOutcome::Failed(m) => Err(
                "An SSL error occurred.".to_owned().concat(m.as_str()),
            ),
        }
    }

    /// The steps that set up the TLS acceptor for the server's settings.
    pub fn build_acceptor(config: &GaduConfig) -> (r: Vec<AcceptorStep>)
        ensures
            steps_view(r@) == acceptor_plan(config.ssl_config),
            r@.len() >= 3,
            r@[0]@ == AcceptorStepView::SetDefaultVerifyPaths,
            r@[1]@ == AcceptorStepView::SetModeAutoRetry,
            r@[2]@ == (if config.ssl_config.verify == Some(true) {
                AcceptorStepView::VerifyPeerAcceptingAll
            } else {
                AcceptorStepView::VerifyNone
            }),
            forall|i: int|
                0 <= i < r@.len() && i != 2 ==> #[trigger] r@[i]@ != AcceptorStepView::VerifyPeerAcceptingAll
                    && r@[i]@ != AcceptorStepView::VerifyNone,
    {
        proof {
            lemma_acceptor_plan_shape(config.ssl_config);
        }
        let cfg = &config.ssl_config;
        let mut steps: Vec<AcceptorStep> = Vec::new();
        steps.push(AcceptorStep::SetDefaultVerifyPaths);
        steps.push(AcceptorStep::SetModeAutoRetry);
        let verify = match cfg.verify {
            Some(v) => v,
            None => false,
        };
        if verify {
            steps.push(AcceptorStep::VerifyPeerAcceptingAll);
        } else {
            steps.push(AcceptorStep::VerifyNone);
        }
        let depth = match cfg.verify_depth {
            Some(d) => d,
            None => 0,
        };
        if depth > 0 {
            steps.push(AcceptorStep::SetVerifyDepth(depth));
        }
        match &cfg.certificate_file {
            Some(f) => steps.push(AcceptorStep::SetCertificateChainFile(f.clone())),
            None => {},
        }
        match &cfg.private_key_file {
            Some(f) => {
                steps.push(AcceptorStep::SetPrivateKeyFile(f.clone()));
                steps.push(AcceptorStep::CheckPrivateKey);
            },
            None => {},
        }
        match &cfg.ca_file {
            Some(f) => steps.push(AcceptorStep::SetCaFile(f.clone())),
            None => {},
        }
        assert(steps_view(steps@) =~= acceptor_plan(config.ssl_config));
        steps
    }
}

} // verus!
