use vstd::prelude::*;

verus! {

/// TLS settings of a server or connection.
#[derive(Clone, Debug, PartialEq, Eq)]
pub struct SSLConfig {
    /// Whether the listener speaks TLS.
    pub enabled: bool,
    /// Certificate chain file (PEM).
    pub certificate_file: Option<String>,
    /// Private key file (PEM).
    pub private_key_file: Option<String>,
    /// CA file.
    pub ca_file: Option<String>,
    /// Verify the peer certificate.
    pub verify: Option<bool>,
    /// Verify depth.
    pub verify_depth: Option<u32>,
    /// Common names that are allowed to connect; `None` admits every name.
    pub valid_cns: Option<Vec<String>>,
}

impl Default for SSLConfig {
    fn default() -> (r: SSLConfig)
        ensures
            !r.enabled,
            r.certificate_file is None,
            r.private_key_file is None,
            r.ca_file is None,
            r.verify is None,
            r.verify_depth is None,
            r.valid_cns is None,
    {
        SSLConfig {
            enabled: false,
            certificate_file: None,
            private_key_file: None,
            ca_file: None,
            verify: None,
            verify_depth: None,
            valid_cns: None,
        }
    }
}


/// A copy of an optional string that equals the original.
pub fn copy_opt_string(s: &Option<String>) -> (r: Option<String>)
    ensures
        r == *s,
{
    match s {
        Some(v) => Some(v.clone()),
        None => None,
    }
}

/// A copy of a list of strings that equals the original.
pub fn copy_strings(v: &Vec<String>) -> (r: Vec<String>)
    ensures
        r@ == v@,
{
    let mut r: Vec<String> = Vec::new();
    let mut i: usize = 0;
    while i < v.len()
        invariant
            i <= v.len(),
            r@ == v@.subrange(0, i as int),
        decreases v.len() - i,
    {
        r.push(v[i].clone());
        i = i + 1;
    }
    assert(r@ == v@.subrange(0, v.len() as int));
    r
}

impl SSLConfig {
    /// The allowed common names, as a sequence.
    pub open spec fn cns_view(self) -> Option<Seq<String>> {
        match self.valid_cns {
            Some(v) => Some(v@),
            None => None,
        }
    }

    /// Two configurations hold the same settings.
    pub open spec fn same_settings(self, other: SSLConfig) -> bool {
        &&& self.enabled == other.enabled
        &&& self.certificate_file == other.certificate_file
        &&& self.private_key_file == other.private_key_file
        &&& self.ca_file == other.ca_file
        &&& self.verify == other.verify
        &&& self.verify_depth == other.verify_depth
        &&& self.cns_view() == other.cns_view()
    }

    /// A field-by-field copy of this configuration.
    pub fn duplicate(&self) -> (r: SSLConfig)
        ensures
            r.same_settings(*self),
            r.enabled == self.enabled,
            r.certificate_file == self.certificate_file,
            r.private_key_file == self.private_key_file,
            r.ca_file == self.ca_file,
            r.verify == self.verify,
            r.verify_depth == self.verify_depth,
            r.valid_cns is Some <==> self.valid_cns is Some,
            r.valid_cns is Some ==> r.valid_cns->0@ == self.valid_cns->0@,
    {
        let cns = match &self.valid_cns {
            Some(v) => Some(copy_strings(v)),
            None => None,
        };
        SSLConfig {
            enabled: self.enabled,
            certificate_file: copy_opt_string(&self.certificate_file),
            private_key_file: copy_opt_string(&self.private_key_file),
            ca_file: copy_opt_string(&self.ca_file),
            verify: self.verify,
            verify_depth: self.verify_depth,
            valid_cns: cns,
        }
    }
}

/// Settings of one server or client endpoint.
#[derive(Clone, Debug, PartialEq, Eq)]
pub struct GaduConfig {
    /// The address to listen on or connect to, such as `tcp://host:port` or `unix:/path`.
    pub url: String,
    /// Read timeout.
    pub read_timeout: usize,
    /// Write timeout.
    pub write_timeout: usize,
    /// Keep-alive time in milliseconds.
    pub keep_alive_time: u64,
    /// TLS settings.
    pub ssl_config: SSLConfig,
}

/// The address that a default configuration listens on.
pub open spec fn default_url() -> Seq<char> {
    "tcp://127.0.0.1:10000"@
}

impl GaduConfig {
    /// Two configurations hold the same settings.
    pub open spec fn same_settings(self, other: GaduConfig) -> bool {
        &&& self.url@ == other.url@
        &&& self.read_timeout == other.read_timeout
        &&& self.write_timeout == other.write_timeout
        &&& self.keep_alive_time == other.keep_alive_time
        &&& self.ssl_config.same_settings(other.ssl_config)
    }

    /// A field-by-field copy of this configuration.
    pub fn duplicate(&self) -> (r: GaduConfig)
        ensures
            r.same_settings(*self),
            r.url@ == self.url@,
            r.read_timeout == self.read_timeout,
            r.write_timeout == self.write_timeout,
            r.keep_alive_time == self.keep_alive_time,
    {
        GaduConfig {
            url: self.url.clone(),
            read_timeout: self.read_timeout,
            write_timeout: self.write_timeout,
            keep_alive_time: self.keep_alive_time,
            ssl_config: self.ssl_config.duplicate(),
        }
    }
}

impl Default for GaduConfig {
    fn default() -> (r: GaduConfig)
        ensures
            r.url@ == default_url(),
            r.read_timeout == 60_000,
            r.write_timeout == 60_000,
            r.keep_alive_time == 60_000,
            !r.ssl_config.enabled,
            r.ssl_config.certificate_file is None,
            r.ssl_config.private_key_file is None,
            r.ssl_config.ca_file is None,
            r.ssl_config.verify is None,
            r.ssl_config.verify_depth is None,
            r.ssl_config.valid_cns is None,
    {
        GaduConfig {
            url: "tcp://127.0.0.1:10000".to_owned(),
            read_timeout: 60_000,
            write_timeout: 60_000,
            keep_alive_time: 60_000,
            ssl_config: SSLConfig::default(),
        }
    }
}

/// Settings of a whole network server: its name and id, how many
/// connection threads it runs, and the endpoint it listens on.
#[derive(Clone, Debug, PartialEq, Eq)]
pub struct NetworkServerConfig {
    pub server_name: String,
    pub server_id: usize,
    pub num_threads: usize,
    pub server_config: GaduConfig,
}

impl Default for NetworkServerConfig {
    fn default() -> (r: NetworkServerConfig)
        ensures
            r.server_name@ == Seq::<char>::empty(),
            r.server_id == 0,
            r.num_threads == 4,
            r.server_config.url@ == default_url(),
            r.server_config.read_timeout == 60_000,
            r.server_config.write_timeout == 60_000,
            r.server_config.keep_alive_time == 60_000,
            !r.server_config.ssl_config.enabled,
            r.server_config.ssl_config.certificate_file is None,
            r.server_config.ssl_config.private_key_file is None,
            r.server_config.ssl_config.ca_file is None,
            r.server_config.ssl_config.verify is None,
            r.server_config.ssl_config.verify_depth is None,
            r.server_config.ssl_config.valid_cns is None,
    {
        NetworkServerConfig {
            server_name: String::new(),
            server_id: 0,
            num_threads: 4,
            server_config: GaduConfig::default(),
        }
    }
}

/// TLS settings that are the same agree field for field.
pub proof fn lemma_same_ssl_settings_agree(a: SSLConfig, b: SSLConfig)
    requires
        a.same_settings(b),
    ensures
        a.enabled == b.enabled,
        a.certificate_file == b.certificate_file,
        a.private_key_file == b.private_key_file,
        a.ca_file == b.ca_file,
        a.verify == b.verify,
        a.verify_depth == b.verify_depth,
        a.valid_cns is Some <==> b.valid_cns is Some,
        a.valid_cns is Some ==> a.valid_cns->0@ == b.valid_cns->0@,
{
}

/// Settings that are the same agree field for field: the URL, both
/// timeouts, the keep-alive time and every TLS setting.
pub proof fn lemma_same_settings_agree(a: GaduConfig, b: GaduConfig)
    requires
        a.same_settings(b),
    ensures
        a.url@ == b.url@,
        a.read_timeout == b.read_timeout,
        a.write_timeout == b.write_timeout,
        a.keep_alive_time == b.keep_alive_time,
        a.ssl_config.same_settings(b.ssl_config),
{
}

/// Every configuration has the same settings as itself.
pub proof fn lemma_same_settings_reflexive(a: GaduConfig)
    ensures
        a.same_settings(a),
        a.ssl_config.same_settings(a.ssl_config),
{
}

} // verus!
