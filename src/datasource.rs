//! The data source: connection settings, and what a connection or a
//! registry load is made from.
use vstd::prelude::*;
use vstd::string::*;
use crate::client::{opt_text, HAClientOptions};
use crate::connection::HAConnectionOptions;
use crate::replicas::ReplicaOptions;

verus! {

/// Options of a data source.
#[derive(Debug, Clone, Default)]
pub struct HADataSourceOptions {
    /// The server URL.
    pub url: String,
    /// Authentication password (token).
    pub password: Option<String>,
    /// Whether to use TLS.
    pub enable_ssl: bool,
    /// Query timeout in seconds; zero means the default of 30.
    pub timeout: u64,
    /// Login timeout in seconds; zero means the default of 30.
    pub login_timeout: u64,
    /// Directory of the local replicas.
    pub embedded_replicas_dir: Option<String>,
    /// URL of the replication message bus.
    pub replication_url: Option<String>,
    /// Stream name on the bus.
    pub replication_stream: Option<String>,
    /// Durable consumer name on the bus.
    pub replication_durable: Option<String>,
}

/// The timeout used when none is given.
pub const DEFAULT_TIMEOUT: u64 = 30;

/// The stream name used when none is given.
pub open spec fn default_stream() -> Seq<char> {
    "ha"@
}

/// Settings from which connections are made.
pub struct HADataSource {
    pub url: String,
    pub password: Option<String>,
    pub enable_ssl: bool,
    pub timeout: u64,
    pub login_timeout: u64,
    pub embedded_replicas_dir: Option<String>,
    pub replication_url: Option<String>,
    pub replication_stream: Option<String>,
    pub replication_durable: Option<String>,
}

impl HADataSource {
    /// A data source from its options; a zero timeout becomes 30 seconds.
    pub fn new(options: HADataSourceOptions) -> (r: Self)
        ensures
            r.url@ == options.url@,
            opt_text(r.password) == opt_text(options.password),
            r.enable_ssl == options.enable_ssl,
            r.timeout == if options.timeout > 0 { options.timeout } else { 30 },
            r.login_timeout == if options.login_timeout > 0 { options.login_timeout } else { 30 },
            opt_text(r.embedded_replicas_dir) == opt_text(options.embedded_replicas_dir),
            opt_text(r.replication_url) == opt_text(options.replication_url),
            opt_text(r.replication_stream) == opt_text(options.replication_stream),
            opt_text(r.replication_durable) == opt_text(options.replication_durable),
    {
        HADataSource {
            url: options.url,
            password: options.password,
            enable_ssl: options.enable_ssl,
            timeout: if options.timeout > 0 { options.timeout } else { DEFAULT_TIMEOUT },
            login_timeout: if options.login_timeout > 0 {
                options.login_timeout
            } else {
                DEFAULT_TIMEOUT
            },
            embedded_replicas_dir: options.embedded_replicas_dir,
            replication_url: options.replication_url,
            replication_stream: options.replication_stream,
            replication_durable: options.replication_durable,
        }
    }

    /// The registry load that a new connection needs: one when a replica
    /// directory, a replication URL and a durable name are all set; the
    /// stream defaults to `ha`.
    pub fn replica_options(&self) -> (r: Option<ReplicaOptions>)
        ensures
            match (self.embedded_replicas_dir, self.replication_url, self.replication_durable) {
                (Some(d), Some(u), Some(n)) => r matches Some(o) && o.directory@ == d@
                    && o.nats_url@ == u@ && o.durable@ == n@ && o.stream@ == match self.replication_stream {
                    Some(s) => s@,
                    None => default_stream(),
                },
                _ => r is None,
            },
    {
        match (&self.embedded_replicas_dir, &self.replication_url, &self.replication_durable) {
            (Some(d), Some(u), Some(n)) => {
                let stream = match &self.replication_stream {
                    Some(s) => String::from_str(s.as_str()),
                    None => String::from_str("ha"),
                };
                Some(
                    ReplicaOptions {
                        directory: String::from_str(d.as_str()),
                        nats_url: String::from_str(u.as_str()),
                        stream,
                        durable: String::from_str(n.as_str()),
                    },
                )
            },
            _ => None,
        }
    }

    /// The options of a connection made from this data source.
    pub fn connection_options(&self) -> (r: HAConnectionOptions)
        ensures
            r.url@ == self.url@,
            opt_text(r.token) == opt_text(self.password),
            r.enable_ssl == self.enable_ssl,
            r.timeout == self.timeout,
            opt_text(r.embedded_replicas_dir) == opt_text(self.embedded_replicas_dir),
            opt_text(r.replication_url) == opt_text(self.replication_url),
            opt_text(r.replication_stream) == opt_text(self.replication_stream),
            opt_text(r.replication_durable) == opt_text(self.replication_durable),
    {
        HAConnectionOptions {
            url: String::from_str(self.url.as_str()),
            token: copy_text(&self.password),
            enable_ssl: self.enable_ssl,
            timeout: self.timeout,
            embedded_replicas_dir: copy_text(&self.embedded_replicas_dir),
            replication_url: copy_text(&self.replication_url),
            replication_stream: copy_text(&self.replication_stream),
            replication_durable: copy_text(&self.replication_durable),
        }
    }

    /// The options of a client made from this data source, as for
    /// downloading the replicas.
    pub fn client_options(&self) -> (r: HAClientOptions)
        ensures
            r.url@ == self.url@,
            opt_text(r.token) == opt_text(self.password),
            r.enable_ssl == self.enable_ssl,
            r.timeout == self.timeout,
    {
        HAClientOptions {
            url: String::from_str(self.url.as_str()),
            token: copy_text(&self.password),
            enable_ssl: self.enable_ssl,
            timeout: self.timeout,
        }
    }

    /// The server URL.
    pub fn url(&self) -> (r: &str)
        ensures
            r@ == self.url@,
    {
        self.url.as_str()
    }

    /// Sets the server URL.
    pub fn set_url(&mut self, url: String) -> (r: &mut Self)
        ensures
            *final(self) == *final(r),
            *r == (HADataSource { url: url, ..*old(self) }),
    {
        self.url = url;
        self
    }

    /// The password (the authentication token), if set.
    pub fn password(&self) -> (r: Option<&str>)
        ensures
            match r {
                Some(t) => self.password matches Some(s) && t@ == s@,
                None => self.password is None,
            },
    {
        match &self.password {
            Some(s) => Some(s.as_str()),
            None => None,
        }
    }

    /// Sets the password (the authentication token).
    pub fn set_password(&mut self, password: String) -> (r: &mut Self)
        ensures
            *final(self) == *final(r),
            *r == (HADataSource { password: Some(password), ..*old(self) }),
    {
        self.password = Some(password);
        self
    }

    /// The TLS setting.
    pub fn enable_ssl(&self) -> (r: bool)
        ensures
            r == self.enable_ssl,
    {
        self.enable_ssl
    }

    /// Sets the TLS setting.
    pub fn set_enable_ssl(&mut self, enable: bool) -> (r: &mut Self)
        ensures
            *final(self) == *final(r),
            *r == (HADataSource { enable_ssl: enable, ..*old(self) }),
    {
        self.enable_ssl = enable;
        self
    }

    /// The query timeout in seconds.
    pub fn timeout(&self) -> (r: u64)
        ensures
            r == self.timeout,
    {
        self.timeout
    }

    /// Sets the query timeout in seconds.
    pub fn set_timeout(&mut self, timeout: u64) -> (r: &mut Self)
        ensures
            *final(self) == *final(r),
            *r == (HADataSource { timeout: timeout, ..*old(self) }),
    {
        self.timeout = timeout;
        self
    }

    /// The login timeout in seconds.
    pub fn login_timeout(&self) -> (r: u64)
        ensures
            r == self.login_timeout,
    {
        self.login_timeout
    }

    /// Sets the login timeout in seconds.
    pub fn set_login_timeout(&mut self, timeout: u64) -> (r: &mut Self)
        ensures
            *final(self) == *final(r),
            *r == (HADataSource { login_timeout: timeout, ..*old(self) }),
    {
        self.login_timeout = timeout;
        self
    }

    /// The directory of the local replicas, if set.
    pub fn embedded_replicas_dir(&self) -> (r: Option<&str>)
        ensures
            match r {
                Some(t) => self.embedded_replicas_dir matches Some(s) && t@ == s@,
                None => self.embedded_replicas_dir is None,
            },
    {
        match &self.embedded_replicas_dir {
            Some(s) => Some(s.as_str()),
            None => None,
        }
    }

    /// Sets the directory of the local replicas.
    pub fn set_embedded_replicas_dir(&mut self, dir: String) -> (r: &mut Self)
        ensures
            *final(self) == *final(r),
            *r == (HADataSource { embedded_replicas_dir: Some(dir), ..*old(self) }),
    {
        self.embedded_replicas_dir = Some(dir);
        self
    }

    /// The URL of the replication message bus, if set.
    pub fn replication_url(&self) -> (r: Option<&str>)
        ensures
            match r {
                Some(t) => self.replication_url matches Some(s) && t@ == s@,
                None => self.replication_url is None,
            },
    {
        match &self.replication_url {
            Some(s) => Some(s.as_str()),
            None => None,
        }
    }

    /// Sets the URL of the replication message bus.
    pub fn set_replication_url(&mut self, url: String) -> (r: &mut Self)
        ensures
            *final(self) == *final(r),
            *r == (HADataSource { replication_url: Some(url), ..*old(self) }),
    {
        self.replication_url = Some(url);
        self
    }

    /// The stream name on the bus, if set.
    pub fn replication_stream(&self) -> (r: Option<&str>)
        ensures
            match r {
                Some(t) => self.replication_stream matches Some(s) && t@ == s@,
                None => self.replication_stream is None,
            },
    {
        match &self.replication_stream {
            Some(s) => Some(s.as_str()),
            None => None,
        }
    }

    /// Sets the stream name on the bus.
    pub fn set_replication_stream(&mut self, stream: String) -> (r: &mut Self)
        ensures
            *final(self) == *final(r),
            *r == (HADataSource { replication_stream: Some(stream), ..*old(self) }),
    {
        self.replication_stream = Some(stream);
        self
    }

    /// The durable consumer name on the bus, if set.
    pub fn replication_durable(&self) -> (r: Option<&str>)
        ensures
            match r {
                Some(t) => self.replication_durable matches Some(s) && t@ == s@,
                None => self.replication_durable is None,
            },
    {
        match &self.replication_durable {
            Some(s) => Some(s.as_str()),
            None => None,
        }
    }

    /// Sets the durable consumer name on the bus.
    pub fn set_replication_durable(&mut self, durable: String) -> (r: &mut Self)
        ensures
            *final(self) == *final(r),
            *r == (HADataSource { replication_durable: Some(durable), ..*old(self) }),
    {
        self.replication_durable = Some(durable);
        self
    }
}

/// A copy of an optional text.
fn copy_text(t: &Option<String>) -> (r: Option<String>)
    ensures
        opt_text(r) == opt_text(*t),
{
    match t {
        Some(s) => Some(String::from_str(s.as_str())),
        None => None,
    }
}

impl Default for HADataSource {
    fn default() -> (r: Self)
        ensures
            r.url@.len() == 0,
            r.password is None,
            !r.enable_ssl,
            r.timeout == 30,
            r.login_timeout == 30,
            r.embedded_replicas_dir is None,
            r.replication_url is None,
            r.replication_stream is None,
            r.replication_durable is None,
    {
        HADataSource {
            url: String::new(),
            password: None,
            enable_ssl: false,
            timeout: DEFAULT_TIMEOUT,
            login_timeout: DEFAULT_TIMEOUT,
            embedded_replicas_dir: None,
            replication_url: None,
            replication_stream: None,
            replication_durable: None,
        }
    }
}

} // verus!
