use vstd::prelude::*;

verus! {

/// Bounded-resource configuration of a connection. Times are in milliseconds.
#[derive(Debug, Clone, PartialEq, Eq)]
pub struct Settings {
    /// Largest number of live children a listener admits.
    pub max_connections: usize,
    /// Capacity of the outbound command queue.
    pub queue_size: usize,
    /// Read-buffer bound in bytes.
    pub in_buffer_max: usize,
    /// Write-buffer bound in bytes.
    pub out_buffer_max: usize,
    /// Largest length-prefixed frame accepted, header included.
    pub onemsg_max_size: usize,
    /// Time left for the write buffer to drain once closing.
    pub closing_time: usize,
    pub connect_timeout: usize,
    pub shake_timeout: usize,
    /// Peer silence after which the connection fails.
    pub read_timeout: usize,
    /// Frames off: bytes pass through unframed.
    pub is_raw: bool,
    /// TLS server name; when set, clients connect over TLS.
    pub domain: Option<String>,
    /// PEM certificate chain path; with `key`, listeners require TLS.
    pub cert: Option<String>,
    /// PEM private key path.
    pub key: Option<String>,
}

pub const DEFAULT_MAX_CONNECTIONS: usize = 1024;
pub const DEFAULT_QUEUE_SIZE: usize = 10;
pub const DEFAULT_BUFFER_MAX: usize = 10485760;
pub const DEFAULT_ONEMSG_MAX_SIZE: usize = 65535;
pub const DEFAULT_CLOSING_TIME: usize = 1000;
pub const DEFAULT_CONNECT_TIMEOUT: usize = 30000;
pub const DEFAULT_SHAKE_TIMEOUT: usize = 30000;
pub const DEFAULT_READ_TIMEOUT: usize = 60000;

/// The default configuration.
pub open spec fn is_default_settings(s: Settings) -> bool {
    &&& s.max_connections == DEFAULT_MAX_CONNECTIONS
    &&& s.queue_size == DEFAULT_QUEUE_SIZE
    &&& s.in_buffer_max == DEFAULT_BUFFER_MAX
    &&& s.out_buffer_max == DEFAULT_BUFFER_MAX
    &&& s.onemsg_max_size == DEFAULT_ONEMSG_MAX_SIZE
    &&& s.closing_time == DEFAULT_CLOSING_TIME
    &&& s.connect_timeout == DEFAULT_CONNECT_TIMEOUT
    &&& s.shake_timeout == DEFAULT_SHAKE_TIMEOUT
    &&& s.read_timeout == DEFAULT_READ_TIMEOUT
    &&& !s.is_raw
    &&& s.domain.is_none()
    &&& s.cert.is_none()
    &&& s.key.is_none()
}

impl Default for Settings {
    fn default() -> (r: Settings)
        ensures
            is_default_settings(r),
    {
        Settings {
            max_connections: DEFAULT_MAX_CONNECTIONS,
            queue_size: DEFAULT_QUEUE_SIZE,
            in_buffer_max: DEFAULT_BUFFER_MAX,
            out_buffer_max: DEFAULT_BUFFER_MAX,
            onemsg_max_size: DEFAULT_ONEMSG_MAX_SIZE,
            closing_time: DEFAULT_CLOSING_TIME,
            connect_timeout: DEFAULT_CONNECT_TIMEOUT,
            shake_timeout: DEFAULT_SHAKE_TIMEOUT,
            read_timeout: DEFAULT_READ_TIMEOUT,
            is_raw: false,
            domain: None,
            cert: None,
            key: None,
        }
    }
}

} // verus!
