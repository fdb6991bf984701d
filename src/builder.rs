//! Step-by-step construction of `Settings`.
use vstd::prelude::*;
use crate::settings::{is_default_settings, Settings};

verus! {

pub struct Builder {
    settings: Settings,
}

impl Builder {
    pub closed spec fn spec_settings(&self) -> Settings {
        self.settings
    }

    pub fn new() -> (r: Builder)
        ensures
            is_default_settings(r.spec_settings()),
    {
        Builder { settings: Settings::default() }
    }

    pub fn max_connections(self, max_connections: usize) -> (r: Builder)
        ensures
            r.spec_settings() == (Settings { max_connections, ..self.spec_settings() }),
    {
        let mut b = self;
        b.settings.max_connections = max_connections;
        b
    }

    pub fn queue_size(self, queue_size: usize) -> (r: Builder)
        ensures
            r.spec_settings() == (Settings { queue_size, ..self.spec_settings() }),
    {
        let mut b = self;
        b.settings.queue_size = queue_size;
        b
    }

    pub fn in_buffer_max(self, in_buffer_max: usize) -> (r: Builder)
        ensures
            r.spec_settings() == (Settings { in_buffer_max, ..self.spec_settings() }),
    {
        let mut b = self;
        b.settings.in_buffer_max = in_buffer_max;
        b
    }

    pub fn out_buffer_max(self, out_buffer_max: usize) -> (r: Builder)
        ensures
            r.spec_settings() == (Settings { out_buffer_max, ..self.spec_settings() }),
    {
        let mut b = self;
        b.settings.out_buffer_max = out_buffer_max;
        b
    }

    pub fn onemsg_max_size(self, onemsg_max_size: usize) -> (r: Builder)
        ensures
            r.spec_settings() == (Settings { onemsg_max_size, ..self.spec_settings() }),
    {
        let mut b = self;
        b.settings.onemsg_max_size = onemsg_max_size;
        b
    }

    pub fn closing_time(self, closing_time: usize) -> (r: Builder)
        ensures
            r.spec_settings() == (Settings { closing_time, ..self.spec_settings() }),
    {
        let mut b = self;
        b.settings.closing_time = closing_time;
        b
    }

    pub fn connect_timeout(self, connect_timeout: usize) -> (r: Builder)
        ensures
            r.spec_settings() == (Settings { connect_timeout, ..self.spec_settings() }),
    {
        let mut b = self;
        b.settings.connect_timeout = connect_timeout;
        b
    }

    pub fn shake_timeout(self, shake_timeout: usize) -> (r: Builder)
        ensures
            r.spec_settings() == (Settings { shake_timeout, ..self.spec_settings() }),
    {
        let mut b = self;
        b.settings.shake_timeout = shake_timeout;
        b
    }

    pub fn read_timeout(self, read_timeout: usize) -> (r: Builder)
        ensures
            r.spec_settings() == (Settings { read_timeout, ..self.spec_settings() }),
    {
        let mut b = self;
        b.settings.read_timeout = read_timeout;
        b
    }

    pub fn domain(self, domain: String) -> (r: Builder)
        ensures
            r.spec_settings() == (Settings { domain: Some(domain), ..self.spec_settings() }),
    {
        let mut b = self;
        b.settings.domain = Some(domain);
        b
    }

    /// Certificate chain and private key paths; a listener then requires TLS.
    pub fn tls(self, cert: String, key: String) -> (r: Builder)
        ensures
            r.spec_settings() == (Settings { cert: Some(cert), key: Some(key), ..self.spec_settings() }),
    {
        let mut b = self;
        b.settings.cert = Some(cert);
        b.settings.key = Some(key);
        b
    }

    pub fn settings(self) -> (r: Settings)
        ensures
            r == self.spec_settings(),
    {
        self.settings
    }
}

} // verus!
