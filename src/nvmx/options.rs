//! Options for attaching NVMe controllers: the runtime's defaults, with
//! the values that a builder overrides.

use vstd::prelude::*;

verus! {

/// The controller options that the attach path sets.
#[derive(Clone, Copy, Debug, PartialEq, Eq, Structural)]
pub struct NvmeControllerOpts {
    pub admin_timeout_ms: u32,
    pub fabrics_connect_timeout_us: u64,
    pub transport_retry_count: u8,
    pub keep_alive_timeout_ms: u32,
}

impl Default for NvmeControllerOpts {
    /// The runtime's defaults.
    fn default() -> (r: NvmeControllerOpts)
        ensures
            r.admin_timeout_ms == 30_000,
            r.fabrics_connect_timeout_us == 500_000,
            r.transport_retry_count == 4,
            r.keep_alive_timeout_ms == 10_000,
    {
        NvmeControllerOpts {
            admin_timeout_ms: 30_000,
            fabrics_connect_timeout_us: 500_000,
            transport_retry_count: 4,
            keep_alive_timeout_ms: 10_000,
        }
    }
}

/// Builds controller options; a value left unset keeps the default.
#[derive(Debug)]
pub struct Builder {
    pub admin_timeout_ms: Option<u32>,
    pub disable_error_logging: Option<bool>,
    pub fabrics_connect_timeout_us: Option<u64>,
    pub transport_retry_count: Option<u8>,
    pub keep_alive_timeout_ms: Option<u32>,
}

impl Builder {
    /// A builder that overrides nothing.
    pub fn new() -> (r: Builder)
        ensures
            r.admin_timeout_ms is None,
            r.disable_error_logging is None,
            r.fabrics_connect_timeout_us is None,
            r.transport_retry_count is None,
            r.keep_alive_timeout_ms is None,
    {
        Builder {
            admin_timeout_ms: None,
            disable_error_logging: None,
            fabrics_connect_timeout_us: None,
            transport_retry_count: None,
            keep_alive_timeout_ms: None,
        }
    }

    pub fn with_admin_timeout_ms(self, timeout: u32) -> (r: Builder)
        ensures
            r == (Builder { admin_timeout_ms: Some(timeout), ..self }),
    {
        Builder { admin_timeout_ms: Some(timeout), ..self }
    }

    pub fn with_fabrics_connect_timeout_us(self, timeout: u64) -> (r: Builder)
        ensures
            r == (Builder { fabrics_connect_timeout_us: Some(timeout), ..self }),
    {
        Builder { fabrics_connect_timeout_us: Some(timeout), ..self }
    }

    pub fn with_transport_retry_count(self, count: u8) -> (r: Builder)
        ensures
            r == (Builder { transport_retry_count: Some(count), ..self }),
    {
        Builder { transport_retry_count: Some(count), ..self }
    }

    pub fn with_keep_alive_timeout_ms(self, timeout: u32) -> (r: Builder)
        ensures
            r == (Builder { keep_alive_timeout_ms: Some(timeout), ..self }),
    {
        Builder { keep_alive_timeout_ms: Some(timeout), ..self }
    }

    pub fn disable_error_logging(self, disable: bool) -> (r: Builder)
        ensures
            r == (Builder { disable_error_logging: Some(disable), ..self }),
    {
        Builder { disable_error_logging: Some(disable), ..self }
    }

    /// The options: the defaults, with each value that was set in its place.
    pub fn build(self) -> (r: NvmeControllerOpts)
        ensures
            r.admin_timeout_ms == match self.admin_timeout_ms {
                Some(v) => v,
                None => 30_000,
            },
            r.fabrics_connect_timeout_us == match self.fabrics_connect_timeout_us {
                Some(v) => v,
                None => 500_000,
            },
            r.transport_retry_count == match self.transport_retry_count {
                Some(v) => v,
                None => 4,
            },
            r.keep_alive_timeout_ms == match self.keep_alive_timeout_ms {
                Some(v) => v,
                None => 10_000,
            },
    {
        let mut opts = NvmeControllerOpts::default();
        if let Some(timeout_ms) = self.admin_timeout_ms {
            opts.admin_timeout_ms = timeout_ms;
        }
        if let Some(timeout_us) = self.fabrics_connect_timeout_us {
            opts.fabrics_connect_timeout_us = timeout_us;
        }
        if let Some(retries) = self.transport_retry_count {
            opts.transport_retry_count = retries;
        }
        if let Some(timeout_ms) = self.keep_alive_timeout_ms {
            opts.keep_alive_timeout_ms = timeout_ms;
        }
        opts
    }
}

} // verus!
