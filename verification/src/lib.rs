//! Telemetry-bootstrap library for a New Relic OpenTelemetry backend.
//!
//! Given a small set of credentials and identifiers (backend endpoint,
//! license key, service name, host name, optional UTC offset), the library
//! assembles a fully wired observability pipeline — trace export, metric
//! export, log export, context propagation and local console formatting —
//! and installs it as the process-wide telemetry sink.
//!
//! [`NewRelicSubscriberInitializer`] is the public entry point: a fluent
//! builder whose `init` call resolves defaults for the fields left unset,
//! builds one exporter and one provider per signal kind, and composes the
//! subscriber stack. Call `init` at most once per process, early in startup,
//! before any telemetry-emitting code runs.

use vstd::prelude::*;

pub mod errors;
pub mod exporters;
pub mod offset;
pub mod propagators;
pub mod providers;
pub mod resource;
mod subscriber;

use crate::errors::{log_step, metrics_step, trace_step, InitError};
use crate::offset::TimestampOffset;
use crate::providers::{
    init_logger_provider, init_metrics, init_tracer_provider, install_global_tracer_provider,
    tracer_scoped,
};
use crate::subscriber::install_subscriber_stack;

verus! {

/// The backend's well-known ingest host: the endpoint used when none is
/// configured.
pub const NEWRELIC_OTLP_ENDPOINT: &'static str = "https://otlp.nr-data.net";

/// Fluent builder for the telemetry pipeline. Each setter returns an updated
/// copy with one field populated; fields left unset resolve to their
/// documented defaults only when `init` (or `resolve`) consumes the builder.
pub struct NewRelicSubscriberInitializer {
    pub newrelic_otlp_endpoint: Option<String>,
    pub newrelic_license_key: Option<String>,
    pub newrelic_service_name: Option<String>,
    pub host_name: Option<String>,
    pub timestamps_offset: Option<TimestampOffset>,
}

/// A configuration with every field resolved: what `init` works from after
/// defaulting.
pub struct ResolvedConfig {
    pub endpoint: String,
    pub license_key: String,
    pub service_name: String,
    pub host_name: String,
    pub timestamps_offset: TimestampOffset,
}

impl NewRelicSubscriberInitializer {
    /// The endpoint that resolution yields: the configured one, or the
    /// backend's well-known ingest host.
    pub open spec fn resolved_endpoint(self) -> Seq<char> {
        match self.newrelic_otlp_endpoint {
            Some(e) => e@,
            None => NEWRELIC_OTLP_ENDPOINT@,
        }
    }

    /// The license key that resolution yields: the configured one, or empty.
    pub open spec fn resolved_license_key(self) -> Seq<char> {
        match self.newrelic_license_key {
            Some(k) => k@,
            None => Seq::<char>::empty(),
        }
    }

    /// The service name that resolution yields: the configured one, or empty.
    pub open spec fn resolved_service_name(self) -> Seq<char> {
        match self.newrelic_service_name {
            Some(s) => s@,
            None => Seq::<char>::empty(),
        }
    }

    /// The host name that resolution yields: the configured one, or empty.
    pub open spec fn resolved_host_name(self) -> Seq<char> {
        match self.host_name {
            Some(h) => h@,
            None => Seq::<char>::empty(),
        }
    }

    /// The timestamp offset that resolution yields: the configured one, or
    /// UTC.
    pub open spec fn resolved_timestamps_offset(self) -> TimestampOffset {
        match self.timestamps_offset {
            Some(o) => o,
            None => TimestampOffset { whole_seconds: 0 },
        }
    }

    /// Sets the backend endpoint; every other field is kept.
    pub fn newrelic_otlp_endpoint(self, newrelic_otlp_endpoint: &str) -> (r: Self)
        ensures
            r.newrelic_otlp_endpoint matches Some(e) && e@ == newrelic_otlp_endpoint@,
            r.newrelic_license_key == self.newrelic_license_key,
            r.newrelic_service_name == self.newrelic_service_name,
            r.host_name == self.host_name,
            r.timestamps_offset == self.timestamps_offset,
    {
        NewRelicSubscriberInitializer {
            newrelic_otlp_endpoint: Some(newrelic_otlp_endpoint.to_owned()),
            ..self
        }
    }

    /// Sets the license key sent as the `api-key` header; every other field
    /// is kept.
    pub fn newrelic_license_key(self, newrelic_license_key: &str) -> (r: Self)
        ensures
            r.newrelic_license_key matches Some(k) && k@ == newrelic_license_key@,
            r.newrelic_otlp_endpoint == self.newrelic_otlp_endpoint,
            r.newrelic_service_name == self.newrelic_service_name,
            r.host_name == self.host_name,
            r.timestamps_offset == self.timestamps_offset,
    {
        NewRelicSubscriberInitializer {
            newrelic_license_key: Some(newrelic_license_key.to_owned()),
            ..self
        }
    }

    /// Sets the service name attached to every exported signal; every other
    /// field is kept.
    pub fn newrelic_service_name(self, newrelic_service_name: &str) -> (r: Self)
        ensures
            r.newrelic_service_name matches Some(s) && s@ == newrelic_service_name@,
            r.newrelic_otlp_endpoint == self.newrelic_otlp_endpoint,
            r.newrelic_license_key == self.newrelic_license_key,
            r.host_name == self.host_name,
            r.timestamps_offset == self.timestamps_offset,
    {
        NewRelicSubscriberInitializer {
            newrelic_service_name: Some(newrelic_service_name.to_owned()),
            ..self
        }
    }

    /// Sets the host name attached to every exported signal; every other
    /// field is kept.
    pub fn host_name(self, host_name: &str) -> (r: Self)
        ensures
            r.host_name matches Some(h) && h@ == host_name@,
            r.newrelic_otlp_endpoint == self.newrelic_otlp_endpoint,
            r.newrelic_license_key == self.newrelic_license_key,
            r.newrelic_service_name == self.newrelic_service_name,
            r.timestamps_offset == self.timestamps_offset,
    {
        NewRelicSubscriberInitializer { host_name: Some(host_name.to_owned()), ..self }
    }

    /// Sets the UTC offset used when console timestamps are rendered; every
    /// other field is kept.
    pub fn timestamps_offset(self, timestamps_offset: TimestampOffset) -> (r: Self)
        ensures
            r.timestamps_offset == Some(timestamps_offset),
            r.newrelic_otlp_endpoint == self.newrelic_otlp_endpoint,
            r.newrelic_license_key == self.newrelic_license_key,
            r.newrelic_service_name == self.newrelic_service_name,
            r.host_name == self.host_name,
    {
        NewRelicSubscriberInitializer { timestamps_offset: Some(timestamps_offset), ..self }
    }

    /// Resolves the defaults for every field left unset: the endpoint falls
    /// back to the backend's well-known ingest host, the strings to empty,
    /// the offset to UTC. Resolution is pure: it depends on the fields alone
    /// and never fails.
    pub fn resolve(self) -> (r: ResolvedConfig)
        ensures
            r.endpoint@ == self.resolved_endpoint(),
            r.license_key@ == self.resolved_license_key(),
            r.service_name@ == self.resolved_service_name(),
            r.host_name@ == self.resolved_host_name(),
            r.timestamps_offset == self.resolved_timestamps_offset(),
    {
        let endpoint: String = match self.newrelic_otlp_endpoint {
            Some(e) => e,
            None => NEWRELIC_OTLP_ENDPOINT.to_owned(),
        };
        let license_key: String = match self.newrelic_license_key {
            Some(k) => k,
            None => String::new(),
        };
        let service_name: String = match self.newrelic_service_name {
            Some(s) => s,
            None => String::new(),
        };
        let host_name: String = match self.host_name {
            Some(h) => h,
            None => String::new(),
        };
        let timestamps_offset: TimestampOffset = match self.timestamps_offset {
            Some(o) => o,
            None => TimestampOffset { whole_seconds: 0 },
        };
        ResolvedConfig { endpoint, license_key, service_name, host_name, timestamps_offset }
    }

    /// Assembles the pipeline and installs it as the process-wide telemetry
    /// sink, in this order: resolve defaults; build the trace provider and
    /// install it as the global trace provider, deriving a tracer scoped to
    /// the service name; build the metrics provider; build the log
    /// provider; compose the subscriber stack (console formatter, level
    /// filter defaulting to `info`, trace layer, metrics layer, log
    /// bridge) and install it as the global subscriber.
    ///
    /// Every fallible step propagates immediately and aborts the remaining
    /// steps, with no rollback of globals already installed: when the
    /// metrics step fails, the trace provider installed just before stays
    /// active. Treat any failure as fatal to observability startup rather
    /// than a degraded mode. Call at most once per process, inside a Tokio
    /// runtime, before any telemetry-emitting code runs; a second call
    /// finds the global subscriber occupied and reports
    /// `InitError::SubscriberInstall`.
    pub fn init(self) -> (r: Result<(), InitError>)
        requires
            (self.timestamps_offset matches Some(o) ==> o.is_valid()),
    {
        let resolved = self.resolve();
        let tracer_provider = match trace_step(
            init_tracer_provider(
                resolved.endpoint.as_str(),
                resolved.license_key.as_str(),
                resolved.service_name.as_str(),
                resolved.host_name.as_str(),
            ),
        ) {
            Ok(p) => p,
            Err(e) => {
                return Err(e);
            },
        };
        install_global_tracer_provider(&tracer_provider);
        let tracer = tracer_scoped(&tracer_provider, resolved.service_name.as_str());
        let meter_provider = match metrics_step(
            init_metrics(
                resolved.endpoint.as_str(),
                resolved.license_key.as_str(),
                resolved.service_name.as_str(),
                resolved.host_name.as_str(),
            ),
        ) {
            Ok(p) => p,
            Err(e) => {
                return Err(e);
            },
        };
        let logger_provider = match log_step(
            init_logger_provider(
                resolved.endpoint.as_str(),
                resolved.license_key.as_str(),
                resolved.service_name.as_str(),
                resolved.host_name.as_str(),
            ),
        ) {
            Ok(p) => p,
            Err(e) => {
                return Err(e);
            },
        };
        let installed = install_subscriber_stack(
            tracer,
            meter_provider,
            &logger_provider,
            resolved.timestamps_offset.whole_seconds,
            "info",
        );
        if installed {
            Ok(())
        } else {
            Err(InitError::SubscriberInstall)
        }
    }
}

impl Default for NewRelicSubscriberInitializer {
    /// A builder with no field set: every field will resolve to its default.
    fn default() -> (r: NewRelicSubscriberInitializer)
        ensures
            r.newrelic_otlp_endpoint is None,
            r.newrelic_license_key is None,
            r.newrelic_service_name is None,
            r.host_name is None,
            r.timestamps_offset is None,
    {
        NewRelicSubscriberInitializer {
            newrelic_otlp_endpoint: None,
            newrelic_license_key: None,
            newrelic_service_name: None,
            host_name: None,
            timestamps_offset: None,
        }
    }
}

/// Defaulting is idempotent: a builder whose every field holds the values
/// that another builder resolved to resolves to those same values.
pub proof fn lemma_defaulting_idempotent(
    a: NewRelicSubscriberInitializer,
    b: NewRelicSubscriberInitializer,
)
    requires
        b.newrelic_otlp_endpoint matches Some(e) && e@ == a.resolved_endpoint(),
        b.newrelic_license_key matches Some(k) && k@ == a.resolved_license_key(),
        b.newrelic_service_name matches Some(s) && s@ == a.resolved_service_name(),
        b.host_name matches Some(h) && h@ == a.resolved_host_name(),
        b.timestamps_offset matches Some(o) && o == a.resolved_timestamps_offset(),
    ensures
        b.resolved_endpoint() == a.resolved_endpoint(),
        b.resolved_license_key() == a.resolved_license_key(),
        b.resolved_service_name() == a.resolved_service_name(),
        b.resolved_host_name() == a.resolved_host_name(),
        b.resolved_timestamps_offset() == a.resolved_timestamps_offset(),
{
}

} // verus!
