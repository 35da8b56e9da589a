use vstd::prelude::*;
use crate::attribute::{Attribute, attribute, attribute_pairs};

verus! {

/// The services whose exporters are configured here.
#[derive(Clone, Copy, Debug, PartialEq, Eq, Structural)]
pub enum Service {
    /// Sends logs over OTLP/gRPC (and to stdout).
    OtlpLogs,
    /// Sends a connection counter over OTLP/gRPC.
    OtlpMetrics,
    /// The dice service, sending its metrics over OTLP/gRPC.
    DiceMetrics,
}

/// The collector address used when the environment names none.
pub open spec fn spec_default_endpoint() -> Seq<char> {
    "http://localhost:4317"@
}

/// Seconds an OTLP metrics export may take.
pub const EXPORT_TIMEOUT_SECS: u64 = 3;

impl Service {
    /// The environment variable that may name the collector.
    pub open spec fn spec_endpoint_variable(self) -> Seq<char> {
        match self {
            Service::OtlpLogs => "OTLP_LOGGING_BACKEND_URL"@,
            _ => "OTLP_METRICS_BACKEND_URL"@,
        }
    }

    /// The logging service takes its collector from `OTLP_LOGGING_BACKEND_URL`
    /// and both metrics services from `OTLP_METRICS_BACKEND_URL`, so the two
    /// kinds of signal can go to different collectors.
    pub proof fn lemma_endpoint_variables(self)
        ensures
            self.spec_endpoint_variable() == "OTLP_LOGGING_BACKEND_URL"@ <==> self == Service::OtlpLogs,
            self.spec_endpoint_variable() == "OTLP_METRICS_BACKEND_URL"@ <==> (self == Service::OtlpMetrics
                || self == Service::DiceMetrics),
    {
        reveal_strlit("OTLP_LOGGING_BACKEND_URL");
        reveal_strlit("OTLP_METRICS_BACKEND_URL");
        assert("OTLP_LOGGING_BACKEND_URL"@[5] != "OTLP_METRICS_BACKEND_URL"@[5]);
    }

    /// The namespace the service reports itself in.
    pub open spec fn spec_namespace(self) -> Seq<char> {
        match self {
            Service::DiceMetrics => "23_metrics_multi_thread_otlp_grpc"@,
            _ => "microservice-simulator"@,
        }
    }

    /// The key under which the namespace is reported.
    pub open spec fn spec_namespace_key(self) -> Seq<char> {
        match self {
            Service::OtlpLogs => "k8s.namespace.name"@,
            _ => "service.namespace"@,
        }
    }

    /// The attributes of the resource the service describes itself with, in order.
    pub open spec fn spec_resource(self) -> Seq<(Seq<char>, Seq<char>)> {
        seq![
            ("service.name"@, "api-service"@),
            ("service.version"@, "0.1.0"@),
            (self.spec_namespace_key(), self.spec_namespace()),
        ]
    }

    /// The environment variable that may name the collector: the logging
    /// service reads `OTLP_LOGGING_BACKEND_URL`, both metrics services
    /// `OTLP_METRICS_BACKEND_URL`.
    pub fn endpoint_variable(&self) -> (s: &'static str)
        ensures
            s@ == self.spec_endpoint_variable(),
            *self == Service::OtlpLogs ==> s@ == "OTLP_LOGGING_BACKEND_URL"@,
            *self == Service::OtlpMetrics ==> s@ == "OTLP_METRICS_BACKEND_URL"@,
            *self == Service::DiceMetrics ==> s@ == "OTLP_METRICS_BACKEND_URL"@,
    {
        match self {
            Service::OtlpLogs => "OTLP_LOGGING_BACKEND_URL",
            _ => "OTLP_METRICS_BACKEND_URL",
        }
    }

    /// The resource attributes: the service's name, version and namespace.
    pub fn resource_attributes(&self) -> (v: Vec<Attribute>)
        ensures
            attribute_pairs(v@) == self.spec_resource(),
    {
        let mut v: Vec<Attribute> = Vec::new();
        match self {
            Service::OtlpLogs => {
                v.push(attribute(semconv_service_name(), "api-service"));
                v.push(attribute(semconv_service_version(), "0.1.0"));
                v.push(attribute(semconv_k8s_namespace_name(), "microservice-simulator"));
            },
            Service::OtlpMetrics => {
                v.push(attribute("service.name", "api-service"));
                v.push(attribute("service.version", "0.1.0"));
                v.push(attribute("service.namespace", "microservice-simulator"));
            },
            Service::DiceMetrics => {
                v.push(attribute("service.name", "api-service"));
                v.push(attribute("service.version", "0.1.0"));
                v.push(attribute("service.namespace", "23_metrics_multi_thread_otlp_grpc"));
            },
        }
        assert(attribute_pairs(v@) =~= self.spec_resource());
        v
    }
}

/// The collector address: the one the environment names, else the default.
pub fn resolve_endpoint(configured: Option<String>) -> (s: String)
    ensures
        configured matches Some(c) ==> s@ == c@,
        configured is None ==> s@ == spec_default_endpoint(),
{
    match configured {
        Some(c) => c,
        None => String::from_str("http://localhost:4317"),
    }
}

/// Reads `opentelemetry_semantic_conventions::resource::SERVICE_NAME`, which the
/// crate's source defines as `"service.name"`.
#[verifier::external_body]
fn semconv_service_name() -> (s: &'static str)
    ensures
        s@ == "service.name"@,
{
    opentelemetry_semantic_conventions::resource::SERVICE_NAME
}

/// Reads `opentelemetry_semantic_conventions::resource::SERVICE_VERSION`, which the
/// crate's source defines as `"service.version"`.
#[verifier::external_body]
fn semconv_service_version() -> (s: &'static str)
    ensures
        s@ == "service.version"@,
{
    opentelemetry_semantic_conventions::resource::SERVICE_VERSION
}

/// Reads `opentelemetry_semantic_conventions::resource::K8S_NAMESPACE_NAME`, which
/// the crate's source defines as `"k8s.namespace.name"`.
#[verifier::external_body]
fn semconv_k8s_namespace_name() -> (s: &'static str)
    ensures
        s@ == "k8s.namespace.name"@,
{
    opentelemetry_semantic_conventions::resource::K8S_NAMESPACE_NAME
}

} // verus!
