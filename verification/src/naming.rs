//! Service instances, naming requests and naming events.

use std::collections::HashMap;
use vstd::prelude::*;
use crate::error::{
    engine_failure, listener_not_callable_message, sdk_error_debug, BridgeError, BridgeErrorView,
};
use crate::listener::{accept, spec_accept, HostObject};
use crate::options::{clone_text, ClientOptions, ClientOptionsView};
use crate::props::{spec_resolve, ClientKind, ClientProperties, ClientPropertiesView};

verus! {

/// The weight of an instance whose record gives none: the bit pattern of
/// the IEEE 754 double 1.0. Weights are held as bit patterns throughout.
pub const DEFAULT_WEIGHT: u64 = 0x3FF0_0000_0000_0000;

/// An instance is healthy unless its record says otherwise.
pub const DEFAULT_HEALTHY: bool = true;

/// An instance is enabled unless its record says otherwise.
pub const DEFAULT_ENABLED: bool = true;

/// An instance is ephemeral unless its record says otherwise.
pub const DEFAULT_EPHEMERAL: bool = true;

/// The cluster of an instance whose record names none.
pub open spec fn default_cluster_name() -> Seq<char> {
    "DEFAULT"@
}

/// A service instance as the host sees it. The host fills in `ip` and
/// `port` and whatever else it cares about; the SDK fills in everything.
#[derive(Clone, Debug, PartialEq, Eq)]
pub struct NacosServiceInstance {
    /// Instance id, assigned by the server.
    pub instance_id: Option<String>,
    pub ip: String,
    pub port: i32,
    /// Weight as the bit pattern of a double, default 1.0.
    pub weight: Option<u64>,
    /// Default true.
    pub healthy: Option<bool>,
    /// Default true.
    pub enabled: Option<bool>,
    /// Default true.
    pub ephemeral: Option<bool>,
    /// Default `DEFAULT`.
    pub cluster_name: Option<String>,
    pub service_name: Option<String>,
    /// Default empty.
    pub metadata: Option<HashMap<String, String>>,
}

/// `NacosServiceInstance` with each text as a sequence of characters and
/// the metadata as a map.
pub struct NacosServiceInstanceView {
    pub instance_id: Option<Seq<char>>,
    pub ip: Seq<char>,
    pub port: i32,
    pub weight: Option<u64>,
    pub healthy: Option<bool>,
    pub enabled: Option<bool>,
    pub ephemeral: Option<bool>,
    pub cluster_name: Option<Seq<char>>,
    pub service_name: Option<Seq<char>>,
    pub metadata: Option<Map<String, String>>,
}

impl View for NacosServiceInstance {
    type V = NacosServiceInstanceView;

    open spec fn view(&self) -> NacosServiceInstanceView {
        NacosServiceInstanceView {
            instance_id: self.instance_id.deep_view(),
            ip: self.ip@,
            port: self.port,
            weight: self.weight,
            healthy: self.healthy,
            enabled: self.enabled,
            ephemeral: self.ephemeral,
            cluster_name: self.cluster_name.deep_view(),
            service_name: self.service_name.deep_view(),
            metadata: match self.metadata {
                Some(m) => Some(m@),
                None => None,
            },
        }
    }
}

/// A service instance as the SDK holds it: the fields of the SDK's
/// `ServiceInstance`, the weight as the bit pattern of its double.
#[derive(Clone, Debug, PartialEq, Eq)]
pub struct ServiceInstance {
    pub instance_id: Option<String>,
    pub ip: String,
    pub port: i32,
    pub weight: u64,
    pub healthy: bool,
    pub enabled: bool,
    pub ephemeral: bool,
    pub cluster_name: Option<String>,
    pub service_name: Option<String>,
    pub metadata: HashMap<String, String>,
}

/// `ServiceInstance` with each text as a sequence of characters and the
/// metadata as a map.
pub struct ServiceInstanceView {
    pub instance_id: Option<Seq<char>>,
    pub ip: Seq<char>,
    pub port: i32,
    pub weight: u64,
    pub healthy: bool,
    pub enabled: bool,
    pub ephemeral: bool,
    pub cluster_name: Option<Seq<char>>,
    pub service_name: Option<Seq<char>>,
    pub metadata: Map<String, String>,
}

impl View for ServiceInstance {
    type V = ServiceInstanceView;

    open spec fn view(&self) -> ServiceInstanceView {
        ServiceInstanceView {
            instance_id: self.instance_id.deep_view(),
            ip: self.ip@,
            port: self.port,
            weight: self.weight,
            healthy: self.healthy,
            enabled: self.enabled,
            ephemeral: self.ephemeral,
            cluster_name: self.cluster_name.deep_view(),
            service_name: self.service_name.deep_view(),
            metadata: self.metadata@,
        }
    }
}

/// Host to SDK: every field the host left out gets its default, and every
/// other field is taken as it is. Neither address nor port is validated.
pub open spec fn spec_to_engine(host: NacosServiceInstanceView) -> ServiceInstanceView {
    ServiceInstanceView {
        instance_id: host.instance_id,
        ip: host.ip,
        port: host.port,
        weight: match host.weight {
            Some(w) => w,
            None => DEFAULT_WEIGHT,
        },
        healthy: match host.healthy {
            Some(b) => b,
            None => DEFAULT_HEALTHY,
        },
        enabled: match host.enabled {
            Some(b) => b,
            None => DEFAULT_ENABLED,
        },
        ephemeral: match host.ephemeral {
            Some(b) => b,
            None => DEFAULT_EPHEMERAL,
        },
        cluster_name: match host.cluster_name {
            Some(name) => Some(name),
            None => Some(default_cluster_name()),
        },
        service_name: host.service_name,
        metadata: match host.metadata {
            Some(m) => m,
            None => Map::empty(),
        },
    }
}

/// SDK to host: every field is copied. What the host record holds as
/// optional becomes present; what the SDK holds as optional stays as it is.
pub open spec fn spec_to_host(engine: ServiceInstanceView) -> NacosServiceInstanceView {
    NacosServiceInstanceView {
        instance_id: engine.instance_id,
        ip: engine.ip,
        port: engine.port,
        weight: Some(engine.weight),
        healthy: Some(engine.healthy),
        enabled: Some(engine.enabled),
        ephemeral: Some(engine.ephemeral),
        cluster_name: engine.cluster_name,
        service_name: engine.service_name,
        metadata: Some(engine.metadata),
    }
}

/// The views of a sequence of host records.
pub open spec fn host_views(instances: Seq<NacosServiceInstance>) -> Seq<NacosServiceInstanceView> {
    instances.map_values(|i: NacosServiceInstance| i@)
}

/// The views of a sequence of SDK instances.
pub open spec fn engine_views(instances: Seq<ServiceInstance>) -> Seq<ServiceInstanceView> {
    instances.map_values(|i: ServiceInstance| i@)
}

/// `spec_to_engine` on each record of a sequence.
pub open spec fn spec_all_to_engine(hosts: Seq<NacosServiceInstanceView>) -> Seq<
    ServiceInstanceView,
> {
    hosts.map_values(|h: NacosServiceInstanceView| spec_to_engine(h))
}

/// `spec_to_host` on each instance of a sequence.
pub open spec fn spec_all_to_host(engines: Seq<ServiceInstanceView>) -> Seq<
    NacosServiceInstanceView,
> {
    engines.map_values(|e: ServiceInstanceView| spec_to_host(e))
}

impl NacosServiceInstance {
    /// A record for registration. The instance id is left out: the server
    /// assigns it.
    pub fn new(
        ip: String,
        port: i32,
        weight: Option<u64>,
        healthy: Option<bool>,
        enabled: Option<bool>,
        ephemeral: Option<bool>,
        cluster_name: Option<String>,
        service_name: Option<String>,
        metadata: Option<HashMap<String, String>>,
    ) -> (instance: NacosServiceInstance)
        ensures
            instance == (NacosServiceInstance {
                instance_id: None,
                ip,
                port,
                weight,
                healthy,
                enabled,
                ephemeral,
                cluster_name,
                service_name,
                metadata,
            }),
    {
        NacosServiceInstance {
            instance_id: None,
            ip,
            port,
            weight,
            healthy,
            enabled,
            ephemeral,
            cluster_name,
            service_name,
            metadata,
        }
    }
}

/// Marshals a host record into an SDK instance.
pub fn transfer_ffi_instance_to_rust(ffi_instance: &NacosServiceInstance) -> (rust_instance:
    ServiceInstance)
    ensures
        rust_instance@ == spec_to_engine(ffi_instance@),
{
    ServiceInstance {
        instance_id: clone_text(&ffi_instance.instance_id),
        ip: ffi_instance.ip.clone(),
        port: ffi_instance.port,
        weight: match ffi_instance.weight {
            Some(w) => w,
            None => DEFAULT_WEIGHT,
        },
        healthy: match ffi_instance.healthy {
            Some(b) => b,
            None => DEFAULT_HEALTHY,
        },
        enabled: match ffi_instance.enabled {
            Some(b) => b,
            None => DEFAULT_ENABLED,
        },
        ephemeral: match ffi_instance.ephemeral {
            Some(b) => b,
            None => DEFAULT_EPHEMERAL,
        },
        cluster_name: match &ffi_instance.cluster_name {
            Some(name) => Some(name.clone()),
            None => Some("DEFAULT".to_owned()),
        },
        service_name: clone_text(&ffi_instance.service_name),
        metadata: match &ffi_instance.metadata {
            Some(m) => m.clone(),
            None => HashMap::new(),
        },
    }
}

/// Marshals an SDK instance into a host record.
pub fn transfer_rust_instance_to_ffi(rust_instance: &ServiceInstance) -> (ffi_instance:
    NacosServiceInstance)
    ensures
        ffi_instance@ == spec_to_host(rust_instance@),
{
    NacosServiceInstance {
        instance_id: clone_text(&rust_instance.instance_id),
        ip: rust_instance.ip.clone(),
        port: rust_instance.port,
        weight: Some(rust_instance.weight),
        healthy: Some(rust_instance.healthy),
        enabled: Some(rust_instance.enabled),
        ephemeral: Some(rust_instance.ephemeral),
        cluster_name: clone_text(&rust_instance.cluster_name),
        service_name: clone_text(&rust_instance.service_name),
        metadata: Some(rust_instance.metadata.clone()),
    }
}

/// Marshals host records into SDK instances, one for one and in order.
pub fn transfer_ffi_instances_to_rust(ffi_instances: &Vec<NacosServiceInstance>) -> (rust_instances:
    Vec<ServiceInstance>)
    ensures
        engine_views(rust_instances@) == spec_all_to_engine(host_views(ffi_instances@)),
{
    let mut rust_instances: Vec<ServiceInstance> = Vec::new();
    let mut i: usize = 0;
    while i < ffi_instances.len()
        invariant
            i <= ffi_instances.len(),
            rust_instances@.len() == i,
            forall|k: int| 0 <= k < i ==> rust_instances@[k]@ == spec_to_engine(ffi_instances@[k]@),
        decreases ffi_instances.len() - i,
    {
        rust_instances.push(transfer_ffi_instance_to_rust(&ffi_instances[i]));
        i = i + 1;
    }
    assert(engine_views(rust_instances@) =~= spec_all_to_engine(host_views(ffi_instances@)));
    rust_instances
}

/// Marshals SDK instances into host records, one for one and in order.
pub fn transfer_rust_instances_to_ffi(rust_instances: &Vec<ServiceInstance>) -> (ffi_instances:
    Vec<NacosServiceInstance>)
    ensures
        host_views(ffi_instances@) == spec_all_to_host(engine_views(rust_instances@)),
{
    let mut ffi_instances: Vec<NacosServiceInstance> = Vec::new();
    let mut i: usize = 0;
    while i < rust_instances.len()
        invariant
            i <= rust_instances.len(),
            ffi_instances@.len() == i,
            forall|k: int| 0 <= k < i ==> ffi_instances@[k]@ == spec_to_host(rust_instances@[k]@),
        decreases rust_instances.len() - i,
    {
        ffi_instances.push(transfer_rust_instance_to_ffi(&rust_instances[i]));
        i = i + 1;
    }
    assert(host_views(ffi_instances@) =~= spec_all_to_host(engine_views(rust_instances@)));
    ffi_instances
}

/// A host record that leaves every optional field out marshals to an SDK
/// instance with weight 1.0, healthy, enabled, ephemeral, cluster `DEFAULT`
/// and no metadata, and marshalling that instance back gives these same
/// values, now present.
pub proof fn lemma_defaults_round_trip(host: NacosServiceInstanceView)
    requires
        host.weight is None,
        host.healthy is None,
        host.enabled is None,
        host.ephemeral is None,
        host.cluster_name is None,
        host.metadata is None,
    ensures
        spec_to_engine(host).weight == DEFAULT_WEIGHT,
        spec_to_engine(host).healthy,
        spec_to_engine(host).enabled,
        spec_to_engine(host).ephemeral,
        spec_to_engine(host).cluster_name == Some(default_cluster_name()),
        spec_to_engine(host).metadata == Map::<String, String>::empty(),
        spec_to_host(spec_to_engine(host)).weight == Some(DEFAULT_WEIGHT),
        spec_to_host(spec_to_engine(host)).healthy == Some(true),
        spec_to_host(spec_to_engine(host)).enabled == Some(true),
        spec_to_host(spec_to_engine(host)).ephemeral == Some(true),
        spec_to_host(spec_to_engine(host)).cluster_name == Some(default_cluster_name()),
        spec_to_host(spec_to_engine(host)).metadata == Some(Map::<String, String>::empty()),
{
}

/// Host to SDK to host keeps every field the host record carries: a field
/// that was present comes back unchanged, and the two fields that are never
/// optional do too.
pub proof fn lemma_round_trip_keeps_present_fields(host: NacosServiceInstanceView)
    ensures
        ({
            let back = spec_to_host(spec_to_engine(host));
            &&& back.instance_id == host.instance_id
            &&& back.ip == host.ip
            &&& back.port == host.port
            &&& back.service_name == host.service_name
            &&& host.weight is Some ==> back.weight == host.weight
            &&& host.healthy is Some ==> back.healthy == host.healthy
            &&& host.enabled is Some ==> back.enabled == host.enabled
            &&& host.ephemeral is Some ==> back.ephemeral == host.ephemeral
            &&& host.cluster_name is Some ==> back.cluster_name == host.cluster_name
            &&& host.metadata is Some ==> back.metadata == host.metadata
        }),
{
}

/// Host to SDK to host is idempotent: a second round trip changes nothing.
pub proof fn lemma_round_trip_idempotent(host: NacosServiceInstanceView)
    ensures
        spec_to_host(spec_to_engine(spec_to_host(spec_to_engine(host)))) == spec_to_host(
            spec_to_engine(host),
        ),
{
}

/// SDK to host never drops a field: the weight, the three flags and the
/// metadata are always present in the host record, and a text that the SDK
/// holds is present in the host record too, be it empty.
pub proof fn lemma_to_host_keeps_every_field(engine: ServiceInstanceView)
    ensures
        spec_to_host(engine).weight == Some(engine.weight),
        spec_to_host(engine).healthy == Some(engine.healthy),
        spec_to_host(engine).enabled == Some(engine.enabled),
        spec_to_host(engine).ephemeral == Some(engine.ephemeral),
        spec_to_host(engine).metadata == Some(engine.metadata),
        spec_to_host(engine).ip == engine.ip,
        spec_to_host(engine).port == engine.port,
        spec_to_host(engine).instance_id == engine.instance_id,
        spec_to_host(engine).cluster_name == engine.cluster_name,
        spec_to_host(engine).service_name == engine.service_name,
{
}

/// SDK to host loses nothing: marshalling the host record back gives the
/// SDK instance again, provided the instance names its cluster.
pub proof fn lemma_engine_round_trip(engine: ServiceInstanceView)
    requires
        engine.cluster_name is Some,
    ensures
        spec_to_engine(spec_to_host(engine)) == engine,
{
}

/// What the SDK reports when the instances of a service change: the
/// fields of the SDK's `NamingChangeEvent`.
#[derive(Clone, Debug, PartialEq, Eq)]
pub struct NamingChangeEvent {
    pub service_name: String,
    pub group_name: String,
    pub clusters: String,
    /// The instances after the change, where the SDK knows them.
    pub instances: Option<Vec<ServiceInstance>>,
}

/// `NamingChangeEvent` with each text as a sequence of characters.
pub struct NamingChangeEventView {
    pub service_name: Seq<char>,
    pub group_name: Seq<char>,
    pub clusters: Seq<char>,
    pub instances: Option<Seq<ServiceInstanceView>>,
}

impl View for NamingChangeEvent {
    type V = NamingChangeEventView;

    open spec fn view(&self) -> NamingChangeEventView {
        NamingChangeEventView {
            service_name: self.service_name@,
            group_name: self.group_name@,
            clusters: self.clusters@,
            instances: match self.instances {
                Some(instances) => Some(engine_views(instances@)),
                None => None,
            },
        }
    }
}

/// One call of a host callable with the instances of a service. Whoever
/// performs it enters the host runtime for this one call, and drops both
/// what the callable returns and what it raises.
#[derive(Clone, Debug, PartialEq, Eq)]
pub struct NamingInvocation {
    /// The handle of the callable.
    pub func: u64,
    /// The single argument of the call.
    pub instances: Vec<NacosServiceInstance>,
}

/// `NamingInvocation` with the instances taken by their views.
pub struct NamingInvocationView {
    pub func: u64,
    pub instances: Seq<NacosServiceInstanceView>,
}

impl View for NamingInvocation {
    type V = NamingInvocationView;

    open spec fn view(&self) -> NamingInvocationView {
        NamingInvocationView { func: self.func, instances: host_views(self.instances@) }
    }
}

/// A listener for naming events: one host callable, named by its handle.
#[derive(Clone, Copy, Debug, PartialEq, Eq, Structural)]
pub struct NacosNamingEventListener {
    /// The handle of the callable that this listener invokes.
    pub func: u64,
}

/// What a listener does with an event. An event without instances invokes
/// nothing. Any other event invokes the listener's callable exactly once,
/// with all the instances of the event, marshalled one for one and in
/// order.
pub open spec fn spec_event(
    listener: NacosNamingEventListener,
    event: NamingChangeEventView,
) -> Option<NamingInvocationView> {
    match event.instances {
        None => None,
        Some(instances) => Some(
            NamingInvocationView { func: listener.func, instances: spec_all_to_host(instances) },
        ),
    }
}

/// An optional invocation taken by its view.
pub open spec fn naming_invocation_view(invocation: Option<NamingInvocation>) -> Option<
    NamingInvocationView,
> {
    match invocation {
        Some(call) => Some(call@),
        None => None,
    }
}

impl NacosNamingEventListener {
    /// A listener that invokes the callable with the given handle.
    pub fn new(func: u64) -> (listener: NacosNamingEventListener)
        ensures
            listener == (NacosNamingEventListener { func }),
    {
        NacosNamingEventListener { func }
    }

    /// The invocation that answers an event, if any.
    pub fn event(&self, event: &NamingChangeEvent) -> (invocation: Option<NamingInvocation>)
        ensures
            naming_invocation_view(invocation) == spec_event(*self, event@),
    {
        match &event.instances {
            None => None,
            Some(rust_instances) => Some(
                NamingInvocation {
                    func: self.func,
                    instances: transfer_rust_instances_to_ffi(rust_instances),
                },
            ),
        }
    }
}

/// A call of the SDK's naming service, with the arguments the SDK takes.
#[derive(Clone, Debug, PartialEq, Eq)]
pub enum NamingRequest {
    RegisterInstance {
        service_name: String,
        group_name: Option<String>,
        service_instance: ServiceInstance,
    },
    DeregisterInstance {
        service_name: String,
        group_name: Option<String>,
        service_instance: ServiceInstance,
    },
    BatchRegisterInstance {
        service_name: String,
        group_name: Option<String>,
        service_instances: Vec<ServiceInstance>,
    },
    GetAllInstances {
        service_name: String,
        group_name: Option<String>,
        clusters: Vec<String>,
        subscribe: bool,
    },
    SelectInstances {
        service_name: String,
        group_name: Option<String>,
        clusters: Vec<String>,
        subscribe: bool,
        healthy: bool,
    },
    SelectOneHealthyInstance {
        service_name: String,
        group_name: Option<String>,
        clusters: Vec<String>,
        subscribe: bool,
    },
    Subscribe {
        service_name: String,
        group_name: Option<String>,
        clusters: Vec<String>,
        listener: NacosNamingEventListener,
    },
}

/// `NamingRequest` with each text as a sequence of characters.
pub enum NamingRequestView {
    RegisterInstance {
        service_name: Seq<char>,
        group_name: Option<Seq<char>>,
        service_instance: ServiceInstanceView,
    },
    DeregisterInstance {
        service_name: Seq<char>,
        group_name: Option<Seq<char>>,
        service_instance: ServiceInstanceView,
    },
    BatchRegisterInstance {
        service_name: Seq<char>,
        group_name: Option<Seq<char>>,
        service_instances: Seq<ServiceInstanceView>,
    },
    GetAllInstances {
        service_name: Seq<char>,
        group_name: Option<Seq<char>>,
        clusters: Seq<Seq<char>>,
        subscribe: bool,
    },
    SelectInstances {
        service_name: Seq<char>,
        group_name: Option<Seq<char>>,
        clusters: Seq<Seq<char>>,
        subscribe: bool,
        healthy: bool,
    },
    SelectOneHealthyInstance {
        service_name: Seq<char>,
        group_name: Option<Seq<char>>,
        clusters: Seq<Seq<char>>,
        subscribe: bool,
    },
    Subscribe {
        service_name: Seq<char>,
        group_name: Option<Seq<char>>,
        clusters: Seq<Seq<char>>,
        listener: NacosNamingEventListener,
    },
}

impl View for NamingRequest {
    type V = NamingRequestView;

    open spec fn view(&self) -> NamingRequestView {
        match self {
            NamingRequest::RegisterInstance { service_name, group_name, service_instance } => {
                NamingRequestView::RegisterInstance {
                    service_name: service_name@,
                    group_name: group_name.deep_view(),
                    service_instance: service_instance@,
                }
            },
            NamingRequest::DeregisterInstance { service_name, group_name, service_instance } => {
                NamingRequestView::DeregisterInstance {
                    service_name: service_name@,
                    group_name: group_name.deep_view(),
                    service_instance: service_instance@,
                }
            },
            NamingRequest::BatchRegisterInstance {
                service_name,
                group_name,
                service_instances,
            } => NamingRequestView::BatchRegisterInstance {
                service_name: service_name@,
                group_name: group_name.deep_view(),
                service_instances: engine_views(service_instances@),
            },
            NamingRequest::GetAllInstances { service_name, group_name, clusters, subscribe } => {
                NamingRequestView::GetAllInstances {
                    service_name: service_name@,
                    group_name: group_name.deep_view(),
                    clusters: clusters.deep_view(),
                    subscribe: *subscribe,
                }
            },
            NamingRequest::SelectInstances {
                service_name,
                group_name,
                clusters,
                subscribe,
                healthy,
            } => NamingRequestView::SelectInstances {
                service_name: service_name@,
                group_name: group_name.deep_view(),
                clusters: clusters.deep_view(),
                subscribe: *subscribe,
                healthy: *healthy,
            },
            NamingRequest::SelectOneHealthyInstance {
                service_name,
                group_name,
                clusters,
                subscribe,
            } => NamingRequestView::SelectOneHealthyInstance {
                service_name: service_name@,
                group_name: group_name.deep_view(),
                clusters: clusters.deep_view(),
                subscribe: *subscribe,
            },
            NamingRequest::Subscribe { service_name, group_name, clusters, listener } => {
                NamingRequestView::Subscribe {
                    service_name: service_name@,
                    group_name: group_name.deep_view(),
                    clusters: clusters.deep_view(),
                    listener: *listener,
                }
            },
        }
    }
}

/// A lookup subscribes to the service it looks up unless told otherwise.
pub const DEFAULT_SUBSCRIBE: bool = true;

/// A selection returns healthy instances unless told otherwise.
pub const DEFAULT_SELECT_HEALTHY: bool = true;

/// The clusters of a call: those given, or none at all.
pub open spec fn spec_clusters(clusters: Option<Vec<String>>) -> Seq<Seq<char>> {
    match clusters {
        Some(names) => names.deep_view(),
        None => Seq::empty(),
    }
}

/// A flag of a call: the one given, or the default.
pub open spec fn spec_flag(flag: Option<bool>, default: bool) -> bool {
    match flag {
        Some(b) => b,
        None => default,
    }
}

/// The clusters of a call: those given, or none at all.
fn clusters_or_default(clusters: Option<Vec<String>>) -> (names: Vec<String>)
    ensures
        names.deep_view() == spec_clusters(clusters),
{
    match clusters {
        Some(names) => names,
        None => {
            let names: Vec<String> = Vec::new();
            assert(names.deep_view() =~= Seq::<Seq<char>>::empty());
            names
        },
    }
}

/// A flag of a call: the one given, or the default.
fn flag_or(flag: Option<bool>, default: bool) -> (b: bool)
    ensures
        b == spec_flag(flag, default),
{
    match flag {
        Some(b) => b,
        None => default,
    }
}

/// The registration of a listener: a `Subscribe` request for a value that
/// can be invoked, and the argument failure, with no request at all, for one
/// that cannot.
pub open spec fn spec_subscribe(
    service_name: Seq<char>,
    group: Seq<char>,
    clusters: Seq<Seq<char>>,
    listener: HostObject,
) -> Result<NamingRequestView, BridgeErrorView> {
    match spec_accept(listener) {
        Ok(func) => Ok(
            NamingRequestView::Subscribe {
                service_name,
                group_name: Some(group),
                clusters,
                listener: NacosNamingEventListener { func },
            },
        ),
        Err(e) => Err(e),
    }
}

/// A `Result` with a naming request, both sides taken by their views.
pub open spec fn naming_request_result_view(result: Result<NamingRequest, BridgeError>) -> Result<
    NamingRequestView,
    BridgeErrorView,
> {
    match result {
        Ok(request) => Ok(request@),
        Err(e) => Err(e@),
    }
}

/// The synchronous client of the naming service.
///
/// A client holds the properties it was built from. Each operation gives
/// the request to send to the SDK; the reply goes through `instances_reply`,
/// `instance_reply` or `engine_result`, by what the SDK returns for the
/// request.
#[derive(Clone, Debug, PartialEq, Eq)]
pub struct NacosNamingClient {
    props: ClientProperties,
}

impl NacosNamingClient {
    /// The properties this client was built from.
    pub closed spec fn properties(&self) -> ClientPropertiesView {
        self.props@
    }

    /// A naming client for the given options.
    pub fn new(client_options: ClientOptions) -> (client: NacosNamingClient)
        ensures
            client.properties() == spec_resolve(client_options@, ClientKind::Naming),
    {
        NacosNamingClient { props: ClientProperties::resolve(client_options, ClientKind::Naming) }
    }

    /// The properties to build the SDK's naming service with.
    pub fn props(&self) -> (props: &ClientProperties)
        ensures
            props@ == self.properties(),
    {
        &self.props
    }

    /// Registers an instance of a service.
    pub fn register_instance(
        &self,
        service_name: String,
        group: String,
        service_instance: NacosServiceInstance,
    ) -> (request: NamingRequest)
        ensures
            request@ == (NamingRequestView::RegisterInstance {
                service_name: service_name@,
                group_name: Some(group@),
                service_instance: spec_to_engine(service_instance@),
            }),
    {
        NamingRequest::RegisterInstance {
            service_name,
            group_name: Some(group),
            service_instance: transfer_ffi_instance_to_rust(&service_instance),
        }
    }

    /// Removes an instance of a service.
    pub fn deregister_instance(
        &self,
        service_name: String,
        group: String,
        service_instance: NacosServiceInstance,
    ) -> (request: NamingRequest)
        ensures
            request@ == (NamingRequestView::DeregisterInstance {
                service_name: service_name@,
                group_name: Some(group@),
                service_instance: spec_to_engine(service_instance@),
            }),
    {
        NamingRequest::DeregisterInstance {
            service_name,
            group_name: Some(group),
            service_instance: transfer_ffi_instance_to_rust(&service_instance),
        }
    }

    /// Registers several instances of a service in one call.
    pub fn batch_register_instance(
        &self,
        service_name: String,
        group: String,
        service_instances: Vec<NacosServiceInstance>,
    ) -> (request: NamingRequest)
        ensures
            request@ == (NamingRequestView::BatchRegisterInstance {
                service_name: service_name@,
                group_name: Some(group@),
                service_instances: spec_all_to_engine(host_views(service_instances@)),
            }),
    {
        NamingRequest::BatchRegisterInstance {
            service_name,
            group_name: Some(group),
            service_instances: transfer_ffi_instances_to_rust(&service_instances),
        }
    }

    /// Looks up all instances of a service. Without `clusters` the lookup
    /// covers every cluster; without `subscribe` it subscribes.
    pub fn get_all_instances(
        &self,
        service_name: String,
        group: String,
        clusters: Option<Vec<String>>,
        subscribe: Option<bool>,
    ) -> (request: NamingRequest)
        ensures
            request@ == (NamingRequestView::GetAllInstances {
                service_name: service_name@,
                group_name: Some(group@),
                clusters: spec_clusters(clusters),
                subscribe: spec_flag(subscribe, DEFAULT_SUBSCRIBE),
            }),
    {
        NamingRequest::GetAllInstances {
            service_name,
            group_name: Some(group),
            clusters: clusters_or_default(clusters),
            subscribe: flag_or(subscribe, DEFAULT_SUBSCRIBE),
        }
    }

    /// Looks up the healthy or the unhealthy instances of a service.
    /// Without `clusters` the lookup covers every cluster; without
    /// `subscribe` it subscribes; without `healthy` it returns the healthy
    /// ones.
    pub fn select_instances(
        &self,
        service_name: String,
        group: String,
        clusters: Option<Vec<String>>,
        subscribe: Option<bool>,
        healthy: Option<bool>,
    ) -> (request: NamingRequest)
        ensures
            request@ == (NamingRequestView::SelectInstances {
                service_name: service_name@,
                group_name: Some(group@),
                clusters: spec_clusters(clusters),
                subscribe: spec_flag(subscribe, DEFAULT_SUBSCRIBE),
                healthy: spec_flag(healthy, DEFAULT_SELECT_HEALTHY),
            }),
    {
        NamingRequest::SelectInstances {
            service_name,
            group_name: Some(group),
            clusters: clusters_or_default(clusters),
            subscribe: flag_or(subscribe, DEFAULT_SUBSCRIBE),
            healthy: flag_or(healthy, DEFAULT_SELECT_HEALTHY),
        }
    }

    /// Looks up one healthy instance of a service. Without `clusters` the
    /// lookup covers every cluster; without `subscribe` it subscribes.
    pub fn select_one_healthy_instance(
        &self,
        service_name: String,
        group: String,
        clusters: Option<Vec<String>>,
        subscribe: Option<bool>,
    ) -> (request: NamingRequest)
        ensures
            request@ == (NamingRequestView::SelectOneHealthyInstance {
                service_name: service_name@,
                group_name: Some(group@),
                clusters: spec_clusters(clusters),
                subscribe: spec_flag(subscribe, DEFAULT_SUBSCRIBE),
            }),
    {
        NamingRequest::SelectOneHealthyInstance {
            service_name,
            group_name: Some(group),
            clusters: clusters_or_default(clusters),
            subscribe: flag_or(subscribe, DEFAULT_SUBSCRIBE),
        }
    }

    /// Registers a host callable as a listener for the changes of a
    /// service. A value that cannot be invoked is refused with the argument
    /// failure, and then no request is made.
    pub fn subscribe(
        &self,
        service_name: String,
        group: String,
        clusters: Option<Vec<String>>,
        listener: HostObject,
    ) -> (request: Result<NamingRequest, BridgeError>)
        ensures
            naming_request_result_view(request) == spec_subscribe(
                service_name@,
                group@,
                spec_clusters(clusters),
                listener,
            ),
    {
        match accept(listener) {
            Err(e) => Err(e),
            Ok(func) => Ok(
                NamingRequest::Subscribe {
                    service_name,
                    group_name: Some(group),
                    clusters: clusters_or_default(clusters),
                    listener: NacosNamingEventListener::new(func),
                },
            ),
        }
    }

    /// Does nothing, and succeeds. A registered listener stays registered:
    /// no request is made, so the SDK goes on delivering events to it.
    pub fn un_subscribe(
        &self,
        service_name: String,
        group: String,
        clusters: Option<Vec<String>>,
        listener: HostObject,
    ) -> (done: Result<(), BridgeError>)
        ensures
            done == Ok::<(), BridgeError>(()),
    {
        Ok(())
    }
}

/// The reply to a lookup of several instances: the instances marshalled
/// one for one and in order, or the engine failure.
pub fn instances_reply(
    outcome: Result<Vec<ServiceInstance>, nacos_sdk::api::error::Error>,
) -> (result: Result<Vec<NacosServiceInstance>, BridgeError>)
    ensures
        match outcome {
            Ok(rust_instances) => result is Ok && host_views(result->Ok_0@) == spec_all_to_host(
                engine_views(rust_instances@),
            ),
            Err(err) => result is Err && result->Err_0@ == BridgeErrorView::Engine(
                sdk_error_debug(err),
            ),
        },
{
    match outcome {
        Ok(rust_instances) => Ok(transfer_rust_instances_to_ffi(&rust_instances)),
        Err(err) => Err(engine_failure(&err)),
    }
}

/// The reply to a lookup of one instance: the instance marshalled, or the
/// engine failure.
pub fn instance_reply(outcome: Result<ServiceInstance, nacos_sdk::api::error::Error>) -> (result:
    Result<NacosServiceInstance, BridgeError>)
    ensures
        match outcome {
            Ok(rust_instance) => result is Ok && result->Ok_0@ == spec_to_host(rust_instance@),
            Err(err) => result is Err && result->Err_0@ == BridgeErrorView::Engine(
                sdk_error_debug(err),
            ),
        },
{
    match outcome {
        Ok(rust_instance) => Ok(transfer_rust_instance_to_ffi(&rust_instance)),
        Err(err) => Err(engine_failure(&err)),
    }
}

/// Registration checks the listener first. A value that cannot be invoked
/// gets the argument failure and no request, whatever the service, the
/// group and the clusters are: nothing is sent to the SDK for it.
pub proof fn lemma_subscribe_refuses_non_callable(
    service_name: Seq<char>,
    group: Seq<char>,
    clusters: Seq<Seq<char>>,
    listener: HostObject,
)
    requires
        !listener.callable,
    ensures
        spec_subscribe(service_name, group, clusters, listener) == Err::<
            NamingRequestView,
            BridgeErrorView,
        >(BridgeErrorView::Argument(listener_not_callable_message())),
{
}

/// The listener that a registration hands to the SDK invokes the registered
/// callable, once for each event that has instances and with all of them.
/// It holds nothing but the callable's handle, and `un_subscribe` makes no
/// request, so this stays true after the host has unsubscribed.
pub proof fn lemma_registered_listener_invokes_callable(
    service_name: Seq<char>,
    group: Seq<char>,
    clusters: Seq<Seq<char>>,
    listener: HostObject,
    event: NamingChangeEventView,
)
    requires
        listener.callable,
        event.instances is Some,
    ensures
        spec_subscribe(service_name, group, clusters, listener) == Ok::<
            NamingRequestView,
            BridgeErrorView,
        >(
            NamingRequestView::Subscribe {
                service_name,
                group_name: Some(group),
                clusters,
                listener: NacosNamingEventListener { func: listener.handle },
            },
        ),
        spec_event(NacosNamingEventListener { func: listener.handle }, event) == Some(
            NamingInvocationView {
                func: listener.handle,
                instances: spec_all_to_host(event.instances->0),
            },
        ),
        spec_event(NacosNamingEventListener { func: listener.handle }, event)->0.instances.len()
            == event.instances->0.len(),
{
}

} // verus!
