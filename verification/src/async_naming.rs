//! The asynchronous client of the naming service.

use vstd::prelude::*;
use crate::error::{BridgeError, BridgeErrorView};
use crate::listener::HostObject;
use crate::naming::{
    host_views, spec_all_to_engine, spec_clusters, spec_flag, spec_subscribe, spec_to_engine,
    NacosNamingClient, NacosServiceInstance, NamingRequest, NamingRequestView, DEFAULT_SELECT_HEALTHY,
    DEFAULT_SUBSCRIBE,
};
use crate::options::ClientOptions;
use crate::pending::{OperationState, PendingOperation};
use crate::props::{spec_resolve, ClientKind, ClientProperties, ClientPropertiesView};

verus! {

/// The asynchronous client of the naming service.
///
/// It makes the same requests as `NacosNamingClient`. Each operation
/// returns at once, with the request to send to the SDK and the pending slot
/// that the continuation of the SDK's future settles with the reply.
#[derive(Clone, Debug, PartialEq, Eq)]
pub struct AsyncNacosNamingClient {
    inner: NacosNamingClient,
}

/// What `subscribe` gives: a request and its pending slot, or the argument
/// failure, taken by their views.
pub open spec fn subscription_call_view(
    call: Result<(NamingRequest, PendingOperation<()>), BridgeError>,
) -> Result<NamingRequestView, BridgeErrorView> {
    match call {
        Ok((request, operation)) => Ok(request@),
        Err(e) => Err(e@),
    }
}

impl AsyncNacosNamingClient {
    /// The properties this client was built from.
    pub closed spec fn properties(&self) -> ClientPropertiesView {
        self.inner.properties()
    }

    /// A naming client for the given options.
    pub fn new(client_options: ClientOptions) -> (client: AsyncNacosNamingClient)
        ensures
            client.properties() == spec_resolve(client_options@, ClientKind::Naming),
    {
        AsyncNacosNamingClient { inner: NacosNamingClient::new(client_options) }
    }

    /// The properties to build the SDK's naming service with.
    pub fn props(&self) -> (props: &ClientProperties)
        ensures
            props@ == self.properties(),
    {
        self.inner.props()
    }

    /// Registers an instance of a service.
    pub fn register_instance(
        &self,
        service_name: String,
        group: String,
        service_instance: NacosServiceInstance,
    ) -> (call: (NamingRequest, PendingOperation<()>))
        ensures
            call.0@ == (NamingRequestView::RegisterInstance {
                service_name: service_name@,
                group_name: Some(group@),
                service_instance: spec_to_engine(service_instance@),
            }),
            call.1.state() is Pending,
    {
        (
            self.inner.register_instance(service_name, group, service_instance),
            PendingOperation::new(),
        )
    }

    /// Removes an instance of a service.
    pub fn deregister_instance(
        &self,
        service_name: String,
        group: String,
        service_instance: NacosServiceInstance,
    ) -> (call: (NamingRequest, PendingOperation<()>))
        ensures
            call.0@ == (NamingRequestView::DeregisterInstance {
                service_name: service_name@,
                group_name: Some(group@),
                service_instance: spec_to_engine(service_instance@),
            }),
            call.1.state() is Pending,
    {
        (
            self.inner.deregister_instance(service_name, group, service_instance),
            PendingOperation::new(),
        )
    }

    /// Registers several instances of a service in one call.
    pub fn batch_register_instance(
        &self,
        service_name: String,
        group: String,
        service_instances: Vec<NacosServiceInstance>,
    ) -> (call: (NamingRequest, PendingOperation<()>))
        ensures
            call.0@ == (NamingRequestView::BatchRegisterInstance {
                service_name: service_name@,
                group_name: Some(group@),
                service_instances: spec_all_to_engine(host_views(service_instances@)),
            }),
            call.1.state() is Pending,
    {
        (
            self.inner.batch_register_instance(service_name, group, service_instances),
            PendingOperation::new(),
        )
    }

    /// Looks up all instances of a service. Without `clusters` the lookup
    /// covers every cluster; without `subscribe` it subscribes. The reply
    /// goes through `instances_reply`.
    pub fn get_all_instances(
        &self,
        service_name: String,
        group: String,
        clusters: Option<Vec<String>>,
        subscribe: Option<bool>,
    ) -> (call: (NamingRequest, PendingOperation<Vec<NacosServiceInstance>>))
        ensures
            call.0@ == (NamingRequestView::GetAllInstances {
                service_name: service_name@,
                group_name: Some(group@),
                clusters: spec_clusters(clusters),
                subscribe: spec_flag(subscribe, DEFAULT_SUBSCRIBE),
            }),
            call.1.state() is Pending,
    {
        (
            self.inner.get_all_instances(service_name, group, clusters, subscribe),
            PendingOperation::new(),
        )
    }

    /// Looks up the healthy or the unhealthy instances of a service.
    /// Without `clusters` the lookup covers every cluster; without
    /// `subscribe` it subscribes; without `healthy` it returns the healthy
    /// ones. The reply goes through `instances_reply`.
    pub fn select_instances(
        &self,
        service_name: String,
        group: String,
        clusters: Option<Vec<String>>,
        subscribe: Option<bool>,
        healthy: Option<bool>,
    ) -> (call: (NamingRequest, PendingOperation<Vec<NacosServiceInstance>>))
        ensures
            call.0@ == (NamingRequestView::SelectInstances {
                service_name: service_name@,
                group_name: Some(group@),
                clusters: spec_clusters(clusters),
                subscribe: spec_flag(subscribe, DEFAULT_SUBSCRIBE),
                healthy: spec_flag(healthy, DEFAULT_SELECT_HEALTHY),
            }),
            call.1.state() is Pending,
    {
        (
            self.inner.select_instances(service_name, group, clusters, subscribe, healthy),
            PendingOperation::new(),
        )
    }

    /// Looks up one healthy instance of a service. Without `clusters` the
    /// lookup covers every cluster; without `subscribe` it subscribes. The
    /// reply goes through `instance_reply`.
    pub fn select_one_healthy_instance(
        &self,
        service_name: String,
        group: String,
        clusters: Option<Vec<String>>,
        subscribe: Option<bool>,
    ) -> (call: (NamingRequest, PendingOperation<NacosServiceInstance>))
        ensures
            call.0@ == (NamingRequestView::SelectOneHealthyInstance {
                service_name: service_name@,
                group_name: Some(group@),
                clusters: spec_clusters(clusters),
                subscribe: spec_flag(subscribe, DEFAULT_SUBSCRIBE),
            }),
            call.1.state() is Pending,
    {
        (
            self.inner.select_one_healthy_instance(service_name, group, clusters, subscribe),
            PendingOperation::new(),
        )
    }

    /// Registers a host callable as a listener for the changes of a
    /// service. A value that cannot be invoked is refused at once with the
    /// argument failure: no request is made and no slot is created.
    pub fn subscribe(
        &self,
        service_name: String,
        group: String,
        clusters: Option<Vec<String>>,
        listener: HostObject,
    ) -> (call: Result<(NamingRequest, PendingOperation<()>), BridgeError>)
        ensures
            subscription_call_view(call) == spec_subscribe(
                service_name@,
                group@,
                spec_clusters(clusters),
                listener,
            ),
            call is Ok ==> call->Ok_0.1.state() is Pending,
    {
        match self.inner.subscribe(service_name, group, clusters, listener) {
            Ok(request) => Ok((request, PendingOperation::new())),
            Err(e) => Err(e),
        }
    }

    /// Does nothing, and succeeds: the slot is settled from the start, and
    /// no request is made. A registered listener stays registered.
    pub fn un_subscribe(
        &self,
        service_name: String,
        group: String,
        clusters: Option<Vec<String>>,
        listener: HostObject,
    ) -> (done: PendingOperation<()>)
        ensures
            done.state() == OperationState::Resolved(()),
    {
        PendingOperation::settled(Ok(()))
    }
}

} // verus!
