//! The core of a bridge between a host runtime and the Nacos client SDK.
//!
//! The host hands the bridge plain records and callables; the SDK works with
//! its own types, its own threads and its own futures. This crate holds what
//! the bridge decides in between: which authentication scheme a set of client
//! options selects, which SDK request a host call becomes, how records are
//! marshalled in both directions and which defaults fill the fields the host
//! left out, how an SDK failure is reported, what a listener is invoked with
//! when the SDK raises an event, and how an asynchronous call moves from
//! pending to resolved. Performing the SDK calls and entering the host
//! runtime is left to the caller.

pub mod async_config;
pub mod async_naming;
pub mod auth;
pub mod config;
pub mod error;
pub mod listener;
pub mod naming;
pub mod options;
pub mod pending;
pub mod props;

pub use async_config::AsyncNacosConfigClient;
pub use async_naming::AsyncNacosNamingClient;
pub use config::{NacosConfigChangeListener, NacosConfigClient, NacosConfigResponse};
pub use naming::{NacosNamingClient, NacosNamingEventListener, NacosServiceInstance};
pub use options::ClientOptions;
