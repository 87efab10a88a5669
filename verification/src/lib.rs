//! Client-side building blocks for a container engine's HTTP API.
//!
//! The crate covers the transport-facing core of such a client: selecting a
//! connection backend from a descriptor, building request targets, classifying
//! responses, decoding the engine's multiplexed output framing, and splitting
//! streamed JSON documents — together with the request-option builders that
//! produce the query strings and JSON bodies the API expects.

pub mod container;
pub mod docker;
pub mod errors;
pub mod exec;
pub mod image;
pub mod json;
pub mod network;
pub mod volume;
pub mod query;
pub mod rep;
pub mod stream;
pub mod text;
pub mod transport;
pub mod tty;

pub use container::{
    Container, ContainerFilter, ContainerListOptions, ContainerOptions, Containers, LogsOptions,
    RmContainerOptions,
};
pub use docker::Docker;
pub use errors::Error;
pub use exec::{Exec, ExecContainerOptions, ExecResizeOptions};
pub use image::{
    BuildOptions, Image, ImageFilter, ImageListOptions, Images, PullOptions, RegistryAuth,
    TagOptions,
};
pub use network::{
    ContainerConnectionOptions, Network, NetworkCreateOptions, NetworkListOptions, Networks,
};
pub use volume::{Volume, VolumeCreateOptions, Volumes};
pub use transport::Transport;
pub use tty::{Frame, FrameDemultiplexer, StreamTag};
