//! The client entry point: one resolved transport, handed by reference to
//! the per-resource interfaces.

use vstd::prelude::*;

use crate::container::Containers;
use crate::errors::Error;
use crate::image::Images;
use crate::network::Networks;
use crate::transport::{ConnectionDescriptor, Transport};
use crate::volume::Volumes;

verus! {

/// A client for one daemon: the transport selected once at construction.
pub struct Docker {
    transport: Transport,
}

impl Docker {
    /// The selected transport.
    pub closed spec fn spec_transport(&self) -> Transport {
        self.transport
    }

    /// A client for the well-known local domain socket.
    pub fn new() -> (d: Docker)
        ensures
            d.spec_transport() matches Transport::Unix { path } && path@ == "/var/run/docker.sock"@,
    {
        Docker { transport: Transport::Unix { path: "/var/run/docker.sock".to_owned() } }
    }

    /// A client for a given domain socket.
    pub fn unix(socket_path: &str) -> (d: Docker)
        ensures
            d.spec_transport() matches Transport::Unix { path } && path@ == socket_path@,
    {
        Docker { transport: Transport::Unix { path: socket_path.to_owned() } }
    }

    /// A client for the backend a descriptor selects; fails eagerly on a
    /// descriptor that resolves to no backend.
    pub fn host(descriptor: &ConnectionDescriptor) -> (r: Result<Docker, Error>)
        ensures
            Transport::from_descriptor_post(
                *descriptor,
                match r {
                    Ok(d) => Ok(d.spec_transport()),
                    Err(e) => Err(e),
                },
            ),
    {
        match Transport::from_descriptor(descriptor) {
            Ok(t) => Ok(Docker { transport: t }),
            Err(e) => Err(e),
        }
    }

    /// The transport requests go through.
    pub fn transport(&self) -> (t: &Transport)
        ensures
            *t == self.spec_transport(),
    {
        &self.transport
    }

    /// The container interfaces.
    pub fn containers(&self) -> (r: Containers)
        ensures
            r.backing() == self.spec_transport(),
    {
        Containers::new(self)
    }

    /// The image interfaces.
    pub fn images(&self) -> (r: Images)
        ensures
            r.backing() == self.spec_transport(),
    {
        Images::new(self)
    }

    /// The network interfaces.
    pub fn networks(&self) -> (r: Networks)
        ensures
            r.backing() == self.spec_transport(),
    {
        Networks::new(self)
    }

    /// The volume interfaces.
    pub fn volumes(&self) -> (r: Volumes)
        ensures
            r.backing() == self.spec_transport(),
    {
        Volumes::new(self)
    }
}

} // verus!
