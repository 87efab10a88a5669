//! Interfaces for volumes: the endpoints their operations hit and the
//! options that shape creation requests.

use vstd::prelude::*;

use crate::docker::Docker;
use crate::errors::Error;
use crate::json::{
    clone_members, jmodel_pairs, json_text, model_obj_set, obj_set, obj_set_all, set_all,
    JsonModel, JsonValue,
};
use crate::network::{pairs_object, string_pairs_fold};
use crate::text::str_concat2;
use crate::transport::Transport;

verus! {

/// Interface for the daemon's volumes.
pub struct Volumes<'a> {
    docker: &'a Docker,
}

impl<'a> Volumes<'a> {
    /// The transport behind this interface.
    pub closed spec fn backing(&self) -> Transport {
        self.docker.spec_transport()
    }

    /// An interface for interacting with volumes.
    pub fn new(docker: &'a Docker) -> (r: Volumes<'a>)
        ensures
            r.backing() == docker.spec_transport(),
    {
        Volumes { docker }
    }

    /// The endpoint that creates a volume.
    pub fn create_endpoint(&self) -> (r: String)
        ensures
            r@ == "/volumes/create"@,
    {
        "/volumes/create".to_owned()
    }

    /// The endpoint that lists volumes.
    pub fn list_endpoint(&self) -> (r: String)
        ensures
            r@ == "/volumes"@,
    {
        "/volumes".to_owned()
    }

    /// The interface for one named volume.
    pub fn get(&self, name: &str) -> (r: Volume<'a>)
        ensures
            r.backing() == self.backing(),
            r.spec_name() == name@,
    {
        Volume::new(self.docker, name)
    }
}

/// Interface for accessing and manipulating one named volume.
pub struct Volume<'a> {
    docker: &'a Docker,
    name: String,
}

impl<'a> Volume<'a> {
    /// The transport behind this interface.
    pub closed spec fn backing(&self) -> Transport {
        self.docker.spec_transport()
    }

    /// The volume's name.
    pub closed spec fn spec_name(&self) -> Seq<char> {
        self.name@
    }

    /// An interface for operations against one named volume.
    pub fn new(docker: &'a Docker, name: &str) -> (r: Volume<'a>)
        ensures
            r.backing() == docker.spec_transport(),
            r.spec_name() == name@,
    {
        Volume { docker, name: name.to_owned() }
    }

    /// The endpoint that deletes this volume.
    pub fn delete_endpoint(&self) -> (r: String)
        ensures
            r@ == "/volumes/"@ + self.spec_name(),
    {
        str_concat2("/volumes/", self.name.as_str())
    }
}

/// Options for creating a volume.
#[derive(Debug)]
pub struct VolumeCreateOptions {
    params: Vec<(String, JsonValue)>,
}

impl VolumeCreateOptions {
    /// The members set so far.
    pub closed spec fn spec_params(&self) -> Seq<(Seq<char>, JsonModel)> {
        jmodel_pairs(self.params@)
    }

    /// The JSON body for these options.
    pub fn serialize(&self) -> (r: Result<String, Error>)
        ensures
            r matches Ok(s) && s@ == json_text(JsonModel::Obj(self.spec_params())),
    {
        let obj = JsonValue::Obj(clone_members(&self.params));
        Ok(obj.render())
    }

    /// Sets every given member.
    pub fn parse_from(&self, params: &Vec<(String, JsonValue)>, body: &mut Vec<(String, JsonValue)>)
        ensures
            jmodel_pairs(final(body)@) == set_all(jmodel_pairs(old(body)@), jmodel_pairs(params@)),
    {
        obj_set_all(params, body);
    }

    /// A builder for creation options.
    pub fn builder() -> (b: VolumeCreateOptionsBuilder)
        ensures
            b.spec_params() == Seq::<(Seq<char>, JsonModel)>::empty(),
    {
        VolumeCreateOptionsBuilder::new()
    }
}

/// Builder interface for `VolumeCreateOptions`.
#[derive(Debug)]
pub struct VolumeCreateOptionsBuilder {
    params: Vec<(String, JsonValue)>,
}

impl VolumeCreateOptionsBuilder {
    /// The members set so far.
    pub closed spec fn spec_params(&self) -> Seq<(Seq<char>, JsonModel)> {
        jmodel_pairs(self.params@)
    }

    /// A builder with nothing set.
    pub(crate) fn new() -> (r: VolumeCreateOptionsBuilder)
        ensures
            r.spec_params() == Seq::<(Seq<char>, JsonModel)>::empty(),
    {
        let r = VolumeCreateOptionsBuilder { params: Vec::new() };
        proof {
            assert(r.spec_params() =~= Seq::<(Seq<char>, JsonModel)>::empty());
        }
        r
    }

    /// Names the volume.
    pub fn name(&mut self, name: &str) -> (r: &mut Self)
        ensures
            r.spec_params() == model_obj_set(
                old(self).spec_params(),
                "Name"@,
                JsonModel::Str(name@),
            ),
            *final(self) == *final(r),
    {
        obj_set(&mut self.params, "Name".to_owned(), JsonValue::Str(name.to_owned()));
        self
    }

    /// Attaches labels to the volume.
    pub fn labels(&mut self, labels: &Vec<(String, String)>) -> (r: &mut Self)
        ensures
            r.spec_params() == model_obj_set(
                old(self).spec_params(),
                "Labels"@,
                JsonModel::Obj(string_pairs_fold(Seq::empty(), labels@)),
            ),
            *final(self) == *final(r),
    {
        let obj = pairs_object(labels);
        obj_set(&mut self.params, "Labels".to_owned(), obj);
        self
    }

    /// The options set so far.
    pub fn build(&self) -> (r: VolumeCreateOptions)
        ensures
            r.spec_params() == self.spec_params(),
    {
        VolumeCreateOptions { params: clone_members(&self.params) }
    }
}

} // verus!
