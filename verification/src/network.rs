//! Interfaces for networks: the endpoints their operations hit and the
//! options that shape creation and connection requests.

use vstd::prelude::*;

use crate::docker::Docker;
use crate::errors::Error;
use crate::json::{
    clone_members, jmodel_pairs, json_text, model_obj_set, obj_set, obj_set_all, set_all,
    JsonModel, JsonValue,
};
use crate::query::{encode_query, pairs_view, urlencoded_of, with_query};
use crate::text::{str_concat2, str_concat3};
use crate::transport::Transport;

verus! {

/// Interface for the daemon's networks.
pub struct Networks<'a> {
    docker: &'a Docker,
}

impl<'a> Networks<'a> {
    /// The transport behind this interface.
    pub closed spec fn backing(&self) -> Transport {
        self.docker.spec_transport()
    }

    /// An interface for interacting with networks.
    pub fn new(docker: &'a Docker) -> (r: Networks<'a>)
        ensures
            r.backing() == docker.spec_transport(),
    {
        Networks { docker }
    }

    /// The endpoint that lists networks, shaped by the list options.
    pub fn list_endpoint(&self, opts: &NetworkListOptions) -> (r: String)
        ensures
            opts.spec_params().len() == 0 ==> r@ == "/networks"@,
            opts.spec_params().len() > 0 ==> r@ == "/networks"@ + seq!['?'] + urlencoded_of(
                opts.spec_params(),
            ),
    {
        with_query("/networks".to_owned(), opts.serialize())
    }

    /// The interface for one network.
    pub fn get(&self, id: &str) -> (r: Network<'a>)
        ensures
            r.backing() == self.backing(),
            r.spec_id() == id@,
    {
        Network::new(self.docker, id)
    }

    /// The endpoint that creates a network.
    pub fn create_endpoint(&self) -> (r: String)
        ensures
            r@ == "/networks/create"@,
    {
        "/networks/create".to_owned()
    }
}

/// Interface for accessing and manipulating one network.
pub struct Network<'a> {
    docker: &'a Docker,
    id: String,
}

impl<'a> Network<'a> {
    /// The transport behind this interface.
    pub closed spec fn backing(&self) -> Transport {
        self.docker.spec_transport()
    }

    /// The network's identifier.
    pub closed spec fn spec_id(&self) -> Seq<char> {
        self.id@
    }

    /// An interface for operations against one network.
    pub fn new(docker: &'a Docker, id: &str) -> (r: Network<'a>)
        ensures
            r.backing() == docker.spec_transport(),
            r.spec_id() == id@,
    {
        Network { docker, id: id.to_owned() }
    }

    /// The network id.
    pub fn id(&self) -> (r: &str)
        ensures
            r@ == self.spec_id(),
    {
        self.id.as_str()
    }

    /// The endpoint that inspects this network.
    pub fn inspect_endpoint(&self) -> (r: String)
        ensures
            r@ == "/networks/"@ + self.spec_id(),
    {
        str_concat2("/networks/", self.id.as_str())
    }

    /// The endpoint that deletes this network.
    pub fn delete_endpoint(&self) -> (r: String)
        ensures
            r@ == "/networks/"@ + self.spec_id(),
    {
        str_concat2("/networks/", self.id.as_str())
    }

    /// The endpoint that connects a container to this network.
    pub fn connect_endpoint(&self) -> (r: String)
        ensures
            r@ == "/networks/"@ + self.spec_id() + "/connect"@,
    {
        str_concat3("/networks/", self.id.as_str(), "/connect")
    }

    /// The endpoint that disconnects a container from this network.
    pub fn disconnect_endpoint(&self) -> (r: String)
        ensures
            r@ == "/networks/"@ + self.spec_id() + "/disconnect"@,
    {
        str_concat3("/networks/", self.id.as_str(), "/disconnect")
    }
}

/// Options for filtering network list results.
#[derive(Debug)]
pub struct NetworkListOptions {
    params: Vec<(String, String)>,
}

impl NetworkListOptions {
    /// The parameters set so far.
    pub closed spec fn spec_params(&self) -> Seq<(Seq<char>, Seq<char>)> {
        pairs_view(self.params@)
    }

    /// The query string for these options; nothing when none are set.
    pub fn serialize(&self) -> (r: Option<String>)
        ensures
            (r is Some) <==> self.spec_params().len() > 0,
            r matches Some(q) ==> q@ == urlencoded_of(self.spec_params()),
    {
        encode_query(&self.params)
    }
}

impl Default for NetworkListOptions {
    /// Options with nothing set.
    fn default() -> (r: NetworkListOptions)
        ensures
            r.spec_params() == Seq::<(Seq<char>, Seq<char>)>::empty(),
    {
        let r = NetworkListOptions { params: Vec::new() };
        proof {
            assert(r.spec_params() =~= Seq::<(Seq<char>, Seq<char>)>::empty());
        }
        r
    }
}

/// Options for creating a network.
#[derive(Debug)]
pub struct NetworkCreateOptions {
    params: Vec<(String, JsonValue)>,
}

impl NetworkCreateOptions {
    /// The members set so far.
    pub closed spec fn spec_params(&self) -> Seq<(Seq<char>, JsonModel)> {
        jmodel_pairs(self.params@)
    }

    /// A builder for creation options, for a network of this name.
    pub fn builder(name: &str) -> (b: NetworkCreateOptionsBuilder)
        ensures
            b.spec_params() == model_obj_set(
                Seq::<(Seq<char>, JsonModel)>::empty(),
                "Name"@,
                JsonModel::Str(name@),
            ),
    {
        NetworkCreateOptionsBuilder::new(name)
    }

    /// The JSON body for these options.
    pub fn serialize(&self) -> (r: Result<String, Error>)
        ensures
            r matches Ok(s) && s@ == json_text(JsonModel::Obj(self.spec_params())),
    {
        let obj = JsonValue::Obj(clone_members(&self.params));
        Ok(obj.render())
    }

    /// Sets every given member.
    pub fn parse_from(&self, params: &Vec<(String, JsonValue)>, body: &mut Vec<(String, JsonValue)>)
        ensures
            jmodel_pairs(final(body)@) == set_all(jmodel_pairs(old(body)@), jmodel_pairs(params@)),
    {
        obj_set_all(params, body);
    }
}

/// Builder interface for `NetworkCreateOptions`.
#[derive(Debug)]
pub struct NetworkCreateOptionsBuilder {
    params: Vec<(String, JsonValue)>,
}

impl NetworkCreateOptionsBuilder {
    /// The members set so far.
    pub closed spec fn spec_params(&self) -> Seq<(Seq<char>, JsonModel)> {
        jmodel_pairs(self.params@)
    }

    /// A builder holding the network's name.
    pub(crate) fn new(name: &str) -> (r: NetworkCreateOptionsBuilder)
        ensures
            r.spec_params() == model_obj_set(
                Seq::<(Seq<char>, JsonModel)>::empty(),
                "Name"@,
                JsonModel::Str(name@),
            ),
    {
        let mut params: Vec<(String, JsonValue)> = Vec::new();
        proof {
            assert(jmodel_pairs(params@) =~= Seq::<(Seq<char>, JsonModel)>::empty());
        }
        obj_set(&mut params, "Name".to_owned(), JsonValue::Str(name.to_owned()));
        NetworkCreateOptionsBuilder { params }
    }

    /// Names the network driver; an empty name leaves the default.
    pub fn driver(&mut self, name: &str) -> (r: &mut Self)
        ensures
            name@.len() == 0 ==> r.spec_params() == old(self).spec_params(),
            name@.len() > 0 ==> r.spec_params() == model_obj_set(
                old(self).spec_params(),
                "Driver"@,
                JsonModel::Str(name@),
            ),
            *final(self) == *final(r),
    {
        if !name.is_empty() {
            obj_set(&mut self.params, "Driver".to_owned(), JsonValue::Str(name.to_owned()));
        }
        self
    }

    /// Attaches labels to the network.
    pub fn label(&mut self, labels: Vec<(String, String)>) -> (r: &mut Self)
        ensures
            r.spec_params() == model_obj_set(
                old(self).spec_params(),
                "Labels"@,
                JsonModel::Obj(string_pairs_fold(Seq::empty(), labels@)),
            ),
            *final(self) == *final(r),
    {
        let obj = pairs_object(&labels);
        obj_set(&mut self.params, "Labels".to_owned(), obj);
        self
    }

    /// The options set so far.
    pub fn build(&self) -> (r: NetworkCreateOptions)
        ensures
            r.spec_params() == self.spec_params(),
    {
        NetworkCreateOptions { params: clone_members(&self.params) }
    }
}

/// The JSON object a list of string pairs builds up, later pairs replacing
/// earlier ones under the same key.
pub open spec fn string_pairs_fold(
    acc: Seq<(Seq<char>, JsonModel)>,
    ps: Seq<(String, String)>,
) -> Seq<(Seq<char>, JsonModel)>
    decreases ps.len(),
{
    if ps.len() == 0 {
        acc
    } else {
        string_pairs_fold(
            model_obj_set(acc, ps[0].0@, JsonModel::Str(ps[0].1@)),
            ps.drop_first(),
        )
    }
}

/// The JSON object holding one string member per pair.
pub fn pairs_object(pairs: &Vec<(String, String)>) -> (r: JsonValue)
    ensures
        crate::json::jmodel(r) == JsonModel::Obj(string_pairs_fold(Seq::empty(), pairs@)),
{
    let mut obj: Vec<(String, JsonValue)> = Vec::new();
    proof {
        assert(jmodel_pairs(obj@) =~= Seq::<(Seq<char>, JsonModel)>::empty());
    }
    proof {
        assert(pairs@.skip(0) =~= pairs@);
    }
    let mut i: usize = 0;
    while i < pairs.len()
        invariant
            i <= pairs@.len(),
            string_pairs_fold(Seq::empty(), pairs@) == string_pairs_fold(
                jmodel_pairs(obj@),
                pairs@.skip(i as int),
            ),
        decreases pairs@.len() - i,
    {
        proof {
            assert(pairs@.skip(i as int)[0] == pairs@[i as int]);
            assert(pairs@.skip(i as int).drop_first() =~= pairs@.skip(i + 1));
        }
        let p = &pairs[i];
        obj_set(&mut obj, p.0.clone(), JsonValue::Str(p.1.clone()));
        i = i + 1;
    }
    proof {
        assert(pairs@.skip(pairs@.len() as int) =~= Seq::<(String, String)>::empty());
    }
    JsonValue::Obj(obj)
}

/// Options for connecting a container to a network or detaching it again.
#[derive(Debug)]
pub struct ContainerConnectionOptions {
    params: Vec<(String, JsonValue)>,
}

impl ContainerConnectionOptions {
    /// The members set so far.
    pub closed spec fn spec_params(&self) -> Seq<(Seq<char>, JsonModel)> {
        jmodel_pairs(self.params@)
    }

    /// The JSON body for these options.
    pub fn serialize(&self) -> (r: Result<String, Error>)
        ensures
            r matches Ok(s) && s@ == json_text(JsonModel::Obj(self.spec_params())),
    {
        let obj = JsonValue::Obj(clone_members(&self.params));
        Ok(obj.render())
    }

    /// Sets every given member.
    pub fn parse_from(&self, params: &Vec<(String, JsonValue)>, body: &mut Vec<(String, JsonValue)>)
        ensures
            jmodel_pairs(final(body)@) == set_all(jmodel_pairs(old(body)@), jmodel_pairs(params@)),
    {
        obj_set_all(params, body);
    }

    /// A builder for connection options, for a container of this identifier.
    pub fn builder(container_id: &str) -> (b: ContainerConnectionOptionsBuilder)
        ensures
            b.spec_params() == model_obj_set(
                Seq::<(Seq<char>, JsonModel)>::empty(),
                "Container"@,
                JsonModel::Str(container_id@),
            ),
    {
        ContainerConnectionOptionsBuilder::new(container_id)
    }
}

/// Builder interface for `ContainerConnectionOptions`.
#[derive(Debug)]
pub struct ContainerConnectionOptionsBuilder {
    params: Vec<(String, JsonValue)>,
}

impl ContainerConnectionOptionsBuilder {
    /// The members set so far.
    pub closed spec fn spec_params(&self) -> Seq<(Seq<char>, JsonModel)> {
        jmodel_pairs(self.params@)
    }

    /// A builder holding the container's identifier.
    pub(crate) fn new(container_id: &str) -> (r: ContainerConnectionOptionsBuilder)
        ensures
            r.spec_params() == model_obj_set(
                Seq::<(Seq<char>, JsonModel)>::empty(),
                "Container"@,
                JsonModel::Str(container_id@),
            ),
    {
        let mut params: Vec<(String, JsonValue)> = Vec::new();
        proof {
            assert(jmodel_pairs(params@) =~= Seq::<(Seq<char>, JsonModel)>::empty());
        }
        obj_set(&mut params, "Container".to_owned(), JsonValue::Str(container_id.to_owned()));
        ContainerConnectionOptionsBuilder { params }
    }

    /// The names the container answers to on the network.
    pub fn aliases(&mut self, aliases: Vec<&str>) -> (r: &mut Self)
        ensures
            r.spec_params() == model_obj_set(
                old(self).spec_params(),
                "EndpointConfig"@,
                JsonModel::Obj(
                    seq![
                        ("Aliases"@, JsonModel::Arr(crate::exec::strs_model(aliases@))),
                    ],
                ),
            ),
            *final(self) == *final(r),
    {
        let mut arr: Vec<JsonValue> = Vec::new();
        let mut i: usize = 0;
        while i < aliases.len()
            invariant
                i <= aliases@.len(),
                arr@.len() == i,
                forall|l: int|
                    0 <= l < i ==> crate::json::jmodel(#[trigger] arr@[l]) == JsonModel::Str(
                        aliases@[l]@,
                    ),
            decreases aliases@.len() - i,
        {
            arr.push(JsonValue::Str(aliases[i].to_owned()));
            i = i + 1;
        }
        proof {
            crate::json::lemma_jmodel_seq_index(arr@);
            assert(crate::json::jmodel_seq(arr@) =~= crate::exec::strs_model(aliases@));
        }
        let mut inner: Vec<(String, JsonValue)> = Vec::new();
        inner.push(("Aliases".to_owned(), JsonValue::Arr(arr)));
        proof {
            crate::json::lemma_jmodel_pairs_index(inner@);
            assert(jmodel_pairs(inner@) =~= seq![
                ("Aliases"@, JsonModel::Arr(crate::exec::strs_model(aliases@))),
            ]);
        }
        obj_set(&mut self.params, "EndpointConfig".to_owned(), JsonValue::Obj(inner));
        self
    }

    /// Forces the disconnection.
    pub fn force(&mut self) -> (r: &mut Self)
        ensures
            r.spec_params() == model_obj_set(
                old(self).spec_params(),
                "Force"@,
                JsonModel::Bool(true),
            ),
            *final(self) == *final(r),
    {
        obj_set(&mut self.params, "Force".to_owned(), JsonValue::Bool(true));
        self
    }

    /// The options set so far.
    pub fn build(&self) -> (r: ContainerConnectionOptions)
        ensures
            r.spec_params() == self.spec_params(),
    {
        ContainerConnectionOptions { params: clone_members(&self.params) }
    }
}

} // verus!
