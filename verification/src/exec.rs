//! Interface for exec instances: the endpoints their operations hit and the
//! options that shape the command they run.

use vstd::prelude::*;

use crate::docker::Docker;
use crate::json::{
    clone_members, jmodel, jmodel_pairs, jmodel_seq, json_text, model_find, model_obj_set, obj_set,
    JsonModel, JsonValue,
};
use crate::text::str_concat3;
use crate::transport::Transport;

verus! {

/// The endpoint prefix for one exec instance.
fn exec_path(id: &str, suffix: &str) -> (r: String)
    ensures
        r@ == "/exec/"@ + id@ + suffix@,
{
    str_concat3("/exec/", id, suffix)
}

/// Interface for one exec instance.
pub struct Exec<'a> {
    docker: &'a Docker,
    id: String,
}

impl<'a> Exec<'a> {
    /// The transport behind this interface.
    pub closed spec fn backing(&self) -> Transport {
        self.docker.spec_transport()
    }

    /// The exec instance's identifier.
    pub closed spec fn spec_id(&self) -> Seq<char> {
        self.id@
    }

    /// An interface for operations against one exec instance.
    pub fn new(docker: &'a Docker, id: &str) -> (r: Exec<'a>)
        ensures
            r.backing() == docker.spec_transport(),
            r.spec_id() == id@,
    {
        Exec { docker, id: id.to_owned() }
    }

    /// An interface for an exec instance already created; the caller vouches
    /// that the identifier names one.
    pub fn get(docker: &'a Docker, id: &str) -> (r: Exec<'a>)
        ensures
            r.backing() == docker.spec_transport(),
            r.spec_id() == id@,
    {
        Exec::new(docker, id)
    }

    /// The endpoint that starts this exec instance.
    pub fn start_endpoint(&self) -> (r: String)
        ensures
            r@ == "/exec/"@ + self.spec_id() + "/start"@,
    {
        exec_path(self.id.as_str(), "/start")
    }

    /// The endpoint that inspects this exec instance.
    pub fn inspect_endpoint(&self) -> (r: String)
        ensures
            r@ == "/exec/"@ + self.spec_id() + "/json"@,
    {
        exec_path(self.id.as_str(), "/json")
    }

    /// The endpoint that resizes this exec instance's terminal.
    pub fn resize_endpoint(&self) -> (r: String)
        ensures
            r@ == "/exec/"@ + self.spec_id() + "/resize"@,
    {
        exec_path(self.id.as_str(), "/resize")
    }
}

/// The strings of a list, as JSON string values.
pub open spec fn strs_model(s: Seq<&str>) -> Seq<JsonModel> {
    s.map_values(|x: &str| JsonModel::Str(x@))
}

/// The list a member currently holds, where it holds one.
pub open spec fn arr_at(pairs: Seq<(Seq<char>, JsonModel)>, k: Seq<char>) -> Seq<JsonModel> {
    match model_find(pairs, k) {
        Some(c) => match c {
            JsonModel::Arr(a) => a,
            _ => seq![],
        },
        None => seq![],
    }
}

/// Appends string values to the list a member holds, creating the member as
/// needed.
fn append_strs(pairs: &mut Vec<(String, JsonValue)>, key: &str, items: Vec<&str>)
    ensures
        jmodel_pairs(final(pairs)@) == model_obj_set(
            jmodel_pairs(old(pairs)@),
            key@,
            JsonModel::Arr(arr_at(jmodel_pairs(old(pairs)@), key@) + strs_model(items@)),
        ),
{
    let mut arr: Vec<JsonValue> = match crate::json::find_key(pairs, key) {
        Some(j) => {
            let p = &pairs[j];
            match &p.1 {
                JsonValue::Arr(a) => crate::json::clone_items(a),
                _ => Vec::new(),
            }
        },
        None => Vec::new(),
    };
    proof {
        assert(jmodel_seq(arr@) == arr_at(jmodel_pairs(pairs@), key@));
    }
    let ghost pre0 = arr@;
    let mut i: usize = 0;
    while i < items.len()
        invariant
            i <= items@.len(),
            arr@.len() == pre0.len() + i,
            forall|l: int| 0 <= l < pre0.len() ==> #[trigger] arr@[l] == pre0[l],
            forall|l: int|
                pre0.len() <= l < arr@.len() ==> jmodel(#[trigger] arr@[l]) == JsonModel::Str(
                    items@[l - pre0.len()]@,
                ),
        decreases items@.len() - i,
    {
        arr.push(JsonValue::Str(items[i].to_owned()));
        i = i + 1;
    }
    proof {
        crate::json::lemma_jmodel_seq_index(arr@);
        crate::json::lemma_jmodel_seq_index(pre0);
        assert(jmodel_seq(arr@) =~= jmodel_seq(pre0) + strs_model(items@));
    }
    obj_set(pairs, key.to_owned(), JsonValue::Arr(arr));
}

/// Options shaping the command an exec instance runs.
#[derive(Debug)]
pub struct ExecContainerOptions {
    params: Vec<(String, JsonValue)>,
}

impl ExecContainerOptions {
    /// The members set so far.
    pub closed spec fn spec_params(&self) -> Seq<(Seq<char>, JsonModel)> {
        jmodel_pairs(self.params@)
    }

    /// A builder for exec options.
    pub fn builder() -> (b: ExecContainerOptionsBuilder)
        ensures
            b.spec_params() == Seq::<(Seq<char>, JsonModel)>::empty(),
    {
        ExecContainerOptionsBuilder::default()
    }

    /// The JSON body for these options.
    pub fn serialize(&self) -> (r: Result<String, crate::errors::Error>)
        ensures
            r matches Ok(s) && s@ == json_text(JsonModel::Obj(self.spec_params())),
    {
        let obj = JsonValue::Obj(clone_members(&self.params));
        Ok(obj.render())
    }
}

/// Builder interface for `ExecContainerOptions`.
#[derive(Debug)]
pub struct ExecContainerOptionsBuilder {
    params: Vec<(String, JsonValue)>,
}

impl Default for ExecContainerOptionsBuilder {
    /// A builder with nothing set.
    fn default() -> (r: ExecContainerOptionsBuilder)
        ensures
            r.spec_params() == Seq::<(Seq<char>, JsonModel)>::empty(),
    {
        let r = ExecContainerOptionsBuilder { params: Vec::new() };
        proof {
            assert(r.spec_params() =~= Seq::<(Seq<char>, JsonModel)>::empty());
        }
        r
    }
}

impl ExecContainerOptionsBuilder {
    /// The members set so far.
    pub closed spec fn spec_params(&self) -> Seq<(Seq<char>, JsonModel)> {
        jmodel_pairs(self.params@)
    }

    /// Appends to the command to run.
    pub fn cmd(&mut self, cmds: Vec<&str>) -> (r: &mut Self)
        ensures
            r.spec_params() == model_obj_set(
                old(self).spec_params(),
                "Cmd"@,
                JsonModel::Arr(arr_at(old(self).spec_params(), "Cmd"@) + strs_model(cmds@)),
            ),
            *final(self) == *final(r),
    {
        append_strs(&mut self.params, "Cmd", cmds);
        self
    }

    /// Appends environment variables, each in `NAME=VALUE` form.
    pub fn env(&mut self, envs: Vec<&str>) -> (r: &mut Self)
        ensures
            r.spec_params() == model_obj_set(
                old(self).spec_params(),
                "Env"@,
                JsonModel::Arr(arr_at(old(self).spec_params(), "Env"@) + strs_model(envs@)),
            ),
            *final(self) == *final(r),
    {
        append_strs(&mut self.params, "Env", envs);
        self
    }

    /// Attaches to the command's standard output.
    pub fn attach_stdout(&mut self, stdout: bool) -> (r: &mut Self)
        ensures
            r.spec_params() == model_obj_set(
                old(self).spec_params(),
                "AttachStdout"@,
                JsonModel::Bool(stdout),
            ),
            *final(self) == *final(r),
    {
        obj_set(&mut self.params, "AttachStdout".to_owned(), JsonValue::Bool(stdout));
        self
    }

    /// Attaches to the command's standard error.
    pub fn attach_stderr(&mut self, stderr: bool) -> (r: &mut Self)
        ensures
            r.spec_params() == model_obj_set(
                old(self).spec_params(),
                "AttachStderr"@,
                JsonModel::Bool(stderr),
            ),
            *final(self) == *final(r),
    {
        obj_set(&mut self.params, "AttachStderr".to_owned(), JsonValue::Bool(stderr));
        self
    }

    /// The options set so far.
    pub fn build(&self) -> (r: ExecContainerOptions)
        ensures
            r.spec_params() == self.spec_params(),
    {
        ExecContainerOptions { params: clone_members(&self.params) }
    }
}

/// Options for resizing an exec instance's terminal.
#[derive(Debug)]
pub struct ExecResizeOptions {
    params: Vec<(String, JsonValue)>,
}

impl ExecResizeOptions {
    /// The members set so far.
    pub closed spec fn spec_params(&self) -> Seq<(Seq<char>, JsonModel)> {
        jmodel_pairs(self.params@)
    }

    /// The JSON body for these options.
    pub fn serialize(&self) -> (r: Result<String, crate::errors::Error>)
        ensures
            r matches Ok(s) && s@ == json_text(JsonModel::Obj(self.spec_params())),
    {
        let obj = JsonValue::Obj(clone_members(&self.params));
        Ok(obj.render())
    }

    /// Sets every given member.
    pub fn parse_from(&self, params: &Vec<(String, JsonValue)>, body: &mut Vec<(String, JsonValue)>)
        ensures
            jmodel_pairs(final(body)@) == crate::json::set_all(
                jmodel_pairs(old(body)@),
                jmodel_pairs(params@),
            ),
    {
        crate::json::obj_set_all(params, body);
    }

    /// A builder for resize options.
    pub fn builder() -> (b: ExecResizeOptionsBuilder)
        ensures
            b.spec_params() == Seq::<(Seq<char>, JsonModel)>::empty(),
    {
        ExecResizeOptionsBuilder::new()
    }
}

/// Builder interface for `ExecResizeOptions`.
#[derive(Debug)]
pub struct ExecResizeOptionsBuilder {
    params: Vec<(String, JsonValue)>,
}

impl ExecResizeOptionsBuilder {
    /// The members set so far.
    pub closed spec fn spec_params(&self) -> Seq<(Seq<char>, JsonModel)> {
        jmodel_pairs(self.params@)
    }

    /// A builder with nothing set.
    pub(crate) fn new() -> (r: ExecResizeOptionsBuilder)
        ensures
            r.spec_params() == Seq::<(Seq<char>, JsonModel)>::empty(),
    {
        let r = ExecResizeOptionsBuilder { params: Vec::new() };
        proof {
            assert(r.spec_params() =~= Seq::<(Seq<char>, JsonModel)>::empty());
        }
        r
    }

    /// Sets the terminal height.
    pub fn height(&mut self, height: u64) -> (r: &mut Self)
        ensures
            r.spec_params() == model_obj_set(
                old(self).spec_params(),
                "Name"@,
                JsonModel::UInt(height),
            ),
            *final(self) == *final(r),
    {
        obj_set(&mut self.params, "Name".to_owned(), JsonValue::UInt(height));
        self
    }

    /// Sets the terminal width.
    pub fn width(&mut self, width: u64) -> (r: &mut Self)
        ensures
            r.spec_params() == model_obj_set(
                old(self).spec_params(),
                "Name"@,
                JsonModel::UInt(width),
            ),
            *final(self) == *final(r),
    {
        obj_set(&mut self.params, "Name".to_owned(), JsonValue::UInt(width));
        self
    }

    /// The options set so far.
    pub fn build(&self) -> (r: ExecResizeOptions)
        ensures
            r.spec_params() == self.spec_params(),
    {
        ExecResizeOptions { params: clone_members(&self.params) }
    }
}

} // verus!
