//! Interfaces for containers: the endpoints their operations hit and the
//! option types that shape list, log, create and remove requests.

use vstd::prelude::*;

use crate::docker::Docker;
use crate::json::{
    clone_members, jmodel, jmodel_pairs, json_text, model_obj_set, obj_set, JsonModel, JsonValue,
};
use crate::query::{
    clone_pairs, encode_query, pairs_view, set_pair, spec_set_pair, urlencoded_of, with_query,
};
use crate::text::{
    bool_string, chars_eq, chars_vec, dec_nat, spec_bool_str, str_concat2, str_concat3, u64_string,
};
use crate::transport::Transport;

verus! {

/// The endpoint prefix for one container.
fn container_path(id: &str, suffix: &str) -> (r: String)
    ensures
        r@ == "/containers/"@ + id@ + suffix@,
{
    str_concat3("/containers/", id, suffix)
}

/// Interface for accessing and manipulating one container.
pub struct Container<'a> {
    docker: &'a Docker,
    id: String,
}

impl<'a> Container<'a> {
    /// The transport behind this interface.
    pub closed spec fn backing(&self) -> Transport {
        self.docker.spec_transport()
    }

    /// The container's identifier.
    pub closed spec fn spec_id(&self) -> Seq<char> {
        self.id@
    }

    /// An interface for operations against one container.
    pub fn new(docker: &'a Docker, id: &str) -> (r: Container<'a>)
        ensures
            r.backing() == docker.spec_transport(),
            r.spec_id() == id@,
    {
        Container { docker, id: id.to_owned() }
    }

    /// The container id.
    pub fn id(&self) -> (r: &str)
        ensures
            r@ == self.spec_id(),
    {
        self.id.as_str()
    }

    /// The endpoint that inspects this container.
    pub fn inspect_endpoint(&self) -> (r: String)
        ensures
            r@ == "/containers/"@ + self.spec_id() + "/json"@,
    {
        container_path(self.id.as_str(), "/json")
    }

    /// The endpoint that lists this container's processes, with optional
    /// process arguments.
    pub fn top_endpoint(&self, psargs: Option<&str>) -> (r: String)
        ensures
            match psargs {
                Some(a) => r@ == "/containers/"@ + self.spec_id() + "/top"@ + seq!['?']
                    + urlencoded_of(seq![("ps_args"@, a@)]),
                None => r@ == "/containers/"@ + self.spec_id() + "/top"@,
            },
    {
        let path = container_path(self.id.as_str(), "/top");
        match psargs {
            Some(a) => {
                let mut params: Vec<(String, String)> = Vec::new();
                set_pair(&mut params, "ps_args", a.to_owned());
                proof {
                    assert(pairs_view(params@) =~= seq![("ps_args"@, a@)]);
                }
                with_query(path, encode_query(&params))
            },
            None => path,
        }
    }

    /// The endpoint that streams this container's logs, shaped by the log
    /// options.
    pub fn logs_endpoint(&self, opts: &LogsOptions) -> (r: String)
        ensures
            opts.spec_params().len() == 0 ==> r@ == "/containers/"@ + self.spec_id() + "/logs"@,
            opts.spec_params().len() > 0 ==> r@ == "/containers/"@ + self.spec_id() + "/logs"@
                + seq!['?'] + urlencoded_of(opts.spec_params()),
    {
        with_query(container_path(self.id.as_str(), "/logs"), opts.serialize())
    }

    /// The endpoint that attaches a raw multiplexed stream to this
    /// container, with the stream directions the protocol upgrade serves.
    pub fn attach_endpoint(&self) -> (r: String)
        ensures
            r@ == "/containers/"@ + self.spec_id() + "/attach?stream=1&stdout=1&stderr=1&stdin=1"@,
    {
        container_path(self.id.as_str(), "/attach?stream=1&stdout=1&stderr=1&stdin=1")
    }

    /// The endpoint that reports filesystem changes.
    pub fn changes_endpoint(&self) -> (r: String)
        ensures
            r@ == "/containers/"@ + self.spec_id() + "/changes"@,
    {
        container_path(self.id.as_str(), "/changes")
    }

    /// The endpoint that exports the container as a tarball stream.
    pub fn export_endpoint(&self) -> (r: String)
        ensures
            r@ == "/containers/"@ + self.spec_id() + "/export"@,
    {
        container_path(self.id.as_str(), "/export")
    }

    /// The endpoint that streams this container's stats.
    pub fn stats_endpoint(&self) -> (r: String)
        ensures
            r@ == "/containers/"@ + self.spec_id() + "/stats"@,
    {
        container_path(self.id.as_str(), "/stats")
    }

    /// The endpoint that starts the container.
    pub fn start_endpoint(&self) -> (r: String)
        ensures
            r@ == "/containers/"@ + self.spec_id() + "/start"@,
    {
        container_path(self.id.as_str(), "/start")
    }

    /// The endpoint that stops the container, with an optional grace period
    /// in seconds.
    pub fn stop_endpoint(&self, wait_secs: Option<u64>) -> (r: String)
        ensures
            match wait_secs {
                Some(w) => r@ == "/containers/"@ + self.spec_id() + "/stop"@ + seq!['?']
                    + urlencoded_of(seq![("t"@, dec_nat(w as nat))]),
                None => r@ == "/containers/"@ + self.spec_id() + "/stop"@,
            },
    {
        self.timed_endpoint("/stop", wait_secs)
    }

    /// The endpoint that restarts the container, with an optional grace
    /// period in seconds.
    pub fn restart_endpoint(&self, wait_secs: Option<u64>) -> (r: String)
        ensures
            match wait_secs {
                Some(w) => r@ == "/containers/"@ + self.spec_id() + "/restart"@ + seq!['?']
                    + urlencoded_of(seq![("t"@, dec_nat(w as nat))]),
                None => r@ == "/containers/"@ + self.spec_id() + "/restart"@,
            },
    {
        self.timed_endpoint("/restart", wait_secs)
    }

    /// An endpoint with an optional grace period in seconds.
    fn timed_endpoint(&self, suffix: &str, wait_secs: Option<u64>) -> (r: String)
        ensures
            match wait_secs {
                Some(w) => r@ == "/containers/"@ + self.spec_id() + suffix@ + seq!['?']
                    + urlencoded_of(seq![("t"@, dec_nat(w as nat))]),
                None => r@ == "/containers/"@ + self.spec_id() + suffix@,
            },
    {
        let path = container_path(self.id.as_str(), suffix);
        match wait_secs {
            Some(w) => {
                let mut params: Vec<(String, String)> = Vec::new();
                set_pair(&mut params, "t", u64_string(w));
                proof {
                    assert(pairs_view(params@) =~= seq![("t"@, dec_nat(w as nat))]);
                }
                with_query(path, encode_query(&params))
            },
            None => path,
        }
    }

    /// The endpoint that signals the container, with an optional signal
    /// name.
    pub fn kill_endpoint(&self, signal: Option<&str>) -> (r: String)
        ensures
            match signal {
                Some(sig) => r@ == "/containers/"@ + self.spec_id() + "/kill"@ + seq!['?']
                    + urlencoded_of(seq![("signal"@, sig@)]),
                None => r@ == "/containers/"@ + self.spec_id() + "/kill"@,
            },
    {
        let path = container_path(self.id.as_str(), "/kill");
        match signal {
            Some(sig) => {
                let mut params: Vec<(String, String)> = Vec::new();
                set_pair(&mut params, "signal", sig.to_owned());
                proof {
                    assert(pairs_view(params@) =~= seq![("signal"@, sig@)]);
                }
                with_query(path, encode_query(&params))
            },
            None => path,
        }
    }

    /// The endpoint that renames the container.
    pub fn rename_endpoint(&self, name: &str) -> (r: String)
        ensures
            r@ == "/containers/"@ + self.spec_id() + "/rename?"@ + urlencoded_of(
                seq![("name"@, name@)],
            ),
    {
        let mut params: Vec<(String, String)> = Vec::new();
        set_pair(&mut params, "name", name.to_owned());
        proof {
            assert(pairs_view(params@) =~= seq![("name"@, name@)]);
        }
        let path = container_path(self.id.as_str(), "/rename?");
        match encode_query(&params) {
            Some(q) => str_concat2(path.as_str(), q.as_str()),
            None => path,
        }
    }

    /// The endpoint that pauses the container.
    pub fn pause_endpoint(&self) -> (r: String)
        ensures
            r@ == "/containers/"@ + self.spec_id() + "/pause"@,
    {
        container_path(self.id.as_str(), "/pause")
    }

    /// The endpoint that unpauses the container.
    pub fn unpause_endpoint(&self) -> (r: String)
        ensures
            r@ == "/containers/"@ + self.spec_id() + "/unpause"@,
    {
        container_path(self.id.as_str(), "/unpause")
    }

    /// The endpoint that waits for the container to stop.
    pub fn wait_endpoint(&self) -> (r: String)
        ensures
            r@ == "/containers/"@ + self.spec_id() + "/wait"@,
    {
        container_path(self.id.as_str(), "/wait")
    }

    /// The endpoint that deletes the container.
    pub fn delete_endpoint(&self) -> (r: String)
        ensures
            r@ == "/containers/"@ + self.spec_id(),
    {
        str_concat2("/containers/", self.id.as_str())
    }

    /// The endpoint that removes the container, shaped by the removal
    /// options.
    pub fn remove_endpoint(&self, opts: &RmContainerOptions) -> (r: String)
        ensures
            opts.spec_params().len() == 0 ==> r@ == "/containers/"@ + self.spec_id(),
            opts.spec_params().len() > 0 ==> r@ == "/containers/"@ + self.spec_id() + seq!['?']
                + urlencoded_of(opts.spec_params()),
    {
        with_query(self.delete_endpoint(), opts.serialize())
    }

    /// The endpoint that creates an exec instance in this container.
    pub fn exec_endpoint(&self) -> (r: String)
        ensures
            r@ == "/containers/"@ + self.spec_id() + "/exec"@,
    {
        container_path(self.id.as_str(), "/exec")
    }

    /// The endpoint that copies a file or folder out of the container.
    pub fn copy_from_endpoint(&self, path: &str) -> (r: String)
        ensures
            r@ == "/containers/"@ + self.spec_id() + "/archive?"@ + urlencoded_of(
                seq![("path"@, path@)],
            ),
    {
        let mut params: Vec<(String, String)> = Vec::new();
        set_pair(&mut params, "path", path.to_owned());
        proof {
            assert(pairs_view(params@) =~= seq![("path"@, path@)]);
        }
        let p = container_path(self.id.as_str(), "/archive?");
        match encode_query(&params) {
            Some(q) => str_concat2(p.as_str(), q.as_str()),
            None => p,
        }
    }

    /// The endpoint that copies a tarball into the container, extracted at
    /// the given path.
    pub fn copy_to_endpoint(&self, path: &str) -> (r: String)
        ensures
            r@ == "/containers/"@ + self.spec_id() + "/archive?"@ + urlencoded_of(
                seq![("path"@, path@)],
            ),
    {
        self.copy_from_endpoint(path)
    }
}

/// Interface for the daemon's containers.
pub struct Containers<'a> {
    docker: &'a Docker,
}

impl<'a> Containers<'a> {
    /// The transport behind this interface.
    pub closed spec fn backing(&self) -> Transport {
        self.docker.spec_transport()
    }

    /// An interface for interacting with containers.
    pub fn new(docker: &'a Docker) -> (r: Containers<'a>)
        ensures
            r.backing() == docker.spec_transport(),
    {
        Containers { docker }
    }

    /// The endpoint that lists containers, shaped by the list options.
    pub fn list_endpoint(&self, opts: &ContainerListOptions) -> (r: String)
        ensures
            opts.spec_params().len() == 0 ==> r@ == "/containers/json"@,
            opts.spec_params().len() > 0 ==> r@ == "/containers/json"@ + seq!['?'] + urlencoded_of(
                opts.spec_params(),
            ),
    {
        with_query("/containers/json".to_owned(), opts.serialize())
    }

    /// The interface for one container.
    pub fn get(&self, name: &str) -> (r: Container<'a>)
        ensures
            r.backing() == self.backing(),
            r.spec_id() == name@,
    {
        Container::new(self.docker, name)
    }

    /// The endpoint that creates a container, with the name the options
    /// carry, if any.
    pub fn create_endpoint(&self, opts: &ContainerOptions) -> (r: String)
        ensures
            match opts.spec_name() {
                Some(n) => r@ == "/containers/create?"@ + urlencoded_of(seq![("name"@, n@)]),
                None => r@ == "/containers/create"@,
            },
    {
        match &opts.name {
            Some(n) => {
                let mut params: Vec<(String, String)> = Vec::new();
                set_pair(&mut params, "name", n.clone());
                proof {
                    assert(pairs_view(params@) =~= seq![("name"@, n@)]);
                }
                match encode_query(&params) {
                    Some(q) => str_concat2("/containers/create?", q.as_str()),
                    None => "/containers/create".to_owned(),
                }
            },
            None => "/containers/create".to_owned(),
        }
    }
}

/// Options for filtering container list results.
#[derive(Debug)]
pub struct ContainerListOptions {
    params: Vec<(String, String)>,
}

impl ContainerListOptions {
    /// The parameters set so far.
    pub closed spec fn spec_params(&self) -> Seq<(Seq<char>, Seq<char>)> {
        pairs_view(self.params@)
    }

    /// A builder for list options.
    pub fn builder() -> (b: ContainerListOptionsBuilder)
        ensures
            b.spec_params() == Seq::<(Seq<char>, Seq<char>)>::empty(),
    {
        ContainerListOptionsBuilder::default()
    }

    /// The query string for these options; nothing when none are set.
    pub fn serialize(&self) -> (r: Option<String>)
        ensures
            (r is Some) <==> self.spec_params().len() > 0,
            r matches Some(q) ==> q@ == urlencoded_of(self.spec_params()),
    {
        encode_query(&self.params)
    }
}

impl Default for ContainerListOptions {
    /// Options with nothing set.
    fn default() -> (r: ContainerListOptions)
        ensures
            r.spec_params() == Seq::<(Seq<char>, Seq<char>)>::empty(),
    {
        let r = ContainerListOptions { params: Vec::new() };
        proof {
            assert(r.spec_params() =~= Seq::<(Seq<char>, Seq<char>)>::empty());
        }
        r
    }
}

/// Filter terms for container listings.
#[derive(Debug)]
pub enum ContainerFilter {
    ExitCode(u64),
    Status(String),
    LabelName(String),
    Label(String, String),
}

/// The filter map entry one filter term denotes: a key and a one-element
/// list holding the term's text.
pub open spec fn filter_entry(f: ContainerFilter) -> (Seq<char>, JsonModel) {
    match f {
        ContainerFilter::ExitCode(c) => ("exit"@, JsonModel::Arr(
            seq![JsonModel::Str(dec_nat(c as nat))],
        )),
        ContainerFilter::Status(s) => ("status"@, JsonModel::Arr(seq![JsonModel::Str(s@)])),
        ContainerFilter::LabelName(n) => ("label"@, JsonModel::Arr(seq![JsonModel::Str(n@)])),
        ContainerFilter::Label(n, v) => ("label"@, JsonModel::Arr(
            seq![JsonModel::Str(n@ + seq!['='] + v@)],
        )),
    }
}

/// The filter map a list of filter terms builds up, later terms replacing
/// earlier ones under the same key.
pub open spec fn filters_fold(
    acc: Seq<(Seq<char>, JsonModel)>,
    fs: Seq<ContainerFilter>,
) -> Seq<(Seq<char>, JsonModel)>
    decreases fs.len(),
{
    if fs.len() == 0 {
        acc
    } else {
        filters_fold(model_obj_set(acc, filter_entry(fs[0]).0, filter_entry(fs[0]).1), fs.drop_first())
    }
}

/// Builder interface for `ContainerListOptions`.
#[derive(Debug)]
pub struct ContainerListOptionsBuilder {
    params: Vec<(String, String)>,
}

impl Default for ContainerListOptionsBuilder {
    /// A builder with nothing set.
    fn default() -> (r: ContainerListOptionsBuilder)
        ensures
            r.spec_params() == Seq::<(Seq<char>, Seq<char>)>::empty(),
    {
        let r = ContainerListOptionsBuilder { params: Vec::new() };
        proof {
            assert(r.spec_params() =~= Seq::<(Seq<char>, Seq<char>)>::empty());
        }
        r
    }
}

impl ContainerListOptionsBuilder {
    /// The parameters set so far.
    pub closed spec fn spec_params(&self) -> Seq<(Seq<char>, Seq<char>)> {
        pairs_view(self.params@)
    }

    /// Restricts the listing by filter terms, as a JSON map from filter kind
    /// to matched values.
    pub fn filter(&mut self, filters: Vec<ContainerFilter>) -> (r: &mut Self)
        ensures
            r.spec_params() == spec_set_pair(
                old(self).spec_params(),
                "filters"@,
                json_text(JsonModel::Obj(filters_fold(Seq::empty(), filters@))),
            ),
            *final(self) == *final(r),
    {
        let mut obj: Vec<(String, JsonValue)> = Vec::new();
        proof {
            assert(jmodel_pairs(obj@) =~= Seq::<(Seq<char>, JsonModel)>::empty());
            assert(filters@.skip(0) =~= filters@);
        }
        let mut i: usize = 0;
        while i < filters.len()
            invariant
                i <= filters@.len(),
                filters_fold(Seq::empty(), filters@) == filters_fold(
                    jmodel_pairs(obj@),
                    filters@.skip(i as int),
                ),
            decreases filters@.len() - i,
        {
            proof {
                assert(filters@.skip(i as int)[0] == filters@[i as int]);
                assert(filters@.skip(i as int).drop_first() =~= filters@.skip(i + 1));
            }
            match &filters[i] {
                ContainerFilter::ExitCode(c) => {
                    let mut arr: Vec<JsonValue> = Vec::new();
                    arr.push(JsonValue::Str(u64_string(*c)));
                    proof {
                        crate::json::lemma_jmodel_seq_index(arr@);
                        assert(crate::json::jmodel_seq(arr@) =~= seq![
                            JsonModel::Str(dec_nat(filters@[i as int]->ExitCode_0 as nat)),
                        ]);
                    }
                    obj_set(&mut obj, "exit".to_owned(), JsonValue::Arr(arr));
                },
                ContainerFilter::Status(s) => {
                    let mut arr: Vec<JsonValue> = Vec::new();
                    arr.push(JsonValue::Str(s.clone()));
                    proof {
                        crate::json::lemma_jmodel_seq_index(arr@);
                        assert(crate::json::jmodel_seq(arr@) =~= seq![
                            JsonModel::Str(filters@[i as int]->Status_0@),
                        ]);
                    }
                    obj_set(&mut obj, "status".to_owned(), JsonValue::Arr(arr));
                },
                ContainerFilter::LabelName(n) => {
                    let mut arr: Vec<JsonValue> = Vec::new();
                    arr.push(JsonValue::Str(n.clone()));
                    proof {
                        crate::json::lemma_jmodel_seq_index(arr@);
                        assert(crate::json::jmodel_seq(arr@) =~= seq![
                            JsonModel::Str(filters@[i as int]->LabelName_0@),
                        ]);
                    }
                    obj_set(&mut obj, "label".to_owned(), JsonValue::Arr(arr));
                },
                ContainerFilter::Label(n, v) => {
                    let mut text = chars_vec(n.as_str());
                    text.push('=');
                    let mut vc = chars_vec(v.as_str());
                    text.append(&mut vc);
                    proof {
                        assert(text@ =~= n@ + seq!['='] + v@);
                    }
                    let mut arr: Vec<JsonValue> = Vec::new();
                    arr.push(JsonValue::Str(crate::text::string_from_chars(&text)));
                    proof {
                        crate::json::lemma_jmodel_seq_index(arr@);
                        assert(crate::json::jmodel_seq(arr@) =~= seq![
                            JsonModel::Str(
                                filters@[i as int]->Label_0@ + seq!['=']
                                    + filters@[i as int]->Label_1@,
                            ),
                        ]);
                    }
                    obj_set(&mut obj, "label".to_owned(), JsonValue::Arr(arr));
                },
            }
            i = i + 1;
        }
        proof {
            assert(filters@.skip(filters@.len() as int) =~= Seq::<ContainerFilter>::empty());
        }
        let rendered = JsonValue::Obj(obj).render();
        set_pair(&mut self.params, "filters", rendered);
        self
    }

    /// Lists stopped containers too.
    pub fn all(&mut self) -> (r: &mut Self)
        ensures
            r.spec_params() == spec_set_pair(old(self).spec_params(), "all"@, "true"@),
            *final(self) == *final(r),
    {
        set_pair(&mut self.params, "all", "true".to_owned());
        self
    }

    /// Lists containers created since the given one.
    pub fn since(&mut self, since: &str) -> (r: &mut Self)
        ensures
            r.spec_params() == spec_set_pair(old(self).spec_params(), "since"@, since@),
            *final(self) == *final(r),
    {
        set_pair(&mut self.params, "since", since.to_owned());
        self
    }

    /// Lists containers created before the given one.
    pub fn before(&mut self, before: &str) -> (r: &mut Self)
        ensures
            r.spec_params() == spec_set_pair(old(self).spec_params(), "before"@, before@),
            *final(self) == *final(r),
    {
        set_pair(&mut self.params, "before", before.to_owned());
        self
    }

    /// Reports container sizes in the listing.
    pub fn sized(&mut self) -> (r: &mut Self)
        ensures
            r.spec_params() == spec_set_pair(old(self).spec_params(), "size"@, "true"@),
            *final(self) == *final(r),
    {
        set_pair(&mut self.params, "size", "true".to_owned());
        self
    }

    /// The options set so far.
    pub fn build(&self) -> (r: ContainerListOptions)
        ensures
            r.spec_params() == self.spec_params(),
    {
        ContainerListOptions { params: clone_pairs(&self.params) }
    }
}

/// Options for controlling log request results.
#[derive(Debug)]
pub struct LogsOptions {
    params: Vec<(String, String)>,
}

impl LogsOptions {
    /// The parameters set so far.
    pub closed spec fn spec_params(&self) -> Seq<(Seq<char>, Seq<char>)> {
        pairs_view(self.params@)
    }

    /// A builder for log options.
    pub fn builder() -> (b: LogsOptionsBuilder)
        ensures
            b.spec_params() == Seq::<(Seq<char>, Seq<char>)>::empty(),
    {
        LogsOptionsBuilder::default()
    }

    /// The query string for these options; nothing when none are set.
    pub fn serialize(&self) -> (r: Option<String>)
        ensures
            (r is Some) <==> self.spec_params().len() > 0,
            r matches Some(q) ==> q@ == urlencoded_of(self.spec_params()),
    {
        encode_query(&self.params)
    }
}

impl Default for LogsOptions {
    /// Options with nothing set.
    fn default() -> (r: LogsOptions)
        ensures
            r.spec_params() == Seq::<(Seq<char>, Seq<char>)>::empty(),
    {
        let r = LogsOptions { params: Vec::new() };
        proof {
            assert(r.spec_params() =~= Seq::<(Seq<char>, Seq<char>)>::empty());
        }
        r
    }
}

/// Builder interface for `LogsOptions`.
#[derive(Debug)]
pub struct LogsOptionsBuilder {
    params: Vec<(String, String)>,
}

impl Default for LogsOptionsBuilder {
    /// A builder with nothing set.
    fn default() -> (r: LogsOptionsBuilder)
        ensures
            r.spec_params() == Seq::<(Seq<char>, Seq<char>)>::empty(),
    {
        let r = LogsOptionsBuilder { params: Vec::new() };
        proof {
            assert(r.spec_params() =~= Seq::<(Seq<char>, Seq<char>)>::empty());
        }
        r
    }
}

impl LogsOptionsBuilder {
    /// The parameters set so far.
    pub closed spec fn spec_params(&self) -> Seq<(Seq<char>, Seq<char>)> {
        pairs_view(self.params@)
    }

    /// Follows the log as the container produces more of it.
    pub fn follow(&mut self, f: bool) -> (r: &mut Self)
        ensures
            r.spec_params() == spec_set_pair(old(self).spec_params(), "follow"@, spec_bool_str(f)),
            *final(self) == *final(r),
    {
        set_pair(&mut self.params, "follow", bool_string(f));
        self
    }

    /// Includes standard output.
    pub fn stdout(&mut self, s: bool) -> (r: &mut Self)
        ensures
            r.spec_params() == spec_set_pair(old(self).spec_params(), "stdout"@, spec_bool_str(s)),
            *final(self) == *final(r),
    {
        set_pair(&mut self.params, "stdout", bool_string(s));
        self
    }

    /// Includes standard error.
    pub fn stderr(&mut self, s: bool) -> (r: &mut Self)
        ensures
            r.spec_params() == spec_set_pair(old(self).spec_params(), "stderr"@, spec_bool_str(s)),
            *final(self) == *final(r),
    {
        set_pair(&mut self.params, "stderr", bool_string(s));
        self
    }

    /// Prefixes each line with its timestamp.
    pub fn timestamps(&mut self, t: bool) -> (r: &mut Self)
        ensures
            r.spec_params() == spec_set_pair(
                old(self).spec_params(),
                "timestamps"@,
                spec_bool_str(t),
            ),
            *final(self) == *final(r),
    {
        set_pair(&mut self.params, "timestamps", bool_string(t));
        self
    }

    /// How many lines from the end to include: a number's text, or `all`.
    pub fn tail(&mut self, how_many: &str) -> (r: &mut Self)
        ensures
            r.spec_params() == spec_set_pair(old(self).spec_params(), "tail"@, how_many@),
            *final(self) == *final(r),
    {
        set_pair(&mut self.params, "tail", how_many.to_owned());
        self
    }

    /// Only logs since a timestamp, in seconds since the epoch.
    pub fn since(&mut self, timestamp: i64) -> (r: &mut Self)
        ensures
            r.spec_params() == spec_set_pair(
                old(self).spec_params(),
                "since"@,
                crate::text::dec_int(timestamp as int),
            ),
            *final(self) == *final(r),
    {
        set_pair(&mut self.params, "since", crate::text::i64_string(timestamp));
        self
    }

    /// The options set so far.
    pub fn build(&self) -> (r: LogsOptions)
        ensures
            r.spec_params() == self.spec_params(),
    {
        LogsOptions { params: clone_pairs(&self.params) }
    }
}

/// Options for removing a container.
#[derive(Debug)]
pub struct RmContainerOptions {
    params: Vec<(String, String)>,
}

impl RmContainerOptions {
    /// The parameters set so far.
    pub closed spec fn spec_params(&self) -> Seq<(Seq<char>, Seq<char>)> {
        pairs_view(self.params@)
    }

    /// A builder for removal options.
    pub fn builder() -> (b: RmContainerOptionsBuilder)
        ensures
            b.spec_params() == Seq::<(Seq<char>, Seq<char>)>::empty(),
    {
        RmContainerOptionsBuilder::default()
    }

    /// The query string for these options; nothing when none are set.
    pub fn serialize(&self) -> (r: Option<String>)
        ensures
            (r is Some) <==> self.spec_params().len() > 0,
            r matches Some(q) ==> q@ == urlencoded_of(self.spec_params()),
    {
        encode_query(&self.params)
    }
}

impl Default for RmContainerOptions {
    /// Options with nothing set.
    fn default() -> (r: RmContainerOptions)
        ensures
            r.spec_params() == Seq::<(Seq<char>, Seq<char>)>::empty(),
    {
        let r = RmContainerOptions { params: Vec::new() };
        proof {
            assert(r.spec_params() =~= Seq::<(Seq<char>, Seq<char>)>::empty());
        }
        r
    }
}

/// Builder interface for `RmContainerOptions`.
#[derive(Debug)]
pub struct RmContainerOptionsBuilder {
    params: Vec<(String, String)>,
}

impl Default for RmContainerOptionsBuilder {
    /// A builder with nothing set.
    fn default() -> (r: RmContainerOptionsBuilder)
        ensures
            r.spec_params() == Seq::<(Seq<char>, Seq<char>)>::empty(),
    {
        let r = RmContainerOptionsBuilder { params: Vec::new() };
        proof {
            assert(r.spec_params() =~= Seq::<(Seq<char>, Seq<char>)>::empty());
        }
        r
    }
}

impl RmContainerOptionsBuilder {
    /// The parameters set so far.
    pub closed spec fn spec_params(&self) -> Seq<(Seq<char>, Seq<char>)> {
        pairs_view(self.params@)
    }

    /// Forces removal of a running container.
    pub fn force(&mut self, f: bool) -> (r: &mut Self)
        ensures
            r.spec_params() == spec_set_pair(old(self).spec_params(), "force"@, spec_bool_str(f)),
            *final(self) == *final(r),
    {
        set_pair(&mut self.params, "force", bool_string(f));
        self
    }

    /// Removes the anonymous volumes too.
    pub fn volumes(&mut self, s: bool) -> (r: &mut Self)
        ensures
            r.spec_params() == spec_set_pair(old(self).spec_params(), "v"@, spec_bool_str(s)),
            *final(self) == *final(r),
    {
        set_pair(&mut self.params, "v", bool_string(s));
        self
    }

    /// The options set so far.
    pub fn build(&self) -> (r: RmContainerOptions)
        ensures
            r.spec_params() == self.spec_params(),
    {
        RmContainerOptions { params: clone_pairs(&self.params) }
    }
}

} // verus!

verus! {

/// The strings of a list, as JSON string values.
pub open spec fn strings_model(s: Seq<String>) -> Seq<JsonModel> {
    s.map_values(|x: String| JsonModel::Str(x@))
}

/// A JSON list of the given strings.
fn arr_of_strs(items: Vec<&str>) -> (r: JsonValue)
    ensures
        jmodel(r) == JsonModel::Arr(crate::exec::strs_model(items@)),
{
    let mut arr: Vec<JsonValue> = Vec::new();
    let mut i: usize = 0;
    while i < items.len()
        invariant
            i <= items@.len(),
            arr@.len() == i,
            forall|l: int|
                0 <= l < i ==> jmodel(#[trigger] arr@[l]) == JsonModel::Str(items@[l]@),
        decreases items@.len() - i,
    {
        arr.push(JsonValue::Str(items[i].to_owned()));
        i = i + 1;
    }
    proof {
        crate::json::lemma_jmodel_seq_index(arr@);
        assert(crate::json::jmodel_seq(arr@) =~= crate::exec::strs_model(items@));
    }
    JsonValue::Arr(arr)
}

/// A JSON list of the given strings.
fn arr_of_strings(items: &Vec<String>) -> (r: JsonValue)
    ensures
        jmodel(r) == JsonModel::Arr(strings_model(items@)),
{
    let mut arr: Vec<JsonValue> = Vec::new();
    let mut i: usize = 0;
    while i < items.len()
        invariant
            i <= items@.len(),
            arr@.len() == i,
            forall|l: int|
                0 <= l < i ==> jmodel(#[trigger] arr@[l]) == JsonModel::Str(items@[l]@),
        decreases items@.len() - i,
    {
        arr.push(JsonValue::Str(items[i].clone()));
        i = i + 1;
    }
    proof {
        crate::json::lemma_jmodel_seq_index(arr@);
        assert(crate::json::jmodel_seq(arr@) =~= strings_model(items@));
    }
    JsonValue::Arr(arr)
}

/// The filter key one port and protocol spell: the port's digits, a slash,
/// the protocol.
pub open spec fn port_key(srcport: u32, protocol: Seq<char>) -> Seq<char> {
    dec_nat(srcport as nat) + seq!['/'] + protocol
}

/// The port key as text.
fn port_key_string(srcport: u32, protocol: &str) -> (r: String)
    ensures
        r@ == port_key(srcport, protocol@),
{
    let mut out: Vec<char> = Vec::new();
    crate::text::push_dec_u64(srcport as u64, &mut out);
    out.push('/');
    let mut p = chars_vec(protocol);
    out.append(&mut p);
    proof {
        assert(out@ =~= port_key(srcport, protocol@));
    }
    crate::text::string_from_chars(&out)
}

/// The host-port binding an exposed port maps to.
pub open spec fn expose_binding(hostport: u32) -> JsonModel {
    JsonModel::Arr(
        seq![JsonModel::Obj(seq![("HostPort"@, JsonModel::Str(dec_nat(hostport as nat)))])],
    )
}

/// Settings for creating a new container from an image.
#[derive(Debug)]
pub struct ContainerOptions {
    pub name: Option<String>,
    params: Vec<(String, JsonValue)>,
}

/// The JSON body container options serialize as: a body that always carries
/// a `HostConfig` object, with every set member placed at the path its
/// dotted key spells.
pub open spec fn container_body(ps: Seq<(Seq<char>, JsonModel)>) -> Seq<(Seq<char>, JsonModel)> {
    crate::json::insert_all(seq![("HostConfig"@, JsonModel::Obj(seq![]))], ps)
}

impl ContainerOptions {
    /// The members set so far, under their dotted keys.
    pub closed spec fn spec_params(&self) -> Seq<(Seq<char>, JsonModel)> {
        jmodel_pairs(self.params@)
    }

    /// The container name these settings carry, if any.
    pub closed spec fn spec_name(&self) -> Option<String> {
        self.name
    }

    /// A builder for creation settings, from an image name.
    pub fn builder(name: &str) -> (b: ContainerOptionsBuilder)
        ensures
            b.spec_name() is None,
            b.spec_params() == model_obj_set(
                Seq::<(Seq<char>, JsonModel)>::empty(),
                "Image"@,
                JsonModel::Str(name@),
            ),
    {
        ContainerOptionsBuilder::new(name)
    }

    /// The JSON body for these settings.
    pub fn serialize(&self) -> (r: Result<String, crate::errors::Error>)
        ensures
            r matches Ok(s) && s@ == json_text(JsonModel::Obj(container_body(self.spec_params()))),
    {
        let mut body: Vec<(String, JsonValue)> = Vec::new();
        proof {
            assert(jmodel_pairs(body@) =~= Seq::<(Seq<char>, JsonModel)>::empty());
        }
        let host_config: Vec<(String, JsonValue)> = Vec::new();
        proof {
            assert(jmodel_pairs(host_config@) =~= Seq::<(Seq<char>, JsonModel)>::empty());
        }
        obj_set(&mut body, "HostConfig".to_owned(), JsonValue::Obj(host_config));
        proof {
            assert(jmodel_pairs(body@) =~= seq![("HostConfig"@, JsonModel::Obj(seq![]))]);
        }
        crate::json::tree_set_all(&self.params, &mut body);
        Ok(JsonValue::Obj(body).render())
    }

    /// Sets every given member at its dotted key path.
    pub fn parse_from(&self, params: &Vec<(String, JsonValue)>, body: &mut Vec<(String, JsonValue)>)
        ensures
            jmodel_pairs(final(body)@) == crate::json::insert_all(
                jmodel_pairs(old(body)@),
                jmodel_pairs(params@),
            ),
    {
        crate::json::tree_set_all(params, body);
    }
}

/// Builder interface for `ContainerOptions`.
#[derive(Debug)]
pub struct ContainerOptionsBuilder {
    name: Option<String>,
    params: Vec<(String, JsonValue)>,
}

impl ContainerOptionsBuilder {
    /// The members set so far, under their dotted keys.
    pub closed spec fn spec_params(&self) -> Seq<(Seq<char>, JsonModel)> {
        jmodel_pairs(self.params@)
    }

    /// The container name set so far.
    pub closed spec fn spec_name(&self) -> Option<String> {
        self.name
    }

    /// A builder holding the image to create from.
    pub fn new(image: &str) -> (r: ContainerOptionsBuilder)
        ensures
            r.spec_name() is None,
            r.spec_params() == model_obj_set(
                Seq::<(Seq<char>, JsonModel)>::empty(),
                "Image"@,
                JsonModel::Str(image@),
            ),
    {
        let mut params: Vec<(String, JsonValue)> = Vec::new();
        proof {
            assert(jmodel_pairs(params@) =~= Seq::<(Seq<char>, JsonModel)>::empty());
        }
        obj_set(&mut params, "Image".to_owned(), JsonValue::Str(image.to_owned()));
        ContainerOptionsBuilder { name: None, params }
    }

    /// Names the container.
    pub fn name(&mut self, name: &str) -> (r: &mut Self)
        ensures
            r.spec_name() matches Some(n) && n@ == name@,
            r.spec_params() == old(self).spec_params(),
            *final(self) == *final(r),
    {
        self.name = Some(name.to_owned());
        self
    }

    /// Sets the working directory.
    pub fn working_dir(&mut self, working_dir: &str) -> (r: &mut Self)
        ensures
            r.spec_params() == model_obj_set(
                old(self).spec_params(),
                "WorkingDir"@,
                JsonModel::Str(working_dir@),
            ),
            *final(self) == *final(r),
    {
        obj_set(&mut self.params, "WorkingDir".to_owned(), JsonValue::Str(working_dir.to_owned()));
        self
    }

    /// Sets the bind mounts, each `/host/path:/container/path`.
    pub fn volumes(&mut self, volumes: Vec<&str>) -> (r: &mut Self)
        ensures
            r.spec_params() == model_obj_set(
                old(self).spec_params(),
                "HostConfig.Binds"@,
                JsonModel::Arr(crate::exec::strs_model(volumes@)),
            ),
            *final(self) == *final(r),
    {
        let v = arr_of_strs(volumes);
        obj_set(&mut self.params, "HostConfig.Binds".to_owned(), v);
        self
    }

    /// Maps every exposed port to a random available host port.
    pub fn publish_all_ports(&mut self) -> (r: &mut Self)
        ensures
            r.spec_params() == model_obj_set(
                old(self).spec_params(),
                "HostConfig.PublishAllPorts"@,
                JsonModel::Bool(true),
            ),
            *final(self) == *final(r),
    {
        obj_set(&mut self.params, "HostConfig.PublishAllPorts".to_owned(), JsonValue::Bool(true));
        self
    }

    /// Binds a container port to a host port, keeping the bindings made so
    /// far and mirroring every bound port into the exposed-ports member.
    pub fn expose(&mut self, srcport: u32, protocol: &str, hostport: u32) -> (r: &mut Self)
        ensures
            ({
                let pb = model_obj_set(
                    crate::json::obj_at(old(self).spec_params(), "HostConfig.PortBindings"@),
                    port_key(srcport, protocol@),
                    expose_binding(hostport),
                );
                let p1 = model_obj_set(
                    old(self).spec_params(),
                    "HostConfig.PortBindings"@,
                    JsonModel::Obj(pb),
                );
                r.spec_params() == model_obj_set(
                    p1,
                    "ExposedPorts"@,
                    JsonModel::Obj(crate::json::blank_members(pb)),
                )
            }),
            *final(self) == *final(r),
    {
        let mut pb: Vec<(String, JsonValue)> = match crate::json::find_key(
            &self.params,
            "HostConfig.PortBindings",
        ) {
            Some(j) => {
                let p = &self.params[j];
                match &p.1 {
                    JsonValue::Obj(m) => crate::json::clone_members(m),
                    _ => Vec::new(),
                }
            },
            None => Vec::new(),
        };
        proof {
            assert(jmodel_pairs(pb@) == crate::json::obj_at(
                jmodel_pairs(self.params@),
                "HostConfig.PortBindings"@,
            ));
        }
        let mut binding: Vec<(String, JsonValue)> = Vec::new();
        binding.push(("HostPort".to_owned(), JsonValue::Str(u64_string(hostport as u64))));
        proof {
            crate::json::lemma_jmodel_pairs_index(binding@);
            assert(jmodel_pairs(binding@) =~= seq![
                ("HostPort"@, JsonModel::Str(dec_nat(hostport as nat))),
            ]);
        }
        let mut arr: Vec<JsonValue> = Vec::new();
        arr.push(JsonValue::Obj(binding));
        proof {
            crate::json::lemma_jmodel_seq_index(arr@);
            assert(crate::json::jmodel_seq(arr@) =~= expose_binding(hostport)->Arr_0);
        }
        obj_set(&mut pb, port_key_string(srcport, protocol), JsonValue::Arr(arr));
        let blank = crate::json::blank_values(&pb);
        obj_set(&mut self.params, "HostConfig.PortBindings".to_owned(), JsonValue::Obj(pb));
        obj_set(&mut self.params, "ExposedPorts".to_owned(), JsonValue::Obj(blank));
        self
    }

    /// Exposes a container port without binding a host port, keeping the
    /// ports exposed so far.
    pub fn publish(&mut self, srcport: u32, protocol: &str) -> (r: &mut Self)
        ensures
            ({
                let ex = model_obj_set(
                    crate::json::obj_at(old(self).spec_params(), "ExposedPorts"@),
                    port_key(srcport, protocol@),
                    JsonModel::Obj(seq![]),
                );
                r.spec_params() == model_obj_set(
                    old(self).spec_params(),
                    "ExposedPorts"@,
                    JsonModel::Obj(crate::json::blank_members(ex)),
                )
            }),
            *final(self) == *final(r),
    {
        let mut ex: Vec<(String, JsonValue)> = match crate::json::find_key(
            &self.params,
            "ExposedPorts",
        ) {
            Some(j) => {
                let p = &self.params[j];
                match &p.1 {
                    JsonValue::Obj(m) => crate::json::clone_members(m),
                    _ => Vec::new(),
                }
            },
            None => Vec::new(),
        };
        proof {
            assert(jmodel_pairs(ex@) == crate::json::obj_at(
                jmodel_pairs(self.params@),
                "ExposedPorts"@,
            ));
        }
        let empty_obj: Vec<(String, JsonValue)> = Vec::new();
        proof {
            assert(jmodel_pairs(empty_obj@) =~= Seq::<(Seq<char>, JsonModel)>::empty());
        }
        obj_set(&mut ex, port_key_string(srcport, protocol), JsonValue::Obj(empty_obj));
        let blank = crate::json::blank_values(&ex);
        obj_set(&mut self.params, "ExposedPorts".to_owned(), JsonValue::Obj(blank));
        self
    }

    /// Links other containers into this one.
    pub fn links(&mut self, links: Vec<&str>) -> (r: &mut Self)
        ensures
            r.spec_params() == model_obj_set(
                old(self).spec_params(),
                "HostConfig.Links"@,
                JsonModel::Arr(crate::exec::strs_model(links@)),
            ),
            *final(self) == *final(r),
    {
        let v = arr_of_strs(links);
        obj_set(&mut self.params, "HostConfig.Links".to_owned(), v);
        self
    }

    /// The memory limit, in bytes.
    pub fn memory(&mut self, memory: u64) -> (r: &mut Self)
        ensures
            r.spec_params() == model_obj_set(
                old(self).spec_params(),
                "HostConfig.Memory"@,
                JsonModel::UInt(memory),
            ),
            *final(self) == *final(r),
    {
        obj_set(&mut self.params, "HostConfig.Memory".to_owned(), JsonValue::UInt(memory));
        self
    }

    /// The memory-plus-swap limit in bytes; minus one leaves swap unlimited.
    pub fn memory_swap(&mut self, memory_swap: i64) -> (r: &mut Self)
        ensures
            r.spec_params() == model_obj_set(
                old(self).spec_params(),
                "HostConfig.MemorySwap"@,
                JsonModel::Int(memory_swap),
            ),
            *final(self) == *final(r),
    {
        obj_set(&mut self.params, "HostConfig.MemorySwap".to_owned(), JsonValue::Int(memory_swap));
        self
    }

    /// The CPU quota, in billionths of a CPU.
    pub fn nano_cpus(&mut self, nano_cpus: u64) -> (r: &mut Self)
        ensures
            r.spec_params() == model_obj_set(
                old(self).spec_params(),
                "HostConfig.NanoCpus"@,
                JsonModel::UInt(nano_cpus),
            ),
            *final(self) == *final(r),
    {
        obj_set(&mut self.params, "HostConfig.NanoCpus".to_owned(), JsonValue::UInt(nano_cpus));
        self
    }

    /// The container's relative CPU weight.
    pub fn cpu_shares(&mut self, cpu_shares: u32) -> (r: &mut Self)
        ensures
            r.spec_params() == model_obj_set(
                old(self).spec_params(),
                "HostConfig.CpuShares"@,
                JsonModel::UInt(cpu_shares as u64),
            ),
            *final(self) == *final(r),
    {
        obj_set(
            &mut self.params,
            "HostConfig.CpuShares".to_owned(),
            JsonValue::UInt(cpu_shares as u64),
        );
        self
    }

    /// Attaches labels to the container.
    pub fn labels(&mut self, labels: &Vec<(String, String)>) -> (r: &mut Self)
        ensures
            r.spec_params() == model_obj_set(
                old(self).spec_params(),
                "Labels"@,
                JsonModel::Obj(crate::network::string_pairs_fold(Seq::empty(), labels@)),
            ),
            *final(self) == *final(r),
    {
        let obj = crate::network::pairs_object(labels);
        obj_set(&mut self.params, "Labels".to_owned(), obj);
        self
    }

    /// Whether to attach to standard input; sets the open-stdin member too.
    pub fn attach_stdin(&mut self, attach: bool) -> (r: &mut Self)
        ensures
            r.spec_params() == model_obj_set(
                model_obj_set(old(self).spec_params(), "AttachStdin"@, JsonModel::Bool(attach)),
                "OpenStdin"@,
                JsonModel::Bool(attach),
            ),
            *final(self) == *final(r),
    {
        obj_set(&mut self.params, "AttachStdin".to_owned(), JsonValue::Bool(attach));
        obj_set(&mut self.params, "OpenStdin".to_owned(), JsonValue::Bool(attach));
        self
    }

    /// Whether to attach to standard output.
    pub fn attach_stdout(&mut self, attach: bool) -> (r: &mut Self)
        ensures
            r.spec_params() == model_obj_set(
                old(self).spec_params(),
                "AttachStdout"@,
                JsonModel::Bool(attach),
            ),
            *final(self) == *final(r),
    {
        obj_set(&mut self.params, "AttachStdout".to_owned(), JsonValue::Bool(attach));
        self
    }

    /// Whether to attach to standard error.
    pub fn attach_stderr(&mut self, attach: bool) -> (r: &mut Self)
        ensures
            r.spec_params() == model_obj_set(
                old(self).spec_params(),
                "AttachStderr"@,
                JsonModel::Bool(attach),
            ),
            *final(self) == *final(r),
    {
        obj_set(&mut self.params, "AttachStderr".to_owned(), JsonValue::Bool(attach));
        self
    }

    /// Whether the standard streams run through a terminal.
    pub fn tty(&mut self, tty: bool) -> (r: &mut Self)
        ensures
            r.spec_params() == model_obj_set(
                old(self).spec_params(),
                "Tty"@,
                JsonModel::Bool(tty),
            ),
            *final(self) == *final(r),
    {
        obj_set(&mut self.params, "Tty".to_owned(), JsonValue::Bool(tty));
        self
    }

    /// Extra host-to-address mappings for the container's hosts file.
    pub fn extra_hosts(&mut self, hosts: Vec<&str>) -> (r: &mut Self)
        ensures
            r.spec_params() == model_obj_set(
                old(self).spec_params(),
                "HostConfig.ExtraHosts"@,
                JsonModel::Arr(crate::exec::strs_model(hosts@)),
            ),
            *final(self) == *final(r),
    {
        let v = arr_of_strs(hosts);
        obj_set(&mut self.params, "HostConfig.ExtraHosts".to_owned(), v);
        self
    }

    /// Mounts the volumes of other containers.
    pub fn volumes_from(&mut self, volumes: Vec<&str>) -> (r: &mut Self)
        ensures
            r.spec_params() == model_obj_set(
                old(self).spec_params(),
                "HostConfig.VolumesFrom"@,
                JsonModel::Arr(crate::exec::strs_model(volumes@)),
            ),
            *final(self) == *final(r),
    {
        let v = arr_of_strs(volumes);
        obj_set(&mut self.params, "HostConfig.VolumesFrom".to_owned(), v);
        self
    }

    /// The networking mode the container runs under.
    pub fn network_mode(&mut self, network: &str) -> (r: &mut Self)
        ensures
            r.spec_params() == model_obj_set(
                old(self).spec_params(),
                "HostConfig.NetworkMode"@,
                JsonModel::Str(network@),
            ),
            *final(self) == *final(r),
    {
        obj_set(
            &mut self.params,
            "HostConfig.NetworkMode".to_owned(),
            JsonValue::Str(network.to_owned()),
        );
        self
    }

    /// The environment, each entry in `NAME=VALUE` form.
    pub fn env(&mut self, envs: &Vec<String>) -> (r: &mut Self)
        ensures
            r.spec_params() == model_obj_set(
                old(self).spec_params(),
                "Env"@,
                JsonModel::Arr(strings_model(envs@)),
            ),
            *final(self) == *final(r),
    {
        let v = arr_of_strings(envs);
        obj_set(&mut self.params, "Env".to_owned(), v);
        self
    }

    /// The command to run.
    pub fn cmd(&mut self, cmds: Vec<&str>) -> (r: &mut Self)
        ensures
            r.spec_params() == model_obj_set(
                old(self).spec_params(),
                "Cmd"@,
                JsonModel::Arr(crate::exec::strs_model(cmds@)),
            ),
            *final(self) == *final(r),
    {
        let v = arr_of_strs(cmds);
        obj_set(&mut self.params, "Cmd".to_owned(), v);
        self
    }

    /// The entry point.
    pub fn entrypoint(&mut self, entrypoint: &str) -> (r: &mut Self)
        ensures
            r.spec_params() == model_obj_set(
                old(self).spec_params(),
                "Entrypoint"@,
                JsonModel::Str(entrypoint@),
            ),
            *final(self) == *final(r),
    {
        obj_set(&mut self.params, "Entrypoint".to_owned(), JsonValue::Str(entrypoint.to_owned()));
        self
    }

    /// Capabilities to add.
    pub fn capabilities(&mut self, capabilities: Vec<&str>) -> (r: &mut Self)
        ensures
            r.spec_params() == model_obj_set(
                old(self).spec_params(),
                "HostConfig.CapAdd"@,
                JsonModel::Arr(crate::exec::strs_model(capabilities@)),
            ),
            *final(self) == *final(r),
    {
        let v = arr_of_strs(capabilities);
        obj_set(&mut self.params, "HostConfig.CapAdd".to_owned(), v);
        self
    }

    /// Devices to map into the container, each a map of device settings.
    pub fn devices(&mut self, devices: Vec<Vec<(String, String)>>) -> (r: &mut Self)
        ensures
            r.spec_params() == model_obj_set(
                old(self).spec_params(),
                "HostConfig.Devices"@,
                JsonModel::Arr(devices_model(devices@)),
            ),
            *final(self) == *final(r),
    {
        let mut arr: Vec<JsonValue> = Vec::new();
        let mut i: usize = 0;
        while i < devices.len()
            invariant
                i <= devices@.len(),
                arr@.len() == i,
                forall|l: int|
                    0 <= l < i ==> jmodel(#[trigger] arr@[l]) == JsonModel::Obj(
                        crate::network::string_pairs_fold(Seq::empty(), devices@[l]@),
                    ),
            decreases devices@.len() - i,
        {
            let obj = crate::network::pairs_object(&devices[i]);
            arr.push(obj);
            i = i + 1;
        }
        proof {
            crate::json::lemma_jmodel_seq_index(arr@);
            assert(crate::json::jmodel_seq(arr@) =~= devices_model(devices@));
        }
        obj_set(&mut self.params, "HostConfig.Devices".to_owned(), JsonValue::Arr(arr));
        self
    }

    /// The log driver to use.
    pub fn log_driver(&mut self, log_driver: &str) -> (r: &mut Self)
        ensures
            r.spec_params() == model_obj_set(
                old(self).spec_params(),
                "HostConfig.LogConfig.Type"@,
                JsonModel::Str(log_driver@),
            ),
            *final(self) == *final(r),
    {
        obj_set(
            &mut self.params,
            "HostConfig.LogConfig.Type".to_owned(),
            JsonValue::Str(log_driver.to_owned()),
        );
        self
    }

    /// The restart policy, with a retry bound only where the policy restarts
    /// on failure.
    pub fn restart_policy(&mut self, name: &str, maximum_retry_count: u64) -> (r: &mut Self)
        ensures
            ({
                let p1 = model_obj_set(
                    old(self).spec_params(),
                    "HostConfig.RestartPolicy.Name"@,
                    JsonModel::Str(name@),
                );
                if name@ == "on-failure"@ {
                    r.spec_params() == model_obj_set(
                        p1,
                        "HostConfig.RestartPolicy.MaximumRetryCount"@,
                        JsonModel::UInt(maximum_retry_count),
                    )
                } else {
                    r.spec_params() == p1
                }
            }),
            *final(self) == *final(r),
    {
        obj_set(
            &mut self.params,
            "HostConfig.RestartPolicy.Name".to_owned(),
            JsonValue::Str(name.to_owned()),
        );
        let nc = chars_vec(name);
        let oc = chars_vec("on-failure");
        if chars_eq(&nc, &oc) {
            proof {
                assert(oc@ == "on-failure"@);
            }
            obj_set(
                &mut self.params,
                "HostConfig.RestartPolicy.MaximumRetryCount".to_owned(),
                JsonValue::UInt(maximum_retry_count),
            );
        }
        self
    }

    /// Removes the container when it exits.
    pub fn auto_remove(&mut self, set: bool) -> (r: &mut Self)
        ensures
            r.spec_params() == model_obj_set(
                old(self).spec_params(),
                "HostConfig.AutoRemove"@,
                JsonModel::Bool(set),
            ),
            *final(self) == *final(r),
    {
        obj_set(&mut self.params, "HostConfig.AutoRemove".to_owned(), JsonValue::Bool(set));
        self
    }

    /// The stop signal, by name.
    pub fn stop_signal(&mut self, sig: &str) -> (r: &mut Self)
        ensures
            r.spec_params() == model_obj_set(
                old(self).spec_params(),
                "StopSignal"@,
                JsonModel::Str(sig@),
            ),
            *final(self) == *final(r),
    {
        obj_set(&mut self.params, "StopSignal".to_owned(), JsonValue::Str(sig.to_owned()));
        self
    }

    /// The stop signal, by number.
    pub fn stop_signal_num(&mut self, sig: u64) -> (r: &mut Self)
        ensures
            r.spec_params() == model_obj_set(
                old(self).spec_params(),
                "StopSignal"@,
                JsonModel::UInt(sig),
            ),
            *final(self) == *final(r),
    {
        obj_set(&mut self.params, "StopSignal".to_owned(), JsonValue::UInt(sig));
        self
    }

    /// How many seconds to allow the container to stop.
    pub fn stop_timeout(&mut self, timeout_secs: u64) -> (r: &mut Self)
        ensures
            r.spec_params() == model_obj_set(
                old(self).spec_params(),
                "StopTimeout"@,
                JsonModel::UInt(timeout_secs),
            ),
            *final(self) == *final(r),
    {
        obj_set(&mut self.params, "StopTimeout".to_owned(), JsonValue::UInt(timeout_secs));
        self
    }

    /// The user namespace mode.
    pub fn userns_mode(&mut self, mode: &str) -> (r: &mut Self)
        ensures
            r.spec_params() == model_obj_set(
                old(self).spec_params(),
                "HostConfig.UsernsMode"@,
                JsonModel::Str(mode@),
            ),
            *final(self) == *final(r),
    {
        obj_set(
            &mut self.params,
            "HostConfig.UsernsMode".to_owned(),
            JsonValue::Str(mode.to_owned()),
        );
        self
    }

    /// Runs the container privileged.
    pub fn privileged(&mut self, set: bool) -> (r: &mut Self)
        ensures
            r.spec_params() == model_obj_set(
                old(self).spec_params(),
                "HostConfig.Privileged"@,
                JsonModel::Bool(set),
            ),
            *final(self) == *final(r),
    {
        obj_set(&mut self.params, "HostConfig.Privileged".to_owned(), JsonValue::Bool(set));
        self
    }

    /// The user the container runs as.
    pub fn user(&mut self, user: &str) -> (r: &mut Self)
        ensures
            r.spec_params() == model_obj_set(
                old(self).spec_params(),
                "User"@,
                JsonModel::Str(user@),
            ),
            *final(self) == *final(r),
    {
        obj_set(&mut self.params, "User".to_owned(), JsonValue::Str(user.to_owned()));
        self
    }

    /// The settings made so far.
    pub fn build(&self) -> (r: ContainerOptions)
        ensures
            r.spec_params() == self.spec_params(),
            r.spec_name() == self.spec_name(),
    {
        ContainerOptions {
            name: match &self.name {
                Some(n) => Some(n.clone()),
                None => None,
            },
            params: clone_members(&self.params),
        }
    }
}

/// The JSON objects of a list of device-setting maps.
pub open spec fn devices_model(ds: Seq<Vec<(String, String)>>) -> Seq<JsonModel> {
    ds.map_values(
        |m: Vec<(String, String)>|
            JsonModel::Obj(crate::network::string_pairs_fold(Seq::empty(), m@)),
    )
}

} // verus!
