//! Interfaces for images: the endpoints their operations hit, registry
//! credentials, and the options that shape list, pull, tag and build
//! requests.

use vstd::prelude::*;

use crate::docker::Docker;
use crate::json::{
    jmodel_pairs, jmodel_seq, json_text, JsonModel, JsonValue,
};
use crate::query::{
    clone_pairs, encode_query, pairs_view, set_pair, spec_set_pair, urlencoded_of, with_query,
};
use crate::text::{bool_string, dec_nat, spec_bool_str, str_concat2, str_concat3, u64_string};
use crate::transport::Transport;

verus! {

/// The endpoint prefix for one image.
fn image_path(name: &str, suffix: &str) -> (r: String)
    ensures
        r@ == "/images/"@ + name@ + suffix@,
{
    str_concat3("/images/", name, suffix)
}

/// Interface for accessing and manipulating one named image.
pub struct Image<'a> {
    docker: &'a Docker,
    name: String,
}

impl<'a> Image<'a> {
    /// The transport behind this interface.
    pub closed spec fn backing(&self) -> Transport {
        self.docker.spec_transport()
    }

    /// The image's name.
    pub closed spec fn spec_name(&self) -> Seq<char> {
        self.name@
    }

    /// An interface for operations against one named image.
    pub fn new(docker: &'a Docker, name: &str) -> (r: Image<'a>)
        ensures
            r.backing() == docker.spec_transport(),
            r.spec_name() == name@,
    {
        Image { docker, name: name.to_owned() }
    }

    /// The endpoint that inspects this image.
    pub fn inspect_endpoint(&self) -> (r: String)
        ensures
            r@ == "/images/"@ + self.spec_name() + "/json"@,
    {
        image_path(self.name.as_str(), "/json")
    }

    /// The endpoint that reports this image's history.
    pub fn history_endpoint(&self) -> (r: String)
        ensures
            r@ == "/images/"@ + self.spec_name() + "/history"@,
    {
        image_path(self.name.as_str(), "/history")
    }

    /// The endpoint that deletes this image.
    pub fn delete_endpoint(&self) -> (r: String)
        ensures
            r@ == "/images/"@ + self.spec_name(),
    {
        str_concat2("/images/", self.name.as_str())
    }

    /// The endpoint that exports this image as a tarball stream.
    pub fn export_endpoint(&self) -> (r: String)
        ensures
            r@ == "/images/"@ + self.spec_name() + "/get"@,
    {
        image_path(self.name.as_str(), "/get")
    }

    /// The endpoint that tags this image, shaped by the tag options.
    pub fn tag_endpoint(&self, opts: &TagOptions) -> (r: String)
        ensures
            opts.spec_params().len() == 0 ==> r@ == "/images/"@ + self.spec_name() + "/tag"@,
            opts.spec_params().len() > 0 ==> r@ == "/images/"@ + self.spec_name() + "/tag"@
                + seq!['?'] + urlencoded_of(opts.spec_params()),
    {
        with_query(image_path(self.name.as_str(), "/tag"), opts.serialize())
    }
}

/// Interface for the daemon's images.
pub struct Images<'a> {
    docker: &'a Docker,
}

impl<'a> Images<'a> {
    /// The transport behind this interface.
    pub closed spec fn backing(&self) -> Transport {
        self.docker.spec_transport()
    }

    /// An interface for interacting with images.
    pub fn new(docker: &'a Docker) -> (r: Images<'a>)
        ensures
            r.backing() == docker.spec_transport(),
    {
        Images { docker }
    }

    /// The endpoint that builds an image from an uploaded build context,
    /// shaped by the build options.
    pub fn build_endpoint(&self, opts: &BuildOptions) -> (r: String)
        ensures
            opts.spec_params().len() == 0 ==> r@ == "/build"@,
            opts.spec_params().len() > 0 ==> r@ == "/build"@ + seq!['?'] + urlencoded_of(
                opts.spec_params(),
            ),
    {
        with_query("/build".to_owned(), opts.serialize())
    }

    /// The endpoint that lists images, shaped by the list options.
    pub fn list_endpoint(&self, opts: &ImageListOptions) -> (r: String)
        ensures
            opts.spec_params().len() == 0 ==> r@ == "/images/json"@,
            opts.spec_params().len() > 0 ==> r@ == "/images/json"@ + seq!['?'] + urlencoded_of(
                opts.spec_params(),
            ),
    {
        with_query("/images/json".to_owned(), opts.serialize())
    }

    /// The interface for one named image.
    pub fn get(&self, name: &str) -> (r: Image<'a>)
        ensures
            r.backing() == self.backing(),
            r.spec_name() == name@,
    {
        Image::new(self.docker, name)
    }

    /// The endpoint that searches the registry for a term.
    pub fn search_endpoint(&self, term: &str) -> (r: String)
        ensures
            r@ == "/images/search?"@ + urlencoded_of(seq![("term"@, term@)]),
    {
        let mut params: Vec<(String, String)> = Vec::new();
        set_pair(&mut params, "term", term.to_owned());
        proof {
            assert(pairs_view(params@) =~= seq![("term"@, term@)]);
        }
        match encode_query(&params) {
            Some(q) => str_concat2("/images/search?", q.as_str()),
            None => "/images/search?".to_owned(),
        }
    }

    /// The endpoint that pulls or imports an image, shaped by the pull
    /// options.
    pub fn pull_endpoint(&self, opts: &PullOptions) -> (r: String)
        ensures
            opts.spec_params().len() == 0 ==> r@ == "/images/create"@,
            opts.spec_params().len() > 0 ==> r@ == "/images/create"@ + seq!['?'] + urlencoded_of(
                opts.spec_params(),
            ),
    {
        with_query("/images/create".to_owned(), opts.serialize())
    }

    /// The endpoint that exports a set of named images as one tarball
    /// stream; one `names` parameter per image.
    pub fn export_endpoint(&self, names: Vec<&str>) -> (r: String)
        ensures
            r@ == "/images/get?"@ + urlencoded_of(names_pairs(names@)),
    {
        let mut params: Vec<(String, String)> = Vec::new();
        let mut i: usize = 0;
        while i < names.len()
            invariant
                i <= names@.len(),
                params@.len() == i,
                forall|l: int|
                    0 <= l < i ==> (#[trigger] params@[l]).0@ == "names"@ && params@[l].1@
                        == names@[l]@,
            decreases names@.len() - i,
        {
            params.push(("names".to_owned(), names[i].to_owned()));
            i = i + 1;
        }
        proof {
            assert(pairs_view(params@) =~= names_pairs(names@));
        }
        let q = crate::query::encode_pairs(&params);
        str_concat2("/images/get?", q.as_str())
    }

    /// The endpoint that imports images from an uploaded tarball.
    pub fn import_endpoint(&self) -> (r: String)
        ensures
            r@ == "/images/load"@,
    {
        "/images/load".to_owned()
    }
}

/// One `names` parameter per name.
pub open spec fn names_pairs(names: Seq<&str>) -> Seq<(Seq<char>, Seq<char>)> {
    names.map_values(|n: &str| ("names"@, n@))
}

/// What base64's URL-safe alphabet encodes a byte sequence to; a function of
/// the bytes alone.
pub uninterp spec fn b64url_of(b: Seq<u8>) -> Seq<char>;

/// Relies on base64's URL-safe encoding: the text is a function of the
/// encoded bytes alone.
#[verifier::external_body]
fn b64_url(s: &str) -> (r: String)
    ensures
        r@ == b64url_of(vstd::utf8::encode_utf8(s@)),
{
    base64::encode_config(s, base64::URL_SAFE)
}

/// Registry credentials: a username and password, or an identity token.
#[derive(Debug)]
pub enum RegistryAuth {
    Password {
        username: String,
        password: String,
        email: Option<String>,
        server_address: Option<String>,
    },
    Token { identity_token: String },
}

impl RegistryAuth {
    /// The JSON object these credentials serialize as, members in the order
    /// the registry protocol spells them.
    pub open spec fn auth_model(&self) -> JsonModel {
        match *self {
            RegistryAuth::Token { identity_token } => JsonModel::Obj(
                seq![("identitytoken"@, JsonModel::Str(identity_token@))],
            ),
            RegistryAuth::Password { username, password, email, server_address } => {
                let base = seq![
                    ("username"@, JsonModel::Str(username@)),
                    ("password"@, JsonModel::Str(password@)),
                ];
                let with_email = match email {
                    Some(e) => base.push(("email"@, JsonModel::Str(e@))),
                    None => base,
                };
                JsonModel::Obj(
                    match server_address {
                        Some(sa) => with_email.push(("serveraddress"@, JsonModel::Str(sa@))),
                        None => with_email,
                    },
                )
            },
        }
    }

    /// Credentials from an identity token.
    pub fn token(t: &str) -> (r: RegistryAuth)
        ensures
            r matches RegistryAuth::Token { identity_token } && identity_token@ == t@,
    {
        RegistryAuth::Token { identity_token: t.to_owned() }
    }

    /// A builder for password credentials.
    pub fn builder() -> (b: RegistryAuthBuilder)
        ensures
            b.spec_username()@.len() == 0,
            b.spec_password()@.len() == 0,
            b.spec_email() is None,
            b.spec_server_address() is None,
    {
        RegistryAuthBuilder::default()
    }

    /// The credentials as base64-encoded JSON, the form the registry
    /// authentication header carries.
    pub fn serialize(&self) -> (r: String)
        ensures
            r@ == b64url_of(vstd::utf8::encode_utf8(json_text(self.auth_model()))),
    {
        let mut pairs: Vec<(String, JsonValue)> = Vec::new();
        match self {
            RegistryAuth::Token { identity_token } => {
                pairs.push(("identitytoken".to_owned(), JsonValue::Str(identity_token.clone())));
                proof {
                    crate::json::lemma_jmodel_pairs_index(pairs@);
                    assert(jmodel_pairs(pairs@) =~= self.auth_model()->Obj_0);
                }
            },
            RegistryAuth::Password { username, password, email, server_address } => {
                pairs.push(("username".to_owned(), JsonValue::Str(username.clone())));
                pairs.push(("password".to_owned(), JsonValue::Str(password.clone())));
                match email {
                    Some(e) => {
                        pairs.push(("email".to_owned(), JsonValue::Str(e.clone())));
                    },
                    None => {},
                }
                match server_address {
                    Some(sa) => {
                        pairs.push(("serveraddress".to_owned(), JsonValue::Str(sa.clone())));
                    },
                    None => {},
                }
                proof {
                    crate::json::lemma_jmodel_pairs_index(pairs@);
                    assert(jmodel_pairs(pairs@) =~= self.auth_model()->Obj_0);
                }
            },
        }
        let text = JsonValue::Obj(pairs).render();
        b64_url(text.as_str())
    }
}

/// Builder interface for password credentials.
#[derive(Debug)]
pub struct RegistryAuthBuilder {
    username: String,
    password: String,
    email: Option<String>,
    server_address: Option<String>,
}

impl Default for RegistryAuthBuilder {
    /// A builder with nothing set.
    fn default() -> (r: RegistryAuthBuilder)
        ensures
            r.spec_username()@.len() == 0,
            r.spec_password()@.len() == 0,
            r.spec_email() is None,
            r.spec_server_address() is None,
    {
        RegistryAuthBuilder {
            username: String::new(),
            password: String::new(),
            email: None,
            server_address: None,
        }
    }
}

impl RegistryAuthBuilder {
    /// The username set so far.
    pub closed spec fn spec_username(&self) -> String {
        self.username
    }

    /// The password set so far.
    pub closed spec fn spec_password(&self) -> String {
        self.password
    }

    /// The mail address set so far.
    pub closed spec fn spec_email(&self) -> Option<String> {
        self.email
    }

    /// The registry address set so far.
    pub closed spec fn spec_server_address(&self) -> Option<String> {
        self.server_address
    }

    /// Sets the username.
    pub fn username(&mut self, username: &str) -> (r: &mut Self)
        ensures
            r.spec_username()@ == username@,
            r.spec_password() == old(self).spec_password(),
            r.spec_email() == old(self).spec_email(),
            r.spec_server_address() == old(self).spec_server_address(),
            *final(self) == *final(r),
    {
        self.username = username.to_owned();
        self
    }

    /// Sets the password.
    pub fn password(&mut self, password: &str) -> (r: &mut Self)
        ensures
            r.spec_password()@ == password@,
            r.spec_username() == old(self).spec_username(),
            r.spec_email() == old(self).spec_email(),
            r.spec_server_address() == old(self).spec_server_address(),
            *final(self) == *final(r),
    {
        self.password = password.to_owned();
        self
    }

    /// Sets the mail address.
    pub fn email(&mut self, email: &str) -> (r: &mut Self)
        ensures
            r.spec_email() matches Some(e) && e@ == email@,
            r.spec_username() == old(self).spec_username(),
            r.spec_password() == old(self).spec_password(),
            r.spec_server_address() == old(self).spec_server_address(),
            *final(self) == *final(r),
    {
        self.email = Some(email.to_owned());
        self
    }

    /// Sets the registry address.
    pub fn server_address(&mut self, server_address: &str) -> (r: &mut Self)
        ensures
            r.spec_server_address() matches Some(sa) && sa@ == server_address@,
            r.spec_username() == old(self).spec_username(),
            r.spec_password() == old(self).spec_password(),
            r.spec_email() == old(self).spec_email(),
            *final(self) == *final(r),
    {
        self.server_address = Some(server_address.to_owned());
        self
    }

    /// Password credentials from what is set.
    pub fn build(&self) -> (r: RegistryAuth)
        ensures
            r matches RegistryAuth::Password { username, password, email, server_address } && {
                &&& username == self.spec_username()
                &&& password == self.spec_password()
                &&& email == self.spec_email()
                &&& server_address == self.spec_server_address()
            },
    {
        RegistryAuth::Password {
            username: self.username.clone(),
            password: self.password.clone(),
            email: match &self.email {
                Some(e) => Some(e.clone()),
                None => None,
            },
            server_address: match &self.server_address {
                Some(sa) => Some(sa.clone()),
                None => None,
            },
        }
    }
}

/// Options for tagging an image.
#[derive(Debug)]
pub struct TagOptions {
    params: Vec<(String, String)>,
}

impl TagOptions {
    /// The parameters set so far.
    pub closed spec fn spec_params(&self) -> Seq<(Seq<char>, Seq<char>)> {
        pairs_view(self.params@)
    }

    /// A builder for tag options.
    pub fn builder() -> (b: TagOptionsBuilder)
        ensures
            b.spec_params() == Seq::<(Seq<char>, Seq<char>)>::empty(),
    {
        TagOptionsBuilder::default()
    }

    /// The query string for these options; nothing when none are set.
    pub fn serialize(&self) -> (r: Option<String>)
        ensures
            (r is Some) <==> self.spec_params().len() > 0,
            r matches Some(q) ==> q@ == urlencoded_of(self.spec_params()),
    {
        encode_query(&self.params)
    }
}

impl Default for TagOptions {
    /// Options with nothing set.
    fn default() -> (r: TagOptions)
        ensures
            r.spec_params() == Seq::<(Seq<char>, Seq<char>)>::empty(),
    {
        let r = TagOptions { params: Vec::new() };
        proof {
            assert(r.spec_params() =~= Seq::<(Seq<char>, Seq<char>)>::empty());
        }
        r
    }
}

/// Builder interface for `TagOptions`.
#[derive(Debug)]
pub struct TagOptionsBuilder {
    params: Vec<(String, String)>,
}

impl Default for TagOptionsBuilder {
    /// A builder with nothing set.
    fn default() -> (r: TagOptionsBuilder)
        ensures
            r.spec_params() == Seq::<(Seq<char>, Seq<char>)>::empty(),
    {
        let r = TagOptionsBuilder { params: Vec::new() };
        proof {
            assert(r.spec_params() =~= Seq::<(Seq<char>, Seq<char>)>::empty());
        }
        r
    }
}

impl TagOptionsBuilder {
    /// The parameters set so far.
    pub closed spec fn spec_params(&self) -> Seq<(Seq<char>, Seq<char>)> {
        pairs_view(self.params@)
    }

    /// Sets the repository to tag into.
    pub fn repo(&mut self, r0: &str) -> (r: &mut Self)
        ensures
            r.spec_params() == spec_set_pair(old(self).spec_params(), "repo"@, r0@),
            *final(self) == *final(r),
    {
        set_pair(&mut self.params, "repo", r0.to_owned());
        self
    }

    /// Sets the tag name.
    pub fn tag(&mut self, t: &str) -> (r: &mut Self)
        ensures
            r.spec_params() == spec_set_pair(old(self).spec_params(), "tag"@, t@),
            *final(self) == *final(r),
    {
        set_pair(&mut self.params, "tag", t.to_owned());
        self
    }

    /// The options set so far.
    pub fn build(&self) -> (r: TagOptions)
        ensures
            r.spec_params() == self.spec_params(),
    {
        TagOptions { params: clone_pairs(&self.params) }
    }
}

/// Options for pulling or importing an image.
#[derive(Debug)]
pub struct PullOptions {
    auth: Option<RegistryAuth>,
    params: Vec<(String, String)>,
}

impl PullOptions {
    /// The parameters set so far.
    pub closed spec fn spec_params(&self) -> Seq<(Seq<char>, Seq<char>)> {
        pairs_view(self.params@)
    }

    /// The credentials attached, if any.
    pub closed spec fn spec_auth(&self) -> Option<RegistryAuth> {
        self.auth
    }

    /// A builder for pull options.
    pub fn builder() -> (b: PullOptionsBuilder)
        ensures
            b.spec_params() == Seq::<(Seq<char>, Seq<char>)>::empty(),
            b.spec_auth() is None,
    {
        PullOptionsBuilder::default()
    }

    /// The query string for these options; nothing when none are set.
    pub fn serialize(&self) -> (r: Option<String>)
        ensures
            (r is Some) <==> self.spec_params().len() > 0,
            r matches Some(q) ==> q@ == urlencoded_of(self.spec_params()),
    {
        encode_query(&self.params)
    }

    /// The registry authentication header value, where credentials were
    /// attached.
    pub fn auth_header(&self) -> (r: Option<String>)
        ensures
            match self.spec_auth() {
                Some(a) => r matches Some(h) && h@ == b64url_of(
                    vstd::utf8::encode_utf8(json_text(a.auth_model())),
                ),
                None => r is None,
            },
    {
        match &self.auth {
            Some(a) => Some(a.serialize()),
            None => None,
        }
    }
}

impl Default for PullOptions {
    /// Options with nothing set.
    fn default() -> (r: PullOptions)
        ensures
            r.spec_params() == Seq::<(Seq<char>, Seq<char>)>::empty(),
            r.spec_auth() is None,
    {
        let r = PullOptions { auth: None, params: Vec::new() };
        proof {
            assert(r.spec_params() =~= Seq::<(Seq<char>, Seq<char>)>::empty());
        }
        r
    }
}

/// Builder interface for `PullOptions`.
#[derive(Debug)]
pub struct PullOptionsBuilder {
    auth: Option<RegistryAuth>,
    params: Vec<(String, String)>,
}

impl Default for PullOptionsBuilder {
    /// A builder with nothing set.
    fn default() -> (r: PullOptionsBuilder)
        ensures
            r.spec_params() == Seq::<(Seq<char>, Seq<char>)>::empty(),
            r.spec_auth() is None,
    {
        let r = PullOptionsBuilder { auth: None, params: Vec::new() };
        proof {
            assert(r.spec_params() =~= Seq::<(Seq<char>, Seq<char>)>::empty());
        }
        r
    }
}

impl PullOptionsBuilder {
    /// The parameters set so far.
    pub closed spec fn spec_params(&self) -> Seq<(Seq<char>, Seq<char>)> {
        pairs_view(self.params@)
    }

    /// The credentials attached, if any.
    pub closed spec fn spec_auth(&self) -> Option<RegistryAuth> {
        self.auth
    }

    /// The image to pull, optionally carrying a tag or digest.
    pub fn image(&mut self, img: &str) -> (r: &mut Self)
        ensures
            r.spec_params() == spec_set_pair(old(self).spec_params(), "fromImage"@, img@),
            r.spec_auth() == old(self).spec_auth(),
            *final(self) == *final(r),
    {
        set_pair(&mut self.params, "fromImage", img.to_owned());
        self
    }

    /// The source to import from.
    pub fn src(&mut self, s: &str) -> (r: &mut Self)
        ensures
            r.spec_params() == spec_set_pair(old(self).spec_params(), "fromSrc"@, s@),
            r.spec_auth() == old(self).spec_auth(),
            *final(self) == *final(r),
    {
        set_pair(&mut self.params, "fromSrc", s.to_owned());
        self
    }

    /// The repository name given to an imported image.
    pub fn repo(&mut self, r0: &str) -> (r: &mut Self)
        ensures
            r.spec_params() == spec_set_pair(old(self).spec_params(), "repo"@, r0@),
            r.spec_auth() == old(self).spec_auth(),
            *final(self) == *final(r),
    {
        set_pair(&mut self.params, "repo", r0.to_owned());
        self
    }

    /// The tag or digest to pull; all tags when left empty.
    pub fn tag(&mut self, t: &str) -> (r: &mut Self)
        ensures
            r.spec_params() == spec_set_pair(old(self).spec_params(), "tag"@, t@),
            r.spec_auth() == old(self).spec_auth(),
            *final(self) == *final(r),
    {
        set_pair(&mut self.params, "tag", t.to_owned());
        self
    }

    /// Attaches registry credentials.
    pub fn auth(&mut self, auth: RegistryAuth) -> (r: &mut Self)
        ensures
            r.spec_auth() == Some(auth),
            r.spec_params() == old(self).spec_params(),
            *final(self) == *final(r),
    {
        self.auth = Some(auth);
        self
    }

    /// The options set so far; the credentials move into them.
    pub fn build(&mut self) -> (r: PullOptions)
        ensures
            r.spec_params() == old(self).spec_params(),
            r.spec_auth() == old(self).spec_auth(),
            final(self).spec_auth() is None,
            final(self).spec_params() == old(self).spec_params(),
    {
        let mut taken: Option<RegistryAuth> = None;
        core::mem::swap(&mut taken, &mut self.auth);
        PullOptions { auth: taken, params: clone_pairs(&self.params) }
    }
}

/// Options for building an image from a build context.
#[derive(Debug)]
pub struct BuildOptions {
    pub path: String,
    params: Vec<(String, String)>,
}

impl BuildOptions {
    /// The parameters set so far.
    pub closed spec fn spec_params(&self) -> Seq<(Seq<char>, Seq<char>)> {
        pairs_view(self.params@)
    }

    /// The build context path.
    pub closed spec fn spec_path(&self) -> String {
        self.path
    }

    /// A builder for build options; the path names the directory holding
    /// the build instructions.
    pub fn builder(path: &str) -> (b: BuildOptionsBuilder)
        ensures
            b.spec_params() == Seq::<(Seq<char>, Seq<char>)>::empty(),
            b.spec_path()@ == path@,
    {
        BuildOptionsBuilder::new(path)
    }

    /// The query string for these options; nothing when none are set.
    pub fn serialize(&self) -> (r: Option<String>)
        ensures
            (r is Some) <==> self.spec_params().len() > 0,
            r matches Some(q) ==> q@ == urlencoded_of(self.spec_params()),
    {
        encode_query(&self.params)
    }
}

/// Builder interface for `BuildOptions`.
#[derive(Debug)]
pub struct BuildOptionsBuilder {
    path: String,
    params: Vec<(String, String)>,
}

impl BuildOptionsBuilder {
    /// The parameters set so far.
    pub closed spec fn spec_params(&self) -> Seq<(Seq<char>, Seq<char>)> {
        pairs_view(self.params@)
    }

    /// The build context path.
    pub closed spec fn spec_path(&self) -> String {
        self.path
    }

    /// A builder for a build context directory.
    pub fn new(path: &str) -> (r: BuildOptionsBuilder)
        ensures
            r.spec_params() == Seq::<(Seq<char>, Seq<char>)>::empty(),
            r.spec_path()@ == path@,
    {
        let r = BuildOptionsBuilder { path: path.to_owned(), params: Vec::new() };
        proof {
            assert(r.spec_params() =~= Seq::<(Seq<char>, Seq<char>)>::empty());
        }
        r
    }

    /// Names the build instruction file.
    pub fn dockerfile(&mut self, path: &str) -> (r: &mut Self)
        ensures
            r.spec_params() == spec_set_pair(old(self).spec_params(), "dockerfile"@, path@),
            r.spec_path() == old(self).spec_path(),
            *final(self) == *final(r),
    {
        set_pair(&mut self.params, "dockerfile", path.to_owned());
        self
    }

    /// Tags the built image.
    pub fn tag(&mut self, t: &str) -> (r: &mut Self)
        ensures
            r.spec_params() == spec_set_pair(old(self).spec_params(), "t"@, t@),
            r.spec_path() == old(self).spec_path(),
            *final(self) == *final(r),
    {
        set_pair(&mut self.params, "t", t.to_owned());
        self
    }

    /// Builds from a remote context instead.
    pub fn remote(&mut self, r0: &str) -> (r: &mut Self)
        ensures
            r.spec_params() == spec_set_pair(old(self).spec_params(), "remote"@, r0@),
            r.spec_path() == old(self).spec_path(),
            *final(self) == *final(r),
    {
        set_pair(&mut self.params, "remote", r0.to_owned());
        self
    }

    /// Skips the build cache.
    pub fn nocache(&mut self, nc: bool) -> (r: &mut Self)
        ensures
            r.spec_params() == spec_set_pair(old(self).spec_params(), "nocache"@, spec_bool_str(nc)),
            r.spec_path() == old(self).spec_path(),
            *final(self) == *final(r),
    {
        set_pair(&mut self.params, "nocache", bool_string(nc));
        self
    }

    /// Removes intermediate containers after a successful build.
    pub fn rm(&mut self, r0: bool) -> (r: &mut Self)
        ensures
            r.spec_params() == spec_set_pair(old(self).spec_params(), "rm"@, spec_bool_str(r0)),
            r.spec_path() == old(self).spec_path(),
            *final(self) == *final(r),
    {
        set_pair(&mut self.params, "rm", bool_string(r0));
        self
    }

    /// Always removes intermediate containers.
    pub fn forcerm(&mut self, fr: bool) -> (r: &mut Self)
        ensures
            r.spec_params() == spec_set_pair(old(self).spec_params(), "forcerm"@, spec_bool_str(fr)),
            r.spec_path() == old(self).spec_path(),
            *final(self) == *final(r),
    {
        set_pair(&mut self.params, "forcerm", bool_string(fr));
        self
    }

    /// The networking mode the build runs under.
    pub fn network_mode(&mut self, t: &str) -> (r: &mut Self)
        ensures
            r.spec_params() == spec_set_pair(old(self).spec_params(), "networkmode"@, t@),
            r.spec_path() == old(self).spec_path(),
            *final(self) == *final(r),
    {
        set_pair(&mut self.params, "networkmode", t.to_owned());
        self
    }

    /// The memory limit for the build, in bytes.
    pub fn memory(&mut self, memory: u64) -> (r: &mut Self)
        ensures
            r.spec_params() == spec_set_pair(
                old(self).spec_params(),
                "memory"@,
                dec_nat(memory as nat),
            ),
            r.spec_path() == old(self).spec_path(),
            *final(self) == *final(r),
    {
        set_pair(&mut self.params, "memory", u64_string(memory));
        self
    }

    /// The build's relative CPU weight.
    pub fn cpu_shares(&mut self, cpu_shares: u32) -> (r: &mut Self)
        ensures
            r.spec_params() == spec_set_pair(
                old(self).spec_params(),
                "cpushares"@,
                dec_nat(cpu_shares as nat),
            ),
            r.spec_path() == old(self).spec_path(),
            *final(self) == *final(r),
    {
        set_pair(&mut self.params, "cpushares", u64_string(cpu_shares as u64));
        self
    }

    /// The options set so far.
    pub fn build(&self) -> (r: BuildOptions)
        ensures
            r.spec_params() == self.spec_params(),
            r.spec_path() == self.spec_path(),
    {
        BuildOptions { path: self.path.clone(), params: clone_pairs(&self.params) }
    }
}

/// Filter terms for image listings.
#[derive(Debug)]
pub enum ImageFilter {
    Dangling,
    LabelName(String),
    Label(String, String),
}

/// The filter map entry one image filter term denotes.
pub open spec fn image_filter_entry(f: ImageFilter) -> (Seq<char>, JsonModel) {
    match f {
        ImageFilter::Dangling => ("dangling"@, JsonModel::Arr(seq![JsonModel::Str("true"@)])),
        ImageFilter::LabelName(n) => ("label"@, JsonModel::Arr(seq![JsonModel::Str(n@)])),
        ImageFilter::Label(n, v) => ("label"@, JsonModel::Arr(
            seq![JsonModel::Str(n@ + seq!['='] + v@)],
        )),
    }
}

/// The filter map a list of image filter terms builds up.
pub open spec fn image_filters_fold(
    acc: Seq<(Seq<char>, JsonModel)>,
    fs: Seq<ImageFilter>,
) -> Seq<(Seq<char>, JsonModel)>
    decreases fs.len(),
{
    if fs.len() == 0 {
        acc
    } else {
        image_filters_fold(
            crate::json::model_obj_set(acc, image_filter_entry(fs[0]).0, image_filter_entry(fs[0]).1),
            fs.drop_first(),
        )
    }
}

/// Options for filtering image list results.
#[derive(Debug)]
pub struct ImageListOptions {
    params: Vec<(String, String)>,
}

impl ImageListOptions {
    /// The parameters set so far.
    pub closed spec fn spec_params(&self) -> Seq<(Seq<char>, Seq<char>)> {
        pairs_view(self.params@)
    }

    /// A builder for list options.
    pub fn builder() -> (b: ImageListOptionsBuilder)
        ensures
            b.spec_params() == Seq::<(Seq<char>, Seq<char>)>::empty(),
    {
        ImageListOptionsBuilder::default()
    }

    /// The query string for these options; nothing when none are set.
    pub fn serialize(&self) -> (r: Option<String>)
        ensures
            (r is Some) <==> self.spec_params().len() > 0,
            r matches Some(q) ==> q@ == urlencoded_of(self.spec_params()),
    {
        encode_query(&self.params)
    }
}

impl Default for ImageListOptions {
    /// Options with nothing set.
    fn default() -> (r: ImageListOptions)
        ensures
            r.spec_params() == Seq::<(Seq<char>, Seq<char>)>::empty(),
    {
        let r = ImageListOptions { params: Vec::new() };
        proof {
            assert(r.spec_params() =~= Seq::<(Seq<char>, Seq<char>)>::empty());
        }
        r
    }
}

/// Builder interface for `ImageListOptions`.
#[derive(Debug)]
pub struct ImageListOptionsBuilder {
    params: Vec<(String, String)>,
}

impl Default for ImageListOptionsBuilder {
    /// A builder with nothing set.
    fn default() -> (r: ImageListOptionsBuilder)
        ensures
            r.spec_params() == Seq::<(Seq<char>, Seq<char>)>::empty(),
    {
        let r = ImageListOptionsBuilder { params: Vec::new() };
        proof {
            assert(r.spec_params() =~= Seq::<(Seq<char>, Seq<char>)>::empty());
        }
        r
    }
}

impl ImageListOptionsBuilder {
    /// The parameters set so far.
    pub closed spec fn spec_params(&self) -> Seq<(Seq<char>, Seq<char>)> {
        pairs_view(self.params@)
    }

    /// Reports digests in the listing.
    pub fn digests(&mut self, d: bool) -> (r: &mut Self)
        ensures
            r.spec_params() == spec_set_pair(old(self).spec_params(), "digests"@, spec_bool_str(d)),
            *final(self) == *final(r),
    {
        set_pair(&mut self.params, "digests", bool_string(d));
        self
    }

    /// Lists intermediate images too.
    pub fn all(&mut self) -> (r: &mut Self)
        ensures
            r.spec_params() == spec_set_pair(old(self).spec_params(), "all"@, "true"@),
            *final(self) == *final(r),
    {
        set_pair(&mut self.params, "all", "true".to_owned());
        self
    }

    /// Restricts the listing to one image name.
    pub fn filter_name(&mut self, name: &str) -> (r: &mut Self)
        ensures
            r.spec_params() == spec_set_pair(old(self).spec_params(), "filter"@, name@),
            *final(self) == *final(r),
    {
        set_pair(&mut self.params, "filter", name.to_owned());
        self
    }

    /// Restricts the listing by filter terms, as a JSON map from filter kind
    /// to matched values.
    pub fn filter(&mut self, filters: Vec<ImageFilter>) -> (r: &mut Self)
        ensures
            r.spec_params() == spec_set_pair(
                old(self).spec_params(),
                "filters"@,
                json_text(JsonModel::Obj(image_filters_fold(Seq::empty(), filters@))),
            ),
            *final(self) == *final(r),
    {
        let mut obj: Vec<(String, JsonValue)> = Vec::new();
        proof {
            assert(jmodel_pairs(obj@) =~= Seq::<(Seq<char>, JsonModel)>::empty());
            assert(filters@.skip(0) =~= filters@);
        }
        let mut i: usize = 0;
        while i < filters.len()
            invariant
                i <= filters@.len(),
                image_filters_fold(Seq::empty(), filters@) == image_filters_fold(
                    jmodel_pairs(obj@),
                    filters@.skip(i as int),
                ),
            decreases filters@.len() - i,
        {
            proof {
                assert(filters@.skip(i as int)[0] == filters@[i as int]);
                assert(filters@.skip(i as int).drop_first() =~= filters@.skip(i + 1));
            }
            match &filters[i] {
                ImageFilter::Dangling => {
                    let mut arr: Vec<JsonValue> = Vec::new();
                    arr.push(JsonValue::Str(bool_string(true)));
                    proof {
                        crate::json::lemma_jmodel_seq_index(arr@);
                        assert(jmodel_seq(arr@) =~= seq![JsonModel::Str("true"@)]);
                    }
                    crate::json::obj_set(&mut obj, "dangling".to_owned(), JsonValue::Arr(arr));
                },
                ImageFilter::LabelName(n) => {
                    let mut arr: Vec<JsonValue> = Vec::new();
                    arr.push(JsonValue::Str(n.clone()));
                    proof {
                        crate::json::lemma_jmodel_seq_index(arr@);
                        assert(jmodel_seq(arr@) =~= seq![
                            JsonModel::Str(filters@[i as int]->LabelName_0@),
                        ]);
                    }
                    crate::json::obj_set(&mut obj, "label".to_owned(), JsonValue::Arr(arr));
                },
                ImageFilter::Label(n, v) => {
                    let mut text = crate::text::chars_vec(n.as_str());
                    text.push('=');
                    let mut vc = crate::text::chars_vec(v.as_str());
                    text.append(&mut vc);
                    proof {
                        assert(text@ =~= n@ + seq!['='] + v@);
                    }
                    let mut arr: Vec<JsonValue> = Vec::new();
                    arr.push(JsonValue::Str(crate::text::string_from_chars(&text)));
                    proof {
                        crate::json::lemma_jmodel_seq_index(arr@);
                        assert(jmodel_seq(arr@) =~= seq![
                            JsonModel::Str(
                                filters@[i as int]->Label_0@ + seq!['=']
                                    + filters@[i as int]->Label_1@,
                            ),
                        ]);
                    }
                    crate::json::obj_set(&mut obj, "label".to_owned(), JsonValue::Arr(arr));
                },
            }
            i = i + 1;
        }
        proof {
            assert(filters@.skip(filters@.len() as int) =~= Seq::<ImageFilter>::empty());
        }
        let rendered = JsonValue::Obj(obj).render();
        set_pair(&mut self.params, "filters", rendered);
        self
    }

    /// The options set so far.
    pub fn build(&self) -> (r: ImageListOptions)
        ensures
            r.spec_params() == self.spec_params(),
    {
        ImageListOptions { params: clone_pairs(&self.params) }
    }
}

} // verus!
