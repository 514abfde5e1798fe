use vstd::prelude::*;
use vstd::string::StringExecFns;

use crate::url::{client_url, decimal, http_url};

verus! {

/// The primary registry path of the etcd image.
pub const DEFAULT_IMAGE_NAME: &'static str = "gcr.io/etcd-development/etcd";

/// The etcd release that a descriptor names unless told otherwise.
pub const DEFAULT_IMAGE_TAG: &'static str = "v3.5.13";

/// The port on which etcd serves its clients inside the container.
pub const ETCD_PORT: u16 = 2379;

/// What a descriptor stands for: the coordinates of an image.
pub struct ImageRef {
    pub name: Seq<char>,
    pub tag: Seq<char>,
}

impl ImageRef {
    /// The coordinates of the built-in image.
    pub open spec fn builtin() -> ImageRef {
        ImageRef { name: DEFAULT_IMAGE_NAME@, tag: DEFAULT_IMAGE_TAG@ }
    }

    /// These coordinates with the registry path replaced.
    pub open spec fn with_name(self, name: Seq<char>) -> ImageRef {
        ImageRef { name, tag: self.tag }
    }

    /// These coordinates with the version tag replaced.
    pub open spec fn with_tag(self, tag: Seq<char>) -> ImageRef {
        ImageRef { name: self.name, tag }
    }

    /// Both coordinates are present. Nothing more is asked of them here: a
    /// path or tag that names no image shows only when the image is pulled.
    pub open spec fn is_complete(self) -> bool {
        self.name.len() > 0 && self.tag.len() > 0
    }
}

/// Descriptor of the etcd container image.
#[derive(Debug)]
pub struct Etcd {
    name: String,
    tag: String,
}

impl View for Etcd {
    type V = ImageRef;

    closed spec fn view(&self) -> ImageRef {
        ImageRef { name: self.name@, tag: self.tag@ }
    }
}

impl Default for Etcd {
    /// The descriptor of the built-in image.
    fn default() -> (r: Self)
        ensures
            r@ == ImageRef::builtin(),
            r@.is_complete(),
    {
        proof {
            lemma_builtin_is_complete();
        }
        Etcd {
            name: String::from_str(DEFAULT_IMAGE_NAME),
            tag: String::from_str(DEFAULT_IMAGE_TAG),
        }
    }
}

impl Etcd {
    /// The descriptor of the built-in image at the release `tag`. The tag
    /// is taken as given; the descriptor is complete unless it is empty.
    pub fn new(tag: &str) -> (r: Self)
        ensures
            r@ == ImageRef::builtin().with_tag(tag@),
            r@.tag == tag@,
            r@.name == DEFAULT_IMAGE_NAME@,
            r@.is_complete() <==> tag@.len() > 0,
    {
        proof {
            lemma_builtin_is_complete();
        }
        Etcd { name: String::from_str(DEFAULT_IMAGE_NAME), tag: String::from_str(tag) }
    }

    /// This descriptor with the registry path `name`; the tag stays.
    pub fn name(self, name: &str) -> (r: Self)
        ensures
            r@ == self@.with_name(name@),
            r@.name == name@,
            r@.tag == self@.tag,
            self@.is_complete() ==> (r@.is_complete() <==> name@.len() > 0),
    {
        let mut image = self;
        image.name = String::from_str(name);
        image
    }

    /// This descriptor with the version tag `tag`; the registry path stays.
    pub fn tag(self, tag: &str) -> (r: Self)
        ensures
            r@ == self@.with_tag(tag@),
            r@.tag == tag@,
            r@.name == self@.name,
            self@.is_complete() ==> (r@.is_complete() <==> tag@.len() > 0),
    {
        let mut image = self;
        image.tag = String::from_str(tag);
        image
    }

    /// The registry path of the image.
    pub fn image_name(&self) -> (name: String)
        ensures
            name@ == self@.name,
    {
        self.name.clone()
    }

    /// The version tag of the image.
    pub fn image_tag(&self) -> (tag: String)
        ensures
            tag@ == self@.tag,
    {
        self.tag.clone()
    }
}

/// The arguments that start the etcd server in the container. They are
/// the same for every descriptor.
#[derive(Debug, Default, Clone, Copy)]
pub struct EtcdArgs;

impl EtcdArgs {
    /// The command line of the server: it listens for clients on every
    /// interface of the container and advertises the loopback address,
    /// both on `ETCD_PORT`.
    pub open spec fn command_line() -> Seq<Seq<char>> {
        seq![
            "etcd"@,
            "-advertise-client-urls"@,
            "http://127.0.0.1:2379"@,
            "-listen-client-urls"@,
            "http://0.0.0.0:2379"@,
        ]
    }

    /// The command line, in order.
    pub fn launch_arguments(self) -> (args: Vec<String>)
        ensures
            args@.len() == 5,
            forall|i: int| 0 <= i < 5 ==> (#[trigger] args@[i])@ == Self::command_line()[i],
            args.deep_view() == Self::command_line(),
    {
        let advertised = client_url("127.0.0.1", ETCD_PORT);
        let listened = client_url("0.0.0.0", ETCD_PORT);
        proof {
            lemma_urls_name_the_client_port();
        }
        let mut args: Vec<String> = Vec::new();
        args.push(String::from_str("etcd"));
        args.push(String::from_str("-advertise-client-urls"));
        args.push(advertised);
        args.push(String::from_str("-listen-client-urls"));
        args.push(listened);
        assert(args.deep_view() =~= Self::command_line());
        args
    }
}

/// The two addresses on the command line are the loopback and the
/// wildcard address, each followed by `ETCD_PORT` in base ten.
pub proof fn lemma_urls_name_the_client_port()
    ensures
        EtcdArgs::command_line().len() == 5,
        EtcdArgs::command_line()[2] == http_url("127.0.0.1"@, ETCD_PORT as nat),
        EtcdArgs::command_line()[4] == http_url("0.0.0.0"@, ETCD_PORT as nat),
{
    reveal_strlit("http://");
    reveal_strlit(":");
    reveal_strlit("127.0.0.1");
    reveal_strlit("0.0.0.0");
    reveal_strlit("http://127.0.0.1:2379");
    reveal_strlit("http://0.0.0.0:2379");
    assert(decimal(2379) =~= seq!['2', '3', '7', '9']) by {
        assert(decimal(2) =~= seq!['2']);
        assert(decimal(23) =~= seq!['2', '3']);
        assert(decimal(237) =~= seq!['2', '3', '7']);
    }
    assert("http://127.0.0.1:2379"@ =~= http_url("127.0.0.1"@, 2379));
    assert("http://0.0.0.0:2379"@ =~= http_url("0.0.0.0"@, 2379));
}

/// Overriding the registry path of the built-in image changes the path
/// and leaves the built-in tag.
pub proof fn lemma_name_keeps_builtin_tag(name: Seq<char>)
    ensures
        ImageRef::builtin().with_name(name).name == name,
        ImageRef::builtin().with_name(name).tag == DEFAULT_IMAGE_TAG@,
{
}

/// Overriding the tag of the built-in image changes the tag and leaves
/// the built-in registry path.
pub proof fn lemma_tag_keeps_builtin_name(tag: Seq<char>)
    ensures
        ImageRef::builtin().with_tag(tag).tag == tag,
        ImageRef::builtin().with_tag(tag).name == DEFAULT_IMAGE_NAME@,
{
}

/// The built-in coordinates are complete.
pub proof fn lemma_builtin_is_complete()
    ensures
        ImageRef::builtin().is_complete(),
{
    reveal_strlit("gcr.io/etcd-development/etcd");
    reveal_strlit("v3.5.13");
}

/// An override keeps complete coordinates complete exactly when what it
/// puts in is not empty.
pub proof fn lemma_override_is_complete(image: ImageRef, part: Seq<char>)
    requires
        image.is_complete(),
    ensures
        image.with_name(part).is_complete() <==> part.len() > 0,
        image.with_tag(part).is_complete() <==> part.len() > 0,
{
}

} // verus!
