//! The configuration of the host's applications: the applications file, the
//! identifiers that application bundles give, and the registry of hosted
//! applications that the core application keeps.

use crate::application::ApplicationDescriptor;
use crate::error::{ConfigCause, Error};
use crate::text::{
    chars_of, contains, find, push_str, replace, replaced, seqs_of, split, split_chars, string_of,
    text_of, texts,
};
use crate::websocket::ZomeCall;
use url::Url;
use vstd::prelude::*;

verus! {

/// The path of the applications file where none is configured.
pub open spec fn default_yaml_path() -> Seq<char> {
    "/var/lib/configure-holochain/config.yaml"@
}

/// The path of the applications file: the configured one, or the default
/// where none is configured.
pub fn configure_holochain_yaml(configured: Option<String>) -> (out: String)
    ensures
        out@ == match configured {
            Some(path) => path@,
            None => default_yaml_path(),
        },
{
    match configured {
        Some(path) => path,
        None => "/var/lib/configure-holochain/config.yaml".to_owned(),
    }
}

/// One DNA of a hosted application.
#[derive(Debug, Clone)]
pub struct DnaResource {
    /// The hash of the DNA.
    pub hash: String,
    pub src_url: String,
    pub nick: String,
}

/// The prices that a publisher has set for hosting, each an amount of fuel
/// in decimal notation.
#[derive(Debug, Clone)]
pub struct HostingPrices {
    pub cpu: String,
    pub storage: String,
    pub bandwidth: String,
}

/// How users log in to a hosted application.
#[derive(Debug, Clone)]
pub struct LoginConfig {
    pub require_joining_code: bool,
    pub display_publisher_name: bool,
    pub help_url: Option<String>,
}

/// One entry of the registry of hosted applications.
#[derive(Debug, Clone)]
pub struct PresentedHappBundle {
    /// The identifier of the hosted application.
    pub id: String,
    pub provider_pubkey: String,
    pub is_draft: bool,
    pub is_clone: bool,
    pub bundle_url: String,
    pub ui_src_url: String,
    pub dnas: Vec<DnaResource>,
    pub hosted_url: String,
    pub name: String,
    pub logo_url: String,
    pub description: String,
    pub categories: Vec<String>,
    pub jurisdictions: Vec<String>,
    pub hosting_prices: HostingPrices,
    pub login_config: LoginConfig,
}

/// An application of the applications file: where its bundle and its user
/// interface are to be had, each as a URL or as a path.
#[derive(Debug, Clone, PartialEq, Eq)]
pub struct Happ {
    pub bundle_url: Option<String>,
    pub bundle_path: Option<String>,
    pub ui_url: Option<String>,
    pub ui_path: Option<String>,
}

/// The path segments of the URL that the text spells, each percent-encoded
/// as the URL holds it; `None` where the text is no absolute URL or the URL
/// cannot be a base. The name stands for two calls in a row: `Url::parse`
/// on the text, then `Url::path_segments` on the URL that it gave.
pub uninterp spec fn url_path_segments(url: Seq<char>) -> Option<Seq<Seq<char>>>;

/// The texts of the segments, where there are any.
pub open spec fn segment_texts(segments: Option<Vec<String>>) -> Option<Seq<Seq<char>>> {
    match segments {
        Some(segments) => Some(texts(segments@)),
        None => None,
    }
}

/// `url::Url::parse` and `Url::path_segments`: the path segments of the URL
/// that `url` spells, in order. There are none where the text does not
/// parse or the URL cannot be a base; a URL that has path segments has at
/// least one, which may be empty.
#[verifier::external_body]
fn path_segments_of(url: &str) -> (out: Option<Vec<String>>)
    ensures
        segment_texts(out) == url_path_segments(url@),
        out is Some ==> out->Some_0.len() > 0,
{
    match Url::parse(url) {
        Ok(parsed) => match parsed.path_segments() {
            Some(segments) => Some(segments.map(str::to_owned).collect()),
            None => None,
        },
        Err(_) => None,
    }
}

/// The last path segment of the URL that the text spells.
pub open spec fn url_last_segment(url: Seq<char>) -> Option<Seq<char>> {
    match url_path_segments(url) {
        Some(segments) => if segments.len() > 0 {
            Some(segments.last())
        } else {
            None
        },
        None => None,
    }
}

/// The last path segment of the URL that `url` spells, if it has one.
pub fn last_url_segment(url: &str) -> (out: Option<String>)
    ensures
        text_of(out) == url_last_segment(url@),
{
    match path_segments_of(url) {
        Some(mut segments) => {
            let ghost all = texts(segments@);
            let last = segments.pop();
            assert(last is Some ==> last->Some_0@ == all.last());
            last
        },
        None => None,
    }
}

/// The last of the components that names something: empty components and
/// `.` are passed over, and `..` names nothing.
pub open spec fn last_named(components: Seq<Seq<char>>) -> Option<Seq<char>>
    decreases components.len(),
{
    if components.len() == 0 {
        None
    } else {
        let last = components.last();
        if last.len() == 0 || last == seq!['.'] {
            last_named(components.drop_last())
        } else if last == seq!['.', '.'] {
            None
        } else {
            Some(last)
        }
    }
}

/// The file name of a path whose components are separated by `/`: its
/// final component, where that is neither the root, nor `.`, nor `..`.
pub open spec fn file_name_of(path: Seq<char>) -> Option<Seq<char>> {
    last_named(split(path, '/'))
}

/// The file name of `path`, if it has one.
pub fn file_name(path: &str) -> (out: Option<String>)
    ensures
        text_of(out) == file_name_of(path@),
{
    let text = chars_of(path);
    let parts = split_chars(&text, '/');
    let mut n: usize = parts.len();
    assert(seqs_of(parts@).take(n as int) =~= seqs_of(parts@));
    while n > 0
        invariant
            n <= parts.len(),
            seqs_of(parts@) == split(path@, '/'),
            last_named(seqs_of(parts@).take(n as int)) == file_name_of(path@),
        decreases n,
    {
        let part = &parts[n - 1];
        let ghost seen = seqs_of(parts@).take(n as int);
        assert(seen.last() == part@);
        assert(seen.drop_last() =~= seqs_of(parts@).take(n - 1));
        if part.len() == 0 {
            n -= 1;
        } else if part.len() == 1 && part[0] == '.' {
            assert(part@ =~= seq!['.']);
            n -= 1;
        } else if part.len() == 2 && part[0] == '.' && part[1] == '.' {
            assert(part@ =~= seq!['.', '.']);
            return None;
        } else {
            proof {
                if part@ == seq!['.'] {
                    assert(part@.len() == 1 && part@[0] == '.');
                }
                if part@ == seq!['.', '.'] {
                    assert(part@.len() == 2 && part@[0] == '.' && part@[1] == '.');
                }
            }
            return Some(string_of(part));
        }
    }
    assert(seqs_of(parts@).take(0) =~= Seq::<Seq<char>>::empty());
    None
}

/// The name that stands for a bundle of which neither URL nor path is known.
pub open spec fn unknown_bundle_name() -> Seq<char> {
    "unreabable"@
}

/// The identifier that a bundle's file name gives: the name without each
/// `.happ`, then with `:` for each `.`, and, where an override is set, with
/// `::` and the override behind it.
pub open spec fn id_text(name: Seq<char>, uid: Option<Seq<char>>) -> Seq<char> {
    let base = replaced(replaced(name, ".happ"@, ""@), "."@, ":"@);
    match uid {
        Some(uid) => base + "::"@ + uid,
        None => base,
    }
}

/// The identifier that the bundle file name `name` gives, with the override
/// `uid` where one is set.
pub fn happ_id(name: &str, uid: &Option<String>) -> (out: String)
    ensures
        out@ == id_text(name@, text_of(*uid)),
{
    let bare = replace(name, ".happ", "");
    let base = replace(bare.as_str(), ".", ":");
    match uid {
        Some(uid) => {
            let mut out = chars_of(base.as_str());
            push_str("::", &mut out);
            push_str(uid.as_str(), &mut out);
            string_of(&out)
        },
        None => base,
    }
}

impl Happ {
    /// The file name of the application's bundle: that of its path where it
    /// has a path, else the last path segment of its URL where it has a
    /// URL, else the name that stands for an unknown bundle.
    pub open spec fn name(&self) -> Option<Seq<char>> {
        match self.bundle_path {
            Some(path) => file_name_of(path@),
            None => match self.bundle_url {
                Some(url) => url_last_segment(url@),
                None => Some(unknown_bundle_name()),
            },
        }
    }

    /// The identifier of the application: the one that the file name of its
    /// bundle gives, with the override `uid` where one is set.
    pub open spec fn id_of(&self, uid: Option<Seq<char>>) -> Option<Seq<char>> {
        match self.name() {
            Some(name) => Some(id_text(name, uid)),
            None => None,
        }
    }

    /// The file name of the application's bundle. `None` where its path has
    /// no file name or its URL has no path segments.
    pub fn bundle_name(&self) -> (out: Option<String>)
        ensures
            text_of(out) == self.name(),
    {
        match &self.bundle_path {
            Some(path) => file_name(path.as_str()),
            None => match &self.bundle_url {
                Some(url) => last_url_segment(url.as_str()),
                None => Some("unreabable".to_owned()),
            },
        }
    }

    /// The identifier of the application: the one that its bundle's file
    /// name gives, with the override `uid` where one is set. `None` where
    /// the bundle has no file name.
    pub fn id(&self, uid: &Option<String>) -> (out: Option<String>)
        ensures
            text_of(out) == self.id_of(text_of(*uid)),
    {
        match self.bundle_name() {
            Some(name) => Some(happ_id(name.as_str(), uid)),
            None => None,
        }
    }
}

/// The applications file.
#[derive(Debug)]
pub struct HappsFile {
    pub self_hosted_happs: Vec<Happ>,
    pub core_happs: Vec<Happ>,
}

/// The text that marks the identifier of the core application.
pub open spec fn core_app_marker() -> Seq<char> {
    "core-app"@
}

/// The identifier is there and holds the marker of the core application.
pub open spec fn names_core_app(id: Option<String>) -> bool {
    marks_core_app(text_of(id))
}

/// The text is there and holds the marker of the core application.
pub open spec fn marks_core_app(id: Option<Seq<char>>) -> bool {
    id matches Some(id) && contains(id, core_app_marker())
}

/// The position of the first identifier that holds the marker of the core
/// application.
pub fn first_core_app(ids: &Vec<Option<String>>) -> (out: Option<usize>)
    ensures
        match out {
            Some(at) => at < ids.len() && names_core_app(ids@[at as int]) && forall|k: int|
                0 <= k < at ==> !names_core_app(#[trigger] ids@[k]),
            None => forall|k: int| 0 <= k < ids.len() ==> !names_core_app(#[trigger] ids@[k]),
        },
{
    let marker = chars_of("core-app");
    let mut at: usize = 0;
    while at < ids.len()
        invariant
            at <= ids.len(),
            marker@ == core_app_marker(),
            forall|k: int| 0 <= k < at ==> !names_core_app(#[trigger] ids@[k]),
        decreases ids.len() - at,
    {
        let holds = match &ids[at] {
            Some(id) => {
                let text = chars_of(id.as_str());
                find(&text, &marker).is_some()
            },
            None => false,
        };
        if holds {
            return Some(at);
        }
        at += 1;
    }
    None
}

impl HappsFile {
    /// The identifier of each core application, in the order of the file.
    fn core_ids(&self, uid: &Option<String>) -> (out: Vec<Option<String>>)
        ensures
            out.len() == self.core_happs.len(),
            forall|k: int|
                0 <= k < out.len() ==> text_of(#[trigger] out@[k]) == self.core_happs@[k].id_of(
                    text_of(*uid),
                ),
    {
        let mut out: Vec<Option<String>> = Vec::new();
        let mut i: usize = 0;
        while i < self.core_happs.len()
            invariant
                i <= self.core_happs.len(),
                out.len() == i,
                forall|k: int|
                    0 <= k < i ==> text_of(#[trigger] out@[k]) == self.core_happs@[k].id_of(
                        text_of(*uid),
                    ),
            decreases self.core_happs.len() - i,
        {
            out.push(self.core_happs[i].id(uid));
            i += 1;
        }
        out
    }

    /// The application at position `at` among the core applications.
    fn core_app_at(self, at: usize) -> (out: Happ)
        requires
            at < self.core_happs.len(),
        ensures
            out == self.core_happs@[at as int],
    {
        let mut happs = self.core_happs;
        happs.swap_remove(at)
    }

    /// The application at position `at` of the core applications is the
    /// first whose identifier holds the marker of the core application.
    pub open spec fn core_app_is_at(&self, uid: Option<Seq<char>>, at: int) -> bool {
        &&& 0 <= at < self.core_happs.len()
        &&& marks_core_app(self.core_happs@[at].id_of(uid))
        &&& forall|j: int| 0 <= j < at ==> !marks_core_app((#[trigger] self.core_happs@[j]).id_of(uid))
    }

    /// The core application of the file: the first of the core applications
    /// whose identifier holds the marker of the core application.
    pub fn find_core_app(self, uid: &Option<String>) -> (out: Option<Happ>)
        ensures
            match out {
                Some(happ) => exists|at: int|
                    self.core_app_is_at(text_of(*uid), at) && happ == self.core_happs@[at],
                None => forall|k: int|
                    0 <= k < self.core_happs.len() ==> !marks_core_app(
                        (#[trigger] self.core_happs@[k]).id_of(text_of(*uid)),
                    ),
            },
    {
        let ids = self.core_ids(uid);
        let found = first_core_app(&ids);
        proof {
            assert forall|k: int| 0 <= k < self.core_happs.len() implies names_core_app(ids@[k])
                == marks_core_app((#[trigger] self.core_happs@[k]).id_of(text_of(*uid))) by {
                assert(text_of(ids@[k]) == self.core_happs@[k].id_of(text_of(*uid)));
            }
        }
        match found {
            Some(at) => {
                assert(self.core_app_is_at(text_of(*uid), at as int));
                Some(self.core_app_at(at))
            },
            None => None,
        }
    }
}

/// The name of the zome that keeps the registry of hosted applications.
pub open spec fn hha_zome_name() -> Seq<char> {
    "hha"@
}

/// The name of the function that lists the registry.
pub open spec fn get_happs_fn_name() -> Seq<char> {
    "get_happs"@
}

/// The call that lists the registry of hosted applications, addressed to
/// the first cell of the core application under that cell's own agent, and
/// without a capability secret. Where the core application is not
/// installed, or is installed without a cell, a configuration error.
pub fn hha_get_happs_call(core_app: Option<ApplicationDescriptor>, payload: Vec<u8>) -> (out:
    Result<ZomeCall, Error>)
    ensures
        match core_app {
            Some(info) => if info.cells.len() > 0 {
                out matches Ok(call) && call.cell@ == info.cells@[0]@ && call.zome_name@
                    == hha_zome_name() && call.fn_name@ == get_happs_fn_name() && call.payload
                    == payload && call.cap_secret is None && call.provenance@
                    == info.cells@[0].agent@
            } else {
                out == Err::<ZomeCall, Error>(
                    Error::Config { cause: ConfigCause::CoreAppWithoutCells },
                )
            },
            None => out == Err::<ZomeCall, Error>(
                Error::Config { cause: ConfigCause::CoreAppNotInstalled },
            ),
        },
{
    match core_app {
        Some(info) => {
            if info.cells.len() == 0 {
                return Err(Error::Config { cause: ConfigCause::CoreAppWithoutCells });
            }
            let cell = info.cells[0].clone();
            let provenance = info.cells[0].agent.clone();
            Ok(
                ZomeCall {
                    cell,
                    zome_name: "hha".to_owned(),
                    fn_name: "get_happs".to_owned(),
                    payload,
                    cap_secret: None,
                    provenance,
                },
            )
        },
        None => Err(Error::Config { cause: ConfigCause::CoreAppNotInstalled }),
    }
}

/// The identifiers of the bundles, in order.
pub open spec fn bundle_ids(bundles: Seq<PresentedHappBundle>) -> Seq<Seq<char>> {
    Seq::new(bundles.len(), |i: int| bundles[i].id@)
}

/// The identifiers of all hosted applications of the registry, in the
/// registry's order.
pub fn get_all_hha_happs(bundles: Vec<PresentedHappBundle>) -> (out: Vec<String>)
    ensures
        texts(out@) == bundle_ids(bundles@),
{
    let mut out: Vec<String> = Vec::new();
    let mut i: usize = 0;
    while i < bundles.len()
        invariant
            i <= bundles.len(),
            out.len() == i,
            forall|k: int| 0 <= k < i ==> (#[trigger] out@[k])@ == bundles@[k].id@,
        decreases bundles.len() - i,
    {
        out.push(bundles[i].id.clone());
        i += 1;
    }
    assert(texts(out@) =~= bundle_ids(bundles@));
    out
}

} // verus!
