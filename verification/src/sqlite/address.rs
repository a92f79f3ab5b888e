//! Addresses: where a message is to be delivered.
use vstd::prelude::*;
use vstd::string::*;

use crate::text::same_text;

verus! {

/// Parsed address: determines which transport and where to deliver.
#[derive(Debug, Clone)]
pub enum Address {
    /// HTTP/HTTPS webhook delivery
    Http(HttpAddress),
    /// Poll SSE delivery
    Poll(PollAddress),
    /// Google Cloud Pub/Sub delivery
    Gcps(GcpsAddress),
    /// Bash script execution
    Bash(BashAddress),
}

#[derive(Debug, Clone)]
pub struct HttpAddress {
    pub url: String,
}

#[derive(Debug, Clone)]
pub struct PollAddress {
    pub cast: PollCast,
    pub group: String,
    pub id: Option<String>,
}

#[derive(Debug, Clone, Copy, PartialEq, Eq, Structural)]
pub enum PollCast {
    Uni,
    Any,
}

#[derive(Debug, Clone)]
pub struct GcpsAddress {
    pub project: String,
    pub topic: String,
}

#[derive(Debug, Clone)]
pub struct BashAddress;

/// What an address says.
pub enum Destination {
    Http { url: Seq<char> },
    Poll { cast: PollCast, group: Seq<char>, id: Option<Seq<char>> },
    Gcps { project: Seq<char>, topic: Seq<char> },
    Bash,
}

impl View for Address {
    type V = Destination;

    open spec fn view(&self) -> Destination {
        match *self {
            Address::Http(h) => Destination::Http { url: h.url@ },
            Address::Poll(p) => p.destination(),
            Address::Gcps(g) => Destination::Gcps { project: g.project@, topic: g.topic@ },
            Address::Bash(_) => Destination::Bash,
        }
    }
}

impl PollAddress {
    /// What this address says.
    pub open spec fn destination(self) -> Destination {
        Destination::Poll {
            cast: self.cast,
            group: self.group@,
            id: match self.id {
                Some(id) => Some(id@),
                None => None,
            },
        }
    }
}

/// The parts of a URL that routing reads.
#[derive(Debug)]
pub struct UrlParts {
    pub scheme: String,
    pub username: String,
    pub host: Option<String>,
    pub path: String,
}

/// What the parts of a URL say.
pub struct UrlText {
    pub scheme: Seq<char>,
    pub username: Seq<char>,
    pub host: Option<Seq<char>>,
    pub path: Seq<char>,
}

impl View for UrlParts {
    type V = UrlText;

    open spec fn view(&self) -> UrlText {
        UrlText {
            scheme: self.scheme@,
            username: self.username@,
            host: match self.host {
                Some(h) => Some(h@),
                None => None,
            },
            path: self.path@,
        }
    }
}

/// The scheme, username, host and path that `url::Url::parse` finds in a text,
/// or `None` where it finds no absolute URL.
pub uninterp spec fn url_of(address: Seq<char>) -> Option<UrlText>;

/// Parse a URL with `url::Url::parse` and read its scheme, username, host and
/// path. That these depend on the text alone is taken from the crate.
#[verifier::external_body]
fn parse_url(address: &str) -> (parts: Option<UrlParts>)
    ensures
        match parts {
            Some(p) => url_of(address@) == Some(p@),
            None => url_of(address@) is None,
        },
{
    match url::Url::parse(address) {
        Ok(u) => Some(UrlParts {
            scheme: u.scheme().to_string(),
            username: u.username().to_string(),
            host: u.host_str().map(str::to_string),
            path: u.path().to_string(),
        }),
        Err(_) => None,
    }
}

/// The path of a URL without its leading slash, where anything is left.
pub open spec fn below_root(path: Seq<char>) -> Option<Seq<char>> {
    if path.len() > 1 {
        Some(path.skip(1))
    } else {
        None
    }
}

/// The destination that an address with the URL `url` stands for, if any:
///
/// - `http://...` / `https://...`: HTTP webhook delivery
/// - `poll://cast@group[/id]`, where the cast is `uni` or `any`
/// - `gcps://project/topic`
/// - `bash://...`
pub open spec fn routed(address: Seq<char>, url: UrlText) -> Option<Destination> {
    if url.scheme == "http"@ || url.scheme == "https"@ {
        Some(Destination::Http { url: address })
    } else if url.scheme == "poll"@ {
        match url.host {
            Some(group) => if url.username == "uni"@ {
                Some(Destination::Poll { cast: PollCast::Uni, group, id: below_root(url.path) })
            } else if url.username == "any"@ {
                Some(Destination::Poll { cast: PollCast::Any, group, id: below_root(url.path) })
            } else {
                None
            },
            None => None,
        }
    } else if url.scheme == "gcps"@ {
        match (url.host, below_root(url.path)) {
            (Some(project), Some(topic)) => Some(Destination::Gcps { project, topic }),
            _ => None,
        }
    } else if url.scheme == "bash"@ {
        Some(Destination::Bash)
    } else {
        None
    }
}

/// The destination that an address stands for, if any.
pub open spec fn destination_of(address: Seq<char>) -> Option<Destination> {
    match url_of(address) {
        Some(url) => routed(address, url),
        None => None,
    }
}

/// Returns true if the address is a valid, routable URL.
pub fn is_valid_address(address: &str) -> (valid: bool)
    ensures
        valid == (destination_of(address@) is Some),
{
    parse_address(address).is_some()
}

/// Parse an address string into a typed Address.
///
/// Supports:
/// - `http://...` / `https://...`: HTTP webhook delivery
/// - `poll://cast@group[/id]`: Poll SSE delivery
/// - `gcps://project/topic`: Google Cloud Pub/Sub delivery
/// - `bash://` (local), `bash://docker/<image>`, `bash://tensorlake/<image>`
pub fn parse_address(address: &str) -> (parsed: Option<Address>)
    ensures
        match parsed {
            Some(a) => destination_of(address@) == Some(a@),
            None => destination_of(address@) is None,
        },
{
    match parse_url(address) {
        Some(parts) => route_url(address, parts),
        None => None,
    }
}

/// The path of a URL without its leading slash, where anything is left. What is
/// not ASCII is percent-encoded in a URL, so that the first character is the first
/// byte.
fn path_below_root(path: &str) -> (rest: Option<String>)
    ensures
        match rest {
            Some(r) => below_root(path@) == Some(r@),
            None => below_root(path@) is None,
        },
{
    let total: usize = path.unicode_len();
    if total > 1 {
        let rest = path.substring_char(1, total);
        assert(rest@ =~= path@.skip(1));
        Some(rest.to_owned())
    } else {
        None
    }
}

/// The typed address that `address` stands for, given the parts of its URL.
pub fn route_url(address: &str, parts: UrlParts) -> (parsed: Option<Address>)
    ensures
        match parsed {
            Some(a) => routed(address@, parts@) == Some(a@),
            None => routed(address@, parts@) is None,
        },
{
    let scheme = parts.scheme.as_str();
    if same_text(scheme, "http") || same_text(scheme, "https") {
        Some(Address::Http(HttpAddress { url: address.to_owned() }))
    } else if same_text(scheme, "poll") {
        let cast = if same_text(parts.username.as_str(), "uni") {
            PollCast::Uni
        } else if same_text(parts.username.as_str(), "any") {
            PollCast::Any
        } else {
            return None;
        };
        let id = path_below_root(parts.path.as_str());
        match parts.host {
            Some(group) => Some(Address::Poll(PollAddress { cast, group, id })),
            None => None,
        }
    } else if same_text(scheme, "gcps") {
        let topic = path_below_root(parts.path.as_str());
        match (parts.host, topic) {
            (Some(project), Some(topic)) => Some(Address::Gcps(GcpsAddress { project, topic })),
            _ => None,
        }
    } else if same_text(scheme, "bash") {
        Some(Address::Bash(BashAddress))
    } else {
        None
    }
}

/// What an address stands for, by the parts of its URL: a web address is delivered to as
/// it is; a `poll` address names a cast and a group, and perhaps a process; a `gcps`
/// address names a project and a topic; and a `bash` address is run here. Nothing else can
/// be delivered to.
pub proof fn lemma_routes(address: &str, parts: UrlParts, parsed: Option<Address>)
    requires
        call_ensures(route_url, (address, parts), parsed),
    ensures
        ({
            let web = parts.scheme@ == "http"@ || parts.scheme@ == "https"@;
            let poll = parts.scheme@ == "poll"@ && parts.host is Some && (parts.username@
                == "uni"@ || parts.username@ == "any"@);
            let gcps = parts.scheme@ == "gcps"@ && parts.host is Some && parts.path@.len() > 1;
            let bash = parts.scheme@ == "bash"@;
            &&& parsed is Some <==> web || poll || gcps || bash
            &&& web ==> (parsed matches Some(Address::Http(h)) && h.url@ == address@)
            &&& poll ==> {
                &&& parsed matches Some(Address::Poll(p))
                &&& p.cast == PollCast::Uni <==> parts.username@ == "uni"@
                &&& p.group@ == parts.host->Some_0@
                &&& p.id is Some <==> parts.path@.len() > 1
                &&& p.id matches Some(id) ==> id@ == parts.path@.skip(1)
            }
            &&& gcps ==> {
                &&& parsed matches Some(Address::Gcps(g))
                &&& g.project@ == parts.host->Some_0@
                &&& g.topic@ == parts.path@.skip(1)
            }
            &&& bash ==> (parsed matches Some(Address::Bash(_)))
        }),
{
    reveal_strlit("http");
    reveal_strlit("https");
    reveal_strlit("poll");
    reveal_strlit("gcps");
    reveal_strlit("bash");
    reveal_strlit("uni");
    reveal_strlit("any");
    assert("http"@[0] == 'h' && "poll"@[0] == 'p' && "gcps"@[0] == 'g' && "bash"@[0] == 'b');
    assert("https"@[0] == 'h');
    assert("uni"@[0] == 'u' && "any"@[0] == 'a');
}

/// An address is parsed by the parts of its URL, and is valid exactly where it can be
/// parsed; one that is no URL cannot.
pub proof fn lemma_parsed_by_its_url(address: &str, parsed: Option<Address>, valid: bool)
    requires
        call_ensures(parse_address, (address,), parsed),
        call_ensures(is_valid_address, (address,), valid),
    ensures
        valid <==> parsed is Some,
        url_of(address@) is None ==> parsed is None,
        url_of(address@) is Some ==> (parsed is Some <==> routed(
            address@,
            url_of(address@)->Some_0,
        ) is Some),
        parsed is Some ==> Some(parsed->Some_0@) == routed(address@, url_of(address@)->Some_0),
{
}

} // verus!
