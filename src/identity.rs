use vstd::prelude::*;

use crate::error::KernelError;

verus! {

/// The key identifier that a signer publishes: `https://{host}/{owner}#main-key`.
pub open spec fn key_id_of(host: Seq<char>, owner: Seq<char>) -> Seq<char> {
    "https://"@ + host + "/"@ + owner + "#main-key"@
}

/// The text from which the relay's own actor id is parsed: `https://{host}/relay.actor`.
pub open spec fn relay_actor_text(host: Seq<char>) -> Seq<char> {
    "https://"@ + host + "/relay.actor"@
}

/// The id given to an Accept sent by `actor`.
pub open spec fn accept_id_of(actor: Seq<char>) -> Seq<char> {
    actor + "/activity/accept"@
}

/// The id given to a Follow sent by `actor`.
pub open spec fn follow_id_of(actor: Seq<char>) -> Seq<char> {
    actor + "/follow"@
}

/// What `url::Url::parse` gives for a text: `None` when it is not an
/// absolute URL, else its serialization and its authority.
pub uninterp spec fn url_parse(s: Seq<char>) -> Option<(Seq<char>, Seq<char>)>;

/// The serialization of the URL parsed from `s`.
pub open spec fn url_text(s: Seq<char>) -> Seq<char> {
    url_parse(s).unwrap().0
}

/// The authority of the URL parsed from `s`.
pub open spec fn url_authority(s: Seq<char>) -> Seq<char> {
    url_parse(s).unwrap().1
}

/// Relies on `url::Url::parse`, and on `Url::as_str` and `Url::authority`
/// of the parsed value.
#[verifier::external_body]
fn parse_url(s: &str) -> (r: Option<(String, String)>)
    ensures
        r is Some <==> url_parse(s@) is Some,
        r matches Some((u, a)) ==> url_parse(s@) == Some((u@, a@)),
{
    match url::Url::parse(s) {
        Ok(u) => Some((u.as_str().to_string(), u.authority().to_string())),
        Err(_) => None,
    }
}

/// Builds the key identifier for `owner` on `host`.
pub fn key_id(host: &str, owner: &str) -> (r: String)
    ensures
        r@ == key_id_of(host@, owner@),
{
    let mut s = String::from_str("https://");
    s.append(host);
    s.append("/");
    s.append(owner);
    s.append("#main-key");
    s
}

/// An activity's identifier.
#[derive(Debug, Clone, PartialEq, Eq, Hash)]
pub struct ActivityId(String);

impl View for ActivityId {
    type V = Seq<char>;

    closed spec fn view(&self) -> Seq<char> {
        self.0@
    }
}

impl ActivityId {
    pub fn new(id: String) -> (r: ActivityId)
        ensures
            r@ == id@,
    {
        ActivityId(id)
    }

    pub fn as_str(&self) -> (r: &str)
        ensures
            r@ == self@,
    {
        self.0.as_str()
    }

    pub fn into_string(self) -> (r: String)
        ensures
            r@ == self@,
    {
        self.0
    }
}

/// An actor's identifier: always the serialization of an absolute URL.
#[derive(Debug, Clone)]
pub struct ActorId {
    url: String,
    authority: String,
}

impl View for ActorId {
    type V = Seq<char>;

    closed spec fn view(&self) -> Seq<char> {
        self.url@
    }
}

impl ActorId {
    /// The authority part of the URL.
    pub closed spec fn spec_authority(&self) -> Seq<char> {
        self.authority@
    }

    /// Parses an absolute URL; any other text is refused.
    pub fn new(id: &str) -> (r: Result<ActorId, KernelError>)
        ensures
            r is Ok <==> url_parse(id@) is Some,
            r matches Ok(a) ==> a@ == url_text(id@)
                && a.spec_authority() == url_authority(id@),
            r matches Err(e) ==> e == KernelError::Parse,
    {
        match parse_url(id) {
            Some((url, authority)) => Ok(ActorId { url, authority }),
            None => Err(KernelError::Parse),
        }
    }

    pub fn authority(&self) -> (r: &str)
        ensures
            r@ == self.spec_authority(),
    {
        self.authority.as_str()
    }

    pub fn as_str(&self) -> (r: &str)
        ensures
            r@ == self@,
    {
        self.url.as_str()
    }

    pub fn into_string(self) -> (r: String)
        ensures
            r@ == self@,
    {
        self.url
    }
}

impl PartialEq for ActorId {
    fn eq(&self, other: &ActorId) -> (r: bool) {
        self.url == other.url
    }
}

impl Eq for ActorId {}

impl vstd::std_specs::cmp::PartialEqSpecImpl for ActorId {
    open spec fn obeys_eq_spec() -> bool {
        true
    }

    open spec fn eq_spec(&self, other: &ActorId) -> bool {
        self@ == other@
    }
}

/// The relay's own actor id, `https://{host}/relay.actor`, parsed as a URL.
pub fn relay_actor(host: &str) -> (r: Result<ActorId, KernelError>)
    ensures
        r is Ok <==> url_parse(relay_actor_text(host@)) is Some,
        r matches Ok(a) ==> a@ == url_text(relay_actor_text(host@)),
        r matches Err(e) ==> e == KernelError::Parse,
{
    let mut s = String::from_str("https://");
    s.append(host);
    s.append("/relay.actor");
    ActorId::new(s.as_str())
}

/// The addresses that the relay's own profile and discovery documents give.
#[derive(Debug, Clone)]
pub struct RelayProfile {
    /// The actor id, `https://{host}/relay.actor`.
    pub id: String,
    pub inbox: String,
    pub outbox: String,
    pub followers: String,
    pub following: String,
    /// The id its public key is published under.
    pub key_id: String,
    /// The account name that discovery answers for, `acct:relay.actor@{host}`.
    pub subject: String,
}

/// The relay's addresses on `host`.
pub fn relay_profile(host: &str) -> (r: RelayProfile)
    ensures
        r.id@ == relay_actor_text(host@),
        r.inbox@ == relay_actor_text(host@) + "/inbox"@,
        r.outbox@ == relay_actor_text(host@) + "/outbox"@,
        r.followers@ == relay_actor_text(host@) + "/followers"@,
        r.following@ == relay_actor_text(host@) + "/following"@,
        r.key_id@ == key_id_of(host@, "relay.actor"@),
        r.subject@ == "acct:relay.actor@"@ + host@,
{
    let mut id = String::from_str("https://");
    id.append(host);
    id.append("/relay.actor");
    let inbox = id.clone().concat("/inbox");
    let outbox = id.clone().concat("/outbox");
    let followers = id.clone().concat("/followers");
    let following = id.clone().concat("/following");
    let key_id = key_id(host, "relay.actor");
    let subject = String::from_str("acct:relay.actor@").concat(host);
    proof {
        assert(relay_actor_text(host@) =~= "https://"@ + host@ + "/relay.actor"@);
    }
    RelayProfile { id, inbox, outbox, followers, following, key_id, subject }
}

/// The id of the Accept that `actor` sends.
pub fn accept_id(actor: &ActorId) -> (r: ActivityId)
    ensures
        r@ == accept_id_of(actor@),
{
    let s = String::from_str(actor.as_str());
    ActivityId::new(s.concat("/activity/accept"))
}

/// The id of the Follow that `actor` sends.
pub fn follow_id(actor: &ActorId) -> (r: ActivityId)
    ensures
        r@ == follow_id_of(actor@),
{
    let s = String::from_str(actor.as_str());
    ActivityId::new(s.concat("/follow"))
}

} // verus!
