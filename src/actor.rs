use vstd::prelude::*;

use crate::identity::ActorId;

verus! {

#[verifier::external_type_specification]
#[verifier::external_body]
pub struct ExJsonValue(serde_json::Value);

/// Relies on the `Clone` impl of `serde_json::Value`; nothing is claimed of the copy.
pub assume_specification[ <serde_json::Value as Clone>::clone ](v: &serde_json::Value) -> serde_json::Value;

/// A public key as an actor document declares it.
#[derive(Debug, Clone, PartialEq)]
pub struct PublicKey {
    id: String,
    owner: String,
    public_key_pem: String,
}

impl PublicKey {
    pub closed spec fn spec_id(&self) -> Seq<char> {
        self.id@
    }

    pub closed spec fn spec_owner(&self) -> Seq<char> {
        self.owner@
    }

    pub closed spec fn spec_pem(&self) -> Seq<char> {
        self.public_key_pem@
    }

    pub fn new(id: String, owner: String, public_key_pem: String) -> (r: PublicKey)
        ensures
            r.spec_id() == id@,
            r.spec_owner() == owner@,
            r.spec_pem() == public_key_pem@,
    {
        PublicKey { id, owner, public_key_pem }
    }

    pub fn id(&self) -> (r: &str)
        ensures
            r@ == self.spec_id(),
    {
        self.id.as_str()
    }

    pub fn owner(&self) -> (r: &str)
        ensures
            r@ == self.spec_owner(),
    {
        self.owner.as_str()
    }

    pub fn public_key_pem(&self) -> (r: &str)
        ensures
            r@ == self.spec_pem(),
    {
        self.public_key_pem.as_str()
    }
}

/// An image attached to a profile.
#[derive(Debug, Clone, PartialEq)]
pub struct Image {
    pub url: String,
    pub sensitive: Option<bool>,
    pub name: Option<String>,
}

/// Shared endpoints of an actor.
#[derive(Debug, Clone, PartialEq)]
pub struct Endpoints {
    pub shared_inbox: String,
}

/// The kinds of actor.
#[derive(Debug, Clone, Copy, PartialEq, Eq, Hash, Structural)]
pub enum ActorType {
    Application,
    Group,
    Organization,
    Person,
    Service,
}

/// An actor's public profile.
#[derive(Debug, Clone)]
pub struct Actor {
    pub id: ActorId,
    pub actor_type: ActorType,
    pub inbox: String,
    pub outbox: String,
    pub followers: String,
    pub following: String,
    pub featured: Option<String>,
    pub shared_inbox: Option<String>,
    pub endpoints: Option<Endpoints>,
    pub url: String,
    pub preferred_username: String,
    pub name: Option<String>,
    pub summary: Option<String>,
    pub icon: Option<Image>,
    pub image: Option<Image>,
    pub tag: Vec<serde_json::Value>,
    pub manually_approves_followers: Option<bool>,
    pub discoverable: Option<bool>,
    pub public_key: PublicKey,
}

impl Actor {
    pub fn id(&self) -> (r: &ActorId)
        ensures
            *r == self.id,
    {
        &self.id
    }

    pub fn actor_type(&self) -> (r: &ActorType)
        ensures
            *r == self.actor_type,
    {
        &self.actor_type
    }

    pub fn inbox_url(&self) -> (r: &str)
        ensures
            r@ == self.inbox@,
    {
        self.inbox.as_str()
    }

    pub fn key(&self) -> (r: &PublicKey)
        ensures
            *r == self.public_key,
    {
        &self.public_key
    }
}

/// Two profiles are the same actor when their ids are.
impl PartialEq for Actor {
    fn eq(&self, other: &Actor) -> (r: bool) {
        self.id == other.id
    }
}

impl Eq for Actor {}

impl vstd::std_specs::cmp::PartialEqSpecImpl for Actor {
    open spec fn obeys_eq_spec() -> bool {
        true
    }

    open spec fn eq_spec(&self, other: &Actor) -> bool {
        self.id@ == other.id@
    }
}

} // verus!
