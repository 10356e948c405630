use vstd::prelude::*;

use crate::error::KernelError;
use crate::identity::{accept_id, accept_id_of, follow_id, follow_id_of, ActivityId, ActorId};

verus! {

/// The JSON-LD context of the activity streams vocabulary.
pub open spec fn activity_streams() -> Seq<char> {
    "https://www.w3.org/ns/activitystreams"@
}

/// What each kind of activity declares about itself.
pub trait ActivityType {
    spec fn spec_object_type() -> Seq<char>;

    spec fn spec_ld_context() -> Seq<Seq<char>>;

    /// The value of the `type` field.
    fn object_type() -> (r: &'static str)
        ensures
            r@ == Self::spec_object_type(),
    ;

    /// The `@context` entries put before the object when it is sent.
    fn ld_context() -> (r: Vec<&'static str>)
        ensures
            r@.len() == Self::spec_ld_context().len(),
            forall|i: int| 0 <= i < r@.len() ==> #[trigger] r@[i]@ == Self::spec_ld_context()[i],
    ;
}

/// A Follow activity.
#[derive(Debug, Clone)]
pub struct Follow {
    id: ActivityId,
    actor: ActorId,
    object: serde_json::Value,
}

impl Follow {
    pub closed spec fn spec_id(&self) -> ActivityId {
        self.id
    }

    pub closed spec fn spec_actor(&self) -> ActorId {
        self.actor
    }

    pub closed spec fn spec_object(&self) -> serde_json::Value {
        self.object
    }

    /// A Follow by `actor`, with id `{actor}/follow`.
    pub fn new(actor: ActorId, object: serde_json::Value) -> (r: Follow)
        ensures
            r.spec_id()@ == follow_id_of(actor@),
            r.spec_actor() == actor,
            r.spec_object() == object,
    {
        Follow { id: follow_id(&actor), actor, object }
    }

    /// A Follow as received, with the id it carries.
    pub fn with_id(id: ActivityId, actor: ActorId, object: serde_json::Value) -> (r: Follow)
        ensures
            r.spec_id() == id,
            r.spec_actor() == actor,
            r.spec_object() == object,
    {
        Follow { id, actor, object }
    }

    pub fn id(&self) -> (r: &ActivityId)
        ensures
            *r == self.spec_id(),
    {
        &self.id
    }

    pub fn actor(&self) -> (r: &ActorId)
        ensures
            *r == self.spec_actor(),
    {
        &self.actor
    }

    pub fn object(&self) -> (r: &serde_json::Value)
        ensures
            *r == self.spec_object(),
    {
        &self.object
    }
}

impl ActivityType for Follow {
    open spec fn spec_object_type() -> Seq<char> {
        "Follow"@
    }

    open spec fn spec_ld_context() -> Seq<Seq<char>> {
        seq![activity_streams()]
    }

    fn object_type() -> (r: &'static str) {
        "Follow"
    }

    fn ld_context() -> (r: Vec<&'static str>) {
        vec!["https://www.w3.org/ns/activitystreams"]
    }
}

/// An Accept activity.
#[derive(Debug, Clone)]
pub struct Accept {
    id: ActivityId,
    actor: ActorId,
    object: serde_json::Value,
}

impl Accept {
    pub closed spec fn spec_id(&self) -> ActivityId {
        self.id
    }

    pub closed spec fn spec_actor(&self) -> ActorId {
        self.actor
    }

    /// The object being accepted, typically a Follow.
    pub closed spec fn spec_object(&self) -> serde_json::Value {
        self.object
    }

    /// An Accept by `actor` of `object`, with id `{actor}/activity/accept`.
    pub fn new(actor: ActorId, object: serde_json::Value) -> (r: Accept)
        ensures
            r.spec_id()@ == accept_id_of(actor@),
            r.spec_actor() == actor,
            r.spec_object() == object,
    {
        Accept { id: accept_id(&actor), actor, object }
    }

    /// An Accept as received, with the id it carries.
    pub fn with_id(id: ActivityId, actor: ActorId, object: serde_json::Value) -> (r: Accept)
        ensures
            r.spec_id() == id,
            r.spec_actor() == actor,
            r.spec_object() == object,
    {
        Accept { id, actor, object }
    }

    pub fn id(&self) -> (r: &ActivityId)
        ensures
            *r == self.spec_id(),
    {
        &self.id
    }

    pub fn actor(&self) -> (r: &ActorId)
        ensures
            *r == self.spec_actor(),
    {
        &self.actor
    }

    pub fn object(&self) -> (r: &serde_json::Value)
        ensures
            *r == self.spec_object(),
    {
        &self.object
    }
}

impl ActivityType for Accept {
    open spec fn spec_object_type() -> Seq<char> {
        "Accept"@
    }

    open spec fn spec_ld_context() -> Seq<Seq<char>> {
        seq![activity_streams()]
    }

    fn object_type() -> (r: &'static str) {
        "Accept"
    }

    fn ld_context() -> (r: Vec<&'static str>) {
        vec!["https://www.w3.org/ns/activitystreams"]
    }
}

/// The activities this relay sends and receives.
#[derive(Debug, Clone)]
pub enum Activity {
    Follow(Follow),
    Accept(Accept),
}

impl From<Follow> for Activity {
    fn from(f: Follow) -> (r: Activity) {
        Activity::Follow(f)
    }
}

impl vstd::std_specs::convert::FromSpecImpl<Follow> for Activity {
    open spec fn obeys_from_spec() -> bool {
        true
    }

    open spec fn from_spec(f: Follow) -> Activity {
        Activity::Follow(f)
    }
}

impl From<Accept> for Activity {
    fn from(a: Accept) -> (r: Activity) {
        Activity::Accept(a)
    }
}

impl vstd::std_specs::convert::FromSpecImpl<Accept> for Activity {
    open spec fn obeys_from_spec() -> bool {
        true
    }

    open spec fn from_spec(a: Accept) -> Activity {
        Activity::Accept(a)
    }
}

impl Activity {
    /// The `@context` entries for this activity's kind.
    pub fn ld_context(&self) -> (r: Vec<&'static str>)
        ensures
            r@.len() == 1,
            r@[0]@ == activity_streams(),
    {
        match self {
            Activity::Follow(_) => Follow::ld_context(),
            Activity::Accept(_) => Accept::ld_context(),
        }
    }

    /// The value of the `type` field for this activity.
    pub fn object_type(&self) -> (r: &'static str)
        ensures
            self is Follow ==> r@ == Follow::spec_object_type(),
            self is Accept ==> r@ == Accept::spec_object_type(),
    {
        match self {
            Activity::Follow(_) => Follow::object_type(),
            Activity::Accept(_) => Accept::object_type(),
        }
    }
}

/// A typed activity beside the exact JSON it was read from. The JSON is
/// what any echo of the activity sends; the typed value drives decisions.
#[derive(Debug, Clone)]
pub struct ActivityJson<T> {
    pub original: serde_json::Value,
    pub activity: T,
}

impl<T: ActivityType> ActivityJson<T> {
    /// Pairs `activity` with the JSON it was read from, provided the JSON's
    /// `type` field names the kind `T`.
    pub fn from_tagged(original: serde_json::Value, tag: Option<&str>, activity: T) -> (r: Result<
        ActivityJson<T>,
        KernelError,
    >)
        ensures
            r is Ok <==> (tag matches Some(t) && t@ == T::spec_object_type()),
            r matches Ok(j) ==> j.original == original && j.activity == activity,
            r matches Err(e) ==> e == KernelError::Deserialize,
    {
        match tag {
            Some(t) => {
                if str_eq(t, T::object_type()) {
                    Ok(ActivityJson { original, activity })
                } else {
                    Err(KernelError::Deserialize)
                }
            },
            None => Err(KernelError::Deserialize),
        }
    }
}

impl ActivityJson<Follow> {
    /// The Accept of this Follow by `actor`: its object is the Follow's
    /// original JSON, never a re-serialization of the typed value.
    pub fn accept(self, actor: ActorId) -> (r: Accept)
        ensures
            r.spec_object() == self.original,
            r.spec_actor() == actor,
            r.spec_id()@ == accept_id_of(actor@),
    {
        Accept::new(actor, self.original)
    }
}

/// Character-wise equality of two strings.
pub fn str_eq(a: &str, b: &str) -> (r: bool)
    ensures
        r <==> a@ == b@,
{
    let a = String::from_str(a);
    let b = String::from_str(b);
    a == b
}

} // verus!
