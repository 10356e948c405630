use vstd::prelude::*;

use crate::activity::{Accept, ActivityJson, Follow};
use crate::actor::Actor;
use crate::error::{ApplicationError, Delegate};
use crate::identity::{accept_id_of, relay_actor, relay_actor_text, url_parse, url_text, ActorId};

verus! {

/// Where the Accept goes, and the Accept itself.
#[derive(Debug, Clone)]
pub struct Delivery {
    pub inbox: String,
    pub accept: Accept,
}

/// One Follow's way to its Accept: the Follow's actor is resolved, the
/// Accept is built from the Follow's original JSON, then delivered to the
/// actor's inbox. Each step runs only after the one before it.
pub struct FollowAcceptHandshake {
    activity: ActivityJson<Follow>,
    host: String,
}

impl FollowAcceptHandshake {
    pub closed spec fn spec_activity(&self) -> ActivityJson<Follow> {
        self.activity
    }

    pub closed spec fn spec_host(&self) -> Seq<char> {
        self.host@
    }

    /// Starts the handshake for a Follow whose signature was already
    /// checked, on behalf of the relay served at `host`.
    pub fn new(activity: ActivityJson<Follow>, host: String) -> (r: FollowAcceptHandshake)
        ensures
            r.spec_activity() == activity,
            r.spec_host() == host@,
    {
        FollowAcceptHandshake { activity, host }
    }

    /// The actor to resolve first: the Follow's sender.
    pub fn actor_to_resolve(&self) -> (r: &ActorId)
        ensures
            *r == self.spec_activity().activity.spec_actor(),
    {
        self.activity.activity.actor()
    }

    /// Takes the resolved actor, whether or not its document's provenance
    /// was confirmed, and builds the Accept for its inbox. A failed
    /// resolution is a `Driver` error; a relay identity that is no URL is a
    /// `Kernel` error.
    pub fn on_actor(self, resolved: Result<Actor, Delegate>) -> (r: Result<Delivery, ApplicationError>)
        ensures
            resolved is Err ==> r == Err::<Delivery, ApplicationError>(ApplicationError::Driver),
            resolved is Ok ==> (r is Ok <==> url_parse(relay_actor_text(self.spec_host())) is Some),
            resolved is Ok && r is Err ==> r == Err::<Delivery, ApplicationError>(ApplicationError::Kernel),
            r matches Ok(d) ==> resolved matches Ok(a) && d.inbox@ == a.inbox@
                && d.accept.spec_object() == self.spec_activity().original
                && d.accept.spec_actor()@ == url_text(relay_actor_text(self.spec_host()))
                && d.accept.spec_id()@ == accept_id_of(d.accept.spec_actor()@),
    {
        match resolved {
            Err(_) => Err(ApplicationError::Driver),
            Ok(actor) => match relay_actor(self.host.as_str()) {
                Err(_) => Err(ApplicationError::Kernel),
                Ok(me) => {
                    let accept = self.activity.accept(me);
                    Ok(Delivery { inbox: actor.inbox, accept })
                },
            },
        }
    }

    /// The handshake's end: a failed delivery is a `Driver` error.
    pub fn on_delivery(result: Result<(), Delegate>) -> (r: Result<(), ApplicationError>)
        ensures
            r is Ok <==> result is Ok,
            r is Err ==> r == Err::<(), ApplicationError>(ApplicationError::Driver),
    {
        match result {
            Ok(()) => Ok(()),
            Err(_) => Err(ApplicationError::Driver),
        }
    }
}

} // verus!
