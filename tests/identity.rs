use stargate::activity::{Accept, Activity, ActivityJson, ActivityType, Follow};
use stargate::actor::PublicKey;
use stargate::error::KernelError;
use stargate::error::{Delegate, InquiryError, TransportError};
use stargate::identity::{accept_id, follow_id, key_id, relay_actor, relay_profile, ActivityId, ActorId};

fn json(text: &str) -> serde_json::Value {
    serde_json::from_str(text).unwrap()
}

#[test]
fn key_id_follows_convention() {
    assert_eq!(key_id("example.org", "relay.actor"), "https://example.org/relay.actor#main-key");
}

#[test]
fn activity_id_keeps_text() {
    let id = ActivityId::new("https://a/act/1".to_string());
    assert_eq!(id.as_str(), "https://a/act/1");
    assert_eq!(id.into_string(), "https://a/act/1".to_string());
}

#[test]
fn actor_id_parses_absolute_url() {
    let id = ActorId::new("https://a.example:8443/actor").unwrap();
    assert_eq!(id.as_str(), "https://a.example:8443/actor");
    assert_eq!(id.authority(), "a.example:8443");
}

#[test]
fn actor_id_normalizes_like_url() {
    let id = ActorId::new("HTTPS://Example.COM").unwrap();
    assert_eq!(id.as_str(), "https://example.com/");
}

#[test]
fn actor_id_refuses_relative_text() {
    assert!(matches!(ActorId::new("/actor/alice"), Err(KernelError::Parse)));
    assert!(matches!(ActorId::new("not a url"), Err(KernelError::Parse)));
}

#[test]
fn relay_actor_is_derived_from_host() {
    let me = relay_actor("relay.example").unwrap();
    assert_eq!(me.as_str(), "https://relay.example/relay.actor");
    assert_eq!(me.authority(), "relay.example");
}

#[test]
fn relay_actor_with_malformed_host_is_refused() {
    assert!(matches!(relay_actor("bad host"), Err(KernelError::Parse)));
}

#[test]
fn activity_ids_are_derived_from_actor() {
    let actor = ActorId::new("https://example.com/actor/alice").unwrap();
    assert_eq!(accept_id(&actor).as_str(), "https://example.com/actor/alice/activity/accept");
    assert_eq!(follow_id(&actor).as_str(), "https://example.com/actor/alice/follow");
}

#[test]
fn follow_new_sets_id_and_fields() {
    let actor = ActorId::new("https://example.com/actor/alice").unwrap();
    let object = json("\"https://example.com/activities/follow1\"");
    let follow = Follow::new(actor, object.clone());
    assert_eq!(follow.id().as_str(), "https://example.com/actor/alice/follow");
    assert_eq!(follow.actor().as_str(), "https://example.com/actor/alice");
    assert_eq!(follow.object(), &object);
}

#[test]
fn accept_new_sets_id() {
    let actor = ActorId::new("https://relay/relay.actor").unwrap();
    let accept = Accept::new(actor, json("{\"a\": 1}"));
    assert_eq!(accept.id().as_str(), "https://relay/relay.actor/activity/accept");
    assert_eq!(accept.object(), &json("{\"a\": 1}"));
}

#[test]
fn accept_embeds_original_follow_verbatim() {
    let text = r#"{"id":"https://a/act/1","type":"Follow","actor":"https://a/actor","object":{"id":"https://relay/relay.actor","extra":[1,2,{"unknown":true}]},"zzz":null}"#;
    let original = json(text);
    let follow = Follow::with_id(
        ActivityId::new("https://a/act/1".to_string()),
        ActorId::new("https://a/actor").unwrap(),
        json("\"https://relay/relay.actor\""),
    );
    let activity = ActivityJson::from_tagged(original.clone(), Some("Follow"), follow).unwrap();
    let accept = activity.accept(relay_actor("relay").unwrap());
    assert_eq!(accept.object(), &original);
    assert_eq!(serde_json::to_string(accept.object()).unwrap(), serde_json::to_string(&original).unwrap());
    assert_eq!(accept.actor().as_str(), "https://relay/relay.actor");
}

#[test]
fn activity_json_refuses_other_type() {
    let actor = ActorId::new("https://a/actor").unwrap();
    let follow = Follow::new(actor.clone(), json("null"));
    let r = ActivityJson::from_tagged(json("{}"), Some("Accept"), follow);
    assert!(matches!(r, Err(KernelError::Deserialize)));
    let follow = Follow::new(actor, json("null"));
    assert!(matches!(ActivityJson::from_tagged(json("{}"), None, follow), Err(KernelError::Deserialize)));
}

#[test]
fn activity_types_name_themselves() {
    assert_eq!(Follow::object_type(), "Follow");
    assert_eq!(Accept::object_type(), "Accept");
    assert_eq!(Accept::ld_context(), vec!["https://www.w3.org/ns/activitystreams"]);
}

#[test]
fn public_key_getters() {
    let key = PublicKey::new("key-123".to_string(), "user-456".to_string(), String::new());
    assert_eq!(key.id(), "key-123");
    assert_eq!(key.owner(), "user-456");
    assert_eq!(key.public_key_pem(), "");
}

#[test]
fn relay_profile_addresses() {
    let p = relay_profile("relay.example");
    assert_eq!(p.id, "https://relay.example/relay.actor");
    assert_eq!(p.inbox, "https://relay.example/relay.actor/inbox");
    assert_eq!(p.outbox, "https://relay.example/relay.actor/outbox");
    assert_eq!(p.followers, "https://relay.example/relay.actor/followers");
    assert_eq!(p.following, "https://relay.example/relay.actor/following");
    assert_eq!(p.key_id, "https://relay.example/relay.actor#main-key");
    assert_eq!(p.subject, "acct:relay.actor@relay.example");
}

#[test]
fn actor_ids_compare_by_url() {
    assert!(ActorId::new("https://a/actor").unwrap() == ActorId::new("https://a/actor").unwrap());
    assert!(ActorId::new("https://A/actor").unwrap() == ActorId::new("https://a/actor").unwrap());
    assert!(ActorId::new("https://a/actor").unwrap() != ActorId::new("https://b/actor").unwrap());
}

#[test]
fn delegate_from_lower_errors() {
    assert_eq!(Delegate::from(InquiryError::NotResponded), Delegate::Inquiry(InquiryError::NotResponded));
    assert_eq!(Delegate::from(TransportError::Sign), Delegate::Transport(TransportError::Sign));
}

#[test]
fn activities_from_their_kinds() {
    let actor = ActorId::new("https://a/actor").unwrap();
    let follow = Activity::from(Follow::new(actor.clone(), json("null")));
    assert_eq!(follow.object_type(), "Follow");
    let accept = Activity::from(Accept::new(actor, json("null")));
    assert_eq!(accept.object_type(), "Accept");
    assert_eq!(accept.ld_context(), vec!["https://www.w3.org/ns/activitystreams"]);
}
