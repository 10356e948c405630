use vstd::prelude::*;

use crate::actor::PublicKey;
use crate::error::{InquiryError, VerificationError, VerificationFault};
use crate::keys::{spki_public_pem_decodes, RsaVerifierKey};
use crate::message::Response;

verus! {

/// Whether an HTTP status is a success (2xx).
pub open spec fn is_success(status: u16) -> bool {
    200 <= status < 300
}

/// An object obtained from a remote host, together with the response it
/// came in, whose provenance has not been decided yet.
pub struct UnverifiedObject<T> {
    value: T,
    response: Response<Vec<u8>>,
}

/// A fetched value and what is known of its provenance. The value is
/// present whatever the verification gave.
#[derive(Debug, Clone)]
pub enum Trusted<T> {
    Confirmed(T),
    Unconfirmed { value: T, reason: VerificationError },
}

impl<T> Trusted<T> {
    pub open spec fn spec_value(self) -> T {
        match self {
            Trusted::Confirmed(v) => v,
            Trusted::Unconfirmed { value, .. } => value,
        }
    }

    /// The value, whether or not its provenance was confirmed.
    pub fn value(self) -> (r: T)
        ensures
            r == self.spec_value(),
    {
        match self {
            Trusted::Confirmed(v) => v,
            Trusted::Unconfirmed { value, .. } => value,
        }
    }

    pub fn is_confirmed(&self) -> (r: bool)
        ensures
            r <==> self is Confirmed,
    {
        match self {
            Trusted::Confirmed(_) => true,
            Trusted::Unconfirmed { .. } => false,
        }
    }
}

/// What a fetch gives, from the response that came (if any) and the
/// value its body decoded to (if any).
pub closed spec fn received<T>(response: Option<Response<Vec<u8>>>, decoded: Option<T>) -> Result<
    UnverifiedObject<T>,
    InquiryError,
> {
    match response {
        None => Err(InquiryError::NotResponded),
        Some(res) => if !is_success(res.status) {
            Err(InquiryError::NotResponded)
        } else {
            match decoded {
                None => Err(InquiryError::Deserialization),
                Some(v) => Ok(UnverifiedObject { value: v, response: res }),
            }
        },
    }
}

/// The trust-wrapped value of `object` once its verification gave `outcome`.
pub closed spec fn settled<T>(object: UnverifiedObject<T>, outcome: Result<(), VerificationError>) -> Trusted<T> {
    match outcome {
        Ok(()) => Trusted::Confirmed(object.value),
        Err(e) => Trusted::Unconfirmed { value: object.value, reason: e },
    }
}

impl<T> UnverifiedObject<T> {
    pub closed spec fn spec_value(self) -> T {
        self.value
    }

    pub closed spec fn spec_response(self) -> Response<Vec<u8>> {
        self.response
    }

    /// Decides a fetch: no response, or one without success, is
    /// `NotResponded`; a body that did not decode is `Deserialization`;
    /// otherwise the value is kept with its response, unverified.
    pub fn receive(response: Option<Response<Vec<u8>>>, decoded: Option<T>) -> (r: Result<
        UnverifiedObject<T>,
        InquiryError,
    >)
        ensures
            r == received(response, decoded),
            response is None ==> r == Err::<UnverifiedObject<T>, InquiryError>(InquiryError::NotResponded),
            response matches Some(res) && !is_success(res.status) ==> r == Err::<
                UnverifiedObject<T>,
                InquiryError,
            >(InquiryError::NotResponded),
            response matches Some(res) && is_success(res.status) && decoded is None ==> r == Err::<
                UnverifiedObject<T>,
                InquiryError,
            >(InquiryError::Deserialization),
            response is Some && is_success(response.unwrap().status) && decoded is Some ==> r is Ok
                && r.unwrap().spec_value() == decoded.unwrap() && r.unwrap().spec_response()
                == response.unwrap(),
    {
        match response {
            None => Err(InquiryError::NotResponded),
            Some(res) => {
                if res.status < 200 || res.status >= 300 {
                    Err(InquiryError::NotResponded)
                } else {
                    match decoded {
                        None => Err(InquiryError::Deserialization),
                        Some(v) => Ok(UnverifiedObject { value: v, response: res }),
                    }
                }
            },
        }
    }

    /// The response the value came in, for verification.
    pub fn response(&self) -> (r: &Response<Vec<u8>>)
        ensures
            *r == self.spec_response(),
    {
        &self.response
    }

    /// The value, with its provenance left undecided.
    pub fn ignore(self) -> (r: T)
        ensures
            r == self.spec_value(),
    {
        self.value
    }

    /// The value, only if verification succeeded.
    pub fn verify(self, outcome: Result<(), VerificationError>) -> (r: Result<T, VerificationError>)
        ensures
            r is Ok <==> outcome is Ok,
            r matches Ok(v) ==> v == self.spec_value(),
            r matches Err(e) ==> outcome == Err::<(), VerificationError>(e),
    {
        match outcome {
            Ok(()) => Ok(self.value),
            Err(e) => Err(e),
        }
    }

    /// The value wrapped with the verification's outcome: confirmed only
    /// when it succeeded, else unconfirmed with the reason attached.
    pub fn settle(self, outcome: Result<(), VerificationError>) -> (r: Trusted<T>)
        ensures
            r == settled(self, outcome),
            outcome is Ok ==> r == Trusted::Confirmed(self.spec_value()),
            outcome matches Err(e) ==> r == (Trusted::Unconfirmed { value: self.spec_value(), reason: e }),
    {
        match outcome {
            Ok(()) => Trusted::Confirmed(self.value),
            Err(e) => Trusted::Unconfirmed { value: self.value, reason: e },
        }
    }
}

/// A fetch whose response succeeded and whose body decoded yields that
/// value, whatever its verification gives; a failed verification leaves it
/// unconfirmed with the failure as reason, never confirmed.
pub proof fn lemma_trust_but_flag<T>(
    response: Response<Vec<u8>>,
    value: T,
    outcome: Result<(), VerificationError>,
)
    requires
        is_success(response.status),
    ensures
        received(Some(response), Some(value)) is Ok,
        settled(received(Some(response), Some(value)).unwrap(), outcome).spec_value() == value,
        settled(received(Some(response), Some(value)).unwrap(), outcome) is Confirmed <==> outcome is Ok,
        outcome matches Err(e) ==> settled(received(Some(response), Some(value)).unwrap(), outcome)
            == (Trusted::Unconfirmed { value, reason: e }),
{
}

/// A fetch with no response, or an unsuccessful one, failed to get a
/// response; a successful response whose body did not decode failed to
/// deserialize. Neither yields a value.
pub proof fn lemma_inquiry_error_kinds<T>(response: Response<Vec<u8>>, decoded: Option<T>)
    ensures
        received(None, decoded) == Err::<UnverifiedObject<T>, InquiryError>(InquiryError::NotResponded),
        !is_success(response.status) ==> received(Some(response), decoded) == Err::<
            UnverifiedObject<T>,
            InquiryError,
        >(InquiryError::NotResponded),
        is_success(response.status) ==> received(Some(response), None::<T>) == Err::<
            UnverifiedObject<T>,
            InquiryError,
        >(InquiryError::Deserialization),
{
}

/// The most key documents that one verification may fetch in a chain.
pub const MAX_KEY_CHAIN: usize = 4;

/// The key ids being resolved along the current chain of fetches, outermost
/// first. Bounded in length and free of repeats, so that verification,
/// which fetches keys, which are verified in turn, always ends.
pub struct KeyChain {
    ids: Vec<String>,
}

impl View for KeyChain {
    type V = Seq<Seq<char>>;

    closed spec fn view(&self) -> Seq<Seq<char>> {
        self.ids@.map_values(|s: String| s@)
    }
}

impl KeyChain {
    /// The chain's shape: no longer than the bound, no id twice.
    pub open spec fn wf(&self) -> bool {
        &&& self@.len() <= MAX_KEY_CHAIN
        &&& forall|i: int, j: int| 0 <= i < j < self@.len() ==> self@[i] != self@[j]
    }

    pub fn new() -> (r: KeyChain)
        ensures
            r@ == Seq::<Seq<char>>::empty(),
            r.wf(),
    {
        let r = KeyChain { ids: Vec::new() };
        assert(r@ =~= Seq::<Seq<char>>::empty());
        r
    }

    pub fn contains(&self, key_id: &str) -> (r: bool)
        ensures
            r <==> self@.contains(key_id@),
    {
        let mut i: usize = 0;
        while i < self.ids.len()
            invariant
                i <= self.ids@.len(),
                forall|j: int| 0 <= j < i ==> self@[j] != key_id@,
            decreases self.ids@.len() - i,
        {
            if crate::activity::str_eq(self.ids[i].as_str(), key_id) {
                assert(self@[i as int] == key_id@);
                return true;
            }
            i = i + 1;
        }
        false
    }

    /// The chain extended by `key_id`, refused when the id is already on
    /// it or the chain is full.
    pub fn enter(&self, key_id: &str) -> (r: Result<KeyChain, VerificationError>)
        requires
            self.wf(),
        ensures
            r is Ok <==> (self@.len() < MAX_KEY_CHAIN && !self@.contains(key_id@)),
            r matches Ok(c) ==> c@ == self@.push(key_id@) && c.wf(),
            r matches Err(e) ==> e.reason == (if self@.contains(key_id@) {
                VerificationFault::KeyCycle
            } else {
                VerificationFault::ChainTooDeep
            }),
    {
        if self.contains(key_id) {
            return Err(VerificationError::new(VerificationFault::KeyCycle));
        }
        if self.ids.len() >= MAX_KEY_CHAIN {
            return Err(VerificationError::new(VerificationFault::ChainTooDeep));
        }
        let mut ids = self.ids.clone();
        ids.push(String::from_str(key_id));
        let c = KeyChain { ids };
        assert(c@ =~= self@.push(key_id@));
        Ok(c)
    }

    pub fn depth(&self) -> (r: usize)
        ensures
            r == self@.len(),
    {
        self.ids.len()
    }
}

/// Starts verifying a message that declares `key_id` (none when it carries
/// no signature): the key's document may be fetched only within the chain.
pub fn begin_verification(chain: &KeyChain, key_id: Option<&str>) -> (r: Result<KeyChain, VerificationError>)
    requires
        chain.wf(),
    ensures
        key_id is None ==> r == Err::<KeyChain, VerificationError>(VerificationError { reason: VerificationFault::NoSignature }),
        key_id matches Some(k) ==> (r is Ok <==> (chain@.len() < MAX_KEY_CHAIN && !chain@.contains(k@))),
        r matches Ok(c) ==> key_id matches Some(k) && c@ == chain@.push(k@) && c.wf(),
{
    match key_id {
        None => Err(VerificationError::new(VerificationFault::NoSignature)),
        Some(k) => chain.enter(k),
    }
}

/// Turns the fetched key document into the key that checks the signature
/// declared under `key_id`.
pub fn resolve_key(key_id: String, fetched: Result<PublicKey, InquiryError>) -> (r: Result<
    RsaVerifierKey,
    VerificationError,
>)
    ensures
        fetched is Err ==> r == Err::<RsaVerifierKey, VerificationError>(VerificationError { reason: VerificationFault::KeyUnavailable }),
        fetched matches Ok(k) ==> (r is Ok <==> spki_public_pem_decodes(k.spec_pem())),
        fetched matches Ok(k) && r is Err ==> r == Err::<RsaVerifierKey, VerificationError>(VerificationError { reason: VerificationFault::KeyRejected }),
        r matches Ok(v) ==> fetched matches Ok(k) && v.spec_id() == key_id@ && v.spec_pem() == k.spec_pem(),
{
    match fetched {
        Err(_) => Err(VerificationError::new(VerificationFault::KeyUnavailable)),
        Ok(k) => match RsaVerifierKey::new(key_id, k.public_key_pem()) {
            Ok(v) => Ok(v),
            Err(_) => Err(VerificationError::new(VerificationFault::KeyRejected)),
        },
    }
}

/// The verdict once the digest and then the signature have been checked:
/// the digest is judged first, so a tampered body reports a digest mismatch.
pub fn conclude(digest_ok: bool, signature_ok: bool) -> (r: Result<(), VerificationError>)
    ensures
        r is Ok <==> digest_ok && signature_ok,
        !digest_ok ==> r == Err::<(), VerificationError>(VerificationError { reason: VerificationFault::DigestUnverified }),
        digest_ok && !signature_ok ==> r == Err::<(), VerificationError>(VerificationError { reason: VerificationFault::SignatureUnverified }),
{
    if !digest_ok {
        Err(VerificationError::new(VerificationFault::DigestUnverified))
    } else if !signature_ok {
        Err(VerificationError::new(VerificationFault::SignatureUnverified))
    } else {
        Ok(())
    }
}

} // verus!
