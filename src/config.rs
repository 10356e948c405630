use vstd::prelude::*;

verus! {

/// Paths of the relay's key pair.
#[derive(Debug, Clone, PartialEq, Eq)]
pub struct KeypairConfig {
    pub private: String,
    pub public: String,
}

/// Access to the relay's configured host name.
pub trait DependOnAppConfig {
    fn host_name(&self) -> &str;
}

} // verus!
