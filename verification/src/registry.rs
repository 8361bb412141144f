use vstd::prelude::*;

use crate::errors::RegistryError;
use crate::store::KeyedEntry;
use crate::store::flag_lookup;
use crate::store::flag_of;
use crate::store::set_flag;
use crate::store::unique_keys;

verus! {

/// The allow-list collaborator: per-identity boolean records for verifiers
/// (default deny) and publishers (default allow), plus an owner and a pause
/// flag of its own.
///
/// Owner-gated calls rely on the host's caller authentication: the caller
/// must prove control of the owner identity before such a call is made, and
/// the host aborts the transaction otherwise. The library therefore never
/// returns [`RegistryError::NotOwner`] itself.
pub struct VerifierRegistry {
    pub owner: Option<Vec<u8>>,
    pub paused: bool,
    pub verifiers: Vec<KeyedEntry<bool>>,
    pub publishers: Vec<KeyedEntry<bool>>,
}

impl VerifierRegistry {
    /// Each allow-list holds at most one record per identity.
    pub open spec fn wf(self) -> bool {
        &&& unique_keys(self.verifiers@)
        &&& unique_keys(self.publishers@)
    }

    /// The registry has been initialized with an owner.
    pub open spec fn is_init(self) -> bool {
        self.owner is Some
    }

    pub open spec fn owner_id(self) -> Seq<u8>
        recommends
            self.is_init(),
    {
        self.owner->0@
    }

    /// Whether this identity is an allow-listed verifier (no record: no).
    pub open spec fn verifier_allowed(self, v: Seq<u8>) -> bool {
        flag_of(self.verifiers@, v, false)
    }

    /// Whether this publisher may receive settlements (no record: yes).
    pub open spec fn publisher_allowed(self, p: Seq<u8>) -> bool {
        flag_of(self.publishers@, p, true)
    }

    /// A freshly deployed registry: no owner yet, nothing recorded.
    pub fn new() -> (r: Self)
        ensures
            r.wf(),
            !r.is_init(),
            !r.paused,
            r.verifiers@.len() == 0,
            r.publishers@.len() == 0,
    {
        VerifierRegistry { owner: None, paused: false, verifiers: Vec::new(), publishers: Vec::new() }
    }

    /// Record the owner and clear the pause flag.
    pub fn init(&mut self, owner: Vec<u8>)
        requires
            old(self).wf(),
        ensures
            final(self).wf(),
            final(self).owner == (Some(owner)),
            !final(self).paused,
            final(self).verifiers == old(self).verifiers,
            final(self).publishers == old(self).publishers,
    {
        self.owner = Some(owner);
        self.paused = false;
    }

    /// Owner-gated: set the registry-wide pause flag.
    pub fn pause(&mut self)
        requires
            old(self).wf(),
            old(self).is_init(),
        ensures
            final(self).wf(),
            final(self).paused,
            final(self).owner == old(self).owner,
            final(self).verifiers == old(self).verifiers,
            final(self).publishers == old(self).publishers,
    {
        self.paused = true;
    }

    /// Owner-gated: clear the registry-wide pause flag.
    pub fn unpause(&mut self)
        requires
            old(self).wf(),
            old(self).is_init(),
        ensures
            final(self).wf(),
            !final(self).paused,
            final(self).owner == old(self).owner,
            final(self).verifiers == old(self).verifiers,
            final(self).publishers == old(self).publishers,
    {
        self.paused = false;
    }

    pub fn is_paused(&self) -> (r: bool)
        requires
            self.is_init(),
        ensures
            r == self.paused,
    {
        self.paused
    }

    /// Owner-gated: allow-list a verifier identity.
    pub fn add_verifier(&mut self, v: &Vec<u8>) -> (r: Result<(), RegistryError>)
        requires
            old(self).wf(),
            old(self).is_init(),
        ensures
            final(self).wf(),
            r is Ok,
            forall|id: Seq<u8>|
                final(self).verifier_allowed(id) == (if id == v@ {
                    true
                } else {
                    old(self).verifier_allowed(id)
                }),
            forall|id: Seq<u8>| final(self).publisher_allowed(id) == old(self).publisher_allowed(id),
            final(self).owner == old(self).owner,
            final(self).paused == old(self).paused,
    {
        set_flag(&mut self.verifiers, v, true);
        Ok(())
    }

    /// Owner-gated: strike a verifier identity from the allow-list.
    pub fn remove_verifier(&mut self, v: &Vec<u8>) -> (r: Result<(), RegistryError>)
        requires
            old(self).wf(),
            old(self).is_init(),
        ensures
            final(self).wf(),
            r is Ok,
            forall|id: Seq<u8>|
                final(self).verifier_allowed(id) == (if id == v@ {
                    false
                } else {
                    old(self).verifier_allowed(id)
                }),
            forall|id: Seq<u8>| final(self).publisher_allowed(id) == old(self).publisher_allowed(id),
            final(self).owner == old(self).owner,
            final(self).paused == old(self).paused,
    {
        set_flag(&mut self.verifiers, v, false);
        Ok(())
    }

    pub fn is_verifier(&self, v: &Vec<u8>) -> (r: bool)
        requires
            self.wf(),
        ensures
            r == self.verifier_allowed(v@),
    {
        flag_lookup(&self.verifiers, v, false)
    }

    /// Owner-gated: allow or deny a publisher identity.
    pub fn set_publisher_status(&mut self, p: &Vec<u8>, allowed: bool) -> (r: Result<
        (),
        RegistryError,
    >)
        requires
            old(self).wf(),
            old(self).is_init(),
        ensures
            final(self).wf(),
            r is Ok,
            forall|id: Seq<u8>|
                final(self).publisher_allowed(id) == (if id == p@ {
                    allowed
                } else {
                    old(self).publisher_allowed(id)
                }),
            forall|id: Seq<u8>| final(self).verifier_allowed(id) == old(self).verifier_allowed(id),
            final(self).owner == old(self).owner,
            final(self).paused == old(self).paused,
    {
        set_flag(&mut self.publishers, p, allowed);
        Ok(())
    }

    pub fn is_publisher_allowed(&self, p: &Vec<u8>) -> (r: bool)
        requires
            self.wf(),
        ensures
            r == self.publisher_allowed(p@),
    {
        flag_lookup(&self.publishers, p, true)
    }

    pub fn owner(&self) -> (r: &Vec<u8>)
        requires
            self.is_init(),
        ensures
            r@ == self.owner_id(),
    {
        match &self.owner {
            Some(o) => o,
            None => vstd::pervasive::unreached(),
        }
    }
}

} // verus!
