//! The approval gate: an [`Approval`] can only be built by [`authorize`],
//! so holding one is proof that policy allowed the action.

use vstd::prelude::*;

use super::class::PolicyClass;
use super::decision::PolicyDecision;
use crate::evidence::model::{ResourceFingerprint, ResourceId};
use crate::evidence::time::Timestamp;

verus! {

/// Explicit human consent to act on one resource instance: the
/// fingerprint pins it to the identity observed when it was granted.
#[derive(Debug, Clone, PartialEq)]
pub struct UserConsent {
    resource: ResourceId,
    fingerprint: ResourceFingerprint,
    granted_at: Timestamp,
}

impl UserConsent {
    pub closed spec fn spec_resource(self) -> ResourceId {
        self.resource
    }

    pub closed spec fn spec_fingerprint(self) -> ResourceFingerprint {
        self.fingerprint
    }

    pub closed spec fn spec_granted_at(self) -> Timestamp {
        self.granted_at
    }

    pub fn new(resource: ResourceId, fingerprint: ResourceFingerprint, granted_at: Timestamp) -> (c: UserConsent)
        ensures
            c.spec_resource() == resource,
            c.spec_fingerprint() == fingerprint,
            c.spec_granted_at() == granted_at,
    {
        UserConsent { resource, fingerprint, granted_at }
    }
}

/// A marker nothing outside this module can build.
struct Seal;

/// Proof that a [`PolicyDecision`] has been authorized for execution.
pub struct Approval {
    decision: PolicyDecision,
    fingerprint: ResourceFingerprint,
    _seal: Seal,
}

impl Approval {
    pub closed spec fn spec_decision(self) -> PolicyDecision {
        self.decision
    }

    pub closed spec fn spec_fingerprint(self) -> ResourceFingerprint {
        self.fingerprint
    }

    pub fn decision(&self) -> (d: &PolicyDecision)
        ensures
            *d == self.spec_decision(),
    {
        &self.decision
    }

    pub fn fingerprint(&self) -> (f: &ResourceFingerprint)
        ensures
            *f == self.spec_fingerprint(),
    {
        &self.fingerprint
    }
}

/// Whether `consent` covers acting on `decision`'s resource with
/// `fingerprint`: granted for the same resource identity and the same
/// instance fingerprint.
pub open spec fn consent_covers(
    consent: UserConsent,
    decision: PolicyDecision,
    fingerprint: ResourceFingerprint,
) -> bool {
    consent.spec_resource().same_resource(decision.resource) && consent.spec_fingerprint()@
        == fingerprint@
}

/// Whether `authorize` grants an approval: always for `AutoSafe`, never for
/// `Protected`, and for `Ask` exactly when consent covers this resource
/// instance.
pub open spec fn spec_authorizes(
    decision: PolicyDecision,
    fingerprint: ResourceFingerprint,
    consent: Option<UserConsent>,
) -> bool {
    match decision.class {
        PolicyClass::AutoSafe => true,
        PolicyClass::Protected => false,
        PolicyClass::Ask => match consent {
            Some(c) => consent_covers(c, decision, fingerprint),
            None => false,
        },
    }
}

/// The only way to construct an [`Approval`].
pub fn authorize(
    decision: PolicyDecision,
    fingerprint: ResourceFingerprint,
    consent: Option<&UserConsent>,
) -> (r: Option<Approval>)
    ensures
        r is Some == spec_authorizes(
            decision,
            fingerprint,
            match consent {
                Some(c) => Some(*c),
                None => None,
            },
        ),
        r matches Some(a) ==> a.spec_decision() == decision && a.spec_fingerprint() == fingerprint,
{
    match decision.class {
        PolicyClass::Protected => None,
        PolicyClass::AutoSafe => Some(Approval { decision, fingerprint, _seal: Seal }),
        PolicyClass::Ask => {
            let consent = match consent {
                Some(c) => c,
                None => return None,
            };
            if !consent.resource.same_as(&decision.resource) {
                return None;
            }
            if !consent.fingerprint.same_as(&fingerprint) {
                return None;
            }
            Some(Approval { decision, fingerprint, _seal: Seal })
        },
    }
}


/// No approval is ever granted for a `Protected` decision, with or without
/// consent.
pub proof fn lemma_protected_is_never_authorized(
    decision: PolicyDecision,
    fingerprint: ResourceFingerprint,
    consent: Option<UserConsent>,
)
    requires
        decision.class == PolicyClass::Protected,
    ensures
        !spec_authorizes(decision, fingerprint, consent),
{
}

/// An `Ask` decision is authorized only by consent granted for the same
/// resource and the same instance fingerprint.
pub proof fn lemma_ask_needs_matching_consent(
    decision: PolicyDecision,
    fingerprint: ResourceFingerprint,
    consent: Option<UserConsent>,
)
    requires
        decision.class == PolicyClass::Ask,
        spec_authorizes(decision, fingerprint, consent),
    ensures
        consent matches Some(c) && consent_covers(c, decision, fingerprint),
{
}

} // verus!
