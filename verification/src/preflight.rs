use vstd::prelude::*;

verus! {

/// The custody policy consulted at preflight.
///
/// A policy answers four questions about the node. An implementation written
/// in verified code can describe its answers with the `spec_*` functions and
/// declare with `obeys_custody_model` that its executable answers follow
/// them. By default an implementation declares nothing, and nothing is known
/// of its answers.
pub trait Sovereignty {
    /// Whether the executable answers below follow the `spec_*` model.
    open spec fn obeys_custody_model() -> bool {
        false
    }

    open spec fn spec_is_provisioned(&self, data_ok: bool) -> bool {
        false
    }

    open spec fn spec_trust_root_ok(&self) -> bool {
        false
    }

    open spec fn spec_seal_intact(&self) -> bool {
        false
    }

    open spec fn spec_keystore_ok(&self, data_ok: bool) -> bool {
        false
    }

    /// Has this node been provisioned with durable custody state?
    fn is_provisioned(&self, data_ok: bool) -> (r: bool)
        ensures
            Self::obeys_custody_model() ==> r == self.spec_is_provisioned(data_ok),
    ;

    /// Is the update trust-root present and usable?
    fn trust_root_ok(&self) -> (r: bool)
        ensures
            Self::obeys_custody_model() ==> r == self.spec_trust_root_ok(),
    ;

    /// Is the custody seal intact?
    fn seal_intact(&self) -> (r: bool)
        ensures
            Self::obeys_custody_model() ==> r == self.spec_seal_intact(),
    ;

    /// Does the keystore satisfy placement/integrity rules?
    fn keystore_ok(&self, data_ok: bool) -> (r: bool)
        ensures
            Self::obeys_custody_model() ==> r == self.spec_keystore_ok(data_ok),
    ;
}

/// Permissive reference policy: enforces no custody model and always reports
/// an unprovisioned first boot.
pub struct ReferencePolicy;

impl Sovereignty for ReferencePolicy {
    open spec fn obeys_custody_model() -> bool {
        true
    }

    open spec fn spec_is_provisioned(&self, data_ok: bool) -> bool {
        false
    }

    open spec fn spec_trust_root_ok(&self) -> bool {
        true
    }

    open spec fn spec_seal_intact(&self) -> bool {
        true
    }

    open spec fn spec_keystore_ok(&self, data_ok: bool) -> bool {
        true
    }

    fn is_provisioned(&self, _data_ok: bool) -> (r: bool) {
        false
    }

    fn trust_root_ok(&self) -> (r: bool) {
        true
    }

    fn seal_intact(&self) -> (r: bool) {
        true
    }

    fn keystore_ok(&self, _data_ok: bool) -> (r: bool) {
        true
    }
}

/// What preflight found, in the order it checks: a broken custody seal, a
/// rejected keystore, a provisioned node without its update trust root, or a
/// go for a provisioned node or for an unprovisioned first boot.
#[derive(Clone, Copy, Debug, PartialEq, Eq, Structural)]
pub enum PreflightOutcome {
    SealBroken,
    KeystoreRejected,
    TrustRootMissing,
    Provisioned,
    FirstBoot,
}

/// The preflight rule over a policy's four answers. The trust root only
/// matters for a provisioned node.
pub open spec fn preflight_rule(
    seal_intact: bool,
    keystore_ok: bool,
    provisioned: bool,
    trust_root_ok: bool,
) -> PreflightOutcome {
    if !seal_intact {
        PreflightOutcome::SealBroken
    } else if !keystore_ok {
        PreflightOutcome::KeystoreRejected
    } else if provisioned {
        if trust_root_ok {
            PreflightOutcome::Provisioned
        } else {
            PreflightOutcome::TrustRootMissing
        }
    } else {
        PreflightOutcome::FirstBoot
    }
}

/// Whether an outcome lets the node boot.
pub open spec fn is_go(o: PreflightOutcome) -> bool {
    o == PreflightOutcome::Provisioned || o == PreflightOutcome::FirstBoot
}

/// The outcome a policy's answers give.
pub open spec fn policy_outcome<P: Sovereignty>(policy: &P, data_ok: bool) -> PreflightOutcome {
    preflight_rule(
        policy.spec_seal_intact(),
        policy.spec_keystore_ok(data_ok),
        policy.spec_is_provisioned(data_ok),
        policy.spec_trust_root_ok(),
    )
}

impl PreflightOutcome {
    /// Whether this outcome lets the node boot.
    pub fn is_go(&self) -> (r: bool)
        ensures
            r == is_go(*self),
    {
        match self {
            PreflightOutcome::Provisioned | PreflightOutcome::FirstBoot => true,
            _ => false,
        }
    }
}

/// Step 5 of the boot rail, with its reason: consult the policy in the order
/// seal, keystore, provisioning, and the trust root only for a provisioned
/// node.
pub fn assess_with<P: Sovereignty>(policy: &P, data_ok: bool) -> (o: PreflightOutcome)
    ensures
        P::obeys_custody_model() ==> o == policy_outcome(policy, data_ok),
{
    if !policy.seal_intact() {
        return PreflightOutcome::SealBroken;
    }
    if !policy.keystore_ok(data_ok) {
        return PreflightOutcome::KeystoreRejected;
    }
    if policy.is_provisioned(data_ok) {
        if !policy.trust_root_ok() {
            return PreflightOutcome::TrustRootMissing;
        }
        PreflightOutcome::Provisioned
    } else {
        PreflightOutcome::FirstBoot
    }
}

/// Step 5 of the boot rail against an arbitrary custody policy: go or no-go.
pub fn preflight_with<P: Sovereignty>(policy: &P, data_ok: bool) -> (r: bool)
    ensures
        P::obeys_custody_model() ==> r == is_go(policy_outcome(policy, data_ok)),
{
    assess_with(policy, data_ok).is_go()
}

/// Step 5 of the boot rail with the built-in permissive policy, with its
/// reason: always an unprovisioned first boot.
pub fn assess(data_ok: bool) -> (o: PreflightOutcome)
    ensures
        o == PreflightOutcome::FirstBoot,
{
    assess_with(&ReferencePolicy, data_ok)
}

/// Step 5 of the boot rail with the built-in permissive policy: always a go.
pub fn preflight(data_ok: bool) -> (r: bool)
    ensures
        r,
{
    preflight_with(&ReferencePolicy, data_ok)
}

/// The custody seal is a hard invariant: a broken seal is a no-go whatever
/// the other answers are.
pub proof fn law_broken_seal_is_breach(keystore_ok: bool, provisioned: bool, trust_root_ok: bool)
    ensures
        !is_go(preflight_rule(false, keystore_ok, provisioned, trust_root_ok)),
{
}

/// A keystore that breaks the placement rules is a no-go.
pub proof fn law_rejected_keystore_is_breach(seal_intact: bool, provisioned: bool, trust_root_ok: bool)
    ensures
        !is_go(preflight_rule(seal_intact, false, provisioned, trust_root_ok)),
{
}

/// A provisioned node must be able to verify updates: it passes exactly when
/// seal, keystore and trust root are all good.
pub proof fn law_provisioned_needs_trust_root(seal_intact: bool, keystore_ok: bool, trust_root_ok: bool)
    ensures
        is_go(preflight_rule(seal_intact, keystore_ok, true, trust_root_ok))
            <==> (seal_intact && keystore_ok && trust_root_ok),
{
}

/// First boot: an unprovisioned node with an intact seal and an accepted
/// keystore boots to provision, with or without a trust root.
pub proof fn law_first_boot_needs_no_trust_root(trust_root_ok: bool)
    ensures
        preflight_rule(true, true, false, trust_root_ok) == PreflightOutcome::FirstBoot,
        is_go(preflight_rule(true, true, false, trust_root_ok)),
{
}

/// On first boot the trust root does not matter, for any answers a policy
/// gives: with the node unprovisioned, the outcome of the preflight rule is
/// the same whatever the trust-root answer is.
pub proof fn law_first_boot_ignores_trust_root(
    seal_intact: bool,
    keystore_ok: bool,
    trust_root_a: bool,
    trust_root_b: bool,
)
    ensures
        preflight_rule(seal_intact, keystore_ok, false, trust_root_a)
            == preflight_rule(seal_intact, keystore_ok, false, trust_root_b),
{
}

/// On first boot the trust root does not matter: two policies that declare
/// their model and agree on seal, keystore and an unprovisioned node reach
/// the same preflight outcome, whatever each says of the trust root.
pub proof fn law_first_boot_independent_of_trust_root<A: Sovereignty, B: Sovereignty>(
    a: &A,
    b: &B,
    data_ok: bool,
)
    requires
        A::obeys_custody_model(),
        B::obeys_custody_model(),
        a.spec_seal_intact() == b.spec_seal_intact(),
        a.spec_keystore_ok(data_ok) == b.spec_keystore_ok(data_ok),
        !a.spec_is_provisioned(data_ok),
        !b.spec_is_provisioned(data_ok),
    ensures
        policy_outcome(a, data_ok) == policy_outcome(b, data_ok),
        is_go(policy_outcome(a, data_ok)) == is_go(policy_outcome(b, data_ok)),
{
}

} // verus!
