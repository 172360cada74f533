use hom3init::preflight::{assess, assess_with, preflight, preflight_with, PreflightOutcome, ReferencePolicy, Sovereignty};

struct Policy {
    provisioned: bool,
    trust_root: bool,
    seal: bool,
    keystore: bool,
}

impl Sovereignty for Policy {
    fn is_provisioned(&self, _data_ok: bool) -> bool {
        self.provisioned
    }
    fn trust_root_ok(&self) -> bool {
        self.trust_root
    }
    fn seal_intact(&self) -> bool {
        self.seal
    }
    fn keystore_ok(&self, data_ok: bool) -> bool {
        self.keystore && data_ok
    }
}

fn policy(provisioned: bool, trust_root: bool, seal: bool, keystore: bool) -> Policy {
    Policy { provisioned, trust_root, seal, keystore }
}

#[test]
fn reference_policy_always_passes() {
    assert!(preflight(true));
    assert!(preflight(false));
    assert!(preflight_with(&ReferencePolicy, true));
    assert!(preflight_with(&ReferencePolicy, false));
    assert_eq!(assess(false), PreflightOutcome::FirstBoot);
    assert_eq!(assess(true), PreflightOutcome::FirstBoot);
}

#[test]
fn reference_policy_answers() {
    assert!(!ReferencePolicy.is_provisioned(true));
    assert!(ReferencePolicy.trust_root_ok());
    assert!(ReferencePolicy.seal_intact());
    assert!(ReferencePolicy.keystore_ok(false));
}

#[test]
fn broken_seal_is_a_breach_in_every_state() {
    for provisioned in [false, true] {
        for trust_root in [false, true] {
            for keystore in [false, true] {
                let p = policy(provisioned, trust_root, false, keystore);
                assert!(!preflight_with(&p, true));
                assert_eq!(assess_with(&p, true), PreflightOutcome::SealBroken);
            }
        }
    }
}

#[test]
fn rejected_keystore_is_a_breach() {
    let p = policy(false, true, true, false);
    assert_eq!(assess_with(&p, true), PreflightOutcome::KeystoreRejected);
    assert!(!preflight_with(&p, true));
    // this policy's keystore rule needs the data partition
    let q = policy(false, true, true, true);
    assert_eq!(assess_with(&q, false), PreflightOutcome::KeystoreRejected);
}

#[test]
fn provisioned_node_needs_trust_root() {
    let p = policy(true, false, true, true);
    assert_eq!(assess_with(&p, true), PreflightOutcome::TrustRootMissing);
    assert!(!preflight_with(&p, true));
    let q = policy(true, true, true, true);
    assert_eq!(assess_with(&q, true), PreflightOutcome::Provisioned);
    assert!(preflight_with(&q, true));
}

#[test]
fn unprovisioned_first_boot_needs_no_trust_root() {
    let p = policy(false, false, true, true);
    assert_eq!(assess_with(&p, true), PreflightOutcome::FirstBoot);
    assert!(preflight_with(&p, true));
}

#[test]
fn outcome_go_values() {
    assert!(PreflightOutcome::Provisioned.is_go());
    assert!(PreflightOutcome::FirstBoot.is_go());
    assert!(!PreflightOutcome::SealBroken.is_go());
    assert!(!PreflightOutcome::KeystoreRejected.is_go());
    assert!(!PreflightOutcome::TrustRootMissing.is_go());
}
