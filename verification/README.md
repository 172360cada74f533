# hom3init

A sovereign, airgap-first PID 1 for aarch64 Linux. The library in `src/`
holds every decision of the boot rail, each with a Verus contract; the
program in `app/` performs the system calls and file I/O and feeds what it
observes back to the library.

- `src/boot.rs`: the seven-step boot rail as a state machine whose order is
  proved, and the choice of launch after preflight.
- `src/rail.rs`: the early mounts and their hardening flags, the data carrier
  mount, and the rfkill block-all event.
- `src/entropy.rs`: the entropy gate (bounded, fail-closed) and the parser of
  the pool's estimate.
- `src/preflight.rs`: the `Sovereignty` custody policy, the preflight rule and
  the permissive reference policy. The contracts of `preflight_with` and
  `assess_with` speak of a policy's answers only when the policy declares
  `obeys_custody_model` and describes its answers with the `spec_*`
  functions (as `ReferencePolicy` does, verified); a policy written in plain
  Rust declares nothing, and for it those contracts promise nothing.
- `src/launch.rs`: launch fall-through (graphic shell, node, recovery).
- `src/supervise.rs`: supervision as PID 1: reap, restart after backoff,
  safe stop.
- `src/console.rs`: the status rules of the recovery console.
- `app/`: `main` (the rail driver, or the recovery console when invoked as
  `hom3recovery`), the libc shim, and the I/O of each step. One binary serves
  both roles: install it as `/usr/bin/hom3init` and link
  `/usr/bin/hom3recovery` to it.
