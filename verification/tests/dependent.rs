// A dependent artifact that consumes only the public reset/query interface
// and the breakpoint forms it imports: it must observe exactly what a caller
// inside the crate observes for the unconditional scenario.

use breakpoint::Harness;

#[test]
fn dependent_artifact_observes_the_hit() {
    let mut h = Harness::new();
    h.reset();
    h.breakpoint();
    assert_eq!(h.hit_breakpoint(), true);
}
