//! The capability lattice: the supports relation and the join.

use gfx_hal::capability::Capability;

#[test]
fn supports_is_reflexive() {
    for c in [
        Capability::Transfer,
        Capability::Compute,
        Capability::Graphics,
        Capability::General,
    ] {
        assert!(c.supports(c));
    }
}

#[test]
fn general_supports_everything() {
    assert!(Capability::General.supports(Capability::Transfer));
    assert!(Capability::General.supports(Capability::Compute));
    assert!(Capability::General.supports(Capability::Graphics));
    assert!(Capability::General.supports(Capability::General));
}

#[test]
fn everything_supports_transfer() {
    assert!(Capability::Transfer.supports(Capability::Transfer));
    assert!(Capability::Compute.supports(Capability::Transfer));
    assert!(Capability::Graphics.supports(Capability::Transfer));
    assert!(Capability::General.supports(Capability::Transfer));
}

#[test]
fn compute_and_graphics_are_incomparable() {
    assert!(!Capability::Compute.supports(Capability::Graphics));
    assert!(!Capability::Graphics.supports(Capability::Compute));
    assert!(!Capability::Transfer.supports(Capability::Compute));
    assert!(!Capability::Transfer.supports(Capability::Graphics));
    assert!(!Capability::Compute.supports(Capability::General));
    assert!(!Capability::Graphics.supports(Capability::General));
}

use gfx_hal::capability::Capability::{Compute, General, Graphics, Transfer};

#[test]
fn join_is_least_upper_bound() {
    assert_eq!(Transfer.join(Transfer), Transfer);
    assert_eq!(Transfer.join(Graphics), Graphics);
    assert_eq!(Transfer.join(Compute), Compute);
    assert_eq!(Graphics.join(Transfer), Graphics);
    assert_eq!(Compute.join(Graphics), General);
    assert_eq!(Graphics.join(Compute), General);
    assert_eq!(Compute.join(Compute), Compute);
    assert_eq!(General.join(Transfer), General);
    assert_eq!(Transfer.join(General), General);
    // The join supports both operands.
    for a in [Transfer, Compute, Graphics, General] {
        for b in [Transfer, Compute, Graphics, General] {
            let j = a.join(b);
            assert!(j.supports(a));
            assert!(j.supports(b));
        }
    }
}
