use vstd::prelude::*;
use crate::ratio::Ratio;
use crate::units::length::DistanceUnit;
use crate::units::{stored, Scaled, Unit};

verus! {

/// The mean distance from the Earth to the Sun.
#[derive(Clone, Copy, Debug, Eq)]
pub struct AstroUnit {
    value: Ratio,
}

impl AstroUnit {
    /// The value has a positive denominator.
    #[verifier::type_invariant]
    spec fn inv(&self) -> bool {
        self.value.wf()
    }
}

impl PartialEq for AstroUnit {
    fn eq(&self, o: &AstroUnit) -> (r: bool) {
        self.value == o.value
    }
}

impl vstd::std_specs::cmp::PartialEqSpecImpl for AstroUnit {
    open spec fn obeys_eq_spec() -> bool {
        true
    }

    open spec fn eq_spec(&self, o: &AstroUnit) -> bool {
        self.amount().same(o.amount())
    }
}

impl Unit for AstroUnit {
    closed spec fn amount(&self) -> Ratio {
        self.value
    }

    open spec fn quantized() -> bool {
        false
    }

    fn new(value: Ratio) -> (r: AstroUnit) {
        AstroUnit { value }
    }

    fn value(&self) -> (r: Ratio) {
        proof {
            use_type_invariant(self);
        }
        self.value
    }
}

impl Scaled for AstroUnit {
    open spec fn base_factor() -> Ratio {
        Ratio { neg: false, num: 149_600_000_000, den: 1 }
    }

    proof fn lemma_base_factor_bounded() {
    }

    fn base_constant() -> (r: Ratio) {
        Ratio::whole(149_600_000_000)
    }
}

impl DistanceUnit for AstroUnit {}

} // verus!
