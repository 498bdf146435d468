use vstd::prelude::*;
use crate::ratio::Ratio;
use crate::units::length::DistanceUnit;
use crate::units::{stored, Scaled, Unit};

verus! {

/// The base unit of length.
#[derive(Clone, Copy, Debug, Eq)]
pub struct Meter {
    value: Ratio,
}

impl Meter {
    /// The value has a positive denominator.
    #[verifier::type_invariant]
    spec fn inv(&self) -> bool {
        self.value.wf()
    }
}

impl PartialEq for Meter {
    fn eq(&self, o: &Meter) -> (r: bool) {
        self.value == o.value
    }
}

impl vstd::std_specs::cmp::PartialEqSpecImpl for Meter {
    open spec fn obeys_eq_spec() -> bool {
        true
    }

    open spec fn eq_spec(&self, o: &Meter) -> bool {
        self.amount().same(o.amount())
    }
}

impl Unit for Meter {
    closed spec fn amount(&self) -> Ratio {
        self.value
    }

    open spec fn quantized() -> bool {
        false
    }

    fn new(value: Ratio) -> (r: Meter) {
        Meter { value }
    }

    fn value(&self) -> (r: Ratio) {
        proof {
            use_type_invariant(self);
        }
        self.value
    }
}

impl Scaled for Meter {
    open spec fn base_factor() -> Ratio {
        Ratio { neg: false, num: 1, den: 1 }
    }

    proof fn lemma_base_factor_bounded() {
    }

    fn base_constant() -> (r: Ratio) {
        Ratio::whole(1)
    }
}

impl DistanceUnit for Meter {}

} // verus!
