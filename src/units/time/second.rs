use vstd::prelude::*;
use crate::ratio::Ratio;
use crate::units::time::TemporalUnit;
use crate::units::{stored, Scaled, Unit};

verus! {

/// The base unit of time.
#[derive(Clone, Copy, Debug, Eq)]
pub struct Second {
    value: Ratio,
}

impl Second {
    /// The value has a positive denominator.
    #[verifier::type_invariant]
    spec fn inv(&self) -> bool {
        self.value.wf()
    }
}

impl PartialEq for Second {
    fn eq(&self, o: &Second) -> (r: bool) {
        self.value == o.value
    }
}

impl vstd::std_specs::cmp::PartialEqSpecImpl for Second {
    open spec fn obeys_eq_spec() -> bool {
        true
    }

    open spec fn eq_spec(&self, o: &Second) -> bool {
        self.amount().same(o.amount())
    }
}

impl Unit for Second {
    closed spec fn amount(&self) -> Ratio {
        self.value
    }

    open spec fn quantized() -> bool {
        false
    }

    fn new(value: Ratio) -> (r: Second) {
        Second { value }
    }

    fn value(&self) -> (r: Ratio) {
        proof {
            use_type_invariant(self);
        }
        self.value
    }
}

impl Scaled for Second {
    open spec fn base_factor() -> Ratio {
        Ratio { neg: false, num: 1, den: 1 }
    }

    proof fn lemma_base_factor_bounded() {
    }

    fn base_constant() -> (r: Ratio) {
        Ratio::whole(1)
    }
}

impl TemporalUnit for Second {}

} // verus!
