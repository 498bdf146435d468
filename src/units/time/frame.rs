use vstd::prelude::*;
use crate::ratio::Ratio;
use crate::units::time::TemporalUnit;
use crate::units::{stored, Scaled, Unit};

verus! {

/// One frame of a display running at twenty-four frames a second.
#[derive(Clone, Copy, Debug, Eq)]
pub struct Frame {
    value: Ratio,
}

impl Frame {
    /// The value has a positive denominator.
    #[verifier::type_invariant]
    spec fn inv(&self) -> bool {
        self.value.wf()
    }
}

impl PartialEq for Frame {
    fn eq(&self, o: &Frame) -> (r: bool) {
        self.value == o.value
    }
}

impl vstd::std_specs::cmp::PartialEqSpecImpl for Frame {
    open spec fn obeys_eq_spec() -> bool {
        true
    }

    open spec fn eq_spec(&self, o: &Frame) -> bool {
        self.amount().same(o.amount())
    }
}

impl Unit for Frame {
    closed spec fn amount(&self) -> Ratio {
        self.value
    }

    open spec fn quantized() -> bool {
        false
    }

    fn new(value: Ratio) -> (r: Frame) {
        Frame { value }
    }

    fn value(&self) -> (r: Ratio) {
        proof {
            use_type_invariant(self);
        }
        self.value
    }
}

impl Scaled for Frame {
    open spec fn base_factor() -> Ratio {
        Ratio { neg: false, num: 1, den: 24 }
    }

    proof fn lemma_base_factor_bounded() {
    }

    fn base_constant() -> (r: Ratio) {
        Ratio::new(1, 24)
    }
}

impl TemporalUnit for Frame {}

} // verus!
