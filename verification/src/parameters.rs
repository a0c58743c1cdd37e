//! The parameter model: each input signal carries a typed value together
//! with a two-bit Sign/Status Matrix (SSM) giving its validity. Numeric
//! values are fixed-point integers in hundredths of their unit (feet,
//! knots, degrees), so that the thresholds of the sheets stay exact.

use vstd::prelude::*;

verus! {

/// Normal operation: both SSM bits clear.
pub open spec fn ssm_is_no(ssm1: bool, ssm2: bool) -> bool {
    !ssm1 && !ssm2
}

/// Functional test: only the second SSM bit set.
pub open spec fn ssm_is_ft(ssm1: bool, ssm2: bool) -> bool {
    !ssm1 && ssm2
}

/// No computed data: only the first SSM bit set.
pub open spec fn ssm_is_ncd(ssm1: bool, ssm2: bool) -> bool {
    ssm1 && !ssm2
}

/// Failure warning: both SSM bits set.
pub open spec fn ssm_is_fw(ssm1: bool, ssm2: bool) -> bool {
    ssm1 && ssm2
}

/// A parameter is valid when it is not failure-warned and its parity holds.
pub open spec fn ssm_is_val(ssm1: bool, ssm2: bool, parity: bool) -> bool {
    !ssm_is_fw(ssm1, ssm2) && parity
}

/// A parameter is invalid when it is failure-warned or fails parity.
pub open spec fn ssm_is_inv(ssm1: bool, ssm2: bool, parity: bool) -> bool {
    ssm_is_fw(ssm1, ssm2) || !parity
}

/// SSM round-trip: the two bits decode to exactly one of the four states,
/// and the validity predicates follow the same table - with parity intact a
/// parameter is valid exactly when it is not failure-warned, and invalid
/// exactly when it is failure-warned or parity is broken.
pub proof fn lemma_ssm_states(ssm1: bool, ssm2: bool, parity: bool)
    ensures
        ssm_is_no(ssm1, ssm2) <==> (!ssm1 && !ssm2),
        ssm_is_ft(ssm1, ssm2) <==> (!ssm1 && ssm2),
        ssm_is_ncd(ssm1, ssm2) <==> (ssm1 && !ssm2),
        ssm_is_fw(ssm1, ssm2) <==> (ssm1 && ssm2),
        (if ssm_is_no(ssm1, ssm2) { 1int } else { 0 }) + (if ssm_is_ft(ssm1, ssm2) { 1int } else { 0 })
            + (if ssm_is_ncd(ssm1, ssm2) { 1int } else { 0 }) + (if ssm_is_fw(ssm1, ssm2) { 1int } else { 0 }) == 1,
        parity ==> (ssm_is_val(ssm1, ssm2, parity) <==> !ssm_is_fw(ssm1, ssm2)),
        parity ==> (ssm_is_inv(ssm1, ssm2, parity) <==> ssm_is_fw(ssm1, ssm2)),
        !parity ==> ssm_is_inv(ssm1, ssm2, parity),
        ssm_is_val(ssm1, ssm2, parity) <==> !ssm_is_inv(ssm1, ssm2, parity),
{
}

/// Access to the typed value a parameter carries.
pub trait Value<T> {
    spec fn value_spec(&self) -> T;

    fn value(&self) -> (value: T)
        ensures
            value == self.value_spec(),
    ;
}

/// Access to the two-bit Sign/Status Matrix of a parameter, with the four
/// decoded states:
///
/// | ssm1 | ssm2 | state            |
/// |------|------|------------------|
/// | 0    | 0    | normal operation |
/// | 0    | 1    | functional test  |
/// | 1    | 0    | no computed data |
/// | 1    | 1    | failure warning  |
pub trait SignStatusMatrix {
    spec fn ssm1_spec(&self) -> bool;

    spec fn ssm2_spec(&self) -> bool;

    fn ssm1(&self) -> (bit: bool)
        ensures
            bit == self.ssm1_spec(),
    ;

    fn ssm2(&self) -> (bit: bool)
        ensures
            bit == self.ssm2_spec(),
    ;

    fn is_ncd(&self) -> (answer: bool)
        ensures
            answer == ssm_is_ncd(self.ssm1_spec(), self.ssm2_spec()),
    ;

    fn is_no(&self) -> (answer: bool)
        ensures
            answer == ssm_is_no(self.ssm1_spec(), self.ssm2_spec()),
    ;

    fn is_ft(&self) -> (answer: bool)
        ensures
            answer == ssm_is_ft(self.ssm1_spec(), self.ssm2_spec()),
    ;

    fn is_fw(&self) -> (answer: bool)
        ensures
            answer == ssm_is_fw(self.ssm1_spec(), self.ssm2_spec()),
    ;
}

/// Validity as the flight warning computer reads it: SSM state combined
/// with the conceptual parity bit.
pub trait FwcSsm: SignStatusMatrix {
    spec fn parity_spec(&self) -> bool;

    fn parity(&self) -> (bit: bool)
        ensures
            bit == self.parity_spec(),
    ;

    fn is_val(&self) -> (answer: bool)
        ensures
            answer == ssm_is_val(self.ssm1_spec(), self.ssm2_spec(), self.parity_spec()),
    ;

    fn is_inv(&self) -> (answer: bool)
        ensures
            answer == ssm_is_inv(self.ssm1_spec(), self.ssm2_spec(), self.parity_spec()),
    ;
}

/// A one-bit parameter arriving on a discrete input. Discrete inputs only
/// ever report normal operation or failure warning.
pub struct DiscreteParameter {
    pub value: bool,
    pub ssm1: bool,
    pub ssm2: bool,
}

impl DiscreteParameter {
    pub fn new(value: bool) -> (parameter: DiscreteParameter)
        ensures
            parameter == (DiscreteParameter { value, ssm1: false, ssm2: false }),
    {
        DiscreteParameter { value, ssm1: false, ssm2: false }
    }

    pub fn new_inv(value: bool) -> (parameter: DiscreteParameter)
        ensures
            parameter == (DiscreteParameter { value, ssm1: true, ssm2: true }),
    {
        DiscreteParameter { value, ssm1: true, ssm2: true }
    }

    /// The effective boolean meaning in sheet logic: the raw value gated by
    /// validity.
    pub open spec fn spec_as_bool(&self) -> bool {
        self.value && ssm_is_val(self.ssm1, self.ssm2, true)
    }

    pub fn as_bool(&self) -> (effective: bool)
        ensures
            effective == self.spec_as_bool(),
    {
        self.value && self.is_val()
    }
}

impl SignStatusMatrix for DiscreteParameter {
    open spec fn ssm1_spec(&self) -> bool {
        self.ssm1
    }

    open spec fn ssm2_spec(&self) -> bool {
        self.ssm2
    }

    fn ssm1(&self) -> bool {
        self.ssm1
    }

    fn ssm2(&self) -> bool {
        self.ssm2
    }

    fn is_ncd(&self) -> bool {
        self.ssm1 && !self.ssm2
    }

    fn is_no(&self) -> bool {
        !self.ssm1 && !self.ssm2
    }

    fn is_ft(&self) -> bool {
        !self.ssm1 && self.ssm2
    }

    fn is_fw(&self) -> bool {
        self.ssm1 && self.ssm2
    }
}

impl FwcSsm for DiscreteParameter {
    open spec fn parity_spec(&self) -> bool {
        true
    }

    fn parity(&self) -> bool {
        true
    }

    fn is_val(&self) -> bool {
        !self.is_fw()
    }

    fn is_inv(&self) -> bool {
        self.is_fw()
    }
}

impl Value<bool> for DiscreteParameter {
    open spec fn value_spec(&self) -> bool {
        self.value
    }

    fn value(&self) -> bool {
        self.value
    }
}

/// An angular parameter from a synchro or RVDT channel, in hundredths of a
/// degree.
pub struct SynchroParameter {
    pub value: i64,
    pub ssm1: bool,
    pub ssm2: bool,
}

impl SynchroParameter {
    pub fn new_synchro(value: i64) -> (parameter: SynchroParameter)
        ensures
            parameter == (SynchroParameter { value, ssm1: false, ssm2: false }),
    {
        SynchroParameter { value, ssm1: false, ssm2: false }
    }

    pub fn new_rvdt(value: i64) -> (parameter: SynchroParameter)
        ensures
            parameter == (SynchroParameter { value, ssm1: false, ssm2: false }),
    {
        SynchroParameter { value, ssm1: false, ssm2: false }
    }
}

impl SignStatusMatrix for SynchroParameter {
    open spec fn ssm1_spec(&self) -> bool {
        self.ssm1
    }

    open spec fn ssm2_spec(&self) -> bool {
        self.ssm2
    }

    fn ssm1(&self) -> bool {
        self.ssm1
    }

    fn ssm2(&self) -> bool {
        self.ssm2
    }

    fn is_ncd(&self) -> bool {
        self.ssm1 && !self.ssm2
    }

    fn is_no(&self) -> bool {
        !self.ssm1 && !self.ssm2
    }

    fn is_ft(&self) -> bool {
        !self.ssm1 && self.ssm2
    }

    fn is_fw(&self) -> bool {
        self.ssm1 && self.ssm2
    }
}

impl FwcSsm for SynchroParameter {
    open spec fn parity_spec(&self) -> bool {
        true
    }

    fn parity(&self) -> bool {
        true
    }

    fn is_val(&self) -> bool {
        !self.is_fw()
    }

    fn is_inv(&self) -> bool {
        self.is_fw()
    }
}

impl Value<i64> for SynchroParameter {
    open spec fn value_spec(&self) -> i64 {
        self.value
    }

    fn value(&self) -> i64 {
        self.value
    }
}

/// A typed parameter arriving on an ARINC-429-style bus word.
pub struct Arinc429Parameter<T> {
    pub value: T,
    pub ssm1: bool,
    pub ssm2: bool,
}

impl<T> Arinc429Parameter<T> {
    /// A parameter in normal operation.
    pub fn new(value: T) -> (parameter: Arinc429Parameter<T>)
        ensures
            parameter == (Arinc429Parameter { value, ssm1: false, ssm2: false }),
    {
        Arinc429Parameter { value, ssm1: false, ssm2: false }
    }

    /// A parameter whose source has no computed data.
    pub fn new_ncd(value: T) -> (parameter: Arinc429Parameter<T>)
        ensures
            parameter == (Arinc429Parameter { value, ssm1: true, ssm2: false }),
    {
        Arinc429Parameter { value, ssm1: true, ssm2: false }
    }

    /// A parameter carrying a failure warning.
    pub fn new_inv(value: T) -> (parameter: Arinc429Parameter<T>)
        ensures
            parameter == (Arinc429Parameter { value, ssm1: true, ssm2: true }),
    {
        Arinc429Parameter { value, ssm1: true, ssm2: true }
    }

    pub open spec fn spec_is_ncd(&self) -> bool {
        ssm_is_ncd(self.ssm1, self.ssm2)
    }

    pub open spec fn spec_is_ft(&self) -> bool {
        ssm_is_ft(self.ssm1, self.ssm2)
    }

    pub open spec fn spec_is_val(&self) -> bool {
        ssm_is_val(self.ssm1, self.ssm2, true)
    }

    pub open spec fn spec_is_inv(&self) -> bool {
        ssm_is_inv(self.ssm1, self.ssm2, true)
    }
}

impl Arinc429Parameter<bool> {
    /// The effective boolean meaning in sheet logic: the raw value gated by
    /// validity.
    pub open spec fn spec_as_bool(&self) -> bool {
        self.value && ssm_is_val(self.ssm1, self.ssm2, true)
    }

    pub fn as_bool(&self) -> (effective: bool)
        ensures
            effective == self.spec_as_bool(),
    {
        self.value && self.is_val()
    }
}

impl<T> SignStatusMatrix for Arinc429Parameter<T> {
    open spec fn ssm1_spec(&self) -> bool {
        self.ssm1
    }

    open spec fn ssm2_spec(&self) -> bool {
        self.ssm2
    }

    fn ssm1(&self) -> bool {
        self.ssm1
    }

    fn ssm2(&self) -> bool {
        self.ssm2
    }

    fn is_ncd(&self) -> bool {
        self.ssm1 && !self.ssm2
    }

    fn is_no(&self) -> bool {
        !self.ssm1 && !self.ssm2
    }

    fn is_ft(&self) -> bool {
        !self.ssm1 && self.ssm2
    }

    fn is_fw(&self) -> bool {
        self.ssm1 && self.ssm2
    }
}

impl<T> FwcSsm for Arinc429Parameter<T> {
    open spec fn parity_spec(&self) -> bool {
        true
    }

    fn parity(&self) -> bool {
        true
    }

    fn is_val(&self) -> bool {
        !self.is_fw()
    }

    fn is_inv(&self) -> bool {
        self.is_fw()
    }
}

impl<T: Copy> Value<T> for Arinc429Parameter<T> {
    open spec fn value_spec(&self) -> T {
        self.value
    }

    fn value(&self) -> T {
        self.value
    }
}

} // verus!
