//! The operators `+`, `-`, `*` and `/` on spans.

use crate::duration::{CustomDuration, MAX_NANOS};
use crate::error::TimeError;
use vstd::prelude::*;

verus! {

impl core::ops::Add for CustomDuration {
    type Output = CustomDuration;

    /// `a + b` is `a.add(&b)`: the sum has to be a span.
    fn add(self, other: CustomDuration) -> (r: CustomDuration)
        ensures
            r@ == self@ + other@,
    {
        (&self).add(&other)
    }
}

impl vstd::std_specs::ops::AddSpecImpl for CustomDuration {
    open spec fn obeys_add_spec() -> bool {
        true
    }

    open spec fn add_req(self, other: CustomDuration) -> bool {
        self@ + other@ <= MAX_NANOS
    }

    open spec fn add_spec(self, other: CustomDuration) -> CustomDuration {
        self.spec_add(other)
    }
}

impl core::ops::Sub for CustomDuration {
    type Output = Result<CustomDuration, TimeError>;

    /// `a - b` is `a.sub(&b)`: an error where `b` is the longer one.
    fn sub(self, other: CustomDuration) -> (r: Result<CustomDuration, TimeError>)
        ensures
            r is Ok <==> self@ >= other@,
            r matches Ok(d) ==> d@ == self@ - other@,
    {
        (&self).sub(&other)
    }
}

impl vstd::std_specs::ops::SubSpecImpl for CustomDuration {
    open spec fn obeys_sub_spec() -> bool {
        true
    }

    open spec fn sub_req(self, other: CustomDuration) -> bool {
        true
    }

    open spec fn sub_spec(self, other: CustomDuration) -> Result<CustomDuration, TimeError> {
        self.spec_sub(other)
    }
}

impl core::ops::Mul<u32> for CustomDuration {
    type Output = CustomDuration;

    /// `a * k` is `a.mul(k)`: the product has to be a span.
    fn mul(self, scalar: u32) -> (r: CustomDuration)
        ensures
            r@ == self@ * (scalar as nat),
    {
        (&self).mul(scalar)
    }
}

impl vstd::std_specs::ops::MulSpecImpl<u32> for CustomDuration {
    open spec fn obeys_mul_spec() -> bool {
        true
    }

    open spec fn mul_req(self, scalar: u32) -> bool {
        self@ * (scalar as nat) <= MAX_NANOS
    }

    open spec fn mul_spec(self, scalar: u32) -> CustomDuration {
        self.spec_mul(scalar)
    }
}

impl core::ops::Div<u32> for CustomDuration {
    type Output = Result<CustomDuration, TimeError>;

    /// `a / k` is `a.div(k)`: an error where `k` is zero.
    fn div(self, divisor: u32) -> (r: Result<CustomDuration, TimeError>)
        ensures
            r is Ok <==> divisor != 0,
            r matches Ok(d) ==> d@ == self@ / (divisor as nat),
    {
        (&self).div(divisor)
    }
}

impl vstd::std_specs::ops::DivSpecImpl<u32> for CustomDuration {
    open spec fn obeys_div_spec() -> bool {
        true
    }

    open spec fn div_req(self, divisor: u32) -> bool {
        true
    }

    open spec fn div_spec(self, divisor: u32) -> Result<CustomDuration, TimeError> {
        self.spec_div(divisor)
    }
}

} // verus!
