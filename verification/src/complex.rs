//! Complex numbers over machine integers: construction, conjugation, the
//! four arithmetic operators, and rendering in the usual `a + bi` shape.

use vstd::prelude::*;
use vstd::string::StringExecFns;

use crate::decimal::{dec_rep, int_rep, u64_to_string, i64_to_string};

verus! {

/// A complex number `real + imag * i`.
#[derive(Debug, PartialEq)]
pub struct Complex {
    pub real: i32,
    pub imag: i32,
}

/// Truncating division, the way machine division rounds: towards zero.
pub open spec fn trunc_div(a: int, b: int) -> int
    recommends
        b != 0,
{
    if a >= 0 {
        a / b
    } else {
        -((-a) / b)
    }
}

/// The rendering of a complex number: just the real part when the
/// imaginary part is zero, just `bi` when the real part is zero, plain
/// `0` when both are, and `a + bi` or `a - bi` otherwise.
pub open spec fn complex_rep(re: int, im: int) -> Seq<char> {
    if re == 0 && im == 0 {
        "0"@
    } else if re == 0 {
        int_rep(im) + "i"@
    } else if im == 0 {
        int_rep(re)
    } else if im < 0 {
        int_rep(re) + " - "@ + dec_rep(-im) + "i"@
    } else {
        int_rep(re) + " + "@ + dec_rep(im) + "i"@
    }
}

impl Complex {
    pub fn new(re: i32, im: i32) -> (r: Complex)
        ensures
            r.real == re,
            r.imag == im,
    {
        Complex { real: re, imag: im }
    }

    /// The conjugate: the sign of the imaginary part reversed.
    pub fn conjugate(&self) -> (r: Complex)
        requires
            self.imag > i32::MIN,
        ensures
            r.real == self.real,
            r.imag == -self.imag,
    {
        Complex { real: self.real, imag: -self.imag }
    }

    /// A copy of the number.
    pub fn copy(&self) -> (r: Complex)
        ensures
            r.real == self.real,
            r.imag == self.imag,
    {
        Complex { real: self.real, imag: self.imag }
    }

    /// Renders the number.
    pub fn to_string(&self) -> (s: String)
        requires
            self.imag > i32::MIN,
        ensures
            s@ == complex_rep(self.real as int, self.imag as int),
    {
        if self.real == 0 && self.imag == 0 {
            String::from_str("0")
        } else if self.real == 0 {
            let mut s = i64_to_string(self.imag as i64);
            s.append("i");
            s
        } else if self.imag == 0 {
            i64_to_string(self.real as i64)
        } else if self.imag < 0 {
            let mut s = i64_to_string(self.real as i64);
            s.append(" - ");
            let mag = u64_to_string((-self.imag) as u64);
            s.append(mag.as_str());
            s.append("i");
            s
        } else {
            let mut s = i64_to_string(self.real as i64);
            s.append(" + ");
            let mag = u64_to_string(self.imag as u64);
            s.append(mag.as_str());
            s.append("i");
            s
        }
    }
}

impl vstd::std_specs::ops::AddSpecImpl for Complex {
    open spec fn obeys_add_spec() -> bool {
        true
    }

    open spec fn add_req(self, rhs: Complex) -> bool {
        &&& i32::MIN <= self.real + rhs.real <= i32::MAX
        &&& i32::MIN <= self.imag + rhs.imag <= i32::MAX
    }

    open spec fn add_spec(self, rhs: Complex) -> Complex {
        Complex {
            real: (self.real + rhs.real) as i32,
            imag: (self.imag + rhs.imag) as i32,
        }
    }
}

impl core::ops::Add for Complex {
    type Output = Complex;

    /// Componentwise sum: `(a+bi) + (x+yi) = (a+x) + (b+y)i`.
    fn add(self, rhs: Complex) -> Complex {
        Complex { real: self.real + rhs.real, imag: self.imag + rhs.imag }
    }
}

impl vstd::std_specs::ops::SubSpecImpl for Complex {
    open spec fn obeys_sub_spec() -> bool {
        true
    }

    open spec fn sub_req(self, rhs: Complex) -> bool {
        &&& i32::MIN <= self.real - rhs.real <= i32::MAX
        &&& i32::MIN <= self.imag - rhs.imag <= i32::MAX
    }

    open spec fn sub_spec(self, rhs: Complex) -> Complex {
        Complex {
            real: (self.real - rhs.real) as i32,
            imag: (self.imag - rhs.imag) as i32,
        }
    }
}

impl core::ops::Sub for Complex {
    type Output = Complex;

    /// Componentwise difference: `(a+bi) - (x+yi) = (a-x) + (b-y)i`.
    fn sub(self, rhs: Complex) -> Complex {
        Complex { real: self.real - rhs.real, imag: self.imag - rhs.imag }
    }
}

impl vstd::std_specs::ops::MulSpecImpl for Complex {
    open spec fn obeys_mul_spec() -> bool {
        true
    }

    open spec fn mul_req(self, rhs: Complex) -> bool {
        &&& i32::MIN <= self.real * rhs.real <= i32::MAX
        &&& i32::MIN <= self.imag * rhs.imag <= i32::MAX
        &&& i32::MIN <= self.real * rhs.imag <= i32::MAX
        &&& i32::MIN <= self.imag * rhs.real <= i32::MAX
        &&& i32::MIN <= self.real * rhs.real - self.imag * rhs.imag <= i32::MAX
        &&& i32::MIN <= self.real * rhs.imag + self.imag * rhs.real <= i32::MAX
    }

    open spec fn mul_spec(self, rhs: Complex) -> Complex {
        Complex {
            real: (self.real * rhs.real - self.imag * rhs.imag) as i32,
            imag: (self.real * rhs.imag + self.imag * rhs.real) as i32,
        }
    }
}

impl core::ops::Mul for Complex {
    type Output = Complex;

    /// `(a+bi)(x+yi) = (ax - by) + (ay + bx)i`.
    fn mul(self, rhs: Complex) -> Complex {
        let re = self.real * rhs.real - self.imag * rhs.imag;
        let im = self.real * rhs.imag + self.imag * rhs.real;
        Complex { real: re, imag: im }
    }
}

impl vstd::std_specs::ops::DivSpecImpl for Complex {
    open spec fn obeys_div_spec() -> bool {
        true
    }

    open spec fn div_req(self, rhs: Complex) -> bool {
        &&& rhs.real * rhs.real + rhs.imag * rhs.imag <= i32::MAX
        &&& rhs.real * rhs.real + rhs.imag * rhs.imag != 0
        &&& i32::MIN <= self.real * rhs.real <= i32::MAX
        &&& i32::MIN <= self.imag * rhs.imag <= i32::MAX
        &&& i32::MIN <= self.real * rhs.imag <= i32::MAX
        &&& i32::MIN <= self.imag * rhs.real <= i32::MAX
        &&& i32::MIN <= self.real * rhs.real + self.imag * rhs.imag <= i32::MAX
        &&& i32::MIN <= self.imag * rhs.real - self.real * rhs.imag <= i32::MAX
    }

    open spec fn div_spec(self, rhs: Complex) -> Complex {
        let den = rhs.real * rhs.real + rhs.imag * rhs.imag;
        let num_re = self.real * rhs.real + self.imag * rhs.imag;
        let num_im = self.imag * rhs.real - self.real * rhs.imag;
        Complex { real: trunc_div(num_re, den) as i32, imag: trunc_div(num_im, den) as i32 }
    }
}

impl core::ops::Div for Complex {
    type Output = Complex;

    /// Multiplying numerator and denominator by the conjugate of `rhs`
    /// makes the denominator the real number `x*x + y*y`:
    /// `(a+bi)/(x+yi) = ((ax+by) + (bx-ay)i) / (x*x + y*y)`.
    /// Division rounds each part towards zero.
    fn div(self, rhs: Complex) -> Complex {
        proof {
            assert(rhs.real * rhs.real >= 0) by (nonlinear_arith);
            assert(rhs.imag * rhs.imag >= 0) by (nonlinear_arith);
        }
        let num_re = self.real * rhs.real + self.imag * rhs.imag;
        let num_im = self.imag * rhs.real - self.real * rhs.imag;
        let den = rhs.real * rhs.real + rhs.imag * rhs.imag;
        Complex { real: num_re / den, imag: num_im / den }
    }
}

} // verus!
