//! Axis values assembled from the accelerometer output registers: adding the low
//! and the high byte register of an axis, in either order, gives the signed
//! 16-bit axis value.
use super::{OutXHighA, OutXLowA, OutYHighA, OutYLowA, OutZHighA, OutZLowA};
use crate::conversion::{combine, word_value};
use core::ops::Add;
use vstd::prelude::*;

verus! {

impl Add<OutXHighA> for OutXLowA {
    type Output = i16;

    fn add(self, hi: OutXHighA) -> (r: i16)
        ensures
            r as int == word_value(self@, hi@),
    {
        combine(self.bits(), hi.bits())
    }
}

impl vstd::std_specs::ops::AddSpecImpl<OutXHighA> for OutXLowA {
    open spec fn obeys_add_spec() -> bool {
        true
    }

    open spec fn add_req(self, hi: OutXHighA) -> bool {
        true
    }

    open spec fn add_spec(self, hi: OutXHighA) -> i16 {
        word_value(self@, hi@) as i16
    }
}

impl Add<OutXLowA> for OutXHighA {
    type Output = i16;

    fn add(self, lo: OutXLowA) -> (r: i16)
        ensures
            r as int == word_value(lo@, self@),
    {
        combine(lo.bits(), self.bits())
    }
}

impl vstd::std_specs::ops::AddSpecImpl<OutXLowA> for OutXHighA {
    open spec fn obeys_add_spec() -> bool {
        true
    }

    open spec fn add_req(self, lo: OutXLowA) -> bool {
        true
    }

    open spec fn add_spec(self, lo: OutXLowA) -> i16 {
        word_value(lo@, self@) as i16
    }
}

impl Add<OutYHighA> for OutYLowA {
    type Output = i16;

    fn add(self, hi: OutYHighA) -> (r: i16)
        ensures
            r as int == word_value(self@, hi@),
    {
        combine(self.bits(), hi.bits())
    }
}

impl vstd::std_specs::ops::AddSpecImpl<OutYHighA> for OutYLowA {
    open spec fn obeys_add_spec() -> bool {
        true
    }

    open spec fn add_req(self, hi: OutYHighA) -> bool {
        true
    }

    open spec fn add_spec(self, hi: OutYHighA) -> i16 {
        word_value(self@, hi@) as i16
    }
}

impl Add<OutYLowA> for OutYHighA {
    type Output = i16;

    fn add(self, lo: OutYLowA) -> (r: i16)
        ensures
            r as int == word_value(lo@, self@),
    {
        combine(lo.bits(), self.bits())
    }
}

impl vstd::std_specs::ops::AddSpecImpl<OutYLowA> for OutYHighA {
    open spec fn obeys_add_spec() -> bool {
        true
    }

    open spec fn add_req(self, lo: OutYLowA) -> bool {
        true
    }

    open spec fn add_spec(self, lo: OutYLowA) -> i16 {
        word_value(lo@, self@) as i16
    }
}

impl Add<OutZHighA> for OutZLowA {
    type Output = i16;

    fn add(self, hi: OutZHighA) -> (r: i16)
        ensures
            r as int == word_value(self@, hi@),
    {
        combine(self.bits(), hi.bits())
    }
}

impl vstd::std_specs::ops::AddSpecImpl<OutZHighA> for OutZLowA {
    open spec fn obeys_add_spec() -> bool {
        true
    }

    open spec fn add_req(self, hi: OutZHighA) -> bool {
        true
    }

    open spec fn add_spec(self, hi: OutZHighA) -> i16 {
        word_value(self@, hi@) as i16
    }
}

impl Add<OutZLowA> for OutZHighA {
    type Output = i16;

    fn add(self, lo: OutZLowA) -> (r: i16)
        ensures
            r as int == word_value(lo@, self@),
    {
        combine(lo.bits(), self.bits())
    }
}

impl vstd::std_specs::ops::AddSpecImpl<OutZLowA> for OutZHighA {
    open spec fn obeys_add_spec() -> bool {
        true
    }

    open spec fn add_req(self, lo: OutZLowA) -> bool {
        true
    }

    open spec fn add_spec(self, lo: OutZLowA) -> i16 {
        word_value(lo@, self@) as i16
    }
}

} // verus!
