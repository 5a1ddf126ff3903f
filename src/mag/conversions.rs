//! Axis values assembled from the magnetometer output registers: adding the low
//! and the high byte register of an axis, in either order, gives the signed
//! 16-bit axis value.
use super::{OutXHighM, OutXLowM, OutYHighM, OutYLowM, OutZHighM, OutZLowM};
use crate::conversion::{combine, word_value};
use core::ops::Add;
use vstd::prelude::*;

verus! {

impl Add<OutXHighM> for OutXLowM {
    type Output = i16;

    fn add(self, hi: OutXHighM) -> (r: i16)
        ensures
            r as int == word_value(self@, hi@),
    {
        combine(self.bits(), hi.bits())
    }
}

impl vstd::std_specs::ops::AddSpecImpl<OutXHighM> for OutXLowM {
    open spec fn obeys_add_spec() -> bool {
        true
    }

    open spec fn add_req(self, hi: OutXHighM) -> bool {
        true
    }

    open spec fn add_spec(self, hi: OutXHighM) -> i16 {
        word_value(self@, hi@) as i16
    }
}

impl Add<OutXLowM> for OutXHighM {
    type Output = i16;

    fn add(self, lo: OutXLowM) -> (r: i16)
        ensures
            r as int == word_value(lo@, self@),
    {
        combine(lo.bits(), self.bits())
    }
}

impl vstd::std_specs::ops::AddSpecImpl<OutXLowM> for OutXHighM {
    open spec fn obeys_add_spec() -> bool {
        true
    }

    open spec fn add_req(self, lo: OutXLowM) -> bool {
        true
    }

    open spec fn add_spec(self, lo: OutXLowM) -> i16 {
        word_value(lo@, self@) as i16
    }
}

impl Add<OutYHighM> for OutYLowM {
    type Output = i16;

    fn add(self, hi: OutYHighM) -> (r: i16)
        ensures
            r as int == word_value(self@, hi@),
    {
        combine(self.bits(), hi.bits())
    }
}

impl vstd::std_specs::ops::AddSpecImpl<OutYHighM> for OutYLowM {
    open spec fn obeys_add_spec() -> bool {
        true
    }

    open spec fn add_req(self, hi: OutYHighM) -> bool {
        true
    }

    open spec fn add_spec(self, hi: OutYHighM) -> i16 {
        word_value(self@, hi@) as i16
    }
}

impl Add<OutYLowM> for OutYHighM {
    type Output = i16;

    fn add(self, lo: OutYLowM) -> (r: i16)
        ensures
            r as int == word_value(lo@, self@),
    {
        combine(lo.bits(), self.bits())
    }
}

impl vstd::std_specs::ops::AddSpecImpl<OutYLowM> for OutYHighM {
    open spec fn obeys_add_spec() -> bool {
        true
    }

    open spec fn add_req(self, lo: OutYLowM) -> bool {
        true
    }

    open spec fn add_spec(self, lo: OutYLowM) -> i16 {
        word_value(lo@, self@) as i16
    }
}

impl Add<OutZHighM> for OutZLowM {
    type Output = i16;

    fn add(self, hi: OutZHighM) -> (r: i16)
        ensures
            r as int == word_value(self@, hi@),
    {
        combine(self.bits(), hi.bits())
    }
}

impl vstd::std_specs::ops::AddSpecImpl<OutZHighM> for OutZLowM {
    open spec fn obeys_add_spec() -> bool {
        true
    }

    open spec fn add_req(self, hi: OutZHighM) -> bool {
        true
    }

    open spec fn add_spec(self, hi: OutZHighM) -> i16 {
        word_value(self@, hi@) as i16
    }
}

impl Add<OutZLowM> for OutZHighM {
    type Output = i16;

    fn add(self, lo: OutZLowM) -> (r: i16)
        ensures
            r as int == word_value(lo@, self@),
    {
        combine(lo.bits(), self.bits())
    }
}

impl vstd::std_specs::ops::AddSpecImpl<OutZLowM> for OutZHighM {
    open spec fn obeys_add_spec() -> bool {
        true
    }

    open spec fn add_req(self, lo: OutZLowM) -> bool {
        true
    }

    open spec fn add_spec(self, lo: OutZLowM) -> i16 {
        word_value(lo@, self@) as i16
    }
}

} // verus!
