use vstd::prelude::*;

verus! {

/// The amount a round may mint, with the shares set aside for land rewards
/// and for metaverse rewards.
#[derive(PartialEq, Eq, Structural, Clone, Copy, Debug, Default)]
pub struct Range<T> {
    pub min: T,
    pub ideal: T,
    pub max: T,
    pub land_allocation: T,
    pub metaverse_allocation: T,
}

impl Range<u64> {
    /// A range is valid when `max >= ideal >= min`.
    pub open spec fn valid(&self) -> bool {
        self.max >= self.ideal && self.ideal >= self.min
    }

    pub fn is_valid(&self) -> (r: bool)
        ensures
            r == self.valid(),
    {
        self.max >= self.ideal && self.ideal >= self.min
    }
}

impl From<u64> for Range<u64> {
    /// The range whose five fields all hold `other`.
    fn from(other: u64) -> (r: Range<u64>)
        ensures
            r == (Range { min: other, ideal: other, max: other, land_allocation: other, metaverse_allocation: other }),
    {
        Range {
            min: other,
            ideal: other,
            max: other,
            land_allocation: other,
            metaverse_allocation: other,
        }
    }
}

impl vstd::std_specs::convert::FromSpecImpl<u64> for Range<u64> {
    open spec fn obeys_from_spec() -> bool {
        true
    }

    open spec fn from_spec(v: u64) -> Range<u64> {
        Range { min: v, ideal: v, max: v, land_allocation: v, metaverse_allocation: v }
    }
}

} // verus!
