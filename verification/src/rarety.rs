use vstd::prelude::*;

verus! {

/// A rarity tier together with its configured drop rate, a percentage
/// expressed in whole points of the 0..100 draw interval.
#[derive(Clone, Copy, Debug, PartialEq, Eq, Structural)]
pub enum Rarety {
    Common(u32),
    Rare(u32),
    Epic(u32),
    Legendary(u32),
}

impl Rarety {
    /// The rate carried by the tier, whichever tier it is.
    pub fn drop_rate(&self) -> (rate: u32)
        ensures
            rate == self.spec_drop_rate(),
    {
        match self {
            Rarety::Common(rate) => *rate,
            Rarety::Rare(rate) => *rate,
            Rarety::Epic(rate) => *rate,
            Rarety::Legendary(rate) => *rate,
        }
    }

    pub open spec fn spec_drop_rate(self) -> u32 {
        match self {
            Rarety::Common(rate) => rate,
            Rarety::Rare(rate) => rate,
            Rarety::Epic(rate) => rate,
            Rarety::Legendary(rate) => rate,
        }
    }
}

} // verus!
