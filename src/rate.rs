use vstd::prelude::*;

verus! {

/// The minting configuration: token units minted per land unit each round,
/// and the percentages of a round's issuance given to land rewards and to
/// metaverse rewards. The percentages are not checked here: each is applied
/// on its own to the same issuance, so together they need not make 100.
#[derive(PartialEq, Eq, Structural, Clone, Debug, Default)]
pub struct MiningResourceRateInfo {
    /// Token units minted per land unit each round.
    pub ratio: u64,
    /// Percentage of a round's issuance for land staking rewards.
    pub land_reward: u32,
    /// Percentage of a round's issuance for metaverse staking rewards.
    pub metaverse_reward: u32,
}

impl MiningResourceRateInfo {
    pub fn new(ratio: u64, land_reward: u32, metaverse_reward: u32) -> (r: MiningResourceRateInfo)
        ensures
            r.ratio == ratio,
            r.land_reward == land_reward,
            r.metaverse_reward == metaverse_reward,
    {
        MiningResourceRateInfo { ratio, land_reward, metaverse_reward }
    }

    /// Token units minted per land unit each round.
    pub fn set_ratio(&mut self, ratio: u64)
        ensures
            *final(self) == (MiningResourceRateInfo { ratio, ..*old(self) }),
    {
        self.ratio = ratio;
    }

    /// Percentage of a round's issuance for land staking rewards.
    pub fn set_land_reward(&mut self, land_reward: u32)
        ensures
            *final(self) == (MiningResourceRateInfo { land_reward, ..*old(self) }),
    {
        self.land_reward = land_reward;
    }

    /// Percentage of a round's issuance for metaverse staking rewards.
    pub fn set_metaverse_reward(&mut self, metaverse_reward: u32)
        ensures
            *final(self) == (MiningResourceRateInfo { metaverse_reward, ..*old(self) }),
    {
        self.metaverse_reward = metaverse_reward;
    }
}

} // verus!
