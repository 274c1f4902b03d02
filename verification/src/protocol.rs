//! Types associated with the Zcash protocol and consensus.

use vstd::prelude::*;

verus! {

/// Network upgrade activation heights for custom testnet and regtest network configuration.
#[derive(Debug, Clone, Copy, PartialEq, Eq, Structural)]
pub struct ActivationHeights {
    /// Overwinter network upgrade activation height.
    pub overwinter: Option<u32>,
    /// Sapling network upgrade activation height.
    pub sapling: Option<u32>,
    /// Blossom network upgrade activation height.
    pub blossom: Option<u32>,
    /// Heartwood network upgrade activation height.
    pub heartwood: Option<u32>,
    /// Canopy network upgrade activation height.
    pub canopy: Option<u32>,
    /// Nu5 network upgrade activation height.
    pub nu5: Option<u32>,
    /// Nu6 network upgrade activation height.
    pub nu6: Option<u32>,
    /// Nu6.1 network upgrade activation height.
    pub nu6_1: Option<u32>,
    /// Nu7 network upgrade activation height.
    pub nu7: Option<u32>,
}

/// Network types.
#[derive(Clone, Copy, Debug, PartialEq, Eq, Structural)]
pub enum NetworkType {
    /// Mainnet
    Mainnet,
    /// Testnet
    Testnet,
    /// Regtest
    Regtest(ActivationHeights),
}

impl Default for ActivationHeights {
    /// Every network upgrade up to and including Nu6.1 activates at height 1;
    /// Nu7 does not activate.
    fn default() -> (r: Self)
        ensures
            r.overwinter == Some(1u32),
            r.sapling == Some(1u32),
            r.blossom == Some(1u32),
            r.heartwood == Some(1u32),
            r.canopy == Some(1u32),
            r.nu5 == Some(1u32),
            r.nu6 == Some(1u32),
            r.nu6_1 == Some(1u32),
            r.nu7 is None,
    {
        ActivationHeights {
            overwinter: Some(1),
            sapling: Some(1),
            blossom: Some(1),
            heartwood: Some(1),
            canopy: Some(1),
            nu5: Some(1),
            nu6: Some(1),
            nu6_1: Some(1),
            nu7: None,
        }
    }
}

impl ActivationHeights {
    /// Returns overwinter network upgrade activation height.
    pub fn overwinter(&self) -> (r: Option<u32>)
        ensures
            r == self.overwinter,
    {
        self.overwinter
    }

    /// Returns sapling network upgrade activation height.
    pub fn sapling(&self) -> (r: Option<u32>)
        ensures
            r == self.sapling,
    {
        self.sapling
    }

    /// Returns blossom network upgrade activation height.
    pub fn blossom(&self) -> (r: Option<u32>)
        ensures
            r == self.blossom,
    {
        self.blossom
    }

    /// Returns heartwood network upgrade activation height.
    pub fn heartwood(&self) -> (r: Option<u32>)
        ensures
            r == self.heartwood,
    {
        self.heartwood
    }

    /// Returns canopy network upgrade activation height.
    pub fn canopy(&self) -> (r: Option<u32>)
        ensures
            r == self.canopy,
    {
        self.canopy
    }

    /// Returns nu5 network upgrade activation height.
    pub fn nu5(&self) -> (r: Option<u32>)
        ensures
            r == self.nu5,
    {
        self.nu5
    }

    /// Returns nu6 network upgrade activation height.
    pub fn nu6(&self) -> (r: Option<u32>)
        ensures
            r == self.nu6,
    {
        self.nu6
    }

    /// Returns nu6.1 network upgrade activation height.
    pub fn nu6_1(&self) -> (r: Option<u32>)
        ensures
            r == self.nu6_1,
    {
        self.nu6_1
    }

    /// Returns nu7 network upgrade activation height.
    pub fn nu7(&self) -> (r: Option<u32>)
        ensures
            r == self.nu7,
    {
        self.nu7
    }
}

impl NetworkType {
    /// The chain's name: `mainnet`, `testnet` or `regtest`.
    pub open spec fn name_spec(&self) -> Seq<char> {
        match self {
            NetworkType::Mainnet => "mainnet"@,
            NetworkType::Testnet => "testnet"@,
            NetworkType::Regtest(_) => "regtest"@,
        }
    }

    /// The chain's name, as the network type is written out.
    pub fn to_string(&self) -> (r: String)
        ensures
            r@ == self.name_spec(),
    {
        let chain = match self {
            NetworkType::Mainnet => "mainnet",
            NetworkType::Testnet => "testnet",
            NetworkType::Regtest(_) => "regtest",
        };
        chain.to_owned()
    }
}

} // verus!
