//! The anchor configuration of a rollup: the primary-chain block that its
//! genesis derives from.
use vstd::prelude::*;
use crate::validation::ConfigError;

verus! {

/// Declares the error type of `serde_json`, carried as an opaque value.
#[verifier::external_type_specification]
#[verifier::external_body]
pub struct ExJsonError(serde_json::Error);

/// Where the rollup's derivation starts on the primary chain.
#[derive(Debug, Clone, Copy, PartialEq, Eq)]
pub struct AnchorConfig {
    pub chain_id: u64,
    pub anchor_height: u64,
    pub anchor_hash: [u8; 32],
    /// The height of the rollup's own genesis block.
    pub l2_genesis_height: u64,
}

/// The name of what the built-in registry holds for a chain identifier: the
/// number and hash of the primary-chain genesis block of its rollup, and the
/// number of the rollup's genesis block.
pub uninterp spec fn registry_anchor_of(chain_id: u64) -> Option<(u64, Seq<u8>, u64)>;

/// The name of what a rollup configuration in JSON gives, if it reads as one:
/// its chain identifier, the number and hash of its primary-chain genesis
/// block, and the number of its own genesis block.
pub uninterp spec fn json_anchor_of(bytes: Seq<u8>) -> Option<(u64, u64, Seq<u8>, u64)>;

/// Relies on `RollupConfig::from_l2_chain_id` (defined in op-alloy-genesis,
/// exported by superchain_registry): the built-in configuration of a known
/// chain, if there is one, read for its genesis blocks.
#[verifier::external_body]
fn registry_anchor(chain_id: u64) -> (r: Option<(u64, [u8; 32], u64)>)
    ensures
        match r {
            None => registry_anchor_of(chain_id) is None,
            Some(p) => registry_anchor_of(chain_id) == Some((p.0, p.1@, p.2)),
        },
{
    superchain_registry::RollupConfig::from_l2_chain_id(chain_id).map(
        |c| (c.genesis.l1.number, c.genesis.l1.hash.0, c.genesis.l2.number),
    )
}

/// Relies on `serde_json::from_slice` into `superchain_registry::RollupConfig`:
/// its chain identifier and genesis blocks, or the parse error.
#[verifier::external_body]
fn parse_rollup_config(bytes: &[u8]) -> (r: Result<(u64, u64, [u8; 32], u64), serde_json::Error>)
    ensures
        match r {
            Err(_) => json_anchor_of(bytes@) is None,
            Ok(p) => json_anchor_of(bytes@) == Some((p.0, p.1, p.2@, p.3)),
        },
{
    serde_json::from_slice::<superchain_registry::RollupConfig>(bytes).map(
        |c| (c.l2_chain_id, c.genesis.l1.number, c.genesis.l1.hash.0, c.genesis.l2.number),
    )
}

impl AnchorConfig {
    /// The anchor configuration that the built-in registry holds for `chain_id`.
    pub fn from_registry(chain_id: u64) -> (r: Result<AnchorConfig, ConfigError>)
        ensures
            match registry_anchor_of(chain_id) {
                None => r == Err::<AnchorConfig, ConfigError>(ConfigError::UnknownChain(chain_id)),
                Some(p) => r matches Ok(a) && a.chain_id == chain_id && a.anchor_height == p.0
                    && a.anchor_hash@ == p.1 && a.l2_genesis_height == p.2,
            },
    {
        match registry_anchor(chain_id) {
            None => Err(ConfigError::UnknownChain(chain_id)),
            Some((height, hash, l2)) => Ok(
                AnchorConfig { chain_id, anchor_height: height, anchor_hash: hash, l2_genesis_height: l2 },
            ),
        }
    }

    /// The anchor configuration of a rollup configuration file's contents.
    pub fn from_json(bytes: &[u8]) -> (r: Result<AnchorConfig, ConfigError>)
        ensures
            match json_anchor_of(bytes@) {
                None => r == Err::<AnchorConfig, ConfigError>(ConfigError::MalformedAnchorConfig),
                Some(p) => r matches Ok(a) && a.chain_id == p.0 && a.anchor_height == p.1
                    && a.anchor_hash@ == p.2 && a.l2_genesis_height == p.3,
            },
    {
        match parse_rollup_config(bytes) {
            Err(_) => Err(ConfigError::MalformedAnchorConfig),
            Ok((chain_id, height, hash, l2)) => Ok(
                AnchorConfig { chain_id, anchor_height: height, anchor_hash: hash, l2_genesis_height: l2 },
            ),
        }
    }
}

} // verus!
