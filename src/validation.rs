//! Payload validation: the configured mode and the two strategies.
//!
//! A derived payload is judged either against the same block fetched from a
//! trusted endpoint, or by the answer of an execution engine to a "new payload"
//! submission. The network exchange happens outside; the functions here take
//! what came back and decide the outcome.
use vstd::prelude::*;
use crate::driver::FailureClass;

verus! {

/// Declares the URL type of the `url` crate, carried as an opaque value.
#[verifier::external_type_specification]
#[verifier::external_body]
pub struct ExUrl(url::Url);

/// The name of what `str::to_lowercase` returns for a string.
pub uninterp spec fn lower_of(s: Seq<char>) -> Seq<char>;

/// Relies on `str::to_lowercase`: the result depends on the characters alone.
#[verifier::external_body]
fn lowercase(s: &str) -> (r: String)
    ensures
        r@ == lower_of(s@),
{
    s.to_lowercase()
}

/// An error found while the configuration is put together.
#[derive(Debug, Clone, Copy, PartialEq, Eq, Structural)]
pub enum ConfigError {
    /// The validation-mode selector names no known mode.
    UnknownValidationMode,
    /// Engine-API validation was selected without all of its credentials; each
    /// flag is set when that value is missing.
    MissingEngineCredentials { api_url: bool, jwt_secret: bool },
    /// No anchor configuration is known for this chain identifier.
    UnknownChain(u64),
    /// The anchor configuration file could not be read as a rollup configuration.
    MalformedAnchorConfig,
}

impl ConfigError {
    /// Every configuration error is of the configuration class.
    pub fn class(&self) -> (r: FailureClass)
        ensures
            r == FailureClass::Configuration,
    {
        FailureClass::Configuration
    }
}

/// The two validation strategies, as chosen by the mode selector.
#[derive(Debug, Clone, Copy, PartialEq, Eq, Structural)]
pub enum ModeKind {
    Trusted,
    EngineApi,
}

/// The mode that a lower-cased selector names, if any.
pub open spec fn mode_of_lowered(l: Seq<char>) -> Option<ModeKind> {
    if l == "trusted"@ {
        Some(ModeKind::Trusted)
    } else if l == "engine-api"@ {
        Some(ModeKind::EngineApi)
    } else {
        None
    }
}

/// Reads a selector that is already in lower case.
pub fn mode_from_lowered(l: &String) -> (r: Result<ModeKind, ConfigError>)
    ensures
        r == (match mode_of_lowered(l@) {
            Some(k) => Ok(k),
            None => Err(ConfigError::UnknownValidationMode),
        }),
{
    let trusted = "trusted".to_owned();
    let engine = "engine-api".to_owned();
    if *l == trusted {
        Ok(ModeKind::Trusted)
    } else if *l == engine {
        Ok(ModeKind::EngineApi)
    } else {
        Err(ConfigError::UnknownValidationMode)
    }
}

impl ModeKind {
    /// Reads a validation-mode selector, ignoring the case of its letters:
    /// `trusted` and `engine-api` are the two known modes.
    pub fn parse(s: &str) -> (r: Result<ModeKind, ConfigError>)
        ensures
            r == (match mode_of_lowered(lower_of(s@)) {
                Some(k) => Ok(k),
                None => Err(ConfigError::UnknownValidationMode),
            }),
    {
        let l = lowercase(s);
        mode_from_lowered(&l)
    }
}

/// A configured validation mode with the endpoints and credentials it needs.
///
/// The engine-API variant exists only with both its URL and its secret path.
#[derive(Debug)]
pub enum ValidationMode {
    /// Compare each payload with the block of a trusted execution client.
    Trusted { rpc_url: url::Url },
    /// Submit each payload to the engine API of an execution client.
    EngineApi { api_url: url::Url, jwt_secret_path: String },
}

impl ValidationMode {
    pub open spec fn kind(&self) -> ModeKind {
        match self {
            ValidationMode::Trusted { .. } => ModeKind::Trusted,
            ValidationMode::EngineApi { .. } => ModeKind::EngineApi,
        }
    }

    /// Puts a validation mode together from configuration values.
    ///
    /// The trusted mode uses `l2_rpc_url`. The engine-API mode needs both
    /// `engine_api_url` and `jwt_secret_path`; without them it is a
    /// configuration error that names every missing value, found here and
    /// never at the first validation.
    pub fn configure(
        kind: ModeKind,
        l2_rpc_url: url::Url,
        engine_api_url: Option<url::Url>,
        jwt_secret_path: Option<String>,
    ) -> (r: Result<ValidationMode, ConfigError>)
        ensures
            kind == ModeKind::Trusted ==> r == Ok::<ValidationMode, ConfigError>(
                ValidationMode::Trusted { rpc_url: l2_rpc_url },
            ),
            kind == ModeKind::EngineApi && (engine_api_url is None || jwt_secret_path is None) ==> r
                == Err::<ValidationMode, ConfigError>(
                ConfigError::MissingEngineCredentials {
                    api_url: engine_api_url is None,
                    jwt_secret: jwt_secret_path is None,
                },
            ),
            kind == ModeKind::EngineApi && jwt_secret_path is None ==> (r matches Err(
                ConfigError::MissingEngineCredentials { jwt_secret: true, .. },
            )),
            kind == ModeKind::EngineApi && engine_api_url is Some && jwt_secret_path is Some ==> r
                == Ok::<ValidationMode, ConfigError>(
                ValidationMode::EngineApi {
                    api_url: engine_api_url->Some_0,
                    jwt_secret_path: jwt_secret_path->Some_0,
                },
            ),
    {
        match kind {
            ModeKind::Trusted => Ok(ValidationMode::Trusted { rpc_url: l2_rpc_url }),
            ModeKind::EngineApi => match (engine_api_url, jwt_secret_path) {
                (Some(api_url), Some(jwt_secret_path)) => Ok(ValidationMode::EngineApi { api_url, jwt_secret_path }),
                (u, j) => Err(ConfigError::MissingEngineCredentials { api_url: u.is_none(), jwt_secret: j.is_none() }),
            },
        }
    }

    /// Which strategy this mode uses.
    pub fn mode_kind(&self) -> (r: ModeKind)
        ensures
            r == self.kind(),
    {
        match self {
            ValidationMode::Trusted { .. } => ModeKind::Trusted,
            ValidationMode::EngineApi { .. } => ModeKind::EngineApi,
        }
    }
}

/// The fields of a block that a derived payload is compared on.
#[derive(Debug, Clone, Copy, PartialEq, Eq)]
pub struct PayloadSummary {
    pub height: u64,
    pub block_hash: [u8; 32],
    pub state_root: [u8; 32],
    pub receipts_root: [u8; 32],
}

/// A compared field of a payload.
#[derive(Debug, Clone, Copy, PartialEq, Eq, Structural)]
pub enum PayloadField {
    BlockHash,
    StateRoot,
    ReceiptsRoot,
}

/// One field on which the derived payload and the trusted block differ.
#[derive(Debug, Clone, Copy, PartialEq, Eq)]
pub struct FieldDiff {
    pub field: PayloadField,
    pub derived: [u8; 32],
    pub trusted: [u8; 32],
}

/// Why a payload could not be judged this time; the caller may try again.
#[derive(Debug, Clone, Copy, PartialEq, Eq, Structural)]
pub enum IndeterminateCause {
    /// The endpoint could not be reached.
    Unreachable,
    /// The trusted endpoint's block at that height is not final yet.
    NotFinal,
    /// The engine answered SYNCING.
    Syncing,
    /// The engine answered ACCEPTED.
    Accepted,
}

/// Why a payload was found wrong.
#[derive(Debug, Clone, PartialEq, Eq)]
pub enum InvalidReason {
    /// The payload differs from the trusted block on these fields, in the order
    /// block hash, state root, receipts root.
    Mismatch(Vec<FieldDiff>),
    /// The engine answered INVALID, with this validation error.
    Rejected(String),
}

/// The judgement on one derived payload.
#[derive(Debug, Clone, PartialEq, Eq)]
pub enum ValidationOutcome {
    Valid,
    Invalid(InvalidReason),
    Indeterminate(IndeterminateCause),
}

/// What the trusted endpoint answered when asked for the block at a height.
#[derive(Debug, Clone, Copy, PartialEq, Eq)]
pub enum TrustedReply {
    Unreachable,
    NotFinal,
    Block(PayloadSummary),
}

/// The status that an execution engine gives a submitted payload.
#[derive(Debug, Clone, PartialEq, Eq)]
pub enum PayloadStatus {
    Valid,
    Invalid(String),
    Syncing,
    Accepted,
}

/// What came of a "new payload" submission.
#[derive(Debug, Clone, PartialEq, Eq)]
pub enum EngineReply {
    Unreachable,
    Status(PayloadStatus),
}

/// The answer of the endpoint that the configured strategy asked.
#[derive(Debug, Clone, PartialEq, Eq)]
pub enum ValidatorReply {
    Trusted(TrustedReply),
    Engine(EngineReply),
}

/// The fields on which `d` and `t` differ, in the order block hash, state
/// root, receipts root.
pub open spec fn field_diffs(d: PayloadSummary, t: PayloadSummary) -> Seq<FieldDiff> {
    let a = if d.block_hash@ == t.block_hash@ {
        Seq::empty()
    } else {
        seq![FieldDiff { field: PayloadField::BlockHash, derived: d.block_hash, trusted: t.block_hash }]
    };
    let b = if d.state_root@ == t.state_root@ {
        a
    } else {
        a.push(FieldDiff { field: PayloadField::StateRoot, derived: d.state_root, trusted: t.state_root })
    };
    if d.receipts_root@ == t.receipts_root@ {
        b
    } else {
        b.push(FieldDiff { field: PayloadField::ReceiptsRoot, derived: d.receipts_root, trusted: t.receipts_root })
    }
}

/// Whether the outcome `r` is the trusted strategy's judgement of `d` on `reply`.
pub open spec fn trusted_judgement(d: PayloadSummary, reply: TrustedReply, r: ValidationOutcome) -> bool {
    match reply {
        TrustedReply::Unreachable => r == ValidationOutcome::Indeterminate(IndeterminateCause::Unreachable),
        TrustedReply::NotFinal => r == ValidationOutcome::Indeterminate(IndeterminateCause::NotFinal),
        TrustedReply::Block(t) => if field_diffs(d, t).len() == 0 {
            r == ValidationOutcome::Valid
        } else {
            match r {
                ValidationOutcome::Invalid(InvalidReason::Mismatch(v)) => v@ == field_diffs(d, t),
                _ => false,
            }
        },
    }
}

/// Whether the outcome `r` is the engine strategy's judgement on `reply`.
pub open spec fn engine_judgement(reply: EngineReply, r: ValidationOutcome) -> bool {
    match reply {
        EngineReply::Unreachable => r == ValidationOutcome::Indeterminate(IndeterminateCause::Unreachable),
        EngineReply::Status(PayloadStatus::Valid) => r == ValidationOutcome::Valid,
        EngineReply::Status(PayloadStatus::Invalid(e)) => r == ValidationOutcome::Invalid(InvalidReason::Rejected(e)),
        EngineReply::Status(PayloadStatus::Syncing) => r == ValidationOutcome::Indeterminate(IndeterminateCause::Syncing),
        EngineReply::Status(PayloadStatus::Accepted) => r == ValidationOutcome::Indeterminate(IndeterminateCause::Accepted),
    }
}

/// Whether two hashes hold the same bytes.
pub fn same_bytes(a: &[u8; 32], b: &[u8; 32]) -> (r: bool)
    ensures
        r == (a@ == b@),
{
    let mut i: usize = 0;
    while i < 32
        invariant
            0 <= i <= 32,
            a@.len() == 32,
            b@.len() == 32,
            forall|j: int| 0 <= j < i ==> a@[j] == b@[j],
        decreases 32 - i,
    {
        if a[i] != b[i] {
            assert(a@[i as int] != b@[i as int]);
            return false;
        }
        i = i + 1;
    }
    assert(a@ =~= b@);
    true
}

/// Compares a derived payload with the block that the trusted endpoint returned.
pub fn compare_payloads(d: &PayloadSummary, t: &PayloadSummary) -> (r: Vec<FieldDiff>)
    ensures
        r@ == field_diffs(*d, *t),
{
    let mut diffs: Vec<FieldDiff> = Vec::new();
    if !same_bytes(&d.block_hash, &t.block_hash) {
        diffs.push(FieldDiff { field: PayloadField::BlockHash, derived: d.block_hash, trusted: t.block_hash });
    }
    if !same_bytes(&d.state_root, &t.state_root) {
        diffs.push(FieldDiff { field: PayloadField::StateRoot, derived: d.state_root, trusted: t.state_root });
    }
    if !same_bytes(&d.receipts_root, &t.receipts_root) {
        diffs.push(FieldDiff { field: PayloadField::ReceiptsRoot, derived: d.receipts_root, trusted: t.receipts_root });
    }
    assert(diffs@ =~= field_diffs(*d, *t));
    diffs
}

/// Judges a derived payload by the trusted endpoint's answer: equal fields are
/// valid, a difference is invalid with each differing field, and an unreachable
/// or not yet final endpoint leaves the payload undecided.
pub fn judge_trusted(d: &PayloadSummary, reply: TrustedReply) -> (r: ValidationOutcome)
    ensures
        trusted_judgement(*d, reply, r),
{
    match reply {
        TrustedReply::Unreachable => ValidationOutcome::Indeterminate(IndeterminateCause::Unreachable),
        TrustedReply::NotFinal => ValidationOutcome::Indeterminate(IndeterminateCause::NotFinal),
        TrustedReply::Block(t) => {
            let diffs = compare_payloads(d, &t);
            if diffs.len() == 0 {
                ValidationOutcome::Valid
            } else {
                ValidationOutcome::Invalid(InvalidReason::Mismatch(diffs))
            }
        },
    }
}

/// Judges a payload by the engine's answer to its submission: VALID is valid,
/// INVALID is a rejection with the engine's reason, and SYNCING, ACCEPTED or a
/// failed connection leave the payload undecided.
pub fn judge_engine(reply: EngineReply) -> (r: ValidationOutcome)
    ensures
        engine_judgement(reply, r),
{
    match reply {
        EngineReply::Unreachable => ValidationOutcome::Indeterminate(IndeterminateCause::Unreachable),
        EngineReply::Status(PayloadStatus::Valid) => ValidationOutcome::Valid,
        EngineReply::Status(PayloadStatus::Invalid(e)) => ValidationOutcome::Invalid(InvalidReason::Rejected(e)),
        EngineReply::Status(PayloadStatus::Syncing) => ValidationOutcome::Indeterminate(IndeterminateCause::Syncing),
        EngineReply::Status(PayloadStatus::Accepted) => ValidationOutcome::Indeterminate(IndeterminateCause::Accepted),
    }
}

/// Whether `reply` is an answer of the strategy that `mode` uses.
pub open spec fn reply_fits(kind: ModeKind, reply: ValidatorReply) -> bool {
    match reply {
        ValidatorReply::Trusted(_) => kind == ModeKind::Trusted,
        ValidatorReply::Engine(_) => kind == ModeKind::EngineApi,
    }
}

impl ValidationOutcome {
    /// The class of failure of an outcome that is not valid.
    pub fn failure_class(&self) -> (r: Option<FailureClass>)
        ensures
            r == (match self {
                ValidationOutcome::Valid => None,
                ValidationOutcome::Invalid(_) => Some(FailureClass::Validation),
                ValidationOutcome::Indeterminate(_) => Some(FailureClass::Transient),
            }),
    {
        match self {
            ValidationOutcome::Valid => None,
            ValidationOutcome::Invalid(_) => Some(FailureClass::Validation),
            ValidationOutcome::Indeterminate(_) => Some(FailureClass::Transient),
        }
    }
}

impl ValidationMode {
    /// Judges the derived payload `d` by the answer of this mode's endpoint.
    pub fn validate(&self, d: &PayloadSummary, reply: ValidatorReply) -> (r: ValidationOutcome)
        requires
            reply_fits(self.kind(), reply),
        ensures
            match reply {
                ValidatorReply::Trusted(t) => trusted_judgement(*d, t, r),
                ValidatorReply::Engine(e) => engine_judgement(e, r),
            },
    {
        match reply {
            ValidatorReply::Trusted(t) => judge_trusted(d, t),
            ValidatorReply::Engine(e) => judge_engine(e),
        }
    }
}

/// A derived payload that differs from the trusted block in its state root
/// alone is invalid with exactly that field named, and one equal to the
/// trusted block is valid.
pub proof fn lemma_trusted_state_root_diff(d: PayloadSummary, t: PayloadSummary, r: ValidationOutcome)
    requires
        trusted_judgement(d, TrustedReply::Block(t), r),
    ensures
        d.block_hash@ == t.block_hash@ && d.receipts_root@ == t.receipts_root@ && d.state_root@
            != t.state_root@ ==> (r matches ValidationOutcome::Invalid(InvalidReason::Mismatch(v))
            && v@ == seq![FieldDiff { field: PayloadField::StateRoot, derived: d.state_root, trusted: t.state_root }]),
        d.block_hash@ == t.block_hash@ && d.state_root@ == t.state_root@ && d.receipts_root@ == t.receipts_root@
            ==> r == ValidationOutcome::Valid,
{
    if d.block_hash@ == t.block_hash@ && d.receipts_root@ == t.receipts_root@ && d.state_root@ != t.state_root@ {
        let e = seq![FieldDiff { field: PayloadField::StateRoot, derived: d.state_root, trusted: t.state_root }];
        assert(field_diffs(d, t) =~= e);
    }
}

/// An engine that answers SYNCING leaves the payload undecided.
pub proof fn lemma_engine_syncing_indeterminate(r: ValidationOutcome)
    requires
        engine_judgement(EngineReply::Status(PayloadStatus::Syncing), r),
    ensures
        r is Indeterminate,
{
}

} // verus!
