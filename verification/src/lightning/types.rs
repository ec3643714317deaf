//! Value types for Lightning transaction identification.

use vstd::prelude::*;

verus! {

/// Confidence level for Lightning transaction identification.
///
/// The variants are ordered: `NoSignals < Possible < HighlyLikely`.
#[derive(Clone, Copy, Debug, PartialEq, Eq, PartialOrd, Ord)]
pub enum Confidence {
    /// No Lightning signals detected.
    NoSignals,
    /// Some signals match but not conclusive.
    Possible,
    /// Multiple strong signals align.
    HighlyLikely,
}

/// The rank of a confidence level; contracts compare confidences by rank.
pub open spec fn confidence_rank(c: Confidence) -> int {
    match c {
        Confidence::NoSignals => 0,
        Confidence::Possible => 1,
        Confidence::HighlyLikely => 2,
    }
}

/// What type of Lightning transaction this is.
#[derive(Clone, Copy, Debug, PartialEq, Eq)]
pub enum LightningTxType {
    /// Force-close: spends the funding output, creates to_local / to_remote
    /// / HTLC outputs.
    Commitment,
    /// Refund path: HTLC expired, no preimage revealed.
    HtlcTimeout,
    /// Claim path: preimage revealed on-chain.
    HtlcSuccess,
}

/// Signals found when checking for commitment transaction patterns.
#[derive(Clone, Debug)]
pub struct CommitmentSignals {
    /// Locktime is in the Lightning encoding range (upper byte 0x20).
    pub locktime_match: bool,
    /// At least one input has a sequence with upper byte 0x80.
    pub sequence_match: bool,
    /// At least one output carries exactly 330 satoshis (anchor output).
    pub has_anchor_outputs: bool,
    /// Number of anchor outputs found.
    pub anchor_output_count: usize,
}

/// Signals found when checking for HTLC second-stage transaction patterns.
#[derive(Clone, Debug)]
pub struct HtlcSignals {
    /// The transaction's nLockTime, verbatim.
    pub locktime_value: u32,
    /// Whether a 32-byte preimage was found in witness data.
    pub has_preimage: bool,
    /// The preimage hex if found.
    pub preimage: Option<String>,
    /// Whether a witness script contains a CLTV opcode.
    pub script_has_cltv: bool,
    /// Whether a witness script contains a CSV opcode.
    pub script_has_csv: bool,
}

/// Complete Lightning identification result for a transaction.
#[derive(Clone, Debug)]
pub struct LightningClassification {
    pub tx_type: Option<LightningTxType>,
    pub confidence: Confidence,
    pub commitment_signals: CommitmentSignals,
    pub htlc_signals: HtlcSignals,
    pub params: LightningParams,
}

/// Extracted Lightning-specific parameters.
#[derive(Clone, Debug)]
pub struct LightningParams {
    /// Obscured commitment number (from the locktime + sequence encoding).
    pub commitment_number: Option<u64>,
    /// Number of HTLC outputs on a commitment transaction.
    pub htlc_output_count: Option<usize>,
    /// CLTV expiry block height (from an HTLC-timeout nLockTime).
    pub cltv_expiry: Option<u32>,
    /// CSV delay values found in witness scripts, in encounter order.
    pub csv_delays: Vec<u16>,
    /// Whether a preimage was revealed (HTLC-success).
    pub preimage_revealed: bool,
    /// The preimage itself if revealed.
    pub preimage: Option<String>,
}

/// The mathematical content of `CommitmentSignals`.
#[verifier::ext_equal]
pub struct CommitmentSignalsV {
    pub locktime_match: bool,
    pub sequence_match: bool,
    pub has_anchor_outputs: bool,
    pub anchor_output_count: int,
}

/// The mathematical content of `HtlcSignals`.
#[verifier::ext_equal]
pub struct HtlcSignalsV {
    pub locktime_value: u32,
    pub has_preimage: bool,
    pub preimage: Option<Seq<char>>,
    pub script_has_cltv: bool,
    pub script_has_csv: bool,
}

/// The mathematical content of `LightningParams`.
#[verifier::ext_equal]
pub struct LightningParamsV {
    pub commitment_number: Option<u64>,
    pub htlc_output_count: Option<int>,
    pub cltv_expiry: Option<u32>,
    pub csv_delays: Seq<u16>,
    pub preimage_revealed: bool,
    pub preimage: Option<Seq<char>>,
}

/// The mathematical content of `LightningClassification`.
#[verifier::ext_equal]
pub struct LightningClassificationV {
    pub tx_type: Option<LightningTxType>,
    pub confidence: Confidence,
    pub commitment_signals: CommitmentSignalsV,
    pub htlc_signals: HtlcSignalsV,
    pub params: LightningParamsV,
}

impl View for CommitmentSignals {
    type V = CommitmentSignalsV;

    open spec fn view(&self) -> CommitmentSignalsV {
        CommitmentSignalsV {
            locktime_match: self.locktime_match,
            sequence_match: self.sequence_match,
            has_anchor_outputs: self.has_anchor_outputs,
            anchor_output_count: self.anchor_output_count as int,
        }
    }
}

impl View for HtlcSignals {
    type V = HtlcSignalsV;

    open spec fn view(&self) -> HtlcSignalsV {
        HtlcSignalsV {
            locktime_value: self.locktime_value,
            has_preimage: self.has_preimage,
            preimage: self.preimage.deep_view(),
            script_has_cltv: self.script_has_cltv,
            script_has_csv: self.script_has_csv,
        }
    }
}

impl View for LightningParams {
    type V = LightningParamsV;

    open spec fn view(&self) -> LightningParamsV {
        LightningParamsV {
            commitment_number: self.commitment_number,
            htlc_output_count: match self.htlc_output_count {
                Some(c) => Some(c as int),
                None => None,
            },
            cltv_expiry: self.cltv_expiry,
            csv_delays: self.csv_delays@,
            preimage_revealed: self.preimage_revealed,
            preimage: self.preimage.deep_view(),
        }
    }
}

impl View for LightningClassification {
    type V = LightningClassificationV;

    open spec fn view(&self) -> LightningClassificationV {
        LightningClassificationV {
            tx_type: self.tx_type,
            confidence: self.confidence,
            commitment_signals: self.commitment_signals@,
            htlc_signals: self.htlc_signals@,
            params: self.params@,
        }
    }
}

} // verus!
