//! Value types describing the timelocks of one transaction.

use vstd::prelude::*;

verus! {

/// How a transaction's raw nLockTime value is interpreted.
#[derive(Clone, Copy, Debug, PartialEq, Eq)]
pub enum NLockTimeKind {
    /// nLockTime is zero and has no effect.
    Disabled,
    /// A block height (raw value below 500,000,000).
    BlockHeight(u32),
    /// A Unix timestamp (raw value at least 500,000,000).
    UnixTime(u32),
}

/// The nLockTime field of a transaction, interpreted.
#[derive(Clone, Debug)]
pub struct NLockTimeInfo {
    pub raw_value: u32,
    pub kind: NLockTimeKind,
    pub human_readable: String,
}

/// What one input's nSequence value means under BIP-68/112/125.
#[derive(Clone, Copy, Debug, PartialEq, Eq)]
pub enum SequenceMeaning {
    /// 0xFFFFFFFF: final; disables nLockTime for this input.
    Final,
    /// Disable flag set: no relative timelock, nLockTime still enabled.
    LocktimeEnabled,
    /// 0xFFFFFFFE or 0xFFFFFFFD: signals opt-in replace-by-fee.
    RbfEnabled,
    /// Disable flag clear: a relative timelock is active.
    RelativeTimelock,
    /// None of the recognized patterns.
    NonStandard,
}

/// The unit of a relative timelock encoded in an nSequence value.
#[derive(Clone, Copy, Debug, PartialEq, Eq)]
pub enum TimelockUnits {
    /// The value counts blocks.
    Blocks,
    /// The value counts 512-second periods.
    TimePeriods,
}

/// A relative timelock decoded from an nSequence value.
#[derive(Clone, Debug)]
pub struct RelativeTimelock {
    pub units: TimelockUnits,
    /// The low 16 bits of the sequence value.
    pub value: u16,
    pub human_readable: String,
}

/// One input's nSequence value, interpreted.
#[derive(Clone, Debug)]
pub struct InputSequenceInfo {
    pub input_index: usize,
    /// The raw sequence as `0x` plus eight hex digits.
    pub raw_hex: String,
    pub raw: u32,
    pub meaning: SequenceMeaning,
    /// Populated only for the `RelativeTimelock` meaning.
    pub relative_timelock: Option<RelativeTimelock>,
}

/// Which script field of an input a script timelock was found in.
#[derive(Clone, Copy, Debug, PartialEq, Eq)]
pub enum ScriptField {
    ScriptSig,
    RedeemScript,
    WitnessScript,
}

/// How a script timelock operand is interpreted.
#[derive(Clone, Copy, Debug, PartialEq, Eq)]
pub enum TimelockInterpretation {
    AbsoluteBlockHeight,
    AbsoluteUnixTime,
    RelativeBlocks,
    /// Relative time in 512-second units.
    RelativeTime,
}

/// A CLTV or CSV opcode found in a script field, with the numeric operand
/// that precedes it, if any.
#[derive(Clone, Debug)]
pub struct ScriptTimelock {
    pub input_index: usize,
    pub script_field: ScriptField,
    /// The preceding decimal operand, or -1 when none was found.
    pub raw_value: i64,
    pub interpretation: TimelockInterpretation,
    pub human_readable: String,
}

/// Aggregate counts over one transaction's timelocks.
#[derive(Clone, Debug)]
pub struct AnalysisSummary {
    /// nLockTime is non-zero and some input has a non-final sequence.
    pub nlocktime_active: bool,
    pub relative_timelock_count: usize,
    pub cltv_count: usize,
    pub csv_count: usize,
    /// Whether any of the other summary fields indicates a timelock.
    pub has_active_timelocks: bool,
}

/// The complete timelock analysis of one transaction.
#[derive(Clone, Debug)]
pub struct TransactionAnalysis {
    pub txid: String,
    pub nlocktime: NLockTimeInfo,
    pub inputs: Vec<InputSequenceInfo>,
    pub cltv_timelocks: Vec<ScriptTimelock>,
    pub csv_timelocks: Vec<ScriptTimelock>,
    pub summary: AnalysisSummary,
}

/// The mathematical content of `NLockTimeInfo`.
#[verifier::ext_equal]
pub struct NLockTimeInfoV {
    pub raw_value: u32,
    pub kind: NLockTimeKind,
    pub human_readable: Seq<char>,
}

/// The mathematical content of `RelativeTimelock`.
#[verifier::ext_equal]
pub struct RelativeTimelockV {
    pub units: TimelockUnits,
    pub value: u16,
    pub human_readable: Seq<char>,
}

/// The mathematical content of `InputSequenceInfo`.
#[verifier::ext_equal]
pub struct InputSequenceInfoV {
    pub input_index: int,
    pub raw_hex: Seq<char>,
    pub raw: u32,
    pub meaning: SequenceMeaning,
    pub relative_timelock: Option<RelativeTimelockV>,
}

/// The mathematical content of `ScriptTimelock`.
#[verifier::ext_equal]
pub struct ScriptTimelockV {
    pub input_index: int,
    pub script_field: ScriptField,
    pub raw_value: i64,
    pub interpretation: TimelockInterpretation,
    pub human_readable: Seq<char>,
}

/// The mathematical content of `AnalysisSummary`.
#[verifier::ext_equal]
pub struct AnalysisSummaryV {
    pub nlocktime_active: bool,
    pub relative_timelock_count: int,
    pub cltv_count: int,
    pub csv_count: int,
    pub has_active_timelocks: bool,
}

/// The mathematical content of `TransactionAnalysis`.
#[verifier::ext_equal]
pub struct TransactionAnalysisV {
    pub txid: Seq<char>,
    pub nlocktime: NLockTimeInfoV,
    pub inputs: Seq<InputSequenceInfoV>,
    pub cltv_timelocks: Seq<ScriptTimelockV>,
    pub csv_timelocks: Seq<ScriptTimelockV>,
    pub summary: AnalysisSummaryV,
}

/// The views of a sequence's elements, element-wise.
pub open spec fn views_of<T: View>(s: Seq<T>) -> Seq<T::V> {
    s.map_values(|x: T| x@)
}

impl View for NLockTimeInfo {
    type V = NLockTimeInfoV;

    open spec fn view(&self) -> NLockTimeInfoV {
        NLockTimeInfoV {
            raw_value: self.raw_value,
            kind: self.kind,
            human_readable: self.human_readable@,
        }
    }
}

impl View for RelativeTimelock {
    type V = RelativeTimelockV;

    open spec fn view(&self) -> RelativeTimelockV {
        RelativeTimelockV {
            units: self.units,
            value: self.value,
            human_readable: self.human_readable@,
        }
    }
}

impl View for InputSequenceInfo {
    type V = InputSequenceInfoV;

    open spec fn view(&self) -> InputSequenceInfoV {
        InputSequenceInfoV {
            input_index: self.input_index as int,
            raw_hex: self.raw_hex@,
            raw: self.raw,
            meaning: self.meaning,
            relative_timelock: match self.relative_timelock {
                Some(r) => Some(r@),
                None => None,
            },
        }
    }
}

impl View for ScriptTimelock {
    type V = ScriptTimelockV;

    open spec fn view(&self) -> ScriptTimelockV {
        ScriptTimelockV {
            input_index: self.input_index as int,
            script_field: self.script_field,
            raw_value: self.raw_value,
            interpretation: self.interpretation,
            human_readable: self.human_readable@,
        }
    }
}

impl View for AnalysisSummary {
    type V = AnalysisSummaryV;

    open spec fn view(&self) -> AnalysisSummaryV {
        AnalysisSummaryV {
            nlocktime_active: self.nlocktime_active,
            relative_timelock_count: self.relative_timelock_count as int,
            cltv_count: self.cltv_count as int,
            csv_count: self.csv_count as int,
            has_active_timelocks: self.has_active_timelocks,
        }
    }
}

impl View for TransactionAnalysis {
    type V = TransactionAnalysisV;

    open spec fn view(&self) -> TransactionAnalysisV {
        TransactionAnalysisV {
            txid: self.txid@,
            nlocktime: self.nlocktime@,
            inputs: views_of(self.inputs@),
            cltv_timelocks: views_of(self.cltv_timelocks@),
            csv_timelocks: views_of(self.csv_timelocks@),
            summary: self.summary@,
        }
    }
}

} // verus!
