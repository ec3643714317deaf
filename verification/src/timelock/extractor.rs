//! The timelock extractor: interprets nLockTime, every input's nSequence,
//! and the CLTV/CSV opcodes of every script field.

use vstd::prelude::*;

use crate::api::types::{ApiTransaction, ApiVin};
use crate::render::{dec_int_rep, dec_rep, hex32, i64_to_dec, push_dec_u64, u32_to_hex, u64_to_dec};
use crate::script::{
    is_cltv_token, is_csv_token, spec_parse_i64, parse_i64, token_is_cltv, token_is_csv, tokenize,
    tokens_of,
};
use crate::timelock::types::{
    AnalysisSummary, AnalysisSummaryV, InputSequenceInfo, InputSequenceInfoV, NLockTimeInfo,
    NLockTimeInfoV, NLockTimeKind, RelativeTimelock, RelativeTimelockV, ScriptField,
    ScriptTimelock, ScriptTimelockV, SequenceMeaning, TimelockInterpretation, TimelockUnits,
    TransactionAnalysis, TransactionAnalysisV, views_of,
};

verus! {

/// Raw nLockTime values below this threshold are block heights; values at or
/// above it are Unix times.
pub const LOCKTIME_THRESHOLD: u32 = 500_000_000;

// ─── Specification: nLockTime ───────────────────────────────────────────────

/// nLockTime interpretation: zero is disabled, values below the threshold
/// are block heights, all others Unix times.
pub open spec fn spec_nlocktime_kind(locktime: u32) -> NLockTimeKind {
    if locktime == 0 {
        NLockTimeKind::Disabled
    } else if locktime < LOCKTIME_THRESHOLD {
        NLockTimeKind::BlockHeight(locktime)
    } else {
        NLockTimeKind::UnixTime(locktime)
    }
}

pub open spec fn spec_nlocktime_hr(locktime: u32) -> Seq<char> {
    if locktime == 0 {
        "disabled"@
    } else if locktime < LOCKTIME_THRESHOLD {
        "block "@ + dec_rep(locktime as int)
    } else {
        "unix "@ + dec_rep(locktime as int)
    }
}

pub open spec fn spec_nlocktime_info(locktime: u32) -> NLockTimeInfoV {
    NLockTimeInfoV {
        raw_value: locktime,
        kind: spec_nlocktime_kind(locktime),
        human_readable: spec_nlocktime_hr(locktime),
    }
}

// ─── Specification: nSequence ───────────────────────────────────────────────

/// The BIP-68/112/125 decision table for one nSequence value.
pub open spec fn spec_sequence_meaning(s: u32) -> SequenceMeaning {
    if s == 0xFFFF_FFFF {
        SequenceMeaning::Final
    } else if s & 0x8000_0000 != 0 {
        if s == 0xFFFF_FFFE || s == 0xFFFF_FFFD {
            SequenceMeaning::RbfEnabled
        } else {
            SequenceMeaning::LocktimeEnabled
        }
    } else {
        SequenceMeaning::RelativeTimelock
    }
}

/// With the disable flag clear, the low 16 bits are the value and bit 22
/// selects 512-second periods over blocks.
pub open spec fn spec_relative_timelock(s: u32) -> RelativeTimelockV {
    let time_based = s & 0x0040_0000 != 0;
    let value = s as u16;
    RelativeTimelockV {
        units: if time_based {
            TimelockUnits::TimePeriods
        } else {
            TimelockUnits::Blocks
        },
        value,
        human_readable: if time_based {
            dec_rep(value as int * 512) + " seconds"@
        } else {
            dec_rep(value as int) + " blocks"@
        },
    }
}

pub open spec fn spec_input_info(idx: int, s: u32) -> InputSequenceInfoV {
    InputSequenceInfoV {
        input_index: idx,
        raw_hex: seq!['0', 'x'] + hex32(s),
        raw: s,
        meaning: spec_sequence_meaning(s),
        relative_timelock: if spec_sequence_meaning(s) == SequenceMeaning::RelativeTimelock {
            Some(spec_relative_timelock(s))
        } else {
            None
        },
    }
}

pub open spec fn spec_inputs(vins: Seq<ApiVin>) -> Seq<InputSequenceInfoV> {
    Seq::new(vins.len(), |i: int| spec_input_info(i, vins[i].sequence))
}

// ─── Specification: script timelocks ────────────────────────────────────────

/// One recorded script timelock. A missing operand is recorded with raw
/// value -1 and an "unknown" description. CLTV operands below the locktime
/// threshold are absolute block heights, others absolute Unix times; CSV
/// operands take their unit from bit 22 of their 32-bit representation, and
/// only their low 16 bits are meaningful.
pub open spec fn spec_timelock_entry(
    idx: int,
    field: ScriptField,
    num: Option<i64>,
    csv: bool,
) -> ScriptTimelockV {
    match num {
        Some(v) => if csv {
            let time_based = (v as u32) & 0x0040_0000 != 0;
            let low16 = v as u16;
            ScriptTimelockV {
                input_index: idx,
                script_field: field,
                raw_value: v,
                interpretation: if time_based {
                    TimelockInterpretation::RelativeTime
                } else {
                    TimelockInterpretation::RelativeBlocks
                },
                human_readable: if time_based {
                    dec_rep(low16 as int * 512) + " seconds"@
                } else {
                    dec_rep(low16 as int) + " blocks"@
                },
            }
        } else {
            ScriptTimelockV {
                input_index: idx,
                script_field: field,
                raw_value: v,
                interpretation: if v < LOCKTIME_THRESHOLD as i64 {
                    TimelockInterpretation::AbsoluteBlockHeight
                } else {
                    TimelockInterpretation::AbsoluteUnixTime
                },
                human_readable: (if v < LOCKTIME_THRESHOLD as i64 {
                    "block "@
                } else {
                    "unix "@
                }) + dec_int_rep(v as int),
            }
        },
        None => ScriptTimelockV {
            input_index: idx,
            script_field: field,
            raw_value: -1i64,
            interpretation: if csv {
                TimelockInterpretation::RelativeBlocks
            } else {
                TimelockInterpretation::AbsoluteBlockHeight
            },
            human_readable: "unknown"@,
        },
    }
}

/// Whether the token at position `i` triggers a record for this scan.
pub open spec fn spec_token_match(t: Seq<char>, csv: bool) -> bool {
    if csv {
        is_csv_token(t)
    } else {
        is_cltv_token(t)
    }
}

/// The operand preceding position `i`, if that token parses as a signed
/// decimal.
pub open spec fn spec_operand(toks: Seq<Seq<char>>, i: int) -> Option<i64> {
    if i > 0 {
        spec_parse_i64(toks[i - 1])
    } else {
        None
    }
}

/// Script timelocks recorded from token positions `i` and later.
pub open spec fn spec_script_timelocks_from(
    toks: Seq<Seq<char>>,
    i: int,
    idx: int,
    field: ScriptField,
    csv: bool,
) -> Seq<ScriptTimelockV>
    decreases toks.len() - i,
{
    if i >= toks.len() {
        Seq::empty()
    } else {
        (if spec_token_match(toks[i], csv) {
            seq![spec_timelock_entry(idx, field, spec_operand(toks, i), csv)]
        } else {
            Seq::empty()
        }) + spec_script_timelocks_from(toks, i + 1, idx, field, csv)
    }
}

pub open spec fn spec_script_timelocks(
    toks: Seq<Seq<char>>,
    idx: int,
    field: ScriptField,
    csv: bool,
) -> Seq<ScriptTimelockV> {
    spec_script_timelocks_from(toks, 0, idx, field, csv)
}

/// Script timelocks of one input: scriptSig, then redeem script, then
/// witness script, each if present.
pub open spec fn spec_vin_script_timelocks(v: ApiVin, idx: int, csv: bool) -> Seq<
    ScriptTimelockV,
> {
    (match v.scriptsig_asm {
        Some(a) => spec_script_timelocks(tokens_of(a@), idx, ScriptField::ScriptSig, csv),
        None => Seq::empty(),
    }) + (match v.inner_redeemscript_asm {
        Some(a) => spec_script_timelocks(tokens_of(a@), idx, ScriptField::RedeemScript, csv),
        None => Seq::empty(),
    }) + (match v.inner_witnessscript_asm {
        Some(a) => spec_script_timelocks(tokens_of(a@), idx, ScriptField::WitnessScript, csv),
        None => Seq::empty(),
    })
}

/// Script timelocks over all inputs, in input order.
pub open spec fn spec_tx_script_timelocks(vins: Seq<ApiVin>, csv: bool) -> Seq<ScriptTimelockV>
    decreases vins.len(),
{
    if vins.len() == 0 {
        Seq::empty()
    } else {
        spec_tx_script_timelocks(vins.drop_last(), csv) + spec_vin_script_timelocks(
            vins.last(),
            vins.len() - 1,
            csv,
        )
    }
}

// ─── Specification: summary ─────────────────────────────────────────────────

pub open spec fn spec_any_nonfinal(vins: Seq<ApiVin>) -> bool {
    exists|i: int| 0 <= i < vins.len() && vins[i].sequence < 0xFFFF_FFFF
}

/// Per BIP-65, nLockTime only takes effect when it is non-zero and at least
/// one input has a non-final sequence.
pub open spec fn spec_nlocktime_active(tx: ApiTransaction) -> bool {
    spec_nlocktime_kind(tx.locktime) != NLockTimeKind::Disabled && spec_any_nonfinal(tx.vin@)
}

/// The number of inputs whose sequence encodes a relative timelock.
pub open spec fn spec_relative_count(vins: Seq<ApiVin>) -> int
    decreases vins.len(),
{
    if vins.len() == 0 {
        0
    } else {
        spec_relative_count(vins.drop_last()) + if spec_sequence_meaning(vins.last().sequence)
            == SequenceMeaning::RelativeTimelock {
            1int
        } else {
            0int
        }
    }
}

pub open spec fn spec_summary(tx: ApiTransaction) -> AnalysisSummaryV {
    let nlocktime_active = spec_nlocktime_active(tx);
    let relative_timelock_count = spec_relative_count(tx.vin@);
    let cltv_count = spec_tx_script_timelocks(tx.vin@, false).len() as int;
    let csv_count = spec_tx_script_timelocks(tx.vin@, true).len() as int;
    AnalysisSummaryV {
        nlocktime_active,
        relative_timelock_count,
        cltv_count,
        csv_count,
        has_active_timelocks: nlocktime_active || relative_timelock_count > 0 || cltv_count > 0
            || csv_count > 0,
    }
}

/// The full timelock analysis of one transaction record.
pub open spec fn spec_analyze(tx: ApiTransaction) -> TransactionAnalysisV {
    TransactionAnalysisV {
        txid: tx.txid@,
        nlocktime: spec_nlocktime_info(tx.locktime),
        inputs: spec_inputs(tx.vin@),
        cltv_timelocks: spec_tx_script_timelocks(tx.vin@, false),
        csv_timelocks: spec_tx_script_timelocks(tx.vin@, true),
        summary: spec_summary(tx),
    }
}

// ─── Laws ───────────────────────────────────────────────────────────────────

/// Purity: the analysis is a function of the transaction record alone, so
/// equal records always analyze identically.
pub proof fn lemma_analysis_pure(tx1: ApiTransaction, tx2: ApiTransaction)
    requires
        tx1 == tx2,
    ensures
        spec_analyze(tx1) == spec_analyze(tx2),
{
}

/// The nLockTime interpretation splits exactly at the threshold: zero is
/// disabled, positive values below 500,000,000 are block heights, all
/// others Unix times.
pub proof fn lemma_nlocktime_split(locktime: u32)
    ensures
        spec_nlocktime_kind(locktime) == NLockTimeKind::Disabled <==> locktime == 0,
        spec_nlocktime_kind(locktime) == NLockTimeKind::BlockHeight(locktime) <==> 1 <= locktime
            < 500_000_000,
        spec_nlocktime_kind(locktime) == NLockTimeKind::UnixTime(locktime) <==> locktime
            >= 500_000_000,
{
}

/// For a relative timelock, bit 22 of the sequence deterministically
/// selects the unit: set means 512-second periods, clear means blocks.
pub proof fn lemma_relative_timelock_units(s: u32)
    ensures
        spec_relative_timelock(s).units == TimelockUnits::TimePeriods <==> s & 0x0040_0000 != 0,
        spec_relative_timelock(s).units == TimelockUnits::Blocks <==> s & 0x0040_0000 == 0,
{
}

/// The summary's headline flag holds exactly when some timelock is active:
/// an effective nLockTime, a relative timelock, or a script timelock.
pub proof fn lemma_summary_active_iff(tx: ApiTransaction)
    ensures
        spec_summary(tx).has_active_timelocks <==> (spec_summary(tx).nlocktime_active
            || spec_summary(tx).relative_timelock_count > 0 || spec_summary(tx).cltv_count > 0
            || spec_summary(tx).csv_count > 0),
{
}

// ─── Executable extractor ───────────────────────────────────────────────────

fn classify_nlocktime(locktime: u32) -> (r: NLockTimeInfo)
    ensures
        r@ == spec_nlocktime_info(locktime),
{
    if locktime == 0 {
        NLockTimeInfo {
            raw_value: locktime,
            kind: NLockTimeKind::Disabled,
            human_readable: String::from_str("disabled"),
        }
    } else if locktime < LOCKTIME_THRESHOLD {
        let mut hr = String::from_str("block ");
        push_dec_u64(&mut hr, locktime as u64);
        NLockTimeInfo {
            raw_value: locktime,
            kind: NLockTimeKind::BlockHeight(locktime),
            human_readable: hr,
        }
    } else {
        let mut hr = String::from_str("unix ");
        push_dec_u64(&mut hr, locktime as u64);
        NLockTimeInfo {
            raw_value: locktime,
            kind: NLockTimeKind::UnixTime(locktime),
            human_readable: hr,
        }
    }
}

fn make_relative_timelock(s: u32) -> (r: RelativeTimelock)
    ensures
        r@ == spec_relative_timelock(s),
{
    let time_based = s & 0x0040_0000 != 0;
    let value: u16 = #[verifier::truncate] (s as u16);
    let mut hr: String;
    let units: TimelockUnits;
    if time_based {
        hr = u64_to_dec((value as u64) * 512);
        hr.append(" seconds");
        units = TimelockUnits::TimePeriods;
    } else {
        hr = u64_to_dec(value as u64);
        hr.append(" blocks");
        units = TimelockUnits::Blocks;
    }
    RelativeTimelock { units, value, human_readable: hr }
}

fn classify_sequence(input_index: usize, s: u32) -> (r: InputSequenceInfo)
    ensures
        r@ == spec_input_info(input_index as int, s),
{
    let raw_hex = u32_to_hex(s);
    let meaning: SequenceMeaning = if s == 0xFFFF_FFFF {
        SequenceMeaning::Final
    } else if s & 0x8000_0000 != 0 {
        if s == 0xFFFF_FFFE || s == 0xFFFF_FFFD {
            SequenceMeaning::RbfEnabled
        } else {
            SequenceMeaning::LocktimeEnabled
        }
    } else {
        SequenceMeaning::RelativeTimelock
    };
    assert(meaning == spec_sequence_meaning(s));
    let relative_timelock: Option<RelativeTimelock> = if matches!(
        meaning,
        SequenceMeaning::RelativeTimelock,
    ) {
        Some(make_relative_timelock(s))
    } else {
        None
    };
    InputSequenceInfo { input_index, raw_hex, raw: s, meaning, relative_timelock }
}

fn make_timelock_entry(input_index: usize, field: ScriptField, num: Option<i64>, csv: bool) -> (t:
    ScriptTimelock)
    ensures
        t@ == spec_timelock_entry(input_index as int, field, num, csv),
{
    match num {
        Some(v) => {
            if csv {
                let vu: u32 = #[verifier::truncate] (v as u32);
                let time_based = vu & 0x0040_0000 != 0;
                let low16: u16 = #[verifier::truncate] (v as u16);
                let mut hr: String;
                let interpretation: TimelockInterpretation;
                if time_based {
                    hr = u64_to_dec((low16 as u64) * 512);
                    hr.append(" seconds");
                    interpretation = TimelockInterpretation::RelativeTime;
                } else {
                    hr = u64_to_dec(low16 as u64);
                    hr.append(" blocks");
                    interpretation = TimelockInterpretation::RelativeBlocks;
                }
                ScriptTimelock {
                    input_index,
                    script_field: field,
                    raw_value: v,
                    interpretation,
                    human_readable: hr,
                }
            } else {
                let absolute_height = v < LOCKTIME_THRESHOLD as i64;
                let mut hr = if absolute_height {
                    String::from_str("block ")
                } else {
                    String::from_str("unix ")
                };
                let digits = i64_to_dec(v);
                hr.append(digits.as_str());
                ScriptTimelock {
                    input_index,
                    script_field: field,
                    raw_value: v,
                    interpretation: if absolute_height {
                        TimelockInterpretation::AbsoluteBlockHeight
                    } else {
                        TimelockInterpretation::AbsoluteUnixTime
                    },
                    human_readable: hr,
                }
            }
        },
        None => ScriptTimelock {
            input_index,
            script_field: field,
            raw_value: -1i64,
            interpretation: if csv {
                TimelockInterpretation::RelativeBlocks
            } else {
                TimelockInterpretation::AbsoluteBlockHeight
            },
            human_readable: String::from_str("unknown"),
        },
    }
}

/// Scans one tokenized script left to right and appends a record for every
/// matching opcode token.
fn scan_script_timelocks(
    toks: &Vec<String>,
    input_index: usize,
    field: ScriptField,
    csv: bool,
    out: &mut Vec<ScriptTimelock>,
)
    ensures
        views_of(final(out)@) == views_of(old(out)@) + spec_script_timelocks(
            toks.deep_view(),
            input_index as int,
            field,
            csv,
        ),
{
    let ghost tv = toks.deep_view();
    let ghost base = views_of(out@);
    let ghost idx = input_index as int;
    let mut i: usize = 0;
    while i < toks.len()
        invariant
            0 <= i <= tv.len(),
            tv == toks.deep_view(),
            tv.len() == toks@.len(),
            idx == input_index as int,
            base + spec_script_timelocks_from(tv, 0, idx, field, csv) == views_of(out@)
                + spec_script_timelocks_from(tv, i as int, idx, field, csv),
        decreases tv.len() - i,
    {
        let matched = if csv {
            token_is_csv(toks[i].as_str())
        } else {
            token_is_cltv(toks[i].as_str())
        };
        assert(matched == spec_token_match(tv[i as int], csv));
        if matched {
            let num: Option<i64> = if i > 0 {
                parse_i64(toks[i - 1].as_str())
            } else {
                None
            };
            assert(num == spec_operand(tv, i as int));
            let entry = make_timelock_entry(input_index, field, num, csv);
            let ghost before = views_of(out@);
            out.push(entry);
            proof {
                assert(views_of(out@) =~= before + seq![entry@]);
                assert(spec_script_timelocks_from(tv, i as int, idx, field, csv) == seq![entry@]
                    + spec_script_timelocks_from(tv, i + 1, idx, field, csv));
                assert(before + (seq![entry@] + spec_script_timelocks_from(
                    tv,
                    i + 1,
                    idx,
                    field,
                    csv,
                )) =~= (before + seq![entry@]) + spec_script_timelocks_from(
                    tv,
                    i + 1,
                    idx,
                    field,
                    csv,
                ));
            }
        } else {
            proof {
                assert(spec_script_timelocks_from(tv, i as int, idx, field, csv) == Seq::<
                    ScriptTimelockV,
                >::empty() + spec_script_timelocks_from(tv, i + 1, idx, field, csv));
                assert(Seq::<ScriptTimelockV>::empty() + spec_script_timelocks_from(
                    tv,
                    i + 1,
                    idx,
                    field,
                    csv,
                ) =~= spec_script_timelocks_from(tv, i + 1, idx, field, csv));
            }
        }
        i += 1;
    }
    proof {
        assert(spec_script_timelocks_from(tv, tv.len() as int, idx, field, csv) =~= Seq::<
            ScriptTimelockV,
        >::empty());
        assert(views_of(out@) + Seq::<ScriptTimelockV>::empty() =~= views_of(out@));
    }
}

/// Appends the script timelocks of one input, scanning each script field
/// that is present.
fn scan_vin_script_timelocks(vin: &ApiVin, input_index: usize, csv: bool, out: &mut Vec<
    ScriptTimelock,
>)
    ensures
        views_of(final(out)@) == views_of(old(out)@) + spec_vin_script_timelocks(
            *vin,
            input_index as int,
            csv,
        ),
{
    let ghost base = views_of(out@);
    match &vin.scriptsig_asm {
        Some(a) => {
            let toks = tokenize(a.as_str());
            scan_script_timelocks(&toks, input_index, ScriptField::ScriptSig, csv, out);
        },
        None => {
            proof {
                assert(base + Seq::<ScriptTimelockV>::empty() =~= base);
            }
        },
    }
    let ghost after_sig = views_of(out@);
    match &vin.inner_redeemscript_asm {
        Some(a) => {
            let toks = tokenize(a.as_str());
            scan_script_timelocks(&toks, input_index, ScriptField::RedeemScript, csv, out);
        },
        None => {
            proof {
                assert(after_sig + Seq::<ScriptTimelockV>::empty() =~= after_sig);
            }
        },
    }
    let ghost after_redeem = views_of(out@);
    match &vin.inner_witnessscript_asm {
        Some(a) => {
            let toks = tokenize(a.as_str());
            scan_script_timelocks(&toks, input_index, ScriptField::WitnessScript, csv, out);
        },
        None => {
            proof {
                assert(after_redeem + Seq::<ScriptTimelockV>::empty() =~= after_redeem);
            }
        },
    }
    proof {
        assert(views_of(out@) =~= base + spec_vin_script_timelocks(*vin, input_index as int, csv));
    }
}

/// Analyzes one transaction: nLockTime interpretation, per-input nSequence
/// interpretation, and every CLTV/CSV script timelock.
///
/// The analysis never fails, and every field of the result equals its
/// specification on the record's value.
pub fn analyze(tx: &ApiTransaction) -> (r: TransactionAnalysis)
    ensures
        r@ == spec_analyze(*tx),
{
    let ghost vins = tx.vin@;
    let nlocktime = classify_nlocktime(tx.locktime);

    let mut inputs: Vec<InputSequenceInfo> = Vec::new();
    let mut relative_timelock_count: usize = 0;
    let mut any_nonfinal = false;
    let mut cltv_timelocks: Vec<ScriptTimelock> = Vec::new();
    let mut csv_timelocks: Vec<ScriptTimelock> = Vec::new();

    let mut i: usize = 0;
    while i < tx.vin.len()
        invariant
            0 <= i <= vins.len(),
            vins == tx.vin@,
            inputs@.len() == i,
            forall|j: int|
                0 <= j < i ==> #[trigger] inputs@[j]@ == spec_input_info(j, vins[j].sequence),
            relative_timelock_count <= i,
            relative_timelock_count as int == spec_relative_count(vins.take(i as int)),
            any_nonfinal == exists|j: int| 0 <= j < i && vins[j].sequence < 0xFFFF_FFFF,
            views_of(cltv_timelocks@) == spec_tx_script_timelocks(vins.take(i as int), false),
            views_of(csv_timelocks@) == spec_tx_script_timelocks(vins.take(i as int), true),
        decreases vins.len() - i,
    {
        proof {
            assert(vins.take(i + 1).drop_last() =~= vins.take(i as int));
            assert(vins.take(i + 1).last() == vins[i as int]);
        }
        let vin = &tx.vin[i];
        let info = classify_sequence(i, vin.sequence);
        if matches!(info.meaning, SequenceMeaning::RelativeTimelock) {
            relative_timelock_count += 1;
        }
        inputs.push(info);
        if vin.sequence < 0xFFFF_FFFF {
            any_nonfinal = true;
        }
        scan_vin_script_timelocks(vin, i, false, &mut cltv_timelocks);
        scan_vin_script_timelocks(vin, i, true, &mut csv_timelocks);
        i += 1;
    }
    proof {
        assert(vins.take(vins.len() as int) =~= vins);
        assert(views_of(inputs@) =~= spec_inputs(vins));
    }

    let nlocktime_active = !matches!(nlocktime.kind, NLockTimeKind::Disabled) && any_nonfinal;
    let cltv_count = cltv_timelocks.len();
    let csv_count = csv_timelocks.len();
    let has_active_timelocks = nlocktime_active || relative_timelock_count > 0 || cltv_count > 0
        || csv_count > 0;
    let summary = AnalysisSummary {
        nlocktime_active,
        relative_timelock_count,
        cltv_count,
        csv_count,
        has_active_timelocks,
    };

    let r = TransactionAnalysis {
        txid: String::from_str(tx.txid.as_str()),
        nlocktime,
        inputs,
        cltv_timelocks,
        csv_timelocks,
        summary,
    };
    proof {
        assert(r@.summary =~= spec_summary(*tx));
        assert(r@ =~~= spec_analyze(*tx));
    }
    r
}

} // verus!
