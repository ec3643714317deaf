use cltv_scan::api::types::{ApiStatus, ApiTransaction, ApiVin, ApiVout};
use cltv_scan::timelock::extractor::analyze;
use cltv_scan::timelock::types::{
    NLockTimeKind, ScriptField, SequenceMeaning, TimelockInterpretation, TimelockUnits,
};

fn tl_status() -> ApiStatus {
    ApiStatus {
        confirmed: true,
        block_height: Some(886000),
        block_hash: Some("00000000".to_string()),
        block_time: Some(1700000000),
    }
}

fn tl_vin(sequence: u32) -> ApiVin {
    ApiVin {
        txid: Some("aa".repeat(32)),
        vout: Some(0),
        prevout: None,
        scriptsig: None,
        scriptsig_asm: None,
        inner_redeemscript_asm: None,
        inner_witnessscript_asm: None,
        witness: None,
        is_coinbase: false,
        sequence,
    }
}

fn tl_vout(value: u64) -> ApiVout {
    ApiVout {
        scriptpubkey: "00".to_string(),
        scriptpubkey_asm: "OP_0".to_string(),
        scriptpubkey_type: "v0_p2wpkh".to_string(),
        scriptpubkey_address: None,
        value,
    }
}

fn tl_tx(locktime: u32, vins: Vec<ApiVin>) -> ApiTransaction {
    ApiTransaction {
        txid: "bb".repeat(32),
        version: 2,
        locktime,
        vin: vins,
        vout: vec![tl_vout(50_000)],
        size: 200,
        weight: 800,
        fee: Some(1000),
        status: tl_status(),
    }
}

#[test]
fn test_nlocktime_disabled() {
    let tx = tl_tx(0, vec![tl_vin(0xFFFFFFFF)]);
    let a = analyze(&tx);
    assert_eq!(a.nlocktime.raw_value, 0);
    assert_eq!(a.nlocktime.kind, NLockTimeKind::Disabled);
    assert_eq!(a.nlocktime.human_readable, "disabled");
    assert!(!a.summary.nlocktime_active);
    assert!(!a.summary.has_active_timelocks);
}

#[test]
fn test_nlocktime_block_height() {
    let tx = tl_tx(886100, vec![tl_vin(0xFFFFFFFE)]);
    let a = analyze(&tx);
    assert_eq!(a.nlocktime.kind, NLockTimeKind::BlockHeight(886100));
    assert_eq!(a.nlocktime.human_readable, "block 886100");
    assert!(a.summary.nlocktime_active);
    assert!(a.summary.has_active_timelocks);
}

#[test]
fn test_nlocktime_unix_time() {
    let tx = tl_tx(1_700_000_000, vec![tl_vin(0xFFFFFFFE)]);
    let a = analyze(&tx);
    assert_eq!(a.nlocktime.kind, NLockTimeKind::UnixTime(1_700_000_000));
    assert_eq!(a.nlocktime.human_readable, "unix 1700000000");
}

#[test]
fn test_nlocktime_threshold_boundary() {
    // The interpretation splits exactly at 500,000,000.
    let below = analyze(&tl_tx(499_999_999, vec![tl_vin(0)]));
    assert_eq!(below.nlocktime.kind, NLockTimeKind::BlockHeight(499_999_999));
    let at = analyze(&tl_tx(500_000_000, vec![tl_vin(0)]));
    assert_eq!(at.nlocktime.kind, NLockTimeKind::UnixTime(500_000_000));
}

#[test]
fn test_nlocktime_inactive_when_all_inputs_final() {
    // Per BIP-65 an nLockTime has no effect when every input is final.
    let tx = tl_tx(886100, vec![tl_vin(0xFFFFFFFF), tl_vin(0xFFFFFFFF)]);
    let a = analyze(&tx);
    assert_eq!(a.nlocktime.kind, NLockTimeKind::BlockHeight(886100));
    assert!(!a.summary.nlocktime_active);
    assert!(!a.summary.has_active_timelocks);
}

#[test]
fn test_sequence_meanings() {
    let tx = tl_tx(
        0,
        vec![
            tl_vin(0xFFFFFFFF), // final
            tl_vin(0xFFFFFFFE), // RBF + locktime
            tl_vin(0xFFFFFFFD), // RBF + locktime
            tl_vin(0x80000001), // disable flag set
            tl_vin(0x00000090), // relative: 144 blocks
            tl_vin(0x00400002), // relative: 2 periods of 512 seconds
        ],
    );
    let a = analyze(&tx);
    assert_eq!(a.inputs.len(), 6);
    assert_eq!(a.inputs[0].meaning, SequenceMeaning::Final);
    assert_eq!(a.inputs[1].meaning, SequenceMeaning::RbfEnabled);
    assert_eq!(a.inputs[2].meaning, SequenceMeaning::RbfEnabled);
    assert_eq!(a.inputs[3].meaning, SequenceMeaning::LocktimeEnabled);
    assert_eq!(a.inputs[4].meaning, SequenceMeaning::RelativeTimelock);
    assert_eq!(a.inputs[5].meaning, SequenceMeaning::RelativeTimelock);
    for (i, input) in a.inputs.iter().enumerate() {
        assert_eq!(input.input_index, i);
    }
    assert_eq!(a.inputs[0].raw_hex, "0xffffffff");
    assert_eq!(a.inputs[3].raw_hex, "0x80000001");
    assert!(a.inputs[0].relative_timelock.is_none());
    assert!(a.inputs[3].relative_timelock.is_none());
    assert_eq!(a.summary.relative_timelock_count, 2);
    assert!(a.summary.has_active_timelocks);
}

#[test]
fn test_relative_timelock_units_blocks() {
    let tx = tl_tx(0, vec![tl_vin(0x00000090)]);
    let a = analyze(&tx);
    let rtl = a.inputs[0].relative_timelock.as_ref().expect("relative timelock");
    assert_eq!(rtl.units, TimelockUnits::Blocks);
    assert_eq!(rtl.value, 144);
    assert_eq!(rtl.human_readable, "144 blocks");
}

#[test]
fn test_relative_timelock_units_time() {
    // Bit 22 set selects 512-second periods; only the low 16 bits count.
    let tx = tl_tx(0, vec![tl_vin(0x00400002)]);
    let a = analyze(&tx);
    let rtl = a.inputs[0].relative_timelock.as_ref().expect("relative timelock");
    assert_eq!(rtl.units, TimelockUnits::TimePeriods);
    assert_eq!(rtl.value, 2);
    assert_eq!(rtl.human_readable, "1024 seconds");
}

#[test]
fn test_cltv_in_scriptsig() {
    let mut vin = tl_vin(0xFFFFFFFE);
    vin.scriptsig_asm = Some("886100 OP_CHECKLOCKTIMEVERIFY OP_DROP".to_string());
    let tx = tl_tx(0, vec![vin]);
    let a = analyze(&tx);
    assert_eq!(a.cltv_timelocks.len(), 1);
    let tl = &a.cltv_timelocks[0];
    assert_eq!(tl.input_index, 0);
    assert_eq!(tl.script_field, ScriptField::ScriptSig);
    assert_eq!(tl.raw_value, 886100);
    assert_eq!(tl.interpretation, TimelockInterpretation::AbsoluteBlockHeight);
    assert_eq!(tl.human_readable, "block 886100");
    assert_eq!(a.summary.cltv_count, 1);
    assert_eq!(a.summary.csv_count, 0);
    assert!(a.summary.has_active_timelocks);
}

#[test]
fn test_cltv_unix_in_redeem_script() {
    let mut vin = tl_vin(0xFFFFFFFE);
    vin.inner_redeemscript_asm = Some("1700000000 OP_CLTV OP_DROP".to_string());
    let tx = tl_tx(0, vec![vin]);
    let a = analyze(&tx);
    assert_eq!(a.cltv_timelocks.len(), 1);
    let tl = &a.cltv_timelocks[0];
    assert_eq!(tl.script_field, ScriptField::RedeemScript);
    assert_eq!(tl.raw_value, 1_700_000_000);
    assert_eq!(tl.interpretation, TimelockInterpretation::AbsoluteUnixTime);
    assert_eq!(tl.human_readable, "unix 1700000000");
}

#[test]
fn test_csv_in_witness_script() {
    let mut vin = tl_vin(0xFFFFFFFE);
    vin.inner_witnessscript_asm =
        Some("OP_IF abc OP_ELSE 144 OP_CHECKSEQUENCEVERIFY OP_DROP OP_ENDIF".to_string());
    let tx = tl_tx(0, vec![vin]);
    let a = analyze(&tx);
    assert_eq!(a.csv_timelocks.len(), 1);
    let tl = &a.csv_timelocks[0];
    assert_eq!(tl.script_field, ScriptField::WitnessScript);
    assert_eq!(tl.raw_value, 144);
    assert_eq!(tl.interpretation, TimelockInterpretation::RelativeBlocks);
    assert_eq!(tl.human_readable, "144 blocks");
    assert_eq!(a.summary.csv_count, 1);
}

#[test]
fn test_csv_time_based_operand() {
    // 4194306 = 0x400002: bit 22 set, low 16 bits = 2.
    let mut vin = tl_vin(0xFFFFFFFE);
    vin.inner_witnessscript_asm = Some("4194306 OP_CSV".to_string());
    let tx = tl_tx(0, vec![vin]);
    let a = analyze(&tx);
    assert_eq!(a.csv_timelocks.len(), 1);
    let tl = &a.csv_timelocks[0];
    assert_eq!(tl.raw_value, 4_194_306);
    assert_eq!(tl.interpretation, TimelockInterpretation::RelativeTime);
    assert_eq!(tl.human_readable, "1024 seconds");
}

#[test]
fn test_script_timelock_without_operand() {
    // An opcode with no preceding numeral is still recorded.
    let mut vin = tl_vin(0xFFFFFFFE);
    vin.inner_witnessscript_asm = Some("OP_CHECKLOCKTIMEVERIFY OP_DROP".to_string());
    let tx = tl_tx(0, vec![vin]);
    let a = analyze(&tx);
    assert_eq!(a.cltv_timelocks.len(), 1);
    assert_eq!(a.cltv_timelocks[0].raw_value, -1);
    assert_eq!(a.cltv_timelocks[0].human_readable, "unknown");
    assert_eq!(a.summary.cltv_count, 1);
}

#[test]
fn test_script_timelock_non_decimal_operand() {
    // A hex-rendered push does not parse; the timelock is recorded as unknown.
    let mut vin = tl_vin(0xFFFFFFFE);
    vin.scriptsig_asm = Some("0x90 OP_CHECKSEQUENCEVERIFY".to_string());
    let tx = tl_tx(0, vec![vin]);
    let a = analyze(&tx);
    assert_eq!(a.csv_timelocks.len(), 1);
    assert_eq!(a.csv_timelocks[0].raw_value, -1);
    assert_eq!(a.csv_timelocks[0].human_readable, "unknown");
}

#[test]
fn test_multiple_script_fields_in_order() {
    // scriptSig is scanned before the witness script of the same input.
    let mut vin = tl_vin(0xFFFFFFFE);
    vin.scriptsig_asm = Some("100 OP_CLTV".to_string());
    vin.inner_witnessscript_asm = Some("200 OP_CHECKLOCKTIMEVERIFY".to_string());
    let tx = tl_tx(0, vec![vin]);
    let a = analyze(&tx);
    assert_eq!(a.cltv_timelocks.len(), 2);
    assert_eq!(a.cltv_timelocks[0].script_field, ScriptField::ScriptSig);
    assert_eq!(a.cltv_timelocks[0].raw_value, 100);
    assert_eq!(a.cltv_timelocks[1].script_field, ScriptField::WitnessScript);
    assert_eq!(a.cltv_timelocks[1].raw_value, 200);
    assert_eq!(a.summary.cltv_count, 2);
}

#[test]
fn test_analyze_empty_transaction() {
    let tx = tl_tx(0, vec![]);
    let a = analyze(&tx);
    assert!(a.inputs.is_empty());
    assert!(a.cltv_timelocks.is_empty());
    assert!(a.csv_timelocks.is_empty());
    assert_eq!(a.summary.relative_timelock_count, 0);
    assert!(!a.summary.has_active_timelocks);
}

#[test]
fn test_analyze_is_deterministic() {
    let mut vin = tl_vin(0x00000090);
    vin.inner_witnessscript_asm = Some("144 OP_CSV".to_string());
    let tx = tl_tx(886100, vec![vin]);
    let a = analyze(&tx);
    let b = analyze(&tx);
    assert_eq!(a.txid, b.txid);
    assert_eq!(a.nlocktime.kind, b.nlocktime.kind);
    assert_eq!(a.nlocktime.human_readable, b.nlocktime.human_readable);
    assert_eq!(a.inputs.len(), b.inputs.len());
    assert_eq!(a.csv_timelocks.len(), b.csv_timelocks.len());
    assert_eq!(a.summary.has_active_timelocks, b.summary.has_active_timelocks);
}
