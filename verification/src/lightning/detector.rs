//! The Lightning classifier: a layered signal model over a transaction's
//! locktime encoding, sequence encoding, output value patterns, witness
//! contents and witness-script opcode patterns.

use vstd::prelude::*;

use crate::api::types::{ApiTransaction, ApiVin, ApiVout};
use crate::lightning::types::{
    CommitmentSignals, CommitmentSignalsV, Confidence, HtlcSignals, HtlcSignalsV,
    LightningClassification, LightningClassificationV, LightningParams, LightningParamsV,
    LightningTxType, confidence_rank,
};
use crate::script::{
    contains_cltv_opcode, contains_csv_opcode, is_csv_token, spec_parse_u16, tokenize,
    tokens_have_cltv, tokens_have_csv, tokens_of, parse_u16, token_is_csv,
};

verus! {

/// Anchor outputs carry exactly this many satoshis.
pub const ANCHOR_VALUE: u64 = 330;

// ─── Specification: commitment signals ──────────────────────────────────────

/// Whether some input of the sequence is a coinbase input.
pub open spec fn spec_has_coinbase(vins: Seq<ApiVin>) -> bool {
    exists|i: int| 0 <= i < vins.len() && vins[i].is_coinbase
}

/// Lightning commitment transactions encode an obscured commitment number in
/// locktime; the upper byte is 0x20.
pub open spec fn spec_is_lightning_locktime(locktime: u32) -> bool {
    locktime >> 24 == 0x20
}

/// Lightning commitment transaction inputs have a sequence with upper byte
/// 0x80.
pub open spec fn spec_is_lightning_sequence(sequence: u32) -> bool {
    sequence >> 24 == 0x80
}

pub open spec fn spec_sequence_match(vins: Seq<ApiVin>) -> bool {
    exists|i: int| 0 <= i < vins.len() && spec_is_lightning_sequence(vins[i].sequence)
}

/// The number of outputs carrying exactly the anchor value.
pub open spec fn spec_anchor_count(vouts: Seq<ApiVout>) -> int
    decreases vouts.len(),
{
    if vouts.len() == 0 {
        0
    } else {
        spec_anchor_count(vouts.drop_last()) + if vouts.last().value == ANCHOR_VALUE {
            1int
        } else {
            0int
        }
    }
}

pub open spec fn spec_commitment_signals(tx: ApiTransaction) -> CommitmentSignalsV {
    CommitmentSignalsV {
        locktime_match: spec_is_lightning_locktime(tx.locktime),
        sequence_match: spec_sequence_match(tx.vin@),
        has_anchor_outputs: spec_anchor_count(tx.vout@) > 0,
        anchor_output_count: spec_anchor_count(tx.vout@),
    }
}

/// How many of the three commitment signals fired.
pub open spec fn spec_commitment_score(s: CommitmentSignalsV) -> int {
    (if s.locktime_match {
        1int
    } else {
        0int
    }) + (if s.sequence_match {
        1int
    } else {
        0int
    }) + (if s.has_anchor_outputs {
        1int
    } else {
        0int
    })
}

/// Confidence from the number of matching commitment signals: zero signals
/// mean `None`, one `Possible`, two or more `HighlyLikely`.
pub open spec fn spec_commitment_confidence(s: CommitmentSignalsV) -> Confidence {
    let score = spec_commitment_score(s);
    if score == 0 {
        Confidence::NoSignals
    } else if score == 1 {
        Confidence::Possible
    } else {
        Confidence::HighlyLikely
    }
}

// ─── Specification: commitment parameters ───────────────────────────────────

/// The sequence value of the first input whose sequence matches the
/// Lightning pattern.
pub open spec fn spec_first_lightning_sequence(vins: Seq<ApiVin>) -> Option<u32>
    decreases vins.len(),
{
    if vins.len() == 0 {
        None
    } else if spec_is_lightning_sequence(vins[0].sequence) {
        Some(vins[0].sequence)
    } else {
        spec_first_lightning_sequence(vins.drop_first())
    }
}

/// The obscured commitment number, assembled from the low 24 bits of the
/// first Lightning-patterned sequence and the low 24 bits of the locktime.
pub open spec fn spec_commitment_number(tx: ApiTransaction) -> Option<u64> {
    if spec_is_lightning_locktime(tx.locktime) && spec_sequence_match(tx.vin@) {
        let s = spec_first_lightning_sequence(tx.vin@)->0;
        Some((((s & 0x00FF_FFFF) as u64) << 24) | ((tx.locktime & 0x00FF_FFFF) as u64))
    } else {
        None
    }
}

/// The number of P2WSH outputs that are not anchor outputs.
pub open spec fn spec_p2wsh_nonanchor_count(vouts: Seq<ApiVout>) -> int
    decreases vouts.len(),
{
    if vouts.len() == 0 {
        0
    } else {
        spec_p2wsh_nonanchor_count(vouts.drop_last()) + if vouts.last().scriptpubkey_type@
            == "v0_p2wsh"@ && vouts.last().value != ANCHOR_VALUE {
            1int
        } else {
            0int
        }
    }
}

/// The HTLC-output heuristic: P2WSH outputs that are not anchors, minus one
/// for the to_local output, saturating at zero.
pub open spec fn spec_htlc_output_count(tx: ApiTransaction) -> int {
    let c = spec_p2wsh_nonanchor_count(tx.vout@);
    if c >= 1 {
        c - 1
    } else {
        0
    }
}

// ─── Specification: CSV delay extraction ────────────────────────────────────

/// CSV delays contributed by token positions `i` and later: for every CSV
/// opcode token at a position `i > 0`, the preceding token parsed as a
/// decimal integer in `[0, 65535]`, in encounter order.
pub open spec fn spec_csv_delays_from(toks: Seq<Seq<char>>, i: int) -> Seq<u16>
    decreases toks.len() - i,
{
    if i >= toks.len() {
        Seq::empty()
    } else {
        (if i > 0 && is_csv_token(toks[i]) && spec_parse_u16(toks[i - 1]) is Some {
            seq![spec_parse_u16(toks[i - 1])->0]
        } else {
            Seq::empty()
        }) + spec_csv_delays_from(toks, i + 1)
    }
}

pub open spec fn spec_script_csv_delays(toks: Seq<Seq<char>>) -> Seq<u16> {
    spec_csv_delays_from(toks, 0)
}

/// CSV delays contributed by one input's witness script, if present.
pub open spec fn spec_vin_csv_delays(v: ApiVin) -> Seq<u16> {
    match v.inner_witnessscript_asm {
        Some(a) => spec_script_csv_delays(tokens_of(a@)),
        None => Seq::empty(),
    }
}

/// CSV delays over all inputs, in input order then token order.
pub open spec fn spec_tx_csv_delays(vins: Seq<ApiVin>) -> Seq<u16>
    decreases vins.len(),
{
    if vins.len() == 0 {
        Seq::empty()
    } else {
        spec_tx_csv_delays(vins.drop_last()) + spec_vin_csv_delays(vins.last())
    }
}

// ─── Specification: HTLC signals ────────────────────────────────────────────

pub open spec fn is_hex_digit(c: char) -> bool {
    ('0' <= c && c <= '9') || ('a' <= c && c <= 'f') || ('A' <= c && c <= 'F')
}

pub open spec fn all_hex_digits(s: Seq<char>) -> bool {
    forall|k: int| 0 <= k < s.len() ==> is_hex_digit(s[k])
}

/// A witness element that looks like a 32-byte preimage: exactly 64
/// characters, all hex digits.
pub open spec fn spec_is_preimage(e: Seq<char>) -> bool {
    e.len() == 64 && all_hex_digits(e)
}

/// The first preimage-shaped element of one witness stack, bottom-first.
pub open spec fn spec_witness_first_preimage(w: Seq<Seq<char>>) -> Option<Seq<char>>
    decreases w.len(),
{
    if w.len() == 0 {
        None
    } else if spec_is_preimage(w[0]) {
        Some(w[0])
    } else {
        spec_witness_first_preimage(w.drop_first())
    }
}

pub open spec fn spec_vin_preimage(v: ApiVin) -> Option<Seq<char>> {
    match v.witness {
        Some(w) => spec_witness_first_preimage(w.deep_view()),
        None => None,
    }
}

/// The first preimage-shaped witness element over all inputs, scanned in
/// input order, then stack order.
pub open spec fn spec_tx_preimage(vins: Seq<ApiVin>) -> Option<Seq<char>>
    decreases vins.len(),
{
    if vins.len() == 0 {
        None
    } else if spec_vin_preimage(vins[0]) is Some {
        spec_vin_preimage(vins[0])
    } else {
        spec_tx_preimage(vins.drop_first())
    }
}

pub open spec fn spec_vin_has_cltv(v: ApiVin) -> bool {
    match v.inner_witnessscript_asm {
        Some(a) => tokens_have_cltv(tokens_of(a@)),
        None => false,
    }
}

pub open spec fn spec_vin_has_csv(v: ApiVin) -> bool {
    match v.inner_witnessscript_asm {
        Some(a) => tokens_have_csv(tokens_of(a@)),
        None => false,
    }
}

pub open spec fn spec_script_has_cltv(vins: Seq<ApiVin>) -> bool {
    exists|i: int| 0 <= i < vins.len() && spec_vin_has_cltv(vins[i])
}

pub open spec fn spec_script_has_csv(vins: Seq<ApiVin>) -> bool {
    exists|i: int| 0 <= i < vins.len() && spec_vin_has_csv(vins[i])
}

pub open spec fn spec_htlc_signals(tx: ApiTransaction) -> HtlcSignalsV {
    HtlcSignalsV {
        locktime_value: tx.locktime,
        has_preimage: spec_tx_preimage(tx.vin@) is Some,
        preimage: spec_tx_preimage(tx.vin@),
        script_has_cltv: spec_script_has_cltv(tx.vin@),
        script_has_csv: spec_script_has_csv(tx.vin@),
    }
}

// ─── Specification: classification ──────────────────────────────────────────

/// A locktime that is a plausible block height: positive, below the
/// block-height/time threshold, and not in the Lightning 0x20 encoding.
pub open spec fn spec_is_realistic_block_height(locktime: u32) -> bool {
    locktime > 0 && locktime < 500_000_000 && locktime >> 24 != 0x20
}

pub open spec fn spec_default_params() -> LightningParamsV {
    LightningParamsV {
        commitment_number: None,
        htlc_output_count: None,
        cltv_expiry: None,
        csv_delays: Seq::empty(),
        preimage_revealed: false,
        preimage: None,
    }
}

/// Parameters extracted for a commitment transaction.
pub open spec fn spec_commitment_params(tx: ApiTransaction) -> LightningParamsV {
    LightningParamsV {
        commitment_number: spec_commitment_number(tx),
        htlc_output_count: Some(spec_htlc_output_count(tx)),
        cltv_expiry: None,
        csv_delays: spec_tx_csv_delays(tx.vin@),
        preimage_revealed: false,
        preimage: None,
    }
}

/// The HTLC decision: `None` when no witness script shows a CLTV or CSV
/// opcode; HTLC-success when a preimage is present and locktime is zero;
/// HTLC-timeout with high confidence when no preimage is present and the
/// locktime is a realistic block height; otherwise a low-confidence
/// HTLC-timeout.
pub open spec fn spec_classify_htlc(tx: ApiTransaction) -> Option<
    (LightningTxType, Confidence, LightningParamsV),
> {
    let hs = spec_htlc_signals(tx);
    if !(hs.script_has_cltv || hs.script_has_csv) {
        None
    } else if hs.has_preimage && tx.locktime == 0 {
        Some(
            (
                LightningTxType::HtlcSuccess,
                Confidence::HighlyLikely,
                LightningParamsV {
                    preimage_revealed: true,
                    preimage: hs.preimage,
                    csv_delays: spec_tx_csv_delays(tx.vin@),
                    ..spec_default_params()
                },
            ),
        )
    } else if !hs.has_preimage && spec_is_realistic_block_height(tx.locktime) {
        Some(
            (
                LightningTxType::HtlcTimeout,
                Confidence::HighlyLikely,
                LightningParamsV {
                    cltv_expiry: Some(tx.locktime),
                    csv_delays: spec_tx_csv_delays(tx.vin@),
                    ..spec_default_params()
                },
            ),
        )
    } else {
        Some(
            (
                LightningTxType::HtlcTimeout,
                Confidence::Possible,
                LightningParamsV {
                    cltv_expiry: if spec_is_realistic_block_height(tx.locktime) {
                        Some(tx.locktime)
                    } else {
                        None
                    },
                    csv_delays: spec_tx_csv_delays(tx.vin@),
                    ..spec_default_params()
                },
            ),
        )
    }
}

/// The zero classification.
pub open spec fn spec_not_lightning() -> LightningClassificationV {
    LightningClassificationV {
        tx_type: None,
        confidence: Confidence::NoSignals,
        commitment_signals: CommitmentSignalsV {
            locktime_match: false,
            sequence_match: false,
            has_anchor_outputs: false,
            anchor_output_count: 0,
        },
        htlc_signals: HtlcSignalsV {
            locktime_value: 0,
            has_preimage: false,
            preimage: None,
            script_has_cltv: false,
            script_has_csv: false,
        },
        params: spec_default_params(),
    }
}

/// The full classification. Coinbase transactions are never Lightning;
/// commitment detection takes priority over HTLC detection.
pub open spec fn spec_classify(tx: ApiTransaction) -> LightningClassificationV {
    if spec_has_coinbase(tx.vin@) {
        spec_not_lightning()
    } else {
        let cs = spec_commitment_signals(tx);
        let hs = spec_htlc_signals(tx);
        let conf = spec_commitment_confidence(cs);
        if conf != Confidence::NoSignals {
            LightningClassificationV {
                tx_type: Some(LightningTxType::Commitment),
                confidence: conf,
                commitment_signals: cs,
                htlc_signals: hs,
                params: spec_commitment_params(tx),
            }
        } else {
            match spec_classify_htlc(tx) {
                Some((t, c, p)) => LightningClassificationV {
                    tx_type: Some(t),
                    confidence: c,
                    commitment_signals: cs,
                    htlc_signals: hs,
                    params: p,
                },
                None => LightningClassificationV {
                    tx_type: None,
                    confidence: Confidence::NoSignals,
                    commitment_signals: cs,
                    htlc_signals: hs,
                    params: spec_default_params(),
                },
            }
        }
    }
}

// ─── Laws ───────────────────────────────────────────────────────────────────

/// Purity: the classification is a function of the transaction record
/// alone, so equal records always classify identically.
pub proof fn lemma_classification_pure(tx1: ApiTransaction, tx2: ApiTransaction)
    requires
        tx1 == tx2,
    ensures
        spec_classify(tx1) == spec_classify(tx2),
{
}

/// Coinbase exclusion: a transaction with any coinbase input is never
/// classified as Lightning, whatever else it looks like.
pub proof fn lemma_coinbase_never_lightning(tx: ApiTransaction)
    requires
        spec_has_coinbase(tx.vin@),
    ensures
        spec_classify(tx).tx_type is None,
        spec_classify(tx).confidence == Confidence::NoSignals,
{
}

/// Confidence monotonicity: a transaction that matches every commitment
/// signal another matches, and possibly more, is never given a lower
/// confidence.
pub proof fn lemma_confidence_monotonic(s1: CommitmentSignalsV, s2: CommitmentSignalsV)
    requires
        s1.locktime_match ==> s2.locktime_match,
        s1.sequence_match ==> s2.sequence_match,
        s1.has_anchor_outputs ==> s2.has_anchor_outputs,
    ensures
        confidence_rank(spec_commitment_confidence(s1)) <= confidence_rank(
            spec_commitment_confidence(s2),
        ),
{
}

/// The Lightning locktime pattern holds exactly on the range
/// `[0x20000000, 0x21000000)`.
pub proof fn lemma_lightning_locktime_range(locktime: u32)
    ensures
        spec_is_lightning_locktime(locktime) <==> 0x2000_0000 <= locktime < 0x2100_0000,
{
    assert((locktime >> 24 == 0x20) <==> (0x2000_0000 <= locktime < 0x2100_0000)) by (bit_vector);
}

/// A classified transaction is never `Commitment` with confidence below
/// `Possible`, and an unclassified one always has confidence `NoSignals`.
pub proof fn lemma_confidence_sound(tx: ApiTransaction)
    ensures
        spec_classify(tx).tx_type == Some(LightningTxType::Commitment) ==> confidence_rank(
            spec_classify(tx).confidence,
        ) >= 1,
        spec_classify(tx).tx_type is None ==> spec_classify(tx).confidence
            == Confidence::NoSignals,
{
}

/// Commitment-number round-trip: a non-coinbase transaction whose locktime
/// carries `l24` under the 0x20 prefix and whose first input's sequence
/// carries `s24` under the 0x80 prefix is classified as a commitment, and
/// the obscured commitment number recovered from it is exactly
/// `(s24 << 24) | l24`.
pub proof fn lemma_commitment_number_round_trip(tx: ApiTransaction, l24: u32, s24: u32)
    requires
        l24 < 0x0100_0000,
        s24 < 0x0100_0000,
        tx.locktime == 0x2000_0000u32 | l24,
        tx.vin@.len() >= 1,
        tx.vin@[0].sequence == 0x8000_0000u32 | s24,
        !spec_has_coinbase(tx.vin@),
    ensures
        spec_classify(tx).tx_type == Some(LightningTxType::Commitment),
        spec_classify(tx).params.commitment_number == Some(
            ((s24 as u64) << 24) | (l24 as u64),
        ),
{
    let l = tx.locktime;
    let s = tx.vin@[0].sequence;
    assert(l >> 24 == 0x20 && l & 0x00FF_FFFF == l24) by (bit_vector)
        requires
            l == 0x2000_0000u32 | l24,
            l24 < 0x0100_0000,
    ;
    assert(s >> 24 == 0x80 && s & 0x00FF_FFFF == s24) by (bit_vector)
        requires
            s == 0x8000_0000u32 | s24,
            s24 < 0x0100_0000,
    ;
    assert(spec_is_lightning_sequence(tx.vin@[0].sequence));
    assert(spec_sequence_match(tx.vin@));
    assert(spec_first_lightning_sequence(tx.vin@) == Some(s));
    assert(spec_commitment_number(tx) == Some(
        (((s & 0x00FF_FFFF) as u64) << 24) | ((l & 0x00FF_FFFF) as u64),
    ));
    assert(spec_commitment_score(spec_commitment_signals(tx)) >= 2);
}

// ─── Executable classifier ──────────────────────────────────────────────────

fn not_lightning() -> (r: LightningClassification)
    ensures
        r@ == spec_not_lightning(),
{
    let r = LightningClassification {
        tx_type: None,
        confidence: Confidence::NoSignals,
        commitment_signals: CommitmentSignals {
            locktime_match: false,
            sequence_match: false,
            has_anchor_outputs: false,
            anchor_output_count: 0,
        },
        htlc_signals: HtlcSignals {
            locktime_value: 0,
            has_preimage: false,
            preimage: None,
            script_has_cltv: false,
            script_has_csv: false,
        },
        params: LightningParams {
            commitment_number: None,
            htlc_output_count: None,
            cltv_expiry: None,
            csv_delays: Vec::new(),
            preimage_revealed: false,
            preimage: None,
        },
    };
    proof {
        assert(r@ =~~= spec_not_lightning());
    }
    r
}

fn is_lightning_locktime(locktime: u32) -> (r: bool)
    ensures
        r == spec_is_lightning_locktime(locktime),
{
    (locktime >> 24) == 0x20
}

fn is_lightning_sequence(sequence: u32) -> (r: bool)
    ensures
        r == spec_is_lightning_sequence(sequence),
{
    (sequence >> 24) == 0x80
}

fn detect_commitment_signals(tx: &ApiTransaction) -> (r: CommitmentSignals)
    ensures
        r@ == spec_commitment_signals(*tx),
{
    let locktime_match = is_lightning_locktime(tx.locktime);

    let mut sequence_match = false;
    let mut i: usize = 0;
    while i < tx.vin.len()
        invariant
            0 <= i <= tx.vin@.len(),
            sequence_match == exists|j: int|
                0 <= j < i && spec_is_lightning_sequence(tx.vin@[j].sequence),
        decreases tx.vin@.len() - i,
    {
        if is_lightning_sequence(tx.vin[i].sequence) {
            sequence_match = true;
        }
        i += 1;
    }

    let mut anchor_output_count: usize = 0;
    let mut k: usize = 0;
    while k < tx.vout.len()
        invariant
            0 <= k <= tx.vout@.len(),
            anchor_output_count <= k,
            anchor_output_count as int == spec_anchor_count(tx.vout@.take(k as int)),
        decreases tx.vout@.len() - k,
    {
        proof {
            assert(tx.vout@.take(k + 1).drop_last() =~= tx.vout@.take(k as int));
            assert(tx.vout@.take(k + 1).last() == tx.vout@[k as int]);
        }
        if tx.vout[k].value == ANCHOR_VALUE {
            anchor_output_count += 1;
        }
        k += 1;
    }
    proof {
        assert(tx.vout@.take(tx.vout@.len() as int) =~= tx.vout@);
    }

    CommitmentSignals {
        locktime_match,
        sequence_match,
        has_anchor_outputs: anchor_output_count > 0,
        anchor_output_count,
    }
}

fn commitment_confidence(signals: &CommitmentSignals) -> (c: Confidence)
    ensures
        c == spec_commitment_confidence(signals@),
{
    let mut score: u32 = 0;
    if signals.locktime_match {
        score += 1;
    }
    if signals.sequence_match {
        score += 1;
    }
    if signals.has_anchor_outputs {
        score += 1;
    }
    match score {
        0 => Confidence::NoSignals,
        1 => Confidence::Possible,
        _ => Confidence::HighlyLikely,
    }
}

/// True iff every character of `s` is a hexadecimal digit.
fn is_valid_hex(s: &str) -> (r: bool)
    ensures
        r == all_hex_digits(s@),
{
    let n = s.unicode_len();
    let mut i: usize = 0;
    while i < n
        invariant
            0 <= i <= n,
            n == s@.len(),
            forall|k: int| 0 <= k < i ==> is_hex_digit(s@[k]),
        decreases n - i,
    {
        let c = s.get_char(i);
        if !((c >= '0' && c <= '9') || (c >= 'a' && c <= 'f') || (c >= 'A' && c <= 'F')) {
            assert(!is_hex_digit(s@[i as int]));
            return false;
        }
        i += 1;
    }
    true
}

/// Collects the CSV delays of one tokenized witness script, in token order.
fn script_csv_delays(toks: &Vec<String>, delays: &mut Vec<u16>)
    ensures
        final(delays)@ == old(delays)@ + spec_script_csv_delays(toks.deep_view()),
{
    let ghost tv = toks.deep_view();
    let ghost base = delays@;
    let mut i: usize = 0;
    while i < toks.len()
        invariant
            0 <= i <= tv.len(),
            tv == toks.deep_view(),
            tv.len() == toks@.len(),
            base + spec_csv_delays_from(tv, 0) == delays@ + spec_csv_delays_from(tv, i as int),
        decreases tv.len() - i,
    {
        if i > 0 && token_is_csv(toks[i].as_str()) {
            match parse_u16(toks[i - 1].as_str()) {
                Some(v) => {
                    let ghost before = delays@;
                    delays.push(v);
                    proof {
                        assert(spec_csv_delays_from(tv, i as int) == seq![v] + spec_csv_delays_from(
                            tv,
                            i + 1,
                        ));
                        assert(before + (seq![v] + spec_csv_delays_from(tv, i + 1)) =~= (before
                            + seq![v]) + spec_csv_delays_from(tv, i + 1));
                    }
                },
                None => {
                    proof {
                        assert(spec_csv_delays_from(tv, i as int) == Seq::<u16>::empty()
                            + spec_csv_delays_from(tv, i + 1));
                        assert(Seq::<u16>::empty() + spec_csv_delays_from(tv, i + 1)
                            =~= spec_csv_delays_from(tv, i + 1));
                    }
                },
            }
        } else {
            proof {
                if i < tv.len() {
                    assert(spec_csv_delays_from(tv, i as int) == Seq::<u16>::empty()
                        + spec_csv_delays_from(tv, i + 1));
                    assert(Seq::<u16>::empty() + spec_csv_delays_from(tv, i + 1)
                        =~= spec_csv_delays_from(tv, i + 1));
                }
            }
        }
        i += 1;
    }
    proof {
        assert(spec_csv_delays_from(tv, tv.len() as int) =~= Seq::<u16>::empty());
        assert(delays@ + Seq::<u16>::empty() =~= delays@);
        assert(base + spec_csv_delays_from(tv, 0) =~= base + spec_script_csv_delays(tv));
    }
}

/// Collects every CSV delay named before a CSV opcode in any input's
/// witness script, in input order then token order.
fn extract_csv_delays_from_inputs(tx: &ApiTransaction) -> (delays: Vec<u16>)
    ensures
        delays@ == spec_tx_csv_delays(tx.vin@),
{
    let mut delays: Vec<u16> = Vec::new();
    let mut i: usize = 0;
    while i < tx.vin.len()
        invariant
            0 <= i <= tx.vin@.len(),
            delays@ == spec_tx_csv_delays(tx.vin@.take(i as int)),
        decreases tx.vin@.len() - i,
    {
        proof {
            assert(tx.vin@.take(i + 1).drop_last() =~= tx.vin@.take(i as int));
            assert(tx.vin@.take(i + 1).last() == tx.vin@[i as int]);
        }
        match &tx.vin[i].inner_witnessscript_asm {
            Some(a) => {
                let toks = tokenize(a.as_str());
                script_csv_delays(&toks, &mut delays);
            },
            None => {
                proof {
                    assert(delays@ + Seq::<u16>::empty() =~= delays@);
                }
            },
        }
        i += 1;
    }
    proof {
        assert(tx.vin@.take(tx.vin@.len() as int) =~= tx.vin@);
    }
    delays
}

fn extract_commitment_params(tx: &ApiTransaction, signals: &CommitmentSignals) -> (p:
    LightningParams)
    requires
        signals@ == spec_commitment_signals(*tx),
    ensures
        p@ == spec_commitment_params(*tx),
{
    let commitment_number: Option<u64> = if signals.locktime_match && signals.sequence_match {
        let mut found: Option<u32> = None;
        let mut i: usize = 0;
        proof {
            assert(tx.vin@.skip(0) =~= tx.vin@);
        }
        while i < tx.vin.len() && found.is_none()
            invariant
                0 <= i <= tx.vin@.len(),
                match found {
                    None => {
                        &&& spec_first_lightning_sequence(tx.vin@)
                            == spec_first_lightning_sequence(tx.vin@.skip(i as int))
                        &&& forall|j: int|
                            0 <= j < i ==> !spec_is_lightning_sequence(tx.vin@[j].sequence)
                    },
                    Some(s) => spec_first_lightning_sequence(tx.vin@) == Some(s),
                },
            decreases tx.vin@.len() - i + (if found is None { 1int } else { 0int }),
        {
            proof {
                assert(tx.vin@.skip(i as int)[0] == tx.vin@[i as int]);
                assert(tx.vin@.skip(i as int).drop_first() =~= tx.vin@.skip(i + 1));
            }
            if is_lightning_sequence(tx.vin[i].sequence) {
                found = Some(tx.vin[i].sequence);
            } else {
                i += 1;
            }
        }
        match found {
            Some(s) => {
                let seq_lower: u64 = (s & 0x00FF_FFFF) as u64;
                let lock_lower: u64 = (tx.locktime & 0x00FF_FFFF) as u64;
                Some((seq_lower << 24) | lock_lower)
            },
            None => {
                // `sequence_match` promises a matching input exists.
                proof {
                    assert(spec_sequence_match(tx.vin@));
                    let w = choose|j: int|
                        0 <= j < tx.vin@.len() && spec_is_lightning_sequence(tx.vin@[j].sequence);
                    assert(!spec_is_lightning_sequence(tx.vin@[w].sequence));
                    assert(false);
                }
                None
            },
        }
    } else {
        None
    };

    let mut count: usize = 0;
    let mut k: usize = 0;
    while k < tx.vout.len()
        invariant
            0 <= k <= tx.vout@.len(),
            count <= k,
            count as int == spec_p2wsh_nonanchor_count(tx.vout@.take(k as int)),
        decreases tx.vout@.len() - k,
    {
        proof {
            assert(tx.vout@.take(k + 1).drop_last() =~= tx.vout@.take(k as int));
            assert(tx.vout@.take(k + 1).last() == tx.vout@[k as int]);
        }
        if crate::script::str_eq(tx.vout[k].scriptpubkey_type.as_str(), "v0_p2wsh") && tx.vout[
            k
        ].value != ANCHOR_VALUE {
            count += 1;
        }
        k += 1;
    }
    proof {
        assert(tx.vout@.take(tx.vout@.len() as int) =~= tx.vout@);
    }
    let htlc_output_count: usize = if count > 0 {
        count - 1
    } else {
        0
    };

    let csv_delays = extract_csv_delays_from_inputs(tx);

    let p = LightningParams {
        commitment_number,
        htlc_output_count: Some(htlc_output_count),
        cltv_expiry: None,
        csv_delays,
        preimage_revealed: false,
        preimage: None,
    };
    proof {
        assert(p@ =~~= spec_commitment_params(*tx));
    }
    p
}

/// Finds the first preimage-shaped element of one witness stack.
fn witness_first_preimage(w: &Vec<String>) -> (r: Option<String>)
    ensures
        r.deep_view() == spec_witness_first_preimage(w.deep_view()),
{
    let ghost wv = w.deep_view();
    let mut i: usize = 0;
    proof {
        assert(wv.skip(0) =~= wv);
    }
    while i < w.len()
        invariant
            0 <= i <= wv.len(),
            wv == w.deep_view(),
            wv.len() == w@.len(),
            spec_witness_first_preimage(wv) == spec_witness_first_preimage(wv.skip(i as int)),
        decreases wv.len() - i,
    {
        proof {
            assert(wv.skip(i as int)[0] == wv[i as int]);
            assert(wv.skip(i as int).drop_first() =~= wv.skip(i + 1));
        }
        let e = &w[i];
        if e.as_str().unicode_len() == 64 && is_valid_hex(e.as_str()) {
            assert(spec_is_preimage(wv[i as int]));
            return Some(String::from_str(e.as_str()));
        }
        i += 1;
    }
    None
}

fn detect_htlc_signals(tx: &ApiTransaction) -> (r: HtlcSignals)
    ensures
        r@ == spec_htlc_signals(*tx),
{
    let ghost vins = tx.vin@;
    let mut preimage: Option<String> = None;
    let mut script_has_cltv = false;
    let mut script_has_csv = false;
    let mut i: usize = 0;
    proof {
        assert(vins.skip(0) =~= vins);
    }
    while i < tx.vin.len()
        invariant
            0 <= i <= vins.len(),
            vins == tx.vin@,
            match preimage {
                None => spec_tx_preimage(vins) == spec_tx_preimage(vins.skip(i as int)),
                Some(p) => spec_tx_preimage(vins) is Some && p@ == spec_tx_preimage(vins)->0,
            },
            script_has_cltv == exists|j: int| 0 <= j < i && spec_vin_has_cltv(vins[j]),
            script_has_csv == exists|j: int| 0 <= j < i && spec_vin_has_csv(vins[j]),
        decreases vins.len() - i,
    {
        proof {
            assert(vins.skip(i as int)[0] == vins[i as int]);
            assert(vins.skip(i as int).drop_first() =~= vins.skip(i + 1));
        }
        let vin = &tx.vin[i];

        if preimage.is_none() {
            match &vin.witness {
                Some(w) => {
                    match witness_first_preimage(w) {
                        Some(p) => {
                            assert(spec_vin_preimage(vins[i as int]) is Some);
                            assert(spec_tx_preimage(vins.skip(i as int)) == spec_vin_preimage(
                                vins[i as int],
                            ));
                            preimage = Some(p);
                        },
                        None => {
                            assert(spec_vin_preimage(vins[i as int]) is None);
                        },
                    }
                },
                None => {
                    assert(spec_vin_preimage(vins[i as int]) is None);
                },
            }
        }

        match &vin.inner_witnessscript_asm {
            Some(a) => {
                if contains_cltv_opcode(a.as_str()) {
                    assert(spec_vin_has_cltv(vins[i as int]));
                    script_has_cltv = true;
                }
                if contains_csv_opcode(a.as_str()) {
                    assert(spec_vin_has_csv(vins[i as int]));
                    script_has_csv = true;
                }
            },
            None => {},
        }
        i += 1;
    }
    proof {
        if preimage is None {
            assert(vins.skip(vins.len() as int) =~= Seq::<ApiVin>::empty());
        }
    }

    let r = HtlcSignals {
        locktime_value: tx.locktime,
        has_preimage: preimage.is_some(),
        preimage,
        script_has_cltv,
        script_has_csv,
    };
    proof {
        assert(r@ =~~= spec_htlc_signals(*tx));
    }
    r
}

/// Check if a locktime value is a realistic block height (not the Lightning
/// encoding, not zero).
fn is_realistic_block_height(locktime: u32) -> (r: bool)
    ensures
        r == spec_is_realistic_block_height(locktime),
{
    locktime > 0 && locktime < 500_000_000 && (locktime >> 24) != 0x20
}

fn classify_htlc(tx: &ApiTransaction, signals: &HtlcSignals) -> (r: Option<
    (LightningTxType, Confidence, LightningParams),
>)
    requires
        signals@ == spec_htlc_signals(*tx),
    ensures
        r is Some <==> spec_classify_htlc(*tx) is Some,
        r is Some ==> {
            &&& (r->0).0 == (spec_classify_htlc(*tx)->0).0
            &&& (r->0).1 == (spec_classify_htlc(*tx)->0).1
            &&& (r->0).2@ == (spec_classify_htlc(*tx)->0).2
        },
{
    let has_htlc_script = signals.script_has_cltv || signals.script_has_csv;
    if !has_htlc_script {
        return None;
    }

    let csv_delays = extract_csv_delays_from_inputs(tx);

    if signals.has_preimage && tx.locktime == 0 {
        // HTLC-success: preimage present, locktime zero.
        let pre: Option<String> = match &signals.preimage {
            Some(p) => Some(String::from_str(p.as_str())),
            None => None,
        };
        let params = LightningParams {
            commitment_number: None,
            htlc_output_count: None,
            cltv_expiry: None,
            csv_delays,
            preimage_revealed: true,
            preimage: pre,
        };
        proof {
            assert(params@ =~~= (spec_classify_htlc(*tx)->0).2);
        }
        Some((LightningTxType::HtlcSuccess, Confidence::HighlyLikely, params))
    } else if !signals.has_preimage && is_realistic_block_height(tx.locktime) {
        // HTLC-timeout: no preimage, locktime a realistic block height.
        let params = LightningParams {
            commitment_number: None,
            htlc_output_count: None,
            cltv_expiry: Some(tx.locktime),
            csv_delays,
            preimage_revealed: false,
            preimage: None,
        };
        proof {
            assert(params@ =~~= (spec_classify_htlc(*tx)->0).2);
        }
        Some((LightningTxType::HtlcTimeout, Confidence::HighlyLikely, params))
    } else {
        // HTLC-like script patterns without a clean success or timeout shape.
        let cltv_expiry: Option<u32> = if is_realistic_block_height(tx.locktime) {
            Some(tx.locktime)
        } else {
            None
        };
        let params = LightningParams {
            commitment_number: None,
            htlc_output_count: None,
            cltv_expiry,
            csv_delays,
            preimage_revealed: false,
            preimage: None,
        };
        proof {
            assert(params@ =~~= (spec_classify_htlc(*tx)->0).2);
        }
        Some((LightningTxType::HtlcTimeout, Confidence::Possible, params))
    }
}

/// Classify a transaction as Lightning-related or not.
///
/// The result is a pure function of the transaction record: the
/// classification, its confidence, both signal sets and the extracted
/// parameters all equal their specification on the record's value.
pub fn classify_lightning(tx: &ApiTransaction) -> (r: LightningClassification)
    ensures
        r@ == spec_classify(*tx),
{
    // Skip coinbase transactions.
    let mut any_coinbase = false;
    let mut i: usize = 0;
    while i < tx.vin.len()
        invariant
            0 <= i <= tx.vin@.len(),
            any_coinbase == exists|j: int| 0 <= j < i && tx.vin@[j].is_coinbase,
        decreases tx.vin@.len() - i,
    {
        if tx.vin[i].is_coinbase {
            any_coinbase = true;
        }
        i += 1;
    }
    if any_coinbase {
        return not_lightning();
    }

    let commitment_signals = detect_commitment_signals(tx);
    let htlc_signals = detect_htlc_signals(tx);

    // Commitment detection takes priority over HTLC detection.
    let confidence = commitment_confidence(&commitment_signals);
    if !matches!(confidence, Confidence::NoSignals) {
        let params = extract_commitment_params(tx, &commitment_signals);
        let r = LightningClassification {
            tx_type: Some(LightningTxType::Commitment),
            confidence,
            commitment_signals,
            htlc_signals,
            params,
        };
        proof {
            assert(r@ =~~= spec_classify(*tx));
        }
        return r;
    }

    // HTLC detection.
    match classify_htlc(tx, &htlc_signals) {
        Some((htlc_type, confidence, params)) => {
            let r = LightningClassification {
                tx_type: Some(htlc_type),
                confidence,
                commitment_signals,
                htlc_signals,
                params,
            };
            proof {
                assert(r@ =~~= spec_classify(*tx));
            }
            r
        },
        None => {
            let r = LightningClassification {
                tx_type: None,
                confidence: Confidence::NoSignals,
                commitment_signals,
                htlc_signals,
                params: LightningParams {
                    commitment_number: None,
                    htlc_output_count: None,
                    cltv_expiry: None,
                    csv_delays: Vec::new(),
                    preimage_revealed: false,
                    preimage: None,
                },
            };
            proof {
                assert(r@ =~~= spec_classify(*tx));
            }
            r
        },
    }
}

} // verus!
