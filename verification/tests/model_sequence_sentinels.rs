//! Replay stability of the deterministic model-sequence generator.

use std::io;

use zio_testkit::{
    corpus_seed, generate, model_sequence_sentinel_seeds, Action, InterestSet, Mode, Outcome,
    ACTION_LIMIT, MODEL_SEQUENCE_DISARM_REARM_SEED, MODEL_SEQUENCE_OUTCOME_MATRIX_SEED,
    MODEL_SEQUENCE_STALE_REUSE_SEED, MODEL_SEQUENCE_WRONG_POLLER_SEED,
};

#[test]
fn sentinel_generation_is_replay_stable() -> Result<(), io::Error> {
    for seed in model_sequence_sentinel_seeds() {
        let first = generate(seed);
        let second = generate(seed);
        check_eq(&first.actions, &second.actions, "sentinel action trace")?;
        check_eq(&first.actions.len(), &ACTION_LIMIT, "bounded action count")?;
    }
    Ok(())
}

#[test]
fn curated_sentinels_keep_their_named_behavior() -> Result<(), io::Error> {
    let cases = [
        (
            MODEL_SEQUENCE_OUTCOME_MATRIX_SEED,
            corpus_seed(0),
            "outcome matrix",
        ),
        (
            MODEL_SEQUENCE_DISARM_REARM_SEED,
            corpus_seed(4),
            "disarm and rearm",
        ),
        (
            MODEL_SEQUENCE_STALE_REUSE_SEED,
            corpus_seed(3),
            "stale and reuse",
        ),
        (
            MODEL_SEQUENCE_WRONG_POLLER_SEED,
            corpus_seed(35),
            "wrong poller",
        ),
    ];
    for (actual, expected, context) in cases {
        check_eq(&actual, &expected, context)?;
    }

    let outcome = generate(MODEL_SEQUENCE_OUTCOME_MATRIX_SEED);
    check(outcome.coverage.has_outcome_matrix(), "outcome matrix")?;
    let disarm = generate(MODEL_SEQUENCE_DISARM_REARM_SEED);
    check(disarm.coverage.has_disarm_rearm(), "disarm and rearm")?;
    let stale = generate(MODEL_SEQUENCE_STALE_REUSE_SEED);
    check(stale.coverage.has_stale_reuse(), "stale and reuse")?;
    let wrong = generate(MODEL_SEQUENCE_WRONG_POLLER_SEED);
    check(wrong.coverage.has_wrong_poller(), "wrong poller")
}

#[test]
fn sentinel_action_fingerprints_are_stable() -> Result<(), io::Error> {
    let expected = [
        0x008f_3825_06df_a353,
        0x5468_3784_1556_cc75,
        0x01d9_3c58_8a70_ef98,
        0x8b9a_02c8_34cf_4280,
    ];
    let mut actual = [0_u64; 4];
    for (index, seed) in model_sequence_sentinel_seeds().into_iter().enumerate() {
        let program = generate(seed);
        check_eq(
            &program.actions.len(),
            &ACTION_LIMIT,
            "bounded action count",
        )?;
        actual[index] = fingerprint(&program.actions);
    }
    check_eq(&actual, &expected, "sentinel action fingerprints")
}

fn fingerprint(actions: &[Action]) -> u64 {
    let mut hash = 0xcbf2_9ce4_8422_2325_u64;
    for action in actions {
        match *action {
            Action::Register {
                outcome,
                key,
                interest,
                mode,
            } => {
                hash = feed(hash, 0);
                hash = feed(hash, outcome_byte(outcome));
                for byte in key.get().to_le_bytes() {
                    hash = feed(hash, byte);
                }
                hash = feed(hash, interest_byte(interest));
                hash = feed(hash, mode_byte(mode));
            }
            Action::RegisterInvalid { key, mode } => {
                hash = feed(hash, 1);
                for byte in key.get().to_le_bytes() {
                    hash = feed(hash, byte);
                }
                hash = feed(hash, mode_byte(mode));
            }
            Action::Disarm => hash = feed(hash, 2),
            Action::SetKey { key } => {
                hash = feed(hash, 8);
                for byte in key.get().to_le_bytes() {
                    hash = feed(hash, byte);
                }
            }
            Action::Modify {
                outcome,
                interest,
                mode,
            } => {
                hash = feed(hash, 3);
                hash = feed(hash, outcome_byte(outcome));
                hash = feed(hash, interest_byte(interest));
                hash = feed(hash, mode_byte(mode));
            }
            Action::ModifyInvalid { mode } => {
                hash = feed(hash, 4);
                hash = feed(hash, mode_byte(mode));
            }
            Action::Delete { outcome } => {
                hash = feed(hash, 5);
                hash = feed(hash, outcome_byte(outcome));
            }
            Action::ProbeStale => hash = feed(hash, 6),
            Action::ProbeWrongPoller => hash = feed(hash, 7),
        }
    }
    hash
}

fn feed(hash: u64, byte: u8) -> u64 {
    (hash ^ byte as u64).wrapping_mul(0x0000_0100_0000_01b3)
}

fn outcome_byte(outcome: Outcome) -> u8 {
    match outcome {
        Outcome::Success => 0,
        Outcome::NotApplied => 1,
        Outcome::Applied => 2,
        Outcome::Unknown => 3,
    }
}

fn interest_byte(interest: InterestSet) -> u8 {
    u8::from(interest.readable) | (u8::from(interest.writable) << 1)
}

fn mode_byte(mode: Mode) -> u8 {
    match mode {
        Mode::Level => 0,
        Mode::OneShot => 1,
    }
}

fn check(condition: bool, context: &str) -> Result<(), io::Error> {
    if condition {
        Ok(())
    } else {
        Err(io::Error::other(format!(
            "missing sentinel behavior: {context}"
        )))
    }
}

fn check_eq<T>(actual: &T, expected: &T, context: &str) -> Result<(), io::Error>
where
    T: std::fmt::Debug + PartialEq,
{
    if actual == expected {
        Ok(())
    } else {
        Err(io::Error::other(format!(
            "{context}: expected {expected:?}, observed {actual:?}"
        )))
    }
}
