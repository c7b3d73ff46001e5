//! Generated programs replayed against the reference model alone.

use zio_testkit::{
    corpus_seed, generate, Action, Outcome, ReferenceModel, RegistrationId, CORPUS_SIZE,
};

fn replay(actions: &[Action]) -> Result<(), String> {
    let mut model = ReferenceModel::new();
    let mut next = 1_u64;
    for (index, action) in actions.iter().enumerate() {
        let step = |message: &str| format!("action {index} ({}): {message}", action.name());
        match *action {
            Action::Register {
                outcome,
                key,
                interest,
                mode,
            } => {
                let fresh = RegistrationId { value: next };
                next += 1;
                model
                    .record_register(fresh, key, interest, mode)
                    .map_err(step)?;
                let handle = if outcome == Outcome::NotApplied {
                    None
                } else {
                    Some(fresh)
                };
                model
                    .complete_register(outcome, handle, key, interest, mode)
                    .map_err(step)?;
            }
            Action::RegisterInvalid { .. } => {
                if model.active().is_some() {
                    return Err(step("active handle"));
                }
            }
            Action::Disarm => {
                model.disarm().map_err(step)?;
            }
            Action::SetKey { key } => model.set_key(key).map_err(step)?,
            Action::Modify {
                outcome,
                interest,
                mode,
            } => {
                model.record_modify(interest, mode).map_err(step)?;
                model
                    .complete_modify(outcome, None, interest, mode)
                    .map_err(step)?;
            }
            Action::ModifyInvalid { .. } | Action::ProbeWrongPoller => {
                if model.active().is_none() {
                    return Err(step("vacant slot"));
                }
            }
            Action::Delete { outcome } => {
                model.record_delete().map_err(step)?;
                model.complete_delete(outcome).map_err(step)?;
            }
            Action::ProbeStale => {
                if model.stale().is_none() {
                    return Err(step("no retired handle"));
                }
            }
        }
    }
    Ok(())
}

#[test]
fn generated_programs_never_violate_the_reference_model() {
    for index in 0..CORPUS_SIZE {
        let program = generate(corpus_seed(index));
        assert_eq!(replay(&program.actions), Ok(()), "corpus entry {index}");
    }
}
