//! The durability model of a mutation run: the target file and its backup
//! slot, and what each engine action does to them when it succeeds.
//!
//! The model encodes what the trusted primitives guarantee — the durable
//! writer replaces the target whole or not at all, the backup copies the
//! target, the restore copies the backup back, and either copy of a missing
//! source is a no-op. Over it, the engine's runs are proved atomic (a reader
//! never sees a partial write) and rolled back (a rejected candidate leaves
//! the prior content in place).

use vstd::prelude::*;

use crate::engine::{begin_add_spec, begin_generate_spec, begin_remove_spec, begin_update_spec,
    phase_outcome, step_spec, EngineEventV, EngineV, PhaseV};
use crate::types::{GlobalSettingsV, ProviderV};

verus! {

/// The two files a mutation touches — `None` stands for a missing file —
/// and the candidate last written whole during this request, if any.
pub struct FsModelV {
    pub target: Option<Seq<char>>,
    pub backup: Option<Seq<char>>,
    pub written: Option<Seq<char>>,
}

/// What performing the pending action with the given result does to the
/// files: a successful backup snapshots the target, a successful write
/// replaces the target whole, a successful restore copies the backup back;
/// everything else, reads and validations included, changes no file. A
/// failed write leaves the destination untouched — that is the durable
/// writer's replace-by-rename guarantee.
pub open spec fn fs_after(fs: FsModelV, e: EngineV, ev: EngineEventV) -> FsModelV {
    match e.phase {
        PhaseV::Backup { .. } => match ev {
            EngineEventV::BackupOk => {
                if fs.target is Some {
                    FsModelV { target: fs.target, backup: fs.target, written: fs.written }
                } else {
                    fs
                }
            },
            _ => fs,
        },
        PhaseV::Write { candidate, .. } => match ev {
            EngineEventV::WriteOk => FsModelV {
                target: Some(candidate),
                backup: fs.backup,
                written: Some(candidate),
            },
            _ => fs,
        },
        PhaseV::RestoreAfterInvalid { .. } => match ev {
            EngineEventV::RestoreOk => {
                if fs.backup is Some {
                    FsModelV { target: fs.backup, backup: fs.backup, written: fs.written }
                } else {
                    fs
                }
            },
            _ => fs,
        },
        PhaseV::RestoreAfterWriteFailure { .. } => match ev {
            EngineEventV::RestoreOk => {
                if fs.backup is Some {
                    FsModelV { target: fs.backup, backup: fs.backup, written: fs.written }
                } else {
                    fs
                }
            },
            _ => fs,
        },
        _ => fs,
    }
}

/// A whole run: the engine stepped over the events in order, the files
/// following along, stopping once the request is answered.
pub open spec fn run_spec(e: EngineV, fs: FsModelV, evs: Seq<EngineEventV>) -> (EngineV, FsModelV)
    decreases evs.len(),
{
    if evs.len() == 0 || e.phase is Done {
        (e, fs)
    } else {
        run_spec(step_spec(e, evs[0]), fs_after(fs, e, evs[0]), evs.drop_first())
    }
}

/// A state a request can start in: nothing performed yet. Every `begin`
/// function of the engine returns one.
pub open spec fn fresh_engine(e: EngineV) -> bool {
    match e.phase {
        PhaseV::Read => true,
        PhaseV::Backup { .. } => true,
        PhaseV::Write { candidate, restorable } => !restorable,
        PhaseV::Done { .. } => true,
        _ => false,
    }
}

/// The inductive invariant tying a run's files to its engine state, for a
/// target that existed when the run began.
pub open spec fn engine_fs_inv(fs0: FsModelV, e: EngineV, fs: FsModelV) -> bool {
    match e.phase {
        PhaseV::Read => fs == fs0,
        PhaseV::Backup { .. } => fs == fs0,
        PhaseV::Write { candidate, restorable } => fs.target == fs0.target && fs.written
            == fs0.written && (restorable ==> fs.backup == fs0.target),
        PhaseV::Validate { candidate, restorable } => (fs.target == fs0.target || fs.target
            == Some(candidate)) && fs.written == Some(candidate) && (restorable ==> fs.backup
            == fs0.target),
        PhaseV::RestoreAfterInvalid { candidate, diagnostic } => (fs.target == fs0.target
            || fs.target == Some(candidate)) && fs.written == Some(candidate) && fs.backup
            == fs0.target,
        PhaseV::RestoreAfterWriteFailure { message } => fs.target == fs0.target && fs.written
            == fs0.written && fs.backup == fs0.target,
        PhaseV::Reload { outcome } => fs.target == fs0.target || (fs.written is Some && fs.target
            == fs.written),
        PhaseV::Done { outcome } => fs.target == fs0.target || (fs.written is Some && fs.target
            == fs.written),
    }
}

proof fn lemma_inv_step(fs0: FsModelV, e: EngineV, fs: FsModelV, ev: EngineEventV)
    requires
        fs0.target is Some,
        engine_fs_inv(fs0, e, fs),
    ensures
        engine_fs_inv(fs0, step_spec(e, ev), fs_after(fs, e, ev)),
{
}

proof fn lemma_inv_run(fs0: FsModelV, e: EngineV, fs: FsModelV, evs: Seq<EngineEventV>)
    requires
        fs0.target is Some,
        engine_fs_inv(fs0, e, fs),
    ensures
        engine_fs_inv(fs0, run_spec(e, fs, evs).0, run_spec(e, fs, evs).1),
    decreases evs.len(),
{
    if evs.len() > 0 && !(e.phase is Done) {
        lemma_inv_step(fs0, e, fs, evs[0]);
        lemma_inv_run(fs0, step_spec(e, evs[0]), fs_after(fs, e, evs[0]), evs.drop_first());
    }
}

/// Atomic visibility, at the model's granularity: start a fresh engine on
/// an existing target, run any prefix of any events, and the target's
/// content is either the content it had before the request or a whole
/// written candidate — never anything in between.
pub proof fn lemma_target_never_partial(
    e0: EngineV,
    fs0: FsModelV,
    evs: Seq<EngineEventV>,
    k: int,
)
    requires
        fresh_engine(e0),
        fs0.target is Some,
        fs0.written is None,
        0 <= k <= evs.len(),
    ensures
        ({
            let fsk = run_spec(e0, fs0, evs.take(k)).1;
            fsk.target == fs0.target || (fsk.written is Some && fsk.target == fsk.written)
        }),
{
    lemma_inv_run(fs0, e0, fs0, evs.take(k));
    let ek = run_spec(e0, fs0, evs.take(k)).0;
    let fsk = run_spec(e0, fs0, evs.take(k)).1;
    assert(engine_fs_inv(fs0, ek, fsk));
}

/// A state a mutating request that takes a backup can start in: about to
/// read or to back up, or already rejected without any I/O.
pub open spec fn rollback_start(e: EngineV) -> bool {
    match e.phase {
        PhaseV::Read => true,
        PhaseV::Backup { .. } => true,
        PhaseV::Done { outcome } => !outcome.success,
        _ => false,
    }
}

/// The inductive invariant of a run in which every validation fails and
/// every restore succeeds.
pub open spec fn rollback_inv(fs0: FsModelV, e: EngineV, fs: FsModelV) -> bool {
    match e.phase {
        PhaseV::Read => fs.target == fs0.target,
        PhaseV::Backup { .. } => fs.target == fs0.target,
        PhaseV::Write { candidate, restorable } => restorable && fs.target == fs0.target
            && fs.backup == fs0.target,
        PhaseV::Validate { candidate, restorable } => restorable && (fs.target == fs0.target
            || fs.target == Some(candidate)) && fs.backup == fs0.target,
        PhaseV::RestoreAfterInvalid { candidate, diagnostic } => (fs.target == fs0.target
            || fs.target == Some(candidate)) && fs.backup == fs0.target,
        PhaseV::RestoreAfterWriteFailure { message } => fs.target == fs0.target && fs.backup
            == fs0.target,
        PhaseV::Reload { outcome } => false,
        PhaseV::Done { outcome } => fs.target == fs0.target && !outcome.success,
    }
}

proof fn lemma_rollback_step(fs0: FsModelV, e: EngineV, fs: FsModelV, ev: EngineEventV)
    requires
        fs0.target is Some,
        rollback_inv(fs0, e, fs),
        !(ev is ValidateOk),
        !(ev is RestoreFailed),
    ensures
        rollback_inv(fs0, step_spec(e, ev), fs_after(fs, e, ev)),
{
}

proof fn lemma_rollback_run(fs0: FsModelV, e: EngineV, fs: FsModelV, evs: Seq<EngineEventV>)
    requires
        fs0.target is Some,
        rollback_inv(fs0, e, fs),
        forall|k: int| 0 <= k < evs.len() ==> !(#[trigger] evs[k] is ValidateOk),
        forall|k: int| 0 <= k < evs.len() ==> !(#[trigger] evs[k] is RestoreFailed),
    ensures
        rollback_inv(fs0, run_spec(e, fs, evs).0, run_spec(e, fs, evs).1),
    decreases evs.len(),
{
    if evs.len() > 0 && !(e.phase is Done) {
        lemma_rollback_step(fs0, e, fs, evs[0]);
        assert(forall|k: int|
            0 <= k < evs.drop_first().len() ==> #[trigger] evs.drop_first()[k] == evs[k + 1]);
        lemma_rollback_run(
            fs0,
            step_spec(e, evs[0]),
            fs_after(fs, e, evs[0]),
            evs.drop_first(),
        );
    }
}

/// Rollback: when the validator rejects every candidate and every restore
/// copy succeeds, a mutating request that takes a backup — an append, a
/// removal or a raw update of an existing target — that runs to completion
/// leaves the target file's content exactly as it was, and reports failure.
pub proof fn lemma_rollback_restores(e0: EngineV, fs0: FsModelV, evs: Seq<EngineEventV>)
    requires
        rollback_start(e0),
        fs0.target is Some,
        forall|k: int| 0 <= k < evs.len() ==> !(#[trigger] evs[k] is ValidateOk),
        forall|k: int| 0 <= k < evs.len() ==> !(#[trigger] evs[k] is RestoreFailed),
    ensures
        run_spec(e0, fs0, evs).0.phase is Done ==> run_spec(e0, fs0, evs).1.target == fs0.target
            && !phase_outcome(run_spec(e0, fs0, evs).0.phase).success,
{
    lemma_rollback_run(fs0, e0, fs0, evs);
}

/// Every engine a begin function returns is fresh, so the atomicity theorem
/// applies to it; and the flows that take a backup — append, removal, raw
/// update — start rollback-capable, so the rollback theorem applies to them.
pub proof fn lemma_begin_engines_qualify(
    content: Seq<char>,
    provider: ProviderV,
    name: Seq<char>,
    apply: bool,
    settings: GlobalSettingsV,
    providers: Seq<ProviderV>,
    timestamp: Seq<char>,
)
    ensures
        fresh_engine(begin_update_spec(content)),
        fresh_engine(begin_add_spec(provider, apply)),
        fresh_engine(begin_remove_spec(name, apply)),
        fresh_engine(begin_generate_spec(settings, providers, timestamp)),
        rollback_start(begin_update_spec(content)),
        rollback_start(begin_add_spec(provider, apply)),
        rollback_start(begin_remove_spec(name, apply)),
{
}

} // verus!
