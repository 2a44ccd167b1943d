//! The configuration mutation engine: a state machine that carries one
//! mutation request through backup, durable write, validation and rollback.
//!
//! The engine itself performs no I/O. It tells its caller which action to
//! perform next (`next_action`), the caller performs it and hands back what
//! happened (`step`), and the engine decides what follows, until it is done
//! and holds the request's outcome.

use vstd::prelude::*;

use crate::editor::{append_result_spec, append_section, has_exact_line, has_section, header_of,
    remove_result_spec, remove_section};
use crate::generator::{generate_document, generate_spec, now_rfc3339};
use crate::text::{concat2, concat3, render_lines, render_spec, split_lines, split_lines_spec,
    trim_spec, trim_of};
use crate::types::{EditError, GlobalSettings, GlobalSettingsV, Provider, ProviderV};

verus! {

/// How the attempt to signal the live process went, after a successful
/// mutation that asked to apply immediately.
#[derive(Clone, Copy, Debug, PartialEq, Eq, Structural)]
pub enum ReloadStatus {
    /// The mutation did not ask to apply immediately.
    NotRequested,
    /// The live process was signalled.
    Reloaded,
    /// A pid was on file but the process is gone.
    ProcessNotRunning,
    /// No pid could be recovered.
    PidUnavailable,
    /// The signal could not be delivered.
    SignalFailed,
}

/// The uniform result of a mutation request. A reload failure never turns
/// `success` off: the configuration change itself already stands.
#[derive(Clone, Debug)]
pub struct MutationOutcome {
    pub success: bool,
    pub message: String,
    pub updated_config: String,
    pub reload: ReloadStatus,
}

/// Mathematical image of a `MutationOutcome`.
pub struct MutationOutcomeV {
    pub success: bool,
    pub message: Seq<char>,
    pub updated_config: Seq<char>,
    pub reload: ReloadStatus,
}

impl View for MutationOutcome {
    type V = MutationOutcomeV;

    open spec fn view(&self) -> MutationOutcomeV {
        MutationOutcomeV {
            success: self.success,
            message: self.message@,
            updated_config: self.updated_config@,
            reload: self.reload,
        }
    }
}

/// A mutation request.
pub enum MutationRequest {
    /// Write a freshly generated document.
    Generate { settings: GlobalSettings, providers: Vec<Provider>, timestamp: String },
    /// Append one provider's section to the present document.
    AddProvider { provider: Provider, apply: bool },
    /// Remove one provider's section from the present document.
    RemoveProvider { name: String, apply: bool },
    /// Replace the document with the given raw text.
    UpdateRaw { content: String },
}

/// Mathematical image of a `MutationRequest`.
pub enum MutationRequestV {
    Generate { settings: GlobalSettingsV, providers: Seq<ProviderV>, timestamp: Seq<char> },
    AddProvider { provider: ProviderV, apply: bool },
    RemoveProvider { name: Seq<char>, apply: bool },
    UpdateRaw { content: Seq<char> },
}

impl View for MutationRequest {
    type V = MutationRequestV;

    open spec fn view(&self) -> MutationRequestV {
        match self {
            MutationRequest::Generate { settings, providers, timestamp } => {
                MutationRequestV::Generate {
                    settings: settings@,
                    providers: providers.deep_view(),
                    timestamp: timestamp@,
                }
            },
            MutationRequest::AddProvider { provider, apply } => {
                MutationRequestV::AddProvider { provider: provider@, apply: *apply }
            },
            MutationRequest::RemoveProvider { name, apply } => {
                MutationRequestV::RemoveProvider { name: name@, apply: *apply }
            },
            MutationRequest::UpdateRaw { content } => {
                MutationRequestV::UpdateRaw { content: content@ }
            },
        }
    }
}

/// Where a mutation stands, and what remains to be done.
pub enum Phase {
    /// The target file must be read.
    Read,
    /// The target must be copied to its backup slot.
    Backup { candidate: String },
    /// The candidate must be durably written; `restorable` says a backup was
    /// taken this request.
    Write { candidate: String, restorable: bool },
    /// The written target must be validated.
    Validate { candidate: String, restorable: bool },
    /// Validation rejected the candidate; the backup must be copied back.
    RestoreAfterInvalid { candidate: String, diagnostic: String },
    /// The write failed; the backup is copied back as a best effort, and
    /// the outcome reports the write failure either way.
    RestoreAfterWriteFailure { message: String },
    /// The mutation succeeded and asked to apply immediately: the live
    /// process is signalled.
    Reload { outcome: MutationOutcome },
    /// The request is answered.
    Done { outcome: MutationOutcome },
}

/// Mathematical image of a `Phase`.
pub enum PhaseV {
    Read,
    Backup { candidate: Seq<char> },
    Write { candidate: Seq<char>, restorable: bool },
    Validate { candidate: Seq<char>, restorable: bool },
    RestoreAfterInvalid { candidate: Seq<char>, diagnostic: Seq<char> },
    RestoreAfterWriteFailure { message: Seq<char> },
    Reload { outcome: MutationOutcomeV },
    Done { outcome: MutationOutcomeV },
}

impl View for Phase {
    type V = PhaseV;

    open spec fn view(&self) -> PhaseV {
        match self {
            Phase::Read => PhaseV::Read,
            Phase::Backup { candidate } => PhaseV::Backup { candidate: candidate@ },
            Phase::Write { candidate, restorable } => PhaseV::Write {
                candidate: candidate@,
                restorable: *restorable,
            },
            Phase::Validate { candidate, restorable } => PhaseV::Validate {
                candidate: candidate@,
                restorable: *restorable,
            },
            Phase::RestoreAfterInvalid { candidate, diagnostic } => PhaseV::RestoreAfterInvalid {
                candidate: candidate@,
                diagnostic: diagnostic@,
            },
            Phase::RestoreAfterWriteFailure { message } => PhaseV::RestoreAfterWriteFailure {
                message: message@,
            },
            Phase::Reload { outcome } => PhaseV::Reload { outcome: outcome@ },
            Phase::Done { outcome } => PhaseV::Done { outcome: outcome@ },
        }
    }
}

/// One mutation in flight.
pub struct MutationEngine {
    pub request: MutationRequest,
    pub phase: Phase,
}

/// Mathematical image of a `MutationEngine`.
pub struct EngineV {
    pub request: MutationRequestV,
    pub phase: PhaseV,
}

impl View for MutationEngine {
    type V = EngineV;

    open spec fn view(&self) -> EngineV {
        EngineV { request: self.request@, phase: self.phase@ }
    }
}

/// What the engine asks its caller to perform next.
pub enum EngineAction {
    /// Read the target file's whole text.
    ReadTarget,
    /// Copy the target to its backup slot; a missing target is a no-op.
    BackupTarget,
    /// Durably write the carried text to the target: write to a temporary
    /// sibling, sync, and rename over the target.
    WriteTarget(String),
    /// Run the external validator against the target.
    ValidateTarget,
    /// Copy the backup slot back over the target; a missing backup is a
    /// no-op.
    RestoreBackup,
    /// Signal the live process to reload, best effort.
    TriggerReload,
}

/// Mathematical image of an `EngineAction`.
pub enum EngineActionV {
    ReadTarget,
    BackupTarget,
    WriteTarget(Seq<char>),
    ValidateTarget,
    RestoreBackup,
    TriggerReload,
}

impl View for EngineAction {
    type V = EngineActionV;

    open spec fn view(&self) -> EngineActionV {
        match self {
            EngineAction::ReadTarget => EngineActionV::ReadTarget,
            EngineAction::BackupTarget => EngineActionV::BackupTarget,
            EngineAction::WriteTarget(c) => EngineActionV::WriteTarget(c@),
            EngineAction::ValidateTarget => EngineActionV::ValidateTarget,
            EngineAction::RestoreBackup => EngineActionV::RestoreBackup,
            EngineAction::TriggerReload => EngineActionV::TriggerReload,
        }
    }
}

/// What came back from performing an action.
pub enum EngineEvent {
    ReadOk(String),
    ReadFailed(String),
    BackupOk,
    BackupFailed(String),
    WriteOk,
    WriteFailed(String),
    ValidateOk,
    ValidateFailed(String),
    RestoreOk,
    RestoreFailed(String),
    ReloadDone(ReloadStatus),
}

/// Mathematical image of an `EngineEvent`.
pub enum EngineEventV {
    ReadOk(Seq<char>),
    ReadFailed(Seq<char>),
    BackupOk,
    BackupFailed(Seq<char>),
    WriteOk,
    WriteFailed(Seq<char>),
    ValidateOk,
    ValidateFailed(Seq<char>),
    RestoreOk,
    RestoreFailed(Seq<char>),
    ReloadDone(ReloadStatus),
}

impl View for EngineEvent {
    type V = EngineEventV;

    open spec fn view(&self) -> EngineEventV {
        match self {
            EngineEvent::ReadOk(s) => EngineEventV::ReadOk(s@),
            EngineEvent::ReadFailed(s) => EngineEventV::ReadFailed(s@),
            EngineEvent::BackupOk => EngineEventV::BackupOk,
            EngineEvent::BackupFailed(s) => EngineEventV::BackupFailed(s@),
            EngineEvent::WriteOk => EngineEventV::WriteOk,
            EngineEvent::WriteFailed(s) => EngineEventV::WriteFailed(s@),
            EngineEvent::ValidateOk => EngineEventV::ValidateOk,
            EngineEvent::ValidateFailed(s) => EngineEventV::ValidateFailed(s@),
            EngineEvent::RestoreOk => EngineEventV::RestoreOk,
            EngineEvent::RestoreFailed(s) => EngineEventV::RestoreFailed(s@),
            EngineEvent::ReloadDone(st) => EngineEventV::ReloadDone(*st),
        }
    }
}

// --- The messages each transition reports. ---

pub open spec fn msg_read_failed(e: Seq<char>) -> Seq<char> {
    "Failed to read existing config: "@ + e
}

pub open spec fn msg_duplicate(name: Seq<char>) -> Seq<char> {
    "Provider "@ + name + " already exists in config"@
}

pub open spec fn msg_not_found(name: Seq<char>) -> Seq<char> {
    "Provider "@ + name + " not found in config"@
}

pub open spec fn msg_backup_failed(e: Seq<char>) -> Seq<char> {
    "Failed to backup config: "@ + e
}

pub open spec fn msg_invalid(d: Seq<char>) -> Seq<char> {
    "Invalid configuration: "@ + d
}

pub open spec fn msg_invalid_restored(d: Seq<char>) -> Seq<char> {
    "Invalid configuration: "@ + d + ". Restored previous config."@
}

pub open spec fn msg_invalid_restore_failed(d: Seq<char>, r: Seq<char>) -> Seq<char> {
    "Invalid configuration: "@ + d + ". Failed to restore backup: "@ + r
}

pub open spec fn msg_name_required() -> Seq<char> {
    "provider_name is required"@
}

/// The write-failure message, worded per request kind.
pub open spec fn write_failure_message(req: MutationRequestV, e: Seq<char>) -> Seq<char> {
    match req {
        MutationRequestV::UpdateRaw { .. } => "Failed to write config: "@ + e,
        MutationRequestV::Generate { .. } => "Failed to write config file: "@ + e,
        _ => "Failed to write updated config: "@ + e,
    }
}

/// The success message, worded per request kind.
pub open spec fn success_message(req: MutationRequestV) -> Seq<char> {
    match req {
        MutationRequestV::Generate { .. } => "Configuration generated successfully"@,
        MutationRequestV::AddProvider { provider, .. } => "Provider "@ + provider.name
            + " added successfully"@,
        MutationRequestV::RemoveProvider { name, .. } => "Provider "@ + name
            + " removed successfully"@,
        MutationRequestV::UpdateRaw { .. } => "Configuration updated successfully"@,
    }
}

/// The document text a successful outcome carries: the written candidate,
/// except for a raw update, which reports none.
pub open spec fn success_updated(req: MutationRequestV, candidate: Seq<char>) -> Seq<char> {
    match req {
        MutationRequestV::UpdateRaw { .. } => Seq::<char>::empty(),
        _ => candidate,
    }
}

/// Whether the request asks to signal the live process after success.
pub open spec fn wants_apply(req: MutationRequestV) -> bool {
    match req {
        MutationRequestV::AddProvider { apply, .. } => apply,
        MutationRequestV::RemoveProvider { apply, .. } => apply,
        _ => false,
    }
}

/// A terminal failing state.
pub open spec fn done_fail(req: MutationRequestV, msg: Seq<char>, updated: Seq<char>) -> EngineV {
    EngineV {
        request: req,
        phase: PhaseV::Done {
            outcome: MutationOutcomeV {
                success: false,
                message: msg,
                updated_config: updated,
                reload: ReloadStatus::NotRequested,
            },
        },
    }
}

/// What a read of the target leads to: the candidate computed by the
/// section editor and the backup phase, or the structural failure.
pub open spec fn read_step_spec(req: MutationRequestV, content: Seq<char>) -> EngineV {
    match req {
        MutationRequestV::AddProvider { provider, apply } => {
            let doc = split_lines_spec(content);
            if has_exact_line(doc, header_of(provider.name)) {
                done_fail(req, msg_duplicate(provider.name), Seq::<char>::empty())
            } else {
                EngineV {
                    request: req,
                    phase: PhaseV::Backup {
                        candidate: render_spec(append_result_spec(doc, provider)),
                    },
                }
            }
        },
        MutationRequestV::RemoveProvider { name, apply } => {
            let doc = split_lines_spec(content);
            if trim_spec(name).len() == 0 {
                done_fail(req, msg_name_required(), Seq::<char>::empty())
            } else if !has_section(doc, name) {
                done_fail(req, msg_not_found(name), content)
            } else {
                EngineV {
                    request: req,
                    phase: PhaseV::Backup { candidate: render_spec(remove_result_spec(doc, name)) },
                }
            }
        },
        _ => EngineV { request: req, phase: PhaseV::Read },
    }
}

/// The terminal or reload state a validated mutation reaches.
pub open spec fn success_step_spec(req: MutationRequestV, candidate: Seq<char>) -> EngineV {
    let o = MutationOutcomeV {
        success: true,
        message: success_message(req),
        updated_config: success_updated(req, candidate),
        reload: ReloadStatus::NotRequested,
    };
    if wants_apply(req) {
        EngineV { request: req, phase: PhaseV::Reload { outcome: o } }
    } else {
        EngineV { request: req, phase: PhaseV::Done { outcome: o } }
    }
}

/// The engine's whole transition function. An event that does not answer
/// the phase's pending action changes nothing.
pub open spec fn step_spec(e: EngineV, ev: EngineEventV) -> EngineV {
    match e.phase {
        PhaseV::Read => match ev {
            EngineEventV::ReadOk(content) => read_step_spec(e.request, content),
            EngineEventV::ReadFailed(err) => done_fail(
                e.request,
                msg_read_failed(err),
                Seq::<char>::empty(),
            ),
            _ => e,
        },
        PhaseV::Backup { candidate } => match ev {
            EngineEventV::BackupOk => EngineV {
                request: e.request,
                phase: PhaseV::Write { candidate, restorable: true },
            },
            EngineEventV::BackupFailed(err) => done_fail(
                e.request,
                msg_backup_failed(err),
                Seq::<char>::empty(),
            ),
            _ => e,
        },
        PhaseV::Write { candidate, restorable } => match ev {
            EngineEventV::WriteOk => EngineV {
                request: e.request,
                phase: PhaseV::Validate { candidate, restorable },
            },
            EngineEventV::WriteFailed(err) => {
                if restorable {
                    EngineV {
                        request: e.request,
                        phase: PhaseV::RestoreAfterWriteFailure {
                            message: write_failure_message(e.request, err),
                        },
                    }
                } else {
                    done_fail(e.request, write_failure_message(e.request, err), Seq::<char>::empty())
                }
            },
            _ => e,
        },
        PhaseV::Validate { candidate, restorable } => match ev {
            EngineEventV::ValidateOk => success_step_spec(e.request, candidate),
            EngineEventV::ValidateFailed(d) => {
                if restorable {
                    EngineV {
                        request: e.request,
                        phase: PhaseV::RestoreAfterInvalid { candidate, diagnostic: d },
                    }
                } else {
                    done_fail(e.request, msg_invalid(d), Seq::<char>::empty())
                }
            },
            _ => e,
        },
        PhaseV::RestoreAfterInvalid { candidate, diagnostic } => match ev {
            EngineEventV::RestoreOk => done_fail(
                e.request,
                msg_invalid_restored(diagnostic),
                Seq::<char>::empty(),
            ),
            EngineEventV::RestoreFailed(r2) => done_fail(
                e.request,
                msg_invalid_restore_failed(diagnostic, r2),
                Seq::<char>::empty(),
            ),
            _ => e,
        },
        PhaseV::RestoreAfterWriteFailure { message } => match ev {
            EngineEventV::RestoreOk => done_fail(e.request, message, Seq::<char>::empty()),
            EngineEventV::RestoreFailed(_) => done_fail(e.request, message, Seq::<char>::empty()),
            _ => e,
        },
        PhaseV::Reload { outcome } => match ev {
            EngineEventV::ReloadDone(st) => EngineV {
                request: e.request,
                phase: PhaseV::Done {
                    outcome: MutationOutcomeV {
                        success: outcome.success,
                        message: outcome.message,
                        updated_config: outcome.updated_config,
                        reload: st,
                    },
                },
            },
            _ => e,
        },
        PhaseV::Done { .. } => e,
    }
}

/// The action the phase is waiting on, `None` once done.
pub open spec fn action_spec(e: EngineV) -> Option<EngineActionV> {
    match e.phase {
        PhaseV::Read => Some(EngineActionV::ReadTarget),
        PhaseV::Backup { .. } => Some(EngineActionV::BackupTarget),
        PhaseV::Write { candidate, .. } => Some(EngineActionV::WriteTarget(candidate)),
        PhaseV::Validate { .. } => Some(EngineActionV::ValidateTarget),
        PhaseV::RestoreAfterInvalid { .. } => Some(EngineActionV::RestoreBackup),
        PhaseV::RestoreAfterWriteFailure { .. } => Some(EngineActionV::RestoreBackup),
        PhaseV::Reload { .. } => Some(EngineActionV::TriggerReload),
        PhaseV::Done { .. } => None::<EngineActionV>,
    }
}

/// The outcome held by a reload or terminal phase.
pub open spec fn phase_outcome(p: PhaseV) -> MutationOutcomeV {
    match p {
        PhaseV::Reload { outcome } => outcome,
        PhaseV::Done { outcome } => outcome,
        _ => arbitrary(),
    }
}

// --- The engines each request starts with. ---

/// The state a raw update starts in: backup first, the raw text as the
/// candidate.
pub open spec fn begin_update_spec(content: Seq<char>) -> EngineV {
    EngineV {
        request: MutationRequestV::UpdateRaw { content },
        phase: PhaseV::Backup { candidate: content },
    }
}

/// Starts a raw update.
pub fn begin_update(content: String) -> (r: MutationEngine)
    ensures
        r@ == begin_update_spec(content@),
{
    let candidate = content.clone();
    MutationEngine {
        request: MutationRequest::UpdateRaw { content },
        phase: Phase::Backup { candidate },
    }
}

/// The state a generation starts in: no backup, the rendered generated
/// document as the candidate.
pub open spec fn begin_generate_spec(
    settings: GlobalSettingsV,
    providers: Seq<ProviderV>,
    timestamp: Seq<char>,
) -> EngineV {
    EngineV {
        request: MutationRequestV::Generate { settings, providers, timestamp },
        phase: PhaseV::Write {
            candidate: render_spec(generate_spec(settings, providers, timestamp)),
            restorable: false,
        },
    }
}

/// Starts a generation stamped with the given timestamp.
pub fn begin_generate_at(
    settings: GlobalSettings,
    providers: Vec<Provider>,
    timestamp: String,
) -> (r: MutationEngine)
    ensures
        r@ == begin_generate_spec(settings@, providers.deep_view(), timestamp@),
{
    let doc = generate_document(&settings, &providers, timestamp.as_str());
    let candidate = render_lines(&doc);
    MutationEngine {
        request: MutationRequest::Generate { settings, providers, timestamp },
        phase: Phase::Write { candidate, restorable: false },
    }
}

/// Starts a generation stamped with the present time.
pub fn begin_generate(settings: GlobalSettings, providers: Vec<Provider>) -> (r: MutationEngine)
    ensures
        exists|ts: Seq<char>| r@ == begin_generate_spec(settings@, providers.deep_view(), ts),
{
    let ts = now_rfc3339();
    let ghost tsv = ts@;
    let r = begin_generate_at(settings, providers, ts);
    proof {
        assert(r@ == begin_generate_spec(r@.request->Generate_settings, r@.request->Generate_providers, tsv));
    }
    r
}

/// The state an append starts in: the target must be read first.
pub open spec fn begin_add_spec(provider: ProviderV, apply: bool) -> EngineV {
    EngineV {
        request: MutationRequestV::AddProvider { provider, apply },
        phase: PhaseV::Read,
    }
}

/// Starts appending one provider's section.
pub fn begin_add(provider: Provider, apply: bool) -> (r: MutationEngine)
    ensures
        r@ == begin_add_spec(provider@, apply),
{
    MutationEngine {
        request: MutationRequest::AddProvider { provider, apply },
        phase: Phase::Read,
    }
}

/// The state a removal starts in: a blank or whitespace-only name is
/// rejected before any I/O; otherwise the target must be read first.
pub open spec fn begin_remove_spec(name: Seq<char>, apply: bool) -> EngineV {
    if trim_spec(name).len() == 0 {
        done_fail(
            MutationRequestV::RemoveProvider { name, apply },
            msg_name_required(),
            Seq::<char>::empty(),
        )
    } else {
        EngineV {
            request: MutationRequestV::RemoveProvider { name, apply },
            phase: PhaseV::Read,
        }
    }
}

/// Starts removing the named provider's section.
pub fn begin_remove(name: String, apply: bool) -> (r: MutationEngine)
    ensures
        r@ == begin_remove_spec(name@, apply),
{
    let t = trim_of(name.as_str());
    if t.as_str().is_empty() {
        MutationEngine {
            request: MutationRequest::RemoveProvider { name, apply },
            phase: Phase::Done {
                outcome: MutationOutcome {
                    success: false,
                    message: "provider_name is required".to_owned(),
                    updated_config: String::new(),
                    reload: ReloadStatus::NotRequested,
                },
            },
        }
    } else {
        MutationEngine {
            request: MutationRequest::RemoveProvider { name, apply },
            phase: Phase::Read,
        }
    }
}

impl MutationEngine {
    /// The action the engine waits on, `None` once done.
    pub fn next_action(&self) -> (r: Option<EngineAction>)
        ensures
            r is Some <==> action_spec(self@) is Some,
            r is Some ==> r->Some_0@ == action_spec(self@)->Some_0,
    {
        match &self.phase {
            Phase::Read => Some(EngineAction::ReadTarget),
            Phase::Backup { .. } => Some(EngineAction::BackupTarget),
            Phase::Write { candidate, .. } => Some(EngineAction::WriteTarget(candidate.clone())),
            Phase::Validate { .. } => Some(EngineAction::ValidateTarget),
            Phase::RestoreAfterInvalid { .. } => Some(EngineAction::RestoreBackup),
            Phase::RestoreAfterWriteFailure { .. } => Some(EngineAction::RestoreBackup),
            Phase::Reload { .. } => Some(EngineAction::TriggerReload),
            Phase::Done { .. } => None,
        }
    }

    /// Whether the request is answered.
    pub fn is_done(&self) -> (r: bool)
        ensures
            r == (self@.phase is Done),
    {
        match &self.phase {
            Phase::Done { .. } => true,
            _ => false,
        }
    }

    /// The outcome, once the request is answered.
    pub fn outcome(&self) -> (r: Option<&MutationOutcome>)
        ensures
            r is Some <==> self@.phase is Done,
            r is Some ==> r->Some_0@ == phase_outcome(self@.phase),
    {
        match &self.phase {
            Phase::Done { outcome } => Some(outcome),
            _ => None,
        }
    }

    /// Feeds back what the last action found; the engine moves on exactly
    /// as the transition function `step_spec` says.
    pub fn step(self, event: EngineEvent) -> (r: MutationEngine)
        ensures
            r@ == step_spec(self@, event@),
    {
        let MutationEngine { request, phase } = self;
        match phase {
            Phase::Read => {
                match event {
                    EngineEvent::ReadOk(content) => {
                        match &request {
                            MutationRequest::AddProvider { provider, .. } => {
                                let doc = split_lines(content.as_str());
                                match append_section(&doc, provider) {
                                    Ok(lines) => {
                                        let candidate = render_lines(&lines);
                                        MutationEngine {
                                            request,
                                            phase: Phase::Backup { candidate },
                                        }
                                    },
                                    Err(_) => {
                                        let msg = concat3(
                                            "Provider ",
                                            provider.name.as_str(),
                                            " already exists in config",
                                        );
                                        MutationEngine {
                                            request,
                                            phase: Phase::Done {
                                                outcome: MutationOutcome {
                                                    success: false,
                                                    message: msg,
                                                    updated_config: String::new(),
                                                    reload: ReloadStatus::NotRequested,
                                                },
                                            },
                                        }
                                    },
                                }
                            },
                            MutationRequest::RemoveProvider { name, .. } => {
                                let doc = split_lines(content.as_str());
                                match remove_section(&doc, name.as_str()) {
                                    Ok(lines) => {
                                        let candidate = render_lines(&lines);
                                        MutationEngine {
                                            request,
                                            phase: Phase::Backup { candidate },
                                        }
                                    },
                                    Err(EditError::InvalidArgument) => MutationEngine {
                                        request,
                                        phase: Phase::Done {
                                            outcome: MutationOutcome {
                                                success: false,
                                                message: "provider_name is required".to_owned(),
                                                updated_config: String::new(),
                                                reload: ReloadStatus::NotRequested,
                                            },
                                        },
                                    },
                                    Err(_) => {
                                        let msg = concat3(
                                            "Provider ",
                                            name.as_str(),
                                            " not found in config",
                                        );
                                        MutationEngine {
                                            request,
                                            phase: Phase::Done {
                                                outcome: MutationOutcome {
                                                    success: false,
                                                    message: msg,
                                                    updated_config: content,
                                                    reload: ReloadStatus::NotRequested,
                                                },
                                            },
                                        }
                                    },
                                }
                            },
                            _ => MutationEngine { request, phase: Phase::Read },
                        }
                    },
                    EngineEvent::ReadFailed(err) => MutationEngine {
                        request,
                        phase: Phase::Done {
                            outcome: MutationOutcome {
                                success: false,
                                message: concat2("Failed to read existing config: ", err.as_str()),
                                updated_config: String::new(),
                                reload: ReloadStatus::NotRequested,
                            },
                        },
                    },
                    _ => MutationEngine { request, phase: Phase::Read },
                }
            },
            Phase::Backup { candidate } => {
                match event {
                    EngineEvent::BackupOk => MutationEngine {
                        request,
                        phase: Phase::Write { candidate, restorable: true },
                    },
                    EngineEvent::BackupFailed(err) => MutationEngine {
                        request,
                        phase: Phase::Done {
                            outcome: MutationOutcome {
                                success: false,
                                message: concat2("Failed to backup config: ", err.as_str()),
                                updated_config: String::new(),
                                reload: ReloadStatus::NotRequested,
                            },
                        },
                    },
                    _ => MutationEngine { request, phase: Phase::Backup { candidate } },
                }
            },
            Phase::Write { candidate, restorable } => {
                match event {
                    EngineEvent::WriteOk => MutationEngine {
                        request,
                        phase: Phase::Validate { candidate, restorable },
                    },
                    EngineEvent::WriteFailed(err) => {
                        let msg = match &request {
                            MutationRequest::UpdateRaw { .. } => concat2(
                                "Failed to write config: ",
                                err.as_str(),
                            ),
                            MutationRequest::Generate { .. } => concat2(
                                "Failed to write config file: ",
                                err.as_str(),
                            ),
                            _ => concat2("Failed to write updated config: ", err.as_str()),
                        };
                        if restorable {
                            MutationEngine {
                                request,
                                phase: Phase::RestoreAfterWriteFailure { message: msg },
                            }
                        } else {
                            MutationEngine {
                                request,
                                phase: Phase::Done {
                                    outcome: MutationOutcome {
                                        success: false,
                                        message: msg,
                                        updated_config: String::new(),
                                        reload: ReloadStatus::NotRequested,
                                    },
                                },
                            }
                        }
                    },
                    _ => MutationEngine { request, phase: Phase::Write { candidate, restorable } },
                }
            },
            Phase::Validate { candidate, restorable } => {
                match event {
                    EngineEvent::ValidateOk => {
                        let msg = match &request {
                            MutationRequest::Generate { .. } => {
                                "Configuration generated successfully".to_owned()
                            },
                            MutationRequest::AddProvider { provider, .. } => concat3(
                                "Provider ",
                                provider.name.as_str(),
                                " added successfully",
                            ),
                            MutationRequest::RemoveProvider { name, .. } => concat3(
                                "Provider ",
                                name.as_str(),
                                " removed successfully",
                            ),
                            MutationRequest::UpdateRaw { .. } => {
                                "Configuration updated successfully".to_owned()
                            },
                        };
                        let updated = match &request {
                            MutationRequest::UpdateRaw { .. } => String::new(),
                            _ => candidate,
                        };
                        let apply = match &request {
                            MutationRequest::AddProvider { apply, .. } => *apply,
                            MutationRequest::RemoveProvider { apply, .. } => *apply,
                            _ => false,
                        };
                        let o = MutationOutcome {
                            success: true,
                            message: msg,
                            updated_config: updated,
                            reload: ReloadStatus::NotRequested,
                        };
                        if apply {
                            MutationEngine { request, phase: Phase::Reload { outcome: o } }
                        } else {
                            MutationEngine { request, phase: Phase::Done { outcome: o } }
                        }
                    },
                    EngineEvent::ValidateFailed(d) => {
                        if restorable {
                            MutationEngine {
                                request,
                                phase: Phase::RestoreAfterInvalid { candidate, diagnostic: d },
                            }
                        } else {
                            MutationEngine {
                                request,
                                phase: Phase::Done {
                                    outcome: MutationOutcome {
                                        success: false,
                                        message: concat2("Invalid configuration: ", d.as_str()),
                                        updated_config: String::new(),
                                        reload: ReloadStatus::NotRequested,
                                    },
                                },
                            }
                        }
                    },
                    _ => MutationEngine {
                        request,
                        phase: Phase::Validate { candidate, restorable },
                    },
                }
            },
            Phase::RestoreAfterInvalid { candidate, diagnostic } => {
                match event {
                    EngineEvent::RestoreOk => MutationEngine {
                        request,
                        phase: Phase::Done {
                            outcome: MutationOutcome {
                                success: false,
                                message: concat3(
                                    "Invalid configuration: ",
                                    diagnostic.as_str(),
                                    ". Restored previous config.",
                                ),
                                updated_config: String::new(),
                                reload: ReloadStatus::NotRequested,
                            },
                        },
                    },
                    EngineEvent::RestoreFailed(r2) => {
                        let head = concat3(
                            "Invalid configuration: ",
                            diagnostic.as_str(),
                            ". Failed to restore backup: ",
                        );
                        MutationEngine {
                            request,
                            phase: Phase::Done {
                                outcome: MutationOutcome {
                                    success: false,
                                    message: concat2(head.as_str(), r2.as_str()),
                                    updated_config: String::new(),
                                    reload: ReloadStatus::NotRequested,
                                },
                            },
                        }
                    },
                    _ => MutationEngine {
                        request,
                        phase: Phase::RestoreAfterInvalid { candidate, diagnostic },
                    },
                }
            },
            Phase::RestoreAfterWriteFailure { message } => {
                match event {
                    EngineEvent::RestoreOk => MutationEngine {
                        request,
                        phase: Phase::Done {
                            outcome: MutationOutcome {
                                success: false,
                                message,
                                updated_config: String::new(),
                                reload: ReloadStatus::NotRequested,
                            },
                        },
                    },
                    EngineEvent::RestoreFailed(_) => MutationEngine {
                        request,
                        phase: Phase::Done {
                            outcome: MutationOutcome {
                                success: false,
                                message,
                                updated_config: String::new(),
                                reload: ReloadStatus::NotRequested,
                            },
                        },
                    },
                    _ => MutationEngine {
                        request,
                        phase: Phase::RestoreAfterWriteFailure { message },
                    },
                }
            },
            Phase::Reload { outcome } => {
                match event {
                    EngineEvent::ReloadDone(st) => {
                        let MutationOutcome { success, message, updated_config, .. } = outcome;
                        MutationEngine {
                            request,
                            phase: Phase::Done {
                                outcome: MutationOutcome {
                                    success,
                                    message,
                                    updated_config,
                                    reload: st,
                                },
                            },
                        }
                    },
                    _ => MutationEngine { request, phase: Phase::Reload { outcome } },
                }
            },
            Phase::Done { outcome } => MutationEngine { request, phase: Phase::Done { outcome } },
        }
    }
}

} // verus!
