//! The migration pipeline as a state machine.
//!
//! A run visits its phases in a fixed order: check, copy, verify, then,
//! where asked for, link and delete. The machine decides; the caller acts
//! and reports what happened. A failed verification is followed by the
//! removal of the partial copy. A failure to link or to delete after a
//! verified copy does not fail the migration.

use crate::appdata_analyzer::{join_path, joined};
use crate::file_operations::{
    failure_text, is_present, lemma_steps_push, link_plan, refused, steps_of, text_of,
    FileOperationError, FileOperationResult, FsPlan, FsStep, LinkRequest, OperationFailure, Plan,
    SourceFacts, Step, TargetFacts,
};
use crate::migration_service::{
    MigrationOptions, MigrationOutcome, MigrationResult, MigrationService,
};
use crate::text::same_text;
use vstd::prelude::*;

verus! {

/// The phases of a migration, in the order in which they are visited.
#[derive(Debug, Clone, Copy, PartialEq, Eq, Structural)]
pub enum MigrationPhase {
    Start,
    PreCheck,
    Copy,
    Verify,
    Cleanup,
    Link,
    DeleteSource,
    Done,
}

/// What the caller reports to the machine.
#[derive(Debug, Clone)]
pub enum MigrationEvent {
    /// The run is to begin.
    Begin,
    /// The checks were run; the text of the failure where one failed.
    PreChecked(Option<String>),
    /// The copy was made; the text of the failure where it failed.
    Copied(Option<String>),
    /// The copy was verified; the text of the failure where it failed.
    Verified(Option<String>),
    /// The removal of the partial copy was tried.
    TargetRemoved,
    /// Linking was tried: whether the source was renamed, and whether the link was created.
    Linked { renamed: bool, created: bool },
    /// The deletion of the source was tried.
    SourceDeleted,
}

/// What the caller reports, as a mathematical value.
pub enum Event {
    Begin,
    PreChecked(Option<Seq<char>>),
    Copied(Option<Seq<char>>),
    Verified(Option<Seq<char>>),
    TargetRemoved,
    Linked { renamed: bool, created: bool },
    SourceDeleted,
}

impl View for MigrationEvent {
    type V = Event;

    open spec fn view(&self) -> Event {
        match *self {
            MigrationEvent::Begin => Event::Begin,
            MigrationEvent::PreChecked(f) => Event::PreChecked(text_of(f)),
            MigrationEvent::Copied(f) => Event::Copied(text_of(f)),
            MigrationEvent::Verified(f) => Event::Verified(text_of(f)),
            MigrationEvent::TargetRemoved => Event::TargetRemoved,
            MigrationEvent::Linked { renamed, created } => Event::Linked { renamed, created },
            MigrationEvent::SourceDeleted => Event::SourceDeleted,
        }
    }
}

/// What the machine asks the caller to do.
#[derive(Debug, Clone)]
pub enum MigrationAction {
    /// Gather the facts and run the checks.
    RunPreCheck,
    /// Copy the source to the target.
    CopyTree,
    /// Measure both trees and verify the copy.
    VerifyCopy,
    /// Remove the partial copy at the target.
    RemoveTarget,
    /// Rename the source and create the link in its place.
    CreateLink,
    /// Delete the source.
    DeleteSource,
    /// Hand the result to the user.
    Finish(MigrationResult),
}

/// What the machine asks for, as a mathematical value.
pub enum Action {
    RunPreCheck,
    CopyTree,
    VerifyCopy,
    RemoveTarget,
    CreateLink,
    DeleteSource,
    Finish(MigrationOutcome),
}

impl View for MigrationAction {
    type V = Action;

    open spec fn view(&self) -> Action {
        match *self {
            MigrationAction::RunPreCheck => Action::RunPreCheck,
            MigrationAction::CopyTree => Action::CopyTree,
            MigrationAction::VerifyCopy => Action::VerifyCopy,
            MigrationAction::RemoveTarget => Action::RemoveTarget,
            MigrationAction::CreateLink => Action::CreateLink,
            MigrationAction::DeleteSource => Action::DeleteSource,
            MigrationAction::Finish(r) => Action::Finish(r@),
        }
    }
}

/// One migration under way.
#[derive(Debug)]
pub struct MigrationRun {
    options: MigrationOptions,
    phase: MigrationPhase,
    /// Whether the copy has passed verification.
    verified: bool,
    /// The text of the failure that ended the run.
    failure: Option<String>,
    /// The path of the link, once it is created.
    symlink_path: Option<String>,
    /// Whether the source was renamed to make room for the link.
    renamed: bool,
}

/// A migration under way, as a mathematical value.
pub struct RunState {
    pub source: Seq<char>,
    pub target: Seq<char>,
    pub create_symlink: bool,
    pub delete_source: bool,
    pub phase: MigrationPhase,
    pub verified: bool,
    pub failure: Option<Seq<char>>,
    pub symlink_path: Option<Seq<char>>,
    pub renamed: bool,
}

impl View for MigrationRun {
    type V = RunState;

    closed spec fn view(&self) -> RunState {
        RunState {
            source: self.options.source_path@,
            target: self.options.target_path@,
            create_symlink: self.options.create_symlink,
            delete_source: self.options.delete_source,
            phase: self.phase,
            verified: self.verified,
            failure: text_of(self.failure),
            symlink_path: text_of(self.symlink_path),
            renamed: self.renamed,
        }
    }
}

/// The place of a phase in the order of the pipeline.
pub open spec fn rank(p: MigrationPhase) -> nat {
    match p {
        MigrationPhase::Start => 0,
        MigrationPhase::PreCheck => 1,
        MigrationPhase::Copy => 2,
        MigrationPhase::Verify => 3,
        MigrationPhase::Cleanup => 4,
        MigrationPhase::Link => 5,
        MigrationPhase::DeleteSource => 6,
        MigrationPhase::Done => 7,
    }
}

/// The state in which a run begins.
pub open spec fn initial(options: MigrationOptions) -> RunState {
    RunState {
        source: options.source_path@,
        target: options.target_path@,
        create_symlink: options.create_symlink,
        delete_source: options.delete_source,
        phase: MigrationPhase::Start,
        verified: false,
        failure: None,
        symlink_path: None,
        renamed: false,
    }
}

/// The result of a run as it stands: a failure with its text, or success
/// with the path of the link where one was created.
pub open spec fn outcome(s: RunState) -> MigrationOutcome {
    match s.failure {
        Some(text) => MigrationOutcome {
            success: false,
            message: text,
            source_path: s.source,
            target_path: s.target,
            symlink_path: None,
        },
        None => MigrationOutcome {
            success: true,
            message: "迁移成功完成"@,
            source_path: s.source,
            target_path: s.target,
            symlink_path: s.symlink_path,
        },
    }
}

/// What the machine asks for while it waits in a phase.
pub open spec fn pending(s: RunState) -> Action {
    match s.phase {
        MigrationPhase::Start => Action::RunPreCheck,
        MigrationPhase::PreCheck => Action::RunPreCheck,
        MigrationPhase::Copy => Action::CopyTree,
        MigrationPhase::Verify => Action::VerifyCopy,
        MigrationPhase::Cleanup => Action::RemoveTarget,
        MigrationPhase::Link => Action::CreateLink,
        MigrationPhase::DeleteSource => Action::DeleteSource,
        MigrationPhase::Done => Action::Finish(outcome(s)),
    }
}

/// The state with a new phase.
pub open spec fn at(s: RunState, phase: MigrationPhase) -> RunState {
    RunState { phase, ..s }
}

/// The state of a run that has failed with `text`.
pub open spec fn failed(s: RunState, phase: MigrationPhase, text: Seq<char>) -> RunState {
    RunState { phase, failure: Some(text), ..s }
}

/// The state after the source is settled: the source is deleted next where
/// that was asked for and the source still stands at its path, else the run is done.
pub open spec fn after_link(s: RunState) -> RunState {
    if s.delete_source && !s.renamed {
        at(s, MigrationPhase::DeleteSource)
    } else {
        at(s, MigrationPhase::Done)
    }
}

/// The state that follows `s` on `event`. An event that does not belong to
/// the phase changes nothing.
pub open spec fn next_state(s: RunState, event: Event) -> RunState {
    match (s.phase, event) {
        (MigrationPhase::Start, Event::Begin) => at(s, MigrationPhase::PreCheck),
        (MigrationPhase::PreCheck, Event::PreChecked(None)) => at(s, MigrationPhase::Copy),
        (MigrationPhase::PreCheck, Event::PreChecked(Some(e))) => failed(
            s,
            MigrationPhase::Done,
            "预检查失败: "@ + e,
        ),
        (MigrationPhase::Copy, Event::Copied(None)) => at(s, MigrationPhase::Verify),
        (MigrationPhase::Copy, Event::Copied(Some(e))) => failed(
            s,
            MigrationPhase::Done,
            "复制失败: "@ + e,
        ),
        (MigrationPhase::Verify, Event::Verified(None)) => {
            let v = RunState { verified: true, ..s };
            if s.create_symlink {
                at(v, MigrationPhase::Link)
            } else {
                after_link(v)
            }
        },
        (MigrationPhase::Verify, Event::Verified(Some(e))) => failed(
            s,
            MigrationPhase::Cleanup,
            "复制验证失败: "@ + e,
        ),
        (MigrationPhase::Cleanup, Event::TargetRemoved) => at(s, MigrationPhase::Done),
        (MigrationPhase::Link, Event::Linked { renamed, created }) => after_link(
            RunState {
                renamed,
                symlink_path: if created {
                    Some(s.source)
                } else {
                    None
                },
                ..s
            },
        ),
        (MigrationPhase::DeleteSource, Event::SourceDeleted) => at(s, MigrationPhase::Done),
        _ => s,
    }
}

/// What the machine asks for after `event`.
pub open spec fn next_action(s: RunState, event: Event) -> Action {
    pending(next_state(s, event))
}

/// What holds of every state that a run can reach from its beginning.
pub open spec fn reachable(s: RunState) -> bool {
    &&& s.failure is Some ==> (s.phase == MigrationPhase::Cleanup || s.phase == MigrationPhase::Done)
        && !s.verified
    &&& s.phase == MigrationPhase::Cleanup ==> s.failure is Some
    &&& s.phase == MigrationPhase::Link ==> s.verified && s.create_symlink
    &&& s.phase == MigrationPhase::DeleteSource ==> s.verified && s.delete_source && !s.renamed
    &&& s.phase == MigrationPhase::Done && s.failure is None ==> s.verified
    &&& rank(s.phase) <= rank(MigrationPhase::Verify) ==> !s.verified && !s.renamed
        && s.symlink_path is None
    &&& s.renamed ==> s.create_symlink
    &&& s.symlink_path is Some ==> s.create_symlink && s.verified
}

/// **Order of the phases.** Every event leads from a reachable state to a
/// reachable one, and never to an earlier phase; the paths and the options
/// of the run stay what they were.
pub proof fn lemma_run_advances(s: RunState, event: Event)
    requires
        reachable(s),
    ensures
        reachable(next_state(s, event)),
        rank(next_state(s, event).phase) >= rank(s.phase),
        next_state(s, event).source == s.source,
        next_state(s, event).target == s.target,
        next_state(s, event).create_symlink == s.create_symlink,
        next_state(s, event).delete_source == s.delete_source,
{
}

/// The state in which a run begins is reachable.
pub proof fn lemma_initial_reachable(options: MigrationOptions)
    ensures
        reachable(initial(options)),
{
}

/// **Migration safety.** The machine asks for the source to be deleted
/// only where the options ask for it, the copy has passed verification and
/// the source still stands at its path; and it reports success only after
/// the copy has passed verification.
pub proof fn lemma_source_is_kept(s: RunState, event: Event)
    requires
        reachable(s),
    ensures
        next_action(s, event) is DeleteSource ==> s.delete_source && next_state(s, event).verified
            && !next_state(s, event).renamed,
        next_action(s, event) matches Action::Finish(r) ==> (r.success ==> next_state(
            s,
            event,
        ).verified),
        next_action(s, event) is RemoveTarget ==> !next_state(s, event).verified,
{
    lemma_run_advances(s, event);
}

impl MigrationEvent {
    /// The report of a copy: a failed plan and a result without success both count as failure.
    pub fn copied(result: &Result<FileOperationResult, FileOperationError>) -> (e: MigrationEvent)
        ensures
            e@ == Event::Copied(
                match *result {
                    Err(f) => Some(failure_text(f@)),
                    Ok(r) => if r.success {
                        None
                    } else {
                        Some(r.message@)
                    },
                },
            ),
    {
        match result {
            Err(f) => MigrationEvent::Copied(Some(f.message())),
            Ok(r) => {
                if r.success {
                    MigrationEvent::Copied(None)
                } else {
                    MigrationEvent::Copied(Some(r.message.clone()))
                }
            },
        }
    }

    /// The report of a try to link. `taken` is the number of steps of the
    /// plan that were taken, and `failed` tells whether one of them
    /// failed. The source counts as renamed where the plan begins with
    /// its renaming and that step was taken; the link counts as created
    /// where no step failed and the plan ends well.
    pub fn linked(plan: &FsPlan, taken: usize, failed: bool) -> (e: MigrationEvent)
        ensures
            e@ == (Event::Linked {
                renamed: taken > 0 && plan@.steps.len() > 0 && plan@.steps[0] is Rename,
                created: !failed && plan@.outcome is Ok,
            }),
    {
        let renames_first = plan.steps.len() > 0 && match &plan.steps[0] {
            FsStep::Rename { .. } => true,
            _ => false,
        };
        let ends_well = match &plan.outcome {
            Ok(_) => true,
            Err(_) => false,
        };
        proof {
            if plan.steps@.len() > 0 {
                assert(plan@.steps[0] == plan.steps@[0]@);
            }
        }
        MigrationEvent::Linked { renamed: taken > 0 && renames_first, created: !failed && ends_well }
    }

    /// The report of a check: its failure, if it failed.
    pub fn checked(result: &Result<(), String>) -> (e: MigrationEvent)
        ensures
            e@ == Event::PreChecked(
                match *result {
                    Err(f) => Some(f@),
                    Ok(_) => None,
                },
            ),
    {
        match result {
            Err(f) => MigrationEvent::PreChecked(Some(f.clone())),
            Ok(_) => MigrationEvent::PreChecked(None),
        }
    }

    /// The report of a verification: its failure, if it failed.
    pub fn verified(result: &Result<(), String>) -> (e: MigrationEvent)
        ensures
            e@ == Event::Verified(
                match *result {
                    Err(f) => Some(f@),
                    Ok(_) => None,
                },
            ),
    {
        match result {
            Err(f) => MigrationEvent::Verified(Some(f.clone())),
            Ok(_) => MigrationEvent::Verified(None),
        }
    }
}

impl MigrationRun {
    #[verifier::type_invariant]
    spec fn well_formed(self) -> bool {
        reachable(self@)
    }

    /// A run that has not begun.
    pub fn new(options: MigrationOptions) -> (run: MigrationRun)
        ensures
            run@ == initial(options),
    {
        MigrationRun {
            options,
            phase: MigrationPhase::Start,
            verified: false,
            failure: None,
            symlink_path: None,
            renamed: false,
        }
    }

    /// The phase in which the run waits.
    pub fn phase(&self) -> (p: MigrationPhase)
        ensures
            p == self@.phase,
    {
        self.phase
    }

    /// The result of the run as it stands.
    pub fn result(&self) -> (r: MigrationResult)
        ensures
            r@ == outcome(self@),
    {
        match &self.failure {
            Some(text) => MigrationResult {
                success: false,
                message: text.clone(),
                source_path: self.options.source_path.clone(),
                target_path: self.options.target_path.clone(),
                symlink_path: None,
            },
            None => MigrationResult {
                success: true,
                message: String::from_str("迁移成功完成"),
                source_path: self.options.source_path.clone(),
                target_path: self.options.target_path.clone(),
                symlink_path: match &self.symlink_path {
                    Some(p) => Some(p.clone()),
                    None => None,
                },
            },
        }
    }

    /// What the machine asks for while it waits.
    pub fn pending_action(&self) -> (a: MigrationAction)
        ensures
            a@ == pending(self@),
    {
        match self.phase {
            MigrationPhase::Start => MigrationAction::RunPreCheck,
            MigrationPhase::PreCheck => MigrationAction::RunPreCheck,
            MigrationPhase::Copy => MigrationAction::CopyTree,
            MigrationPhase::Verify => MigrationAction::VerifyCopy,
            MigrationPhase::Cleanup => MigrationAction::RemoveTarget,
            MigrationPhase::Link => MigrationAction::CreateLink,
            MigrationPhase::DeleteSource => MigrationAction::DeleteSource,
            MigrationPhase::Done => MigrationAction::Finish(self.result()),
        }
    }

    /// Takes the report of the caller and answers with what is to be done
    /// next. Whatever is reported, the source is deleted only where the
    /// options ask for it and the copy was verified, and success is
    /// reported only of a verified copy.
    pub fn step(&mut self, event: &MigrationEvent) -> (action: MigrationAction)
        ensures
            final(self)@ == next_state(old(self)@, event@),
            action@ == next_action(old(self)@, event@),
            rank(final(self)@.phase) >= rank(old(self)@.phase),
            action@ is DeleteSource ==> final(self)@.delete_source && final(self)@.verified,
            action@ matches Action::Finish(r) ==> (r.success ==> final(self)@.verified),
    {
        proof {
            use_type_invariant(&*self);
            lemma_run_advances(self@, event@);
            lemma_source_is_kept(self@, event@);
        }
        let mut phase = self.phase;
        let mut verified = self.verified;
        let mut renamed = self.renamed;
        let mut failure: Option<String> = match &self.failure {
            Some(f) => Some(f.clone()),
            None => None,
        };
        let mut symlink_path: Option<String> = match &self.symlink_path {
            Some(p) => Some(p.clone()),
            None => None,
        };
        let mut settle = false;
        match (self.phase, event) {
            (MigrationPhase::Start, MigrationEvent::Begin) => {
                phase = MigrationPhase::PreCheck;
            },
            (MigrationPhase::PreCheck, MigrationEvent::PreChecked(f)) => {
                match f {
                    None => {
                        phase = MigrationPhase::Copy;
                    },
                    Some(e) => {
                        failure = Some(String::from_str("预检查失败: ").concat(e.as_str()));
                        phase = MigrationPhase::Done;
                    },
                }
            },
            (MigrationPhase::Copy, MigrationEvent::Copied(f)) => {
                match f {
                    None => {
                        phase = MigrationPhase::Verify;
                    },
                    Some(e) => {
                        failure = Some(String::from_str("复制失败: ").concat(e.as_str()));
                        phase = MigrationPhase::Done;
                    },
                }
            },
            (MigrationPhase::Verify, MigrationEvent::Verified(f)) => {
                match f {
                    None => {
                        verified = true;
                        if self.options.create_symlink {
                            phase = MigrationPhase::Link;
                        } else {
                            settle = true;
                        }
                    },
                    Some(e) => {
                        failure = Some(String::from_str("复制验证失败: ").concat(e.as_str()));
                        phase = MigrationPhase::Cleanup;
                    },
                }
            },
            (MigrationPhase::Cleanup, MigrationEvent::TargetRemoved) => {
                phase = MigrationPhase::Done;
            },
            (MigrationPhase::Link, MigrationEvent::Linked { renamed: was_renamed, created }) => {
                renamed = *was_renamed;
                symlink_path = if *created {
                    Some(self.options.source_path.clone())
                } else {
                    None
                };
                settle = true;
            },
            (MigrationPhase::DeleteSource, MigrationEvent::SourceDeleted) => {
                phase = MigrationPhase::Done;
            },
            _ => {},
        }
        if settle {
            if self.options.delete_source && !renamed {
                phase = MigrationPhase::DeleteSource;
            } else {
                phase = MigrationPhase::Done;
            }
        }
        *self = MigrationRun {
            options: MigrationOptions {
                source_path: self.options.source_path.clone(),
                target_path: self.options.target_path.clone(),
                create_symlink: self.options.create_symlink,
                delete_source: self.options.delete_source,
            },
            phase,
            verified,
            failure,
            symlink_path,
            renamed,
        };
        self.pending_action()
    }
}

/// What was observed about the source before it is replaced by a link.
#[derive(Debug, Clone)]
pub struct LinkFacts {
    /// The path of the source.
    pub source: String,
    /// The parent of the source, where it has one.
    pub parent: Option<String>,
    /// The last component of the source, where it has one.
    pub name: Option<String>,
    /// Whether the source is still there.
    pub source_exists: bool,
}

/// The plan that puts a link to `target` where the source was: the source,
/// where it is still there, is renamed with `.backup` behind its name, and
/// the link is created at its path, which is free by then.
pub open spec fn relink_plan(cancelled: bool, facts: LinkFacts, target: SourceFacts, windows: bool) -> Plan {
    if facts.parent is None {
        refused(OperationFailure::InvalidPath("无法确定源目录父路径"@))
    } else if facts.name is None {
        refused(OperationFailure::InvalidPath("无法获取源目录名称"@))
    } else {
        let parent = facts.parent->0;
        let name = facts.name->0;
        let link = link_plan(
            cancelled,
            LinkRequest {
                target: target.path@,
                target_present: is_present(target.shape),
                target_is_directory: target.shape is Directory,
                link: joined(parent@, name@, windows),
                link_exists: false,
                link_parent: Some(parent@),
            },
        );
        let renaming = if facts.source_exists {
            seq![
                Step::Rename {
                    from: facts.source@,
                    to: joined(parent@, name@ + ".backup"@, windows),
                },
            ]
        } else {
            Seq::empty()
        };
        Plan { steps: renaming + link.steps, outcome: link.outcome }
    }
}

/// The failure of a check of the options of a migration, if it fails:
/// neither path may be empty, and the two may not be the same, as given or
/// in canonical form.
pub open spec fn options_failure(
    options: MigrationOptions,
    source_canonical: Option<String>,
    target_canonical: Option<String>,
) -> Option<Seq<char>> {
    if options.source_path@.len() == 0 {
        Some("源路径不能为空"@)
    } else if options.target_path@.len() == 0 {
        Some("目标路径不能为空"@)
    } else if options.source_path@ == options.target_path@ {
        Some("源路径和目标路径不能相同"@)
    } else if source_canonical is Some && target_canonical is Some && source_canonical->0@
        == target_canonical->0@ {
        Some("源路径和目标路径指向同一位置"@)
    } else {
        None
    }
}

/// Checks the options of a migration; see `options_failure`.
pub fn validate_migration_options(
    options: &MigrationOptions,
    source_canonical: &Option<String>,
    target_canonical: &Option<String>,
) -> (r: Result<(), String>)
    ensures
        crate::migration_service::fails_with(
            r,
            options_failure(*options, *source_canonical, *target_canonical),
        ),
{
    if options.source_path.as_str().unicode_len() == 0 {
        return Err(String::from_str("源路径不能为空"));
    }
    if options.target_path.as_str().unicode_len() == 0 {
        return Err(String::from_str("目标路径不能为空"));
    }
    if same_text(options.source_path.as_str(), options.target_path.as_str()) {
        return Err(String::from_str("源路径和目标路径不能相同"));
    }
    if let Some(s) = source_canonical {
        if let Some(t) = target_canonical {
            if same_text(s.as_str(), t.as_str()) {
                return Err(String::from_str("源路径和目标路径指向同一位置"));
            }
        }
    }
    Ok(())
}

impl MigrationService {
    /// Begins a migration: the run that the caller drives with `step`.
    pub fn migrate_folder(&self, options: MigrationOptions) -> (run: MigrationRun)
        ensures
            run@ == initial(options),
    {
        MigrationRun::new(options)
    }

    /// Plans the link that takes the place of the source; see `relink_plan`.
    pub fn create_symlink_after_migration(&self, facts: &LinkFacts, target: &SourceFacts, windows: bool) -> (p:
        FsPlan)
        ensures
            p@ == relink_plan(self.operator().cancelled(), *facts, *target, windows),
    {
        let parent = match &facts.parent {
            Some(p) => p,
            None => {
                let p = FsPlan {
                    steps: Vec::new(),
                    outcome: Err(FileOperationError::InvalidPath(String::from_str("无法确定源目录父路径"))),
                };
                proof {
                    assert(steps_of(p.steps@) =~= Seq::<Step>::empty());
                }
                return p;
            },
        };
        let name = match &facts.name {
            Some(n) => n,
            None => {
                let p = FsPlan {
                    steps: Vec::new(),
                    outcome: Err(FileOperationError::InvalidPath(String::from_str("无法获取源目录名称"))),
                };
                proof {
                    assert(steps_of(p.steps@) =~= Seq::<Step>::empty());
                }
                return p;
            },
        };
        let link = TargetFacts {
            path: join_path(parent.as_str(), name.as_str(), windows),
            exists: false,
            parent: Some(parent.clone()),
        };
        let plan = self.file_operator().create_symlink(target, &link);
        let mut steps: Vec<FsStep> = Vec::new();
        proof {
            assert(steps_of(steps@) =~= Seq::<Step>::empty());
        }
        if facts.source_exists {
            let backup_name = name.clone().concat(".backup");
            let rename = FsStep::Rename {
                from: facts.source.clone(),
                to: join_path(parent.as_str(), backup_name.as_str(), windows),
            };
            proof {
                lemma_steps_push(steps@, rename);
            }
            steps.push(rename);
        }
        let ghost head = steps@;
        let FsPlan { steps: link_steps, outcome } = plan;
        let mut rest = link_steps;
        steps.append(&mut rest);
        proof {
            assert(steps_of(steps@) =~= steps_of(head) + steps_of(link_steps@));
        }
        FsPlan { steps, outcome }
    }
}

} // verus!
