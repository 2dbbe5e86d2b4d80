//! How the directory for all files is found.
use vstd::prelude::*;

use crate::direct_fs_controller::tasks::{push_name, DirectFsController};
use crate::direct_fs_controller::{
    deescalated_name, deescalation_step, out_dir_step, DeescalatePathError, DeescalationStep,
    DirectFsControllerError, OutDirStep, Probe, NUMBER_OF_VARIATIONS_TO_TRY,
};

verus! {

/// The directory that was asked for: its path, the path of the directory that it is in, and its
/// name, where it has one.
#[derive(Debug)]
pub struct Requested {
    pub path: String,
    pub parent: String,
    pub name: Option<String>,
    pub separator: char,
}

impl Requested {
    /// The directory of the given number beside the one that was asked for.
    pub open spec fn sibling(&self, name: Seq<char>, number: usize) -> Seq<char> {
        crate::direct_fs_controller::tasks::pushed(
            self.parent@,
            crate::direct_fs_controller::directory_variant(name, number as nat),
            self.separator,
        )
    }

    fn sibling_path(&self, name: &String, number: usize) -> (r: String)
        ensures
            r@ == self.sibling(name@, number),
    {
        let candidate = deescalated_name(name.as_str(), number);
        push_name(self.parent.clone(), candidate.as_str(), self.separator)
    }
}

/// What the file system is asked. Each question is about a path.
#[derive(Clone, Copy, Debug, PartialEq, Eq, Structural)]
pub enum OutDirAsk {
    /// Whether it is a directory in which a file can be made.
    Probe,
    CreateDirs,
    Canonicalize,
}

/// What the file system answers.
#[derive(Debug)]
pub enum OutDirEvent {
    Failed(String),
    Probed(Probe),
    Done,
    Resolved(String),
}

/// What is waited for.
#[derive(Clone, Copy, Debug, PartialEq, Eq, Structural)]
pub enum OutDirStage {
    Probed,
    Created,
    SiblingProbed(usize),
    SiblingCreated(usize),
    Resolved,
}

/// What is done next to find the directory.
#[derive(Debug)]
pub enum OutDirProgress {
    Ready(DirectFsController),
    Failed(DirectFsControllerError),
    Ask(OutDirAsk, String, OutDirStage),
}

pub open spec fn asks(
    progress: OutDirProgress,
    ask: OutDirAsk,
    path: Seq<char>,
    stage: OutDirStage,
) -> bool {
    progress matches OutDirProgress::Ask(asked, about, next) && asked == ask && about@ == path
        && next == stage
}

pub open spec fn cannot_create(
    progress: OutDirProgress,
    path: Seq<char>,
    source: Seq<char>,
) -> bool {
    progress matches OutDirProgress::Failed(
        DirectFsControllerError::CreateDirectory { path: p, source: s },
    ) && p@ == path && s@ == source
}

pub open spec fn cannot_create_sibling(
    progress: OutDirProgress,
    path: Seq<char>,
    source: Seq<char>,
) -> bool {
    progress matches OutDirProgress::Failed(
        DirectFsControllerError::DeescalatePathError(
            DeescalatePathError::CreateDirectory { path: p, source: s },
        ),
    ) && p@ == path && s@ == source
}

impl OutDirStage {
    /// Whether this is waited for.
    pub open spec fn takes(self, event: OutDirEvent) -> bool {
        match self {
            OutDirStage::Probed => event is Probed,
            OutDirStage::Created => event is Failed || event is Done,
            OutDirStage::SiblingProbed(_) => event is Probed,
            OutDirStage::SiblingCreated(_) => event is Failed || event is Done,
            OutDirStage::Resolved => event is Failed || event is Resolved,
        }
    }

    /// Only directories that have a name have others beside them that are tried.
    pub open spec fn is_valid(self, requested: Requested) -> bool {
        match self {
            OutDirStage::SiblingProbed(number) => requested.name is Some && number
                <= NUMBER_OF_VARIATIONS_TO_TRY,
            OutDirStage::SiblingCreated(number) => requested.name is Some && number
                <= NUMBER_OF_VARIATIONS_TO_TRY,
            _ => true,
        }
    }
}

/// Whether this is what follows an answer about the directory at `path`.
pub open spec fn leads_to(
    requested: Requested,
    stage: OutDirStage,
    path: Seq<char>,
    event: OutDirEvent,
    progress: OutDirProgress,
) -> bool {
    match (stage, event) {
        (OutDirStage::Probed, OutDirEvent::Probed(probe)) => match probe {
            Probe::Usable => asks(progress, OutDirAsk::Canonicalize, path, OutDirStage::Resolved),
            Probe::Missing => asks(progress, OutDirAsk::CreateDirs, path, OutDirStage::Created),
            Probe::Unusable => match requested.name {
                Some(name) => asks(
                    progress,
                    OutDirAsk::Probe,
                    requested.sibling(name@, 0),
                    OutDirStage::SiblingProbed(0),
                ),
                None => progress matches OutDirProgress::Failed(
                    DirectFsControllerError::DeescalatePathError(
                        DeescalatePathError::InvalidBasePath(p),
                    ),
                ) && p@ == requested.path@,
            },
        },
        (OutDirStage::Created, OutDirEvent::Failed(source)) => cannot_create(
            progress,
            path,
            source@,
        ),
        (OutDirStage::Created, OutDirEvent::Done) => asks(
            progress,
            OutDirAsk::Canonicalize,
            path,
            OutDirStage::Resolved,
        ),
        (OutDirStage::SiblingProbed(number), OutDirEvent::Probed(probe)) => match probe {
            Probe::Usable => asks(progress, OutDirAsk::Canonicalize, path, OutDirStage::Resolved),
            Probe::Missing => asks(
                progress,
                OutDirAsk::CreateDirs,
                path,
                OutDirStage::SiblingCreated(number),
            ),
            Probe::Unusable => if number < NUMBER_OF_VARIATIONS_TO_TRY {
                asks(
                    progress,
                    OutDirAsk::Probe,
                    requested.sibling(requested.name->Some_0@, (number + 1) as usize),
                    OutDirStage::SiblingProbed((number + 1) as usize),
                )
            } else {
                progress matches OutDirProgress::Failed(
                    DirectFsControllerError::DeescalatePathError(
                        DeescalatePathError::NoAccessibleVariantFound(p, attempts),
                    ),
                ) && p@ == requested.path@ && attempts == NUMBER_OF_VARIATIONS_TO_TRY
            },
        },
        (OutDirStage::SiblingCreated(_), OutDirEvent::Failed(source)) => cannot_create_sibling(
            progress,
            path,
            source@,
        ),
        (OutDirStage::SiblingCreated(_), OutDirEvent::Done) => asks(
            progress,
            OutDirAsk::Canonicalize,
            path,
            OutDirStage::Resolved,
        ),
        (OutDirStage::Resolved, OutDirEvent::Failed(source)) =>
            progress matches OutDirProgress::Failed(
            DirectFsControllerError::CanonicalizePath { path: p, source: s },
        ) && p@ == path && s@ == source@,
        (OutDirStage::Resolved, OutDirEvent::Resolved(root)) => progress
            matches OutDirProgress::Ready(controller) && controller.root() == root@
            && controller.separator() == requested.separator,
        _ => false,
    }
}

impl DirectFsController {
    /// Begins to look for the directory.
    pub fn new(requested: &Requested) -> (r: OutDirProgress)
        ensures
            asks(r, OutDirAsk::Probe, requested.path@, OutDirStage::Probed),
    {
        OutDirProgress::Ask(OutDirAsk::Probe, requested.path.clone(), OutDirStage::Probed)
    }

    /// Goes on once the file system has answered about the directory at `path`.
    pub fn found(requested: &Requested, stage: OutDirStage, path: String, event: OutDirEvent) -> (r:
        OutDirProgress)
        requires
            stage.is_valid(*requested),
            stage.takes(event),
        ensures
            leads_to(*requested, stage, path@, event, r),
            r matches OutDirProgress::Ask(_, _, next) ==> next.is_valid(*requested),
    {
        match (stage, event) {
            (OutDirStage::Probed, OutDirEvent::Probed(probe)) => match out_dir_step(probe) {
                OutDirStep::Use => OutDirProgress::Ask(
                    OutDirAsk::Canonicalize,
                    path,
                    OutDirStage::Resolved,
                ),
                OutDirStep::Create => OutDirProgress::Ask(
                    OutDirAsk::CreateDirs,
                    path,
                    OutDirStage::Created,
                ),
                OutDirStep::Deescalate => match &requested.name {
                    Some(name) => OutDirProgress::Ask(
                        OutDirAsk::Probe,
                        requested.sibling_path(name, 0),
                        OutDirStage::SiblingProbed(0),
                    ),
                    None => OutDirProgress::Failed(
                        DirectFsControllerError::DeescalatePathError(
                            DeescalatePathError::InvalidBasePath(requested.path.clone()),
                        ),
                    ),
                },
            },
            (OutDirStage::Created, OutDirEvent::Failed(source)) => OutDirProgress::Failed(
                DirectFsControllerError::CreateDirectory { path, source },
            ),
            (OutDirStage::SiblingProbed(number), OutDirEvent::Probed(probe)) =>
                match deescalation_step(number, probe) {
                DeescalationStep::Use => OutDirProgress::Ask(
                    OutDirAsk::Canonicalize,
                    path,
                    OutDirStage::Resolved,
                ),
                DeescalationStep::Create => OutDirProgress::Ask(
                    OutDirAsk::CreateDirs,
                    path,
                    OutDirStage::SiblingCreated(number),
                ),
                DeescalationStep::TryNext(next) => match &requested.name {
                    Some(name) => OutDirProgress::Ask(
                        OutDirAsk::Probe,
                        requested.sibling_path(name, next),
                        OutDirStage::SiblingProbed(next),
                    ),
                    None => OutDirProgress::Failed(
                        DirectFsControllerError::DeescalatePathError(
                            DeescalatePathError::InvalidBasePath(requested.path.clone()),
                        ),
                    ),
                },
                DeescalationStep::GiveUp => OutDirProgress::Failed(
                    DirectFsControllerError::DeescalatePathError(
                        DeescalatePathError::NoAccessibleVariantFound(
                            requested.path.clone(),
                            NUMBER_OF_VARIATIONS_TO_TRY,
                        ),
                    ),
                ),
            },
            (OutDirStage::SiblingCreated(_), OutDirEvent::Failed(source)) => OutDirProgress::Failed(
                DirectFsControllerError::DeescalatePathError(
                    DeescalatePathError::CreateDirectory { path, source },
                ),
            ),
            (OutDirStage::Resolved, OutDirEvent::Failed(source)) => OutDirProgress::Failed(
                DirectFsControllerError::CanonicalizePath { path, source },
            ),
            (OutDirStage::Resolved, OutDirEvent::Resolved(root)) => OutDirProgress::Ready(
                DirectFsController::at(root, requested.separator),
            ),
            (_, _) => OutDirProgress::Ask(OutDirAsk::Canonicalize, path, OutDirStage::Resolved),
        }
    }
}

/// The directory that is used is the one that was asked for, where it can be used, or else the
/// first one beside it that can be: a directory is tried only after the one before it could not be
/// used.
pub proof fn law_directories_are_tried_in_order(
    requested: Requested,
    stage: OutDirStage,
    path: Seq<char>,
    event: OutDirEvent,
    progress: OutDirProgress,
)
    requires
        stage.takes(event),
        leads_to(requested, stage, path, event, progress),
    ensures
        progress matches OutDirProgress::Ask(OutDirAsk::Probe, about, next) ==> {
            &&& event == OutDirEvent::Probed(Probe::Unusable)
            &&& match stage {
                OutDirStage::Probed => next == OutDirStage::SiblingProbed(0),
                OutDirStage::SiblingProbed(number) => number < NUMBER_OF_VARIATIONS_TO_TRY && next
                    == OutDirStage::SiblingProbed((number + 1) as usize),
                _ => false,
            }
        },
        progress matches OutDirProgress::Ask(ask, about, _) ==> ask == OutDirAsk::Probe || about@
            == path,
{
}

/// A directory is used only where the file system said that it can be, or made it; it is then the
/// one that is kept to, wherever it really is.
pub proof fn law_only_usable_directories_are_used(
    requested: Requested,
    stage: OutDirStage,
    path: Seq<char>,
    event: OutDirEvent,
    progress: OutDirProgress,
)
    requires
        stage.takes(event),
        leads_to(requested, stage, path, event, progress),
    ensures
        progress matches OutDirProgress::Ask(OutDirAsk::Canonicalize, about, _) ==> {
            &&& about@ == path
            &&& event == OutDirEvent::Probed(Probe::Usable) || event is Done
        },
        progress matches OutDirProgress::Ask(OutDirAsk::CreateDirs, about, _) ==> {
            &&& about@ == path
            &&& event == OutDirEvent::Probed(Probe::Missing)
        },
        progress matches OutDirProgress::Ready(controller) ==> {
            &&& event matches OutDirEvent::Resolved(root)
            &&& controller.root() == root@
            &&& controller.separator() == requested.separator
        },
        event is Failed ==> progress is Failed,
{
}

} // verus!
