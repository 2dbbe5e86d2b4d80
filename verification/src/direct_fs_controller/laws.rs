//! What holds of every task on the files of the host.
use vstd::prelude::*;

use crate::direct_fs_controller::tasks::{
    AfterDir, DirectFsController, FsAsk, FsEvent, FsStage, FsTask, Purpose, BACKUP, PARTIAL,
    RECEIVED,
};

verus! {

impl FsStage<crate::direct_fs_controller::tasks::PlaceView, Seq<char>> {
    /// The place that is looked at, where one is to be chosen that nothing is at.
    pub open spec fn candidate(self) -> Option<crate::direct_fs_controller::tasks::PlaceView> {
        match self {
            FsStage::NameLooked { place } => Some(place),
            FsStage::VariantLooked { place, number, .. } => Some(
                crate::direct_fs_controller::tasks::variant(place, number),
            ),
            FsStage::TargetLooked { to, .. } => Some(to),
            _ => None,
        }
    }

    /// More than the number of questions that can still follow.
    pub open spec fn questions_left(self) -> nat {
        match self {
            FsStage::ParentMade { .. } => 108,
            FsStage::DirLooked { .. } => 107,
            FsStage::DirMade { .. } => 106,
            FsStage::DirResolved { .. } => 105,
            FsStage::BaseLooked { .. } => 104,
            FsStage::NameLooked { .. } => 103,
            FsStage::TargetLooked { .. } => 103,
            FsStage::VariantLooked { number, .. } => (102 - number) as nat,
            FsStage::PlainDirMade { .. } => 2,
            FsStage::PartialLooked { .. } => 2,
            FsStage::PartialsLooked => 2,
            _ => 1,
        }
    }
}

/// A file is made, and something is moved, only where nothing was found.
pub proof fn law_only_free_places_are_chosen(
    controller: DirectFsController,
    stage: FsStage<crate::direct_fs_controller::tasks::PlaceView, Seq<char>>,
    event: FsEvent,
)
    requires
        stage.takes(event),
    ensures
        controller.followed(
            stage,
            event,
        ) matches crate::direct_fs_controller::tasks::FsStepView::Ask(
            FsAsk::CreateNew(place),
            _,
        )
            ==> event == FsEvent::Exists(false) && stage.candidate() == Some(place),
        controller.followed(
            stage,
            event,
        ) matches crate::direct_fs_controller::tasks::FsStepView::Ask(
            FsAsk::Rename { to, .. },
            _,
        )
            ==> event == FsEvent::Exists(false) && stage.candidate() == Some(to),
{
}

/// Every task ends, whatever the file system answers: the questions that can follow get fewer.
pub proof fn law_every_task_ends(
    controller: DirectFsController,
    stage: FsStage<crate::direct_fs_controller::tasks::PlaceView, Seq<char>>,
    event: FsEvent,
)
    requires
        stage.is_valid(),
        stage.takes(event),
    ensures
        controller.followed(
            stage,
            event,
        ) matches crate::direct_fs_controller::tasks::FsStepView::Ask(_, next)
            ==> next.questions_left()
            < stage.questions_left(),
{
}

/// Where a directory is really outside of the place for received files, the task fails and nothing
/// more is asked for.
pub proof fn law_escape_is_refused(
    controller: DirectFsController,
    dir: crate::direct_fs_controller::tasks::PlaceView,
    then: AfterDir<crate::direct_fs_controller::tasks::PlaceView, Seq<char>>,
    actual: String,
    names: Option<Vec<String>>,
)
    requires
        !crate::direct_fs_controller::tasks::PlaceView::is_received(
            crate::direct_fs_controller::tasks::opt_names(names),
        ),
    ensures
        ({
            let refusal = crate::direct_fs_controller::tasks::FilerequestDirErrorView::Escape {
                actual: actual@,
                root: controller.shown(
                    crate::direct_fs_controller::tasks::PlaceView::directory(RECEIVED@),
                ),
            };
            let step = controller.followed(
                FsStage::DirResolved { dir, then },
                FsEvent::Resolved { actual, names },
            );
            ||| step == crate::direct_fs_controller::tasks::FsStepView::Reply(
                crate::direct_fs_controller::tasks::FsReplyView::Done(
                    Err(crate::direct_fs_controller::tasks::FsErrorView::Directory(refusal)),
                ),
            )
            ||| step == crate::direct_fs_controller::tasks::FsStepView::Reply(
                crate::direct_fs_controller::tasks::FsReplyView::Opened(
                    Err(
                        crate::direct_fs_controller::tasks::FsErrorView::Write(
                            crate::direct_fs_controller::tasks::FileWriteErrorView::FilerequestDirError(
                                refusal,
                            ),
                        ),
                    ),
                ),
            )
        }),
{
}

// Staying inside

impl crate::direct_fs_controller::tasks::PlaceView {
    /// Whether every name leads one step down, so that the place lies in the directory of the host.
    pub open spec fn is_inside(self, windows: bool) -> bool {
        forall|i: int|
            0 <= i < self.names.len() ==> crate::direct_fs_controller::is_bare_basename(
                #[trigger] self.names[i],
                windows,
            )
    }
}

impl FsAsk<crate::direct_fs_controller::tasks::PlaceView> {
    pub open spec fn is_inside(self, windows: bool) -> bool {
        match self {
            FsAsk::CreateDirs(place) => place.is_inside(windows),
            FsAsk::Exists(place) => place.is_inside(windows),
            FsAsk::Canonicalize(place) => place.is_inside(windows),
            FsAsk::CreateNew(place) => place.is_inside(windows),
            FsAsk::Append(place) => place.is_inside(windows),
            FsAsk::Overwrite(place) => place.is_inside(windows),
            FsAsk::Remove(place) => place.is_inside(windows),
            FsAsk::Rename { from, to } => from.is_inside(windows) && to.is_inside(windows),
            FsAsk::List(place) => place.is_inside(windows),
        }
    }
}

impl AfterDir<crate::direct_fs_controller::tasks::PlaceView, Seq<char>> {
    pub open spec fn is_inside(self, windows: bool) -> bool {
        match self {
            AfterDir::UniqueFile(place) => place.is_inside(windows),
            AfterDir::ExactFile(place) => place.is_inside(windows),
            AfterDir::Resource => true,
            AfterDir::Finalize { from, file_name } => from.is_inside(windows)
                && crate::direct_fs_controller::is_bare_basename(file_name, windows),
        }
    }
}

impl Purpose<crate::direct_fs_controller::tasks::PlaceView> {
    pub open spec fn is_inside(self, windows: bool) -> bool {
        match self {
            Purpose::Create => true,
            Purpose::Rename { from } => from.is_inside(windows),
            Purpose::Finalize { from } => from.is_inside(windows),
        }
    }
}

impl FsStage<crate::direct_fs_controller::tasks::PlaceView, Seq<char>> {
    pub open spec fn is_inside(self, windows: bool) -> bool {
        match self {
            FsStage::ParentMade { place, .. } => place.is_inside(windows),
            FsStage::DirLooked { dir, then } => dir.is_inside(windows) && then.is_inside(windows),
            FsStage::DirMade { dir, then } => dir.is_inside(windows) && then.is_inside(windows),
            FsStage::DirResolved { dir, then } => dir.is_inside(windows) && then.is_inside(windows),
            FsStage::BaseLooked { place } => place.is_inside(windows),
            FsStage::NameLooked { place } => place.is_inside(windows),
            FsStage::VariantLooked { place, purpose, .. } => place.is_inside(windows)
                && purpose.is_inside(windows),
            FsStage::TargetLooked { to, purpose, .. } => to.is_inside(windows)
                && purpose.is_inside(windows),
            FsStage::FileOpened { place } => place.is_inside(windows),
            FsStage::PlainDirMade { place, .. } => place.is_inside(windows),
            FsStage::PlainOpened { place } => place.is_inside(windows),
            FsStage::PartialLooked { place } => place.is_inside(windows),
            _ => true,
        }
    }
}

impl crate::direct_fs_controller::tasks::FsStepView {
    /// Whether only places in the directory of the host are touched.
    pub open spec fn is_inside(self, windows: bool) -> bool {
        match self {
            crate::direct_fs_controller::tasks::FsStepView::Reply(_) => true,
            crate::direct_fs_controller::tasks::FsStepView::Ask(
                ask,
                stage,
            ) => ask.is_inside(windows)
                && stage.is_inside(windows),
        }
    }
}

impl FsEvent {
    /// The names on a real path lead one step down each.
    pub open spec fn is_real(self, windows: bool) -> bool {
        self matches FsEvent::Resolved { names: Some(names), .. }
            ==> (crate::direct_fs_controller::tasks::PlaceView {
            names: crate::domain_models::views(names@),
            trailing: false,
        }).is_inside(windows)
    }
}

impl FsTask {
    /// Whether the names that are taken as they are lead one step down each. All others are made
    /// safe.
    pub open spec fn is_tame(self, windows: bool) -> bool {
        match self {
            FsTask::RenameResource { from, .. } => forall|i: int|
                0 <= i < from@.names.len() - 1
                    && crate::direct_fs_controller::tasks::is_named(#[trigger] from@.names[i])
                    ==> crate::direct_fs_controller::is_bare_basename(from@.names[i], windows),
            FsTask::OpenBackupFile { date } => crate::direct_fs_controller::is_bare_basename(
                date@ + "_fyles.bak"@,
                windows,
            ),
            _ => true,
        }
    }
}

pub(crate) proof fn lemma_directories_are_bare(windows: bool)
    ensures
        crate::direct_fs_controller::is_bare_basename(RECEIVED@, windows),
        crate::direct_fs_controller::is_bare_basename(PARTIAL@, windows),
        crate::direct_fs_controller::is_bare_basename(BACKUP@, windows),
{
    reveal_strlit("Received");
    reveal_strlit("Partial");
    reveal_strlit("Backup");
    reveal_strlit(".");
    reveal_strlit("..");
    assert(RECEIVED@ =~= seq!['R', 'e', 'c', 'e', 'i', 'v', 'e', 'd']);
    assert(PARTIAL@ =~= seq!['P', 'a', 'r', 't', 'i', 'a', 'l']);
    assert(BACKUP@ =~= seq!['B', 'a', 'c', 'k', 'u', 'p']);
}

pub(crate) proof fn lemma_named_are_bare(names: Seq<Seq<char>>, windows: bool)
    requires
        forall|i: int|
            0 <= i < names.len()
                && crate::direct_fs_controller::tasks::is_named(#[trigger] names[i])
                ==> crate::direct_fs_controller::is_bare_basename(names[i], windows),
    ensures
        forall|i: int|
            0 <= i < crate::direct_fs_controller::tasks::named(names).len()
                ==> crate::direct_fs_controller::is_bare_basename(
                #[trigger] crate::direct_fs_controller::tasks::named(names)[i],
                windows,
            ),
    decreases names.len(),
{
    reveal(Seq::filter);
    if names.len() > 0 {
        assert forall|i: int|
            0 <= i < names.drop_last().len() && crate::direct_fs_controller::tasks::is_named(
                #[trigger] names.drop_last()[i],
            ) implies crate::direct_fs_controller::is_bare_basename(
            names.drop_last()[i],
            windows,
        ) by {
            assert(names.drop_last()[i] == names[i]);
        }
        lemma_named_are_bare(names.drop_last(), windows);
        let kept = crate::direct_fs_controller::tasks::named(names.drop_last());
        assert(crate::direct_fs_controller::tasks::named(names) == if crate::direct_fs_controller::tasks::is_named(names.last()) {
            kept.push(names.last())
        } else {
            kept
        });
        assert forall|i: int|
            0 <= i < crate::direct_fs_controller::tasks::named(
                names,
            ).len() implies crate::direct_fs_controller::is_bare_basename(
            #[trigger] crate::direct_fs_controller::tasks::named(names)[i],
            windows,
        ) by {
            if i < kept.len() {
                assert(crate::direct_fs_controller::tasks::named(names)[i] == kept[i]);
            }
        }
    }
}

/// What is put together from safe names lies inside.
pub(crate) proof fn lemma_below_is_inside(
    directory: Seq<char>,
    names: Seq<Seq<char>>,
    windows: bool,
)
    requires
        crate::direct_fs_controller::is_bare_basename(directory, windows),
        forall|i: int|
            0 <= i < names.len()
                && crate::direct_fs_controller::tasks::is_named(#[trigger] names[i])
                ==> crate::direct_fs_controller::is_bare_basename(names[i], windows),
    ensures
        crate::direct_fs_controller::tasks::PlaceView::below(directory, names).is_inside(windows),
{
    lemma_named_are_bare(names, windows);
}

pub(crate) proof fn lemma_plain_names_are_bare(name: Seq<char>, windows: bool)
    requires
        crate::filerequest_drive_handler::is_plain_name(name),
    ensures
        crate::direct_fs_controller::is_bare_basename(name, windows),
{
    reveal_strlit(".");
    reveal_strlit("..");
    assert("."@ =~= seq!['.']);
    assert(".."@ =~= seq!['.', '.']);
}

pub(crate) proof fn lemma_digits_are_harmless(n: nat)
    ensures
        forall|i: int|
            0 <= i < crate::text::decimal(n).len() ==> crate::text::is_digit(
                #[trigger] crate::text::decimal(n)[i],
            ),
    decreases n,
{
    crate::text::lemma_decimal_round_trip(n);
}

pub(crate) proof fn lemma_variants_are_bare(name: Seq<char>, number: nat, windows: bool)
    requires
        crate::direct_fs_controller::is_bare_basename(name, windows),
    ensures
        crate::direct_fs_controller::is_bare_basename(
            crate::direct_fs_controller::file_variant(name, number),
            windows,
        ),
{
    reveal_strlit("_");
    reveal_strlit(".");
    reveal_strlit("..");
    let digits = crate::text::decimal(number);
    lemma_digits_are_harmless(number);
    let numbered = crate::direct_fs_controller::file_variant(name, number);
    crate::text::lemma_last_index_bounds(name, '.');
    let (stem, rest) = match crate::text::last_index(name, '.') {
        Some(i) => (name.take(i), "."@ + name.skip(i + 1)),
        None => (name, Seq::<char>::empty()),
    };
    assert(numbered =~= stem + "_"@ + digits + rest);
    assert(numbered[stem.len() as int] == '_');
    assert forall|i: int| 0 <= i < numbered.len() && numbered[i] != '_' && numbered[i] != '.'
        && !crate::text::is_digit(numbered[i]) implies name.contains(#[trigger] numbered[i]) by {
        if i < stem.len() {
            assert(numbered[i] == name[i]);
        } else {
            let k = i - stem.len() - 1 - digits.len();
            assert(numbered[i] == rest[k]);
            assert(rest[k] == name[name.len() - rest.len() + k]);
        }
    }
    assert(!numbered.contains('/'));
    assert(windows ==> !numbered.contains('\\'));
}

/// A task stays in the directory of the host, whatever the file system answers.
pub proof fn law_tasks_stay_inside(
    controller: DirectFsController,
    stage: FsStage<crate::direct_fs_controller::tasks::PlaceView, Seq<char>>,
    event: FsEvent,
)
    requires
        stage.is_valid(),
        stage.takes(event),
        stage.is_inside(controller.windows()),
        event.is_real(controller.windows()),
    ensures
        controller.followed(stage, event).is_inside(controller.windows()),
{
    let windows = controller.windows();
    lemma_directories_are_bare(windows);
    match stage {
        FsStage::NameLooked { place } => {
            lemma_variants_are_bare(place.file_name(), 0, windows);
        },
        FsStage::TargetLooked { to, .. } => {
            lemma_variants_are_bare(to.file_name(), 0, windows);
        },
        FsStage::VariantLooked { place, number, .. } => {
            lemma_variants_are_bare(place.file_name(), number as nat, windows);
            lemma_variants_are_bare(place.file_name(), (number + 1) as nat, windows);
        },
        FsStage::DirResolved { then: AfterDir::Finalize { from, file_name }, .. } => {
            if let FsEvent::Resolved { actual, names: Some(names) } = event {
                let found = crate::direct_fs_controller::tasks::PlaceView {
                    names: crate::domain_models::views(names@),
                    trailing: false,
                };
                assert(found.is_inside(windows));
                let to = crate::direct_fs_controller::tasks::PlaceView {
                    names: found.names.push(file_name),
                    trailing: false,
                };
                assert forall|i: int|
                    0 <= i
                        < to.names.len() implies crate::direct_fs_controller::is_bare_basename(
                    #[trigger] to.names[i],
                    windows,
                ) by {
                    if i < found.names.len() {
                        assert(to.names[i] == found.names[i]);
                    }
                }
            }
        },
        _ => {},
    }
}

} // verus!
