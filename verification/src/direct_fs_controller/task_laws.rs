//! What a task does to the files of the host, and what its answer tells of it.
use vstd::prelude::*;

use crate::direct_fs_controller::tasks::{
    AfterDir, DirectFsController, FsAsk, FsEvent, FsStage, FsTask, Purpose,
};
use crate::direct_fs_controller::NUMBER_OF_VARIATIONS_TO_TRY;
use crate::io_controller::FileNamespace;

verus! {

/// Whether the place is the given one, or has a number in its file name beside that.
pub open spec fn is_place_or_variant(
    place: crate::direct_fs_controller::tasks::PlaceView,
    meant: crate::direct_fs_controller::tasks::PlaceView,
) -> bool {
    &&& place.names.len() == meant.names.len()
    &&& place.names.drop_last() == meant.names.drop_last()
    &&& {
        ||| place.names.last() == meant.names.last()
        ||| exists|number: nat|
            number < NUMBER_OF_VARIATIONS_TO_TRY && place.names.last()
                == #[trigger] crate::direct_fs_controller::file_variant(meant.names.last(), number)
    }
}

/// Whether the question is one that makes, opens, moves or removes a file.
pub open spec fn touches(ask: FsAsk<crate::direct_fs_controller::tasks::PlaceView>) -> bool {
    ask is CreateNew || ask is Append || ask is Overwrite || ask is Remove || ask is Rename
}

/// Whether the question is what the task is for: of the file that it names, and of no other.
pub open spec fn is_meant(
    controller: DirectFsController,
    task: FsTask,
    ask: FsAsk<crate::direct_fs_controller::tasks::PlaceView>,
) -> bool {
    match (task, ask) {
        (FsTask::CreateFileForWriting(uri), FsAsk::CreateNew(place)) => is_place_or_variant(
            place,
            controller.received(uri),
        ),
        (FsTask::GetExactFileForWriting(uri), FsAsk::Append(place)) => place
            == controller.received(uri),
        (FsTask::RemoveFile(uri), FsAsk::Remove(place)) => place == controller.received(uri),
        (FsTask::OpenBackupFile { date }, FsAsk::Overwrite(place)) => place.names == seq![
            "Backup"@,
            date@ + "_fyles.bak"@,
        ],
        (FsTask::GetPartialFileForWriting(filename), FsAsk::Append(place)) => place.names == seq![
            "Partial"@,
            filename@,
        ],
        (FsTask::RemovePartialFile(filename), FsAsk::Remove(place)) => place.names == seq![
            "Partial"@,
            filename@,
        ],
        (
            FsTask::FinalizePartialFile { partial_filename, target },
            FsAsk::Rename { from, to },
        ) => {
            &&& from.names == seq!["Partial"@, partial_filename@]
            &&& to.names.len() > 1
            &&& to.names[0] == "Received"@
            &&& is_name_or_variant(to.names.last(), controller.received(target).names.last())
        },
        (FsTask::RenameResource { from: source, to: target }, FsAsk::Rename { from, to }) => {
            &&& crate::direct_fs_controller::planned_rename(
                source,
                target,
                controller.windows(),
            ) matches Ok(plan)
            &&& from == crate::direct_fs_controller::tasks::PlaceView::below("Received"@, plan.from)
            &&& if plan.is_file {
                is_place_or_variant(to, crate::direct_fs_controller::tasks::PlaceView::below("Received"@, plan.to))
            } else {
                to == crate::direct_fs_controller::tasks::PlaceView::below("Received"@, plan.to)
            }
        },
        _ => false,
    }
}

/// Whether the name is the given one, or has a number in it beside that.
pub open spec fn is_name_or_variant(name: Seq<char>, meant: Seq<char>) -> bool {
    ||| name == meant
    ||| exists|number: nat|
        number < NUMBER_OF_VARIATIONS_TO_TRY && name
            == #[trigger] crate::direct_fs_controller::file_variant(meant, number)
}

/// Whether this follows on a directory for the task.
spec fn follows(
    controller: DirectFsController,
    task: FsTask,
    then: AfterDir<crate::direct_fs_controller::tasks::PlaceView, Seq<char>>,
) -> bool {
    match (task, then) {
        (FsTask::CreateFileForWriting(uri), AfterDir::UniqueFile(place)) => place
            == controller.received(uri) && place.names.len() > 0,
        (FsTask::GetExactFileForWriting(uri), AfterDir::ExactFile(place)) => place
            == controller.received(uri),
        (FsTask::CreateFilerequestResource(_), AfterDir::Resource) => true,
        (
            FsTask::FinalizePartialFile { partial_filename, target },
            AfterDir::Finalize { from, file_name },
        ) => {
            &&& from.names == seq!["Partial"@, partial_filename@]
            &&& file_name == controller.received(target).names.last()
        },
        _ => false,
    }
}

/// Whether the place is looked at for the task, as one that may be chosen for the purpose.
spec fn is_candidate(
    controller: DirectFsController,
    task: FsTask,
    place: crate::direct_fs_controller::tasks::PlaceView,
    purpose: Purpose<crate::direct_fs_controller::tasks::PlaceView>,
) -> bool {
    &&& place.names.len() > 0
    &&& match purpose {
        Purpose::Create => is_meant(controller, task, FsAsk::CreateNew(place)) && (task
            matches FsTask::CreateFileForWriting(uri) && place.names
            == controller.received(uri).names),
        Purpose::Rename { from } => task is RenameResource && is_meant(
            controller,
            task,
            FsAsk::Rename { from, to: place },
        ),
        Purpose::Finalize { from } => {
            &&& task matches FsTask::FinalizePartialFile { target, .. }
            &&& is_meant(controller, task, FsAsk::Rename { from, to: place })
            &&& place.names.last() == controller.received(target).names.last()
        },
    }
}

/// Whether the task can come to ask this and to wait for that.
spec fn concerns(
    controller: DirectFsController,
    task: FsTask,
    ask: FsAsk<crate::direct_fs_controller::tasks::PlaceView>,
    stage: FsStage<crate::direct_fs_controller::tasks::PlaceView, Seq<char>>,
) -> bool {
    match stage {
        FsStage::ParentMade { place, unique } => {
            &&& !touches(ask)
            &&& place.names.len() > 0
            &&& if unique {
                task matches FsTask::CreateFileForWriting(uri) && place == controller.received(uri)
            } else {
                task matches FsTask::GetExactFileForWriting(uri) && place == controller.received(
                    uri,
                )
            }
        },
        FsStage::DirLooked { then, .. } => !touches(ask) && follows(controller, task, then),
        FsStage::DirMade { then, .. } => !touches(ask) && follows(controller, task, then),
        FsStage::DirResolved { then, .. } => !touches(ask) && follows(controller, task, then),
        FsStage::ResourceMade => task is CreateFilerequestResource && ask is CreateDirs,
        FsStage::BaseLooked { place } => !touches(ask) && place.names.len() > 0 && (task
            matches FsTask::CreateFileForWriting(uri) && place == controller.received(uri)),
        FsStage::NameLooked { place } => !touches(ask) && is_candidate(
            controller,
            task,
            place,
            Purpose::Create,
        ),
        FsStage::VariantLooked { place, number, purpose } => {
            &&& !touches(ask)
            &&& number < NUMBER_OF_VARIATIONS_TO_TRY
            &&& is_candidate(controller, task, place, purpose)
            &&& is_chosen_from(controller, task, place, purpose)
        },
        FsStage::TargetLooked { to, is_file, purpose } => {
            &&& !touches(ask)
            &&& !(purpose is Create)
            &&& is_candidate(controller, task, to, purpose)
            &&& is_file ==> is_chosen_from(controller, task, to, purpose)
        },
        FsStage::FileOpened { place } => {
            &&& is_meant(controller, task, ask)
            &&& ask == FsAsk::CreateNew(place) || ask == FsAsk::Append(place)
            &&& task is CreateFileForWriting || task is GetExactFileForWriting
        },
        FsStage::Renamed => is_meant(controller, task, ask) && task is RenameResource,
        FsStage::Finalized => is_meant(controller, task, ask) && task is FinalizePartialFile,
        FsStage::Removed => is_meant(controller, task, ask) && task is RemoveFile,
        FsStage::PlainDirMade { place, append } => {
            &&& !touches(ask)
            &&& if append {
                is_meant(controller, task, FsAsk::Append(place))
                    && task is GetPartialFileForWriting
            } else {
                is_meant(controller, task, FsAsk::Overwrite(place)) && task is OpenBackupFile
            }
        },
        FsStage::PlainOpened { place } => {
            &&& is_meant(controller, task, ask)
            &&& ask == FsAsk::Append(place) || ask == FsAsk::Overwrite(place)
            &&& task is GetPartialFileForWriting || task is OpenBackupFile
        },
        FsStage::PartialLooked { place } => ask == FsAsk::Exists(place) && is_meant(
            controller,
            task,
            FsAsk::Remove(place),
        ) && task is RemovePartialFile,
        FsStage::PartialRemoved => is_meant(controller, task, ask) && task is RemovePartialFile,
        FsStage::PartialsLooked => task is ListPartialFiles && ask is Exists,
        FsStage::PartialsListed => task is ListPartialFiles && ask is List,
    }
}

/// Whether a place with a number in its name may be chosen in place of the given one.
spec fn is_chosen_from(
    controller: DirectFsController,
    task: FsTask,
    place: crate::direct_fs_controller::tasks::PlaceView,
    purpose: Purpose<crate::direct_fs_controller::tasks::PlaceView>,
) -> bool {
    forall|number: usize|
        number < NUMBER_OF_VARIATIONS_TO_TRY ==> match purpose {
            Purpose::Create => is_meant(
                controller,
                task,
                FsAsk::CreateNew(#[trigger] crate::direct_fs_controller::tasks::variant(place, number)),
            ),
            Purpose::Rename { from } => is_meant(
                controller,
                task,
                FsAsk::Rename {
                    from,
                    to: crate::direct_fs_controller::tasks::variant(place, number),
                },
            ),
            Purpose::Finalize { from } => is_meant(
                controller,
                task,
                FsAsk::Rename {
                    from,
                    to: crate::direct_fs_controller::tasks::variant(place, number),
                },
            ),
        }
}

proof fn lemma_variant_of_place(place: crate::direct_fs_controller::tasks::PlaceView, meant: crate::direct_fs_controller::tasks::PlaceView, number: usize)
    requires
        place.names == meant.names,
        place.names.len() > 0,
        number < NUMBER_OF_VARIATIONS_TO_TRY,
    ensures
        is_place_or_variant(crate::direct_fs_controller::tasks::variant(place, number), meant),
        crate::direct_fs_controller::tasks::variant(place, number).names.len() == place.names.len(),
        crate::direct_fs_controller::tasks::variant(place, number).names.drop_last() == place.names.drop_last(),
        crate::direct_fs_controller::tasks::variant(place, number).names.last() == crate::direct_fs_controller::file_variant(
            place.names.last(),
            number as nat,
        ),
        is_name_or_variant(crate::direct_fs_controller::tasks::variant(place, number).names.last(), place.names.last()),
{
    let other = crate::direct_fs_controller::tasks::variant(place, number);
    assert(other.names.drop_last() =~= place.names.drop_last());
    assert(other.names.last() == crate::direct_fs_controller::file_variant(
        meant.names.last(),
        number as nat,
    ));
}

proof fn lemma_chosen(
    controller: DirectFsController,
    task: FsTask,
    place: crate::direct_fs_controller::tasks::PlaceView,
    purpose: Purpose<crate::direct_fs_controller::tasks::PlaceView>,
)
    requires
        is_candidate(controller, task, place, purpose),
        purpose matches Purpose::Rename { .. } ==> (task matches FsTask::RenameResource { from, to }
            && (crate::direct_fs_controller::planned_rename(
            from,
            to,
            controller.windows(),
        ) matches Ok(plan) && plan.is_file && place == crate::direct_fs_controller::tasks::PlaceView::below("Received"@, plan.to))),
    ensures
        is_chosen_from(controller, task, place, purpose),
{
    assert forall|number: usize| number < NUMBER_OF_VARIATIONS_TO_TRY implies match purpose {
        Purpose::Create => is_meant(
            controller,
            task,
            FsAsk::CreateNew(#[trigger] crate::direct_fs_controller::tasks::variant(place, number)),
        ),
        Purpose::Rename { from } => is_meant(
            controller,
            task,
            FsAsk::Rename { from, to: crate::direct_fs_controller::tasks::variant(place, number) },
        ),
        Purpose::Finalize { from } => is_meant(
            controller,
            task,
            FsAsk::Rename { from, to: crate::direct_fs_controller::tasks::variant(place, number) },
        ),
    } by {
        let other = crate::direct_fs_controller::tasks::variant(place, number);
        match purpose {
            Purpose::Create => {
                if let FsTask::CreateFileForWriting(uri) = task {
                    lemma_variant_of_place(place, controller.received(uri), number);
                }
            },
            Purpose::Rename { .. } => {
                lemma_variant_of_place(place, place, number);
            },
            Purpose::Finalize { .. } => {
                lemma_variant_of_place(place, place, number);
                assert(other.names[0] == place.names[0]) by {
                    assert(other.names.drop_last()[0] == place.names.drop_last()[0]);
                }
            },
        }
    }
}

proof fn lemma_begun(controller: DirectFsController, task: FsTask)
    ensures
        controller.begun(task) matches crate::direct_fs_controller::tasks::FsStepView::Ask(ask, stage) ==> concerns(
            controller,
            task,
            ask,
            stage,
        ),
{
    match task {
        FsTask::RenameResource { from, to } => {
            if let Ok(plan) = crate::direct_fs_controller::planned_rename(
                from,
                to,
                controller.windows(),
            ) {
                let target = crate::direct_fs_controller::tasks::PlaceView::below("Received"@, plan.to);
                let source = crate::direct_fs_controller::tasks::PlaceView::below("Received"@, plan.from);
                let purpose = Purpose::Rename { from: source };
                assert(target.names.len() > 0);
                assert(is_candidate(controller, task, target, purpose));
                if plan.is_file {
                    lemma_chosen(controller, task, target, purpose);
                }
            }
        },
        FsTask::FinalizePartialFile { partial_filename, target } => {
            let names = crate::direct_fs_controller::tasks::named(
                crate::direct_fs_controller::sanitized_names(target@.names, controller.windows()),
            );
            assert(controller.received(target).names =~= seq!["Received"@] + names);
            if names.len() > 0 {
                assert(controller.received(target).names.last() == names.last());
            }
        },
        _ => {},
    }
}

proof fn lemma_followed(
    controller: DirectFsController,
    task: FsTask,
    ask: FsAsk<crate::direct_fs_controller::tasks::PlaceView>,
    stage: FsStage<crate::direct_fs_controller::tasks::PlaceView, Seq<char>>,
    event: FsEvent,
)
    requires
        concerns(controller, task, ask, stage),
        stage.takes(event),
    ensures
        controller.followed(stage, event) matches crate::direct_fs_controller::tasks::FsStepView::Ask(next, then) ==> concerns(
            controller,
            task,
            next,
            then,
        ),
{
    match (stage, event) {
        (FsStage::DirResolved { then, .. }, FsEvent::Resolved { names, .. }) => {
            let names = crate::direct_fs_controller::tasks::opt_names(names);
            if crate::direct_fs_controller::tasks::PlaceView::is_received(names) {
                if let AfterDir::Finalize { from, file_name } = then {
                    let to = crate::direct_fs_controller::tasks::PlaceView { names: names->Some_0.push(file_name), trailing: false };
                    let purpose = Purpose::Finalize { from };
                    assert(to.names[0] == names->Some_0[0]);
                    assert(is_name_or_variant(to.names.last(), file_name));
                    assert(is_candidate(controller, task, to, purpose));
                    lemma_chosen(controller, task, to, purpose);
                }
            }
        },
        (FsStage::BaseLooked { place }, FsEvent::Exists(_)) => {
            let plain = place.with_file_name(place.file_name());
            assert(plain.names =~= place.names);
            assert(is_place_or_variant(plain, place));
            assert(is_candidate(controller, task, plain, Purpose::Create));
        },
        (FsStage::NameLooked { place }, FsEvent::Exists(_)) => {
            lemma_chosen(controller, task, place, Purpose::Create);
        },
        (FsStage::VariantLooked { place, number, .. }, FsEvent::Exists(_)) => {
            let other = crate::direct_fs_controller::tasks::variant(place, number);
        },
        _ => {},
    }
}

/// A task from its beginning to its answer: every step, and what the file system answers to it.
pub ghost struct Course {
    pub steps: Seq<crate::direct_fs_controller::tasks::FsStepView>,
    pub events: Seq<FsEvent>,
}

impl Course {
    pub open spec fn goes_on(self, controller: DirectFsController, i: int) -> bool {
        &&& self.steps[i] matches crate::direct_fs_controller::tasks::FsStepView::Ask(ask, stage)
        &&& self.events[i].answers(ask)
        &&& stage.takes(self.events[i])
        &&& self.steps[i + 1] == controller.followed(stage, self.events[i])
    }

    pub open spec fn is_of(self, controller: DirectFsController, task: FsTask) -> bool {
        &&& self.steps.len() == self.events.len() + 1
        &&& self.steps[0] == controller.begun(task)
        &&& forall|i: int| 0 <= i < self.events.len() ==> #[trigger] self.goes_on(controller, i)
        &&& self.steps.last() is Reply
    }

    /// The answer of the task.
    pub open spec fn answer(self) -> crate::direct_fs_controller::tasks::FsReplyView {
        self.steps.last()->Reply_0
    }

    /// Whether the last thing that the file system was asked for is what the task is for, and the
    /// file system did it.
    pub open spec fn is_achieved(self, controller: DirectFsController, task: FsTask) -> bool {
        &&& self.events.len() > 0
        &&& self.steps[self.events.len() - 1] matches crate::direct_fs_controller::tasks::FsStepView::Ask(ask, _)
        &&& touches(ask)
        &&& is_meant(controller, task, ask)
        &&& self.events.last() is Done || self.events.last() is Opened
    }
}

proof fn lemma_course(controller: DirectFsController, task: FsTask, course: Course, i: int)
    requires
        course.is_of(controller, task),
        0 <= i < course.steps.len(),
    ensures
        course.steps[i] matches crate::direct_fs_controller::tasks::FsStepView::Ask(ask, stage) ==> concerns(
            controller,
            task,
            ask,
            stage,
        ),
    decreases i,
{
    if i == 0 {
        lemma_begun(controller, task);
    } else {
        lemma_course(controller, task, course, i - 1);
        assert(course.goes_on(controller, i - 1));
        if let crate::direct_fs_controller::tasks::FsStepView::Ask(ask, stage) = course.steps[i - 1] {
            lemma_followed(controller, task, ask, stage, course.events[i - 1]);
        }
    }
}

/// Whatever the file system answers, a task makes, opens, moves and removes nothing but what it is
/// for: a new file at the path that was named, or beside it under a numbered name; the file at
/// exactly that path; the partial file of that name; the backup of that day.
pub proof fn law_tasks_touch_only_what_they_name(
    controller: DirectFsController,
    task: FsTask,
    course: Course,
    i: int,
)
    requires
        course.is_of(controller, task),
        0 <= i < course.steps.len(),
    ensures
        course.steps[i] matches crate::direct_fs_controller::tasks::FsStepView::Ask(ask, _) ==> (touches(ask) ==> is_meant(
            controller,
            task,
            ask,
        )),
{
    lemma_course(controller, task, course, i);
}

/// A task that makes, opens, moves or removes a file is answered with success exactly where the file
/// system did that last; and a file that was opened is the one whose path is told.
pub proof fn law_success_is_told_of_what_was_done(
    controller: DirectFsController,
    task: FsTask,
    course: Course,
)
    requires
        course.is_of(controller, task),
        task is CreateFileForWriting || task is GetExactFileForWriting || task is OpenBackupFile
            || task is GetPartialFileForWriting || task is RemoveFile || task is RenameResource
            || task is FinalizePartialFile,
    ensures
        ({
            ||| course.answer() matches crate::direct_fs_controller::tasks::FsReplyView::Done(Ok(_))
            ||| course.answer() matches crate::direct_fs_controller::tasks::FsReplyView::Opened(Ok(_))
        }) <==> course.is_achieved(controller, task),
        course.answer() matches crate::direct_fs_controller::tasks::FsReplyView::Opened(Ok(path)) ==> {
            &&& course.steps[course.events.len() - 1] matches crate::direct_fs_controller::tasks::FsStepView::Ask(ask, _)
            &&& match ask {
                FsAsk::CreateNew(place) => path == controller.shown(place),
                FsAsk::Append(place) => path == controller.shown(place),
                FsAsk::Overwrite(place) => path == controller.shown(place),
                _ => false,
            }
        },
{
    let n = course.events.len() as int;
    if n > 0 {
        lemma_course(controller, task, course, n - 1);
        assert(course.goes_on(controller, n - 1));
    }
}

/// Making the directory of a request succeeds exactly where the file system made it last, in the
/// place for received files.
pub proof fn law_directories_are_made_where_they_belong(
    controller: DirectFsController,
    name: FileNamespace,
    course: Course,
)
    requires
        course.is_of(controller, FsTask::CreateFilerequestResource(name)),
    ensures
        course.steps[0] matches crate::direct_fs_controller::tasks::FsStepView::Ask(FsAsk::Exists(place), _) && place
            == controller.received(name),
        (course.answer() matches crate::direct_fs_controller::tasks::FsReplyView::Done(Ok(_))) <==> {
            &&& course.events.len() > 0
            &&& course.events.last() is Done
            &&& course.steps[course.events.len() - 1] matches crate::direct_fs_controller::tasks::FsStepView::Ask(
                FsAsk::CreateDirs(place),
                FsStage::ResourceMade,
            )
        },
        forall|i: int|
            0 < i < course.steps.len() ==> (#[trigger] course.steps[i] matches crate::direct_fs_controller::tasks::FsStepView::Ask(
                FsAsk::CreateDirs(place),
                FsStage::ResourceMade,
            ) ==> place.names.len() > 0 && place.names[0] == "Received"@),
{
    let task = FsTask::CreateFilerequestResource(name);
    let n = course.events.len() as int;
    assert(n > 0);
    lemma_course(controller, task, course, n - 1);
    assert(course.goes_on(controller, n - 1));
    assert forall|i: int| 0 < i < course.steps.len() implies (#[trigger] course.steps[i] matches crate::direct_fs_controller::tasks::FsStepView::Ask(
        FsAsk::CreateDirs(place),
        FsStage::ResourceMade,
    ) ==> place.names.len() > 0 && place.names[0] == "Received"@) by {
        lemma_course(controller, task, course, i - 1);
        assert(course.goes_on(controller, i - 1));
    }
}

/// Removing a partial file succeeds exactly where there is none, or the file system removed it.
pub proof fn law_removed_partial_files_are_gone(
    controller: DirectFsController,
    filename: String,
    course: Course,
)
    requires
        course.is_of(controller, FsTask::RemovePartialFile(filename)),
    ensures
        (course.answer() matches crate::direct_fs_controller::tasks::FsReplyView::Done(Ok(_))) <==> {
            ||| course.is_achieved(controller, FsTask::RemovePartialFile(filename))
            ||| {
                &&& course.events.len() == 1
                &&& course.events[0] == FsEvent::Exists(false)
                &&& course.steps[0] matches crate::direct_fs_controller::tasks::FsStepView::Ask(FsAsk::Exists(place), _)
                &&& place.names == seq!["Partial"@, filename@]
            }
        },
{
    let task = FsTask::RemovePartialFile(filename);
    let n = course.events.len() as int;
    if n > 0 {
        lemma_course(controller, task, course, n - 1);
        assert(course.goes_on(controller, n - 1));
        assert(course.goes_on(controller, 0));
        if n > 1 {
            assert(course.goes_on(controller, 1));
            if n > 2 {
                assert(course.goes_on(controller, 2));
            }
        }
    }
}

/// The partial files that are listed are those that the file system lists in their directory, and
/// none where there is no such directory.
pub proof fn law_partial_files_are_listed_as_they_are(
    controller: DirectFsController,
    course: Course,
)
    requires
        course.is_of(controller, FsTask::ListPartialFiles),
    ensures
        course.answer() matches crate::direct_fs_controller::tasks::FsReplyView::Listed(Ok(names)) ==> {
            ||| course.events.last() == FsEvent::Exists(false) && names.len() == 0
            ||| {
                &&& course.events.last() matches FsEvent::Listed(listed)
                &&& names == crate::domain_models::views(listed@)
                &&& course.steps[course.events.len() - 1] matches crate::direct_fs_controller::tasks::FsStepView::Ask(
                    FsAsk::List(place),
                    _,
                )
                &&& place.names == seq!["Partial"@]
            }
        },
        course.events.last() is Listed ==> course.answer() matches crate::direct_fs_controller::tasks::FsReplyView::Listed(Ok(_)),
{
    assert(course.events.len() > 0);
    assert(course.goes_on(controller, 0));
    if course.events.len() > 1 {
        assert(course.goes_on(controller, 1));
        if course.events.len() > 2 {
            assert(course.goes_on(controller, 2));
        }
    }
}

/// The names on the way to a received file are those that were named, each made safe, below the
/// directory for received files; where all of them can stand in a name, none is left out.
pub proof fn law_received_files_lie_under_their_names(
    controller: DirectFsController,
    uri: FileNamespace,
)
    requires
        forall|i: int|
            0 <= i < uri@.names.len() ==> crate::filerequest_drive_handler::sanitized(
                #[trigger] uri@.names[i],
                controller.windows(),
            ).len() > 0,
    ensures
        controller.received(uri).names.len() == uri@.names.len() + 1,
        controller.received(uri).names[0] == "Received"@,
        forall|i: int|
            0 <= i < uri@.names.len() ==> #[trigger] controller.received(uri).names[i + 1]
                == crate::filerequest_drive_handler::sanitized(
                uri@.names[i],
                controller.windows(),
            ),
        !controller.received(uri).trailing,
{
    let safe = crate::direct_fs_controller::sanitized_names(uri@.names, controller.windows());
    assert(safe.len() == uri@.names.len());
    assert forall|i: int| 0 <= i < safe.len() implies crate::direct_fs_controller::tasks::is_named(#[trigger] safe[i]) by {
        assert(safe[i] == crate::filerequest_drive_handler::sanitized(
            uri@.names[i],
            controller.windows(),
        ));
    }
    lemma_all_named(safe);
}

proof fn lemma_all_named(names: Seq<Seq<char>>)
    requires
        forall|i: int| 0 <= i < names.len() ==> crate::direct_fs_controller::tasks::is_named(#[trigger] names[i]),
    ensures
        crate::direct_fs_controller::tasks::named(names) == names,
    decreases names.len(),
{
    reveal(Seq::filter);
    if names.len() > 0 {
        lemma_all_named(names.drop_last());
        assert(crate::direct_fs_controller::tasks::is_named(names[names.len() - 1]));
        assert(names =~= names.drop_last().push(names.last()));
    }
}

/// What the file system is asked for first is what the task begins with, and what follows each of
/// its answers is what a course of the task goes on with.
pub proof fn law_tasks_are_carried_out(
    controller: &DirectFsController,
    task: FsTask,
    first: crate::direct_fs_controller::tasks::FsStep,
    stage: FsStage<crate::direct_fs_controller::tasks::Place, String>,
    event: FsEvent,
    next: crate::direct_fs_controller::tasks::FsStep,
)
    requires
        call_ensures(DirectFsController::start, (controller, task), first),
        call_ensures(DirectFsController::resume, (controller, stage, event), next),
    ensures
        first@ == controller.begun(task),
        next@ == controller.followed(stage@, event),
        first@.is_consistent() && next@.is_consistent(),
{
}

} // verus!
