//! What holds of files that are written one after another.
use vstd::prelude::*;

use crate::direct_fs_controller::tasks::{
    AfterDir, DirectFsController, FsAsk, FsEvent, FsStage, FsTask, Purpose,
};
use crate::direct_fs_controller::NUMBER_OF_VARIATIONS_TO_TRY;
use crate::io_controller::FileNamespace;

verus! {

/// What there is on a disk, and where each directory really is: the names on the way below the
/// directory of the host, where it lies there.
pub ghost struct Disk {
    pub entries: Set<crate::direct_fs_controller::tasks::PlaceView>,
    pub real: spec_fn(crate::direct_fs_controller::tasks::PlaceView) -> Option<Seq<Seq<char>>>,
}

impl Disk {
    pub open spec fn has(self, place: crate::direct_fs_controller::tasks::PlaceView) -> bool {
        self.entries.contains(place)
    }

    /// Whether the directory lies in the place for received files, once its links are resolved.
    pub open spec fn keeps(self, dir: crate::direct_fs_controller::tasks::PlaceView) -> bool {
        crate::direct_fs_controller::tasks::PlaceView::is_received((self.real)(dir))
    }

    /// Whether a disk that can do what it is asked answers like this, and is like that afterwards.
    pub open spec fn answers(
        self,
        ask: FsAsk<crate::direct_fs_controller::tasks::PlaceView>,
        event: FsEvent,
        after: Disk,
    ) -> bool {
        match ask {
            FsAsk::Exists(place) => event == FsEvent::Exists(self.has(place)) && after == self,
            FsAsk::CreateDirs(dir) => {
                &&& event is Done
                &&& after.real == self.real
                &&& after.has(dir)
                &&& forall|place: crate::direct_fs_controller::tasks::PlaceView|
                    self.has(place) ==> #[trigger] after.has(place)
                &&& forall|place: crate::direct_fs_controller::tasks::PlaceView| #[trigger]
                    after.has(place) && !self.has(place) ==> place.names.len() <= dir.names.len()
            },
            FsAsk::Canonicalize(dir) => {
                &&& event matches FsEvent::Resolved { names, .. }
                &&& crate::direct_fs_controller::tasks::opt_names(names) == (self.real)(dir)
                &&& after == self
            },
            FsAsk::CreateNew(place) => {
                &&& event is Opened <==> !self.has(place)
                &&& event is Opened || event is Failed
                &&& after == if self.has(place) {
                    self
                } else {
                    Disk { entries: self.entries.insert(place), ..self }
                }
            },
            _ => true,
        }
    }
}

/// A task from its beginning to its reply: every step, what the disk answers to it, and the disk
/// before it.
pub ghost struct Run {
    pub steps: Seq<crate::direct_fs_controller::tasks::FsStepView>,
    pub events: Seq<FsEvent>,
    pub disks: Seq<Disk>,
}

impl Run {
    pub open spec fn goes_on(self, controller: DirectFsController, i: int) -> bool {
        match self.steps[i] {
            crate::direct_fs_controller::tasks::FsStepView::Ask(ask, stage) => {
                &&& self.disks[i].answers(ask, self.events[i], self.disks[i + 1])
                &&& self.steps[i + 1] == controller.followed(stage, self.events[i])
            },
            crate::direct_fs_controller::tasks::FsStepView::Reply(_) => false,
        }
    }

    pub open spec fn is_run(self, controller: DirectFsController) -> bool {
        &&& self.steps.len() == self.events.len() + 1
        &&& self.disks.len() == self.steps.len()
        &&& forall|i: int| 0 <= i < self.events.len() ==> #[trigger] self.goes_on(controller, i)
        &&& self.steps.last() is Reply
    }

    /// Whether a new file is to be opened at the path, or beside it where there is one already.
    pub open spec fn writes(self, controller: DirectFsController, uri: FileNamespace) -> bool {
        &&& self.is_run(controller)
        &&& self.steps[0] == controller.begun(FsTask::CreateFileForWriting(uri))
    }

    pub open spec fn reply(self) -> crate::direct_fs_controller::tasks::FsStepView {
        self.steps.last()
    }

    pub open spec fn before(self) -> Disk {
        self.disks[0]
    }

    pub open spec fn after(self) -> Disk {
        self.disks.last()
    }
}

/// The places that a file is given a try at, in order: its own, and those with a number in its
/// name.
pub open spec fn candidate(
    place: crate::direct_fs_controller::tasks::PlaceView,
    k: nat,
) -> crate::direct_fs_controller::tasks::PlaceView {
    if k == 0 {
        place.with_file_name(place.file_name())
    } else {
        place.with_file_name(
            crate::direct_fs_controller::file_variant(place.file_name(), (k - 1) as nat),
        )
    }
}

/// The first of the candidates from the given one on that nothing is at.
pub open spec fn first_free(
    disk: Disk,
    place: crate::direct_fs_controller::tasks::PlaceView,
    k: nat,
) -> Option<nat>
    decreases NUMBER_OF_VARIATIONS_TO_TRY + 1 - k,
{
    if k > NUMBER_OF_VARIATIONS_TO_TRY {
        None
    } else if !disk.has(candidate(place, k)) {
        Some(k)
    } else {
        first_free(disk, place, k + 1)
    }
}

proof fn lemma_candidates_are_of_one_name(
    place: crate::direct_fs_controller::tasks::PlaceView,
    k: nat,
)
    requires
        place.names.len() > 0,
    ensures
        candidate(candidate(place, 0), k) == candidate(place, k),
        candidate(place, k).parent() == place.parent(),
        candidate(place, k).names.len() == place.names.len(),
        candidate(place, k).file_name() == (if k == 0 {
            place.file_name()
        } else {
            crate::direct_fs_controller::file_variant(place.file_name(), (k - 1) as nat)
        }),
{
    let plain = candidate(place, 0);
    assert(plain.names.drop_last() =~= place.names.drop_last());
    assert(candidate(plain, k).names =~= candidate(place, k).names);
    assert(candidate(place, k).names.drop_last() =~= place.names.drop_last());
}

proof fn lemma_first_free_is_free(
    disk: Disk,
    place: crate::direct_fs_controller::tasks::PlaceView,
    k: nat,
)
    ensures
        match first_free(disk, place, k) {
            Some(j) => {
                &&& k <= j <= NUMBER_OF_VARIATIONS_TO_TRY
                &&& !disk.has(candidate(place, j))
                &&& forall|i: nat| k <= i < j ==> disk.has(#[trigger] candidate(place, i))
            },
            None => forall|i: nat|
                k <= i <= NUMBER_OF_VARIATIONS_TO_TRY ==> disk.has(#[trigger] candidate(place, i)),
        },
    decreases NUMBER_OF_VARIATIONS_TO_TRY + 1 - k,
{
    if k <= NUMBER_OF_VARIATIONS_TO_TRY && disk.has(candidate(place, k)) {
        lemma_first_free_is_free(disk, place, k + 1);
    }
}

/// How a run ends once a place is looked for: with a new file at the first place that is free.
pub open spec fn ends_at(
    run: Run,
    controller: DirectFsController,
    disk: Disk,
    place: crate::direct_fs_controller::tasks::PlaceView,
    found: Option<nat>,
) -> bool {
    match found {
        Some(k) => {
            &&& run.reply() == crate::direct_fs_controller::tasks::FsStepView::Reply(
                crate::direct_fs_controller::tasks::FsReplyView::Opened(
                    Ok(controller.shown(candidate(place, k))),
                ),
            )
            &&& run.after() == Disk { entries: disk.entries.insert(candidate(place, k)), ..disk }
        },
        None => {
            &&& run.reply() == crate::direct_fs_controller::tasks::is_not_opened(
                crate::direct_fs_controller::tasks::FsErrorView::Write(
                    crate::direct_fs_controller::tasks::FileWriteErrorView::GetFileError(
                        crate::filerequest_drive_handler::GetFileErrorView::UniqueFileNameVariantNotFound {
                            base: controller.shown(candidate(place, 0)),
                        },
                    ),
                ),
            )
            &&& run.after() == disk
        },
    }
}

proof fn lemma_file_is_made(
    run: Run,
    controller: DirectFsController,
    at: int,
    place: crate::direct_fs_controller::tasks::PlaceView,
)
    requires
        run.is_run(controller),
        0 <= at < run.steps.len(),
        run.steps[at] == crate::direct_fs_controller::tasks::chosen(place, Purpose::Create),
        !run.disks[at].has(place),
    ensures
        run.reply() == crate::direct_fs_controller::tasks::FsStepView::Reply(
            crate::direct_fs_controller::tasks::FsReplyView::Opened(Ok(controller.shown(place))),
        ),
        run.after() == (Disk {
            entries: run.disks[at].entries.insert(place),
            ..run.disks[at]
        }),
{
    assert(at < run.events.len());
    assert(run.goes_on(controller, at));
    if at + 1 < run.events.len() {
        assert(run.goes_on(controller, at + 1));
    }
}

proof fn lemma_variants_are_tried(
    run: Run,
    controller: DirectFsController,
    at: int,
    place: crate::direct_fs_controller::tasks::PlaceView,
    number: usize,
)
    requires
        run.is_run(controller),
        0 <= at < run.steps.len(),
        place.names.len() > 0,
        place == candidate(place, 0),
        number <= NUMBER_OF_VARIATIONS_TO_TRY,
        run.steps[at] == controller.tries_variant(place, number, Purpose::Create),
    ensures
        ends_at(
            run,
            controller,
            run.disks[at],
            place,
            first_free(run.disks[at], place, (number + 1) as nat),
        ),
    decreases NUMBER_OF_VARIATIONS_TO_TRY - number,
{
    if number < NUMBER_OF_VARIATIONS_TO_TRY {
        let k = (number + 1) as nat;
        assert(candidate(place, k) == crate::direct_fs_controller::tasks::variant(place, number));
        assert(at < run.events.len());
        assert(run.goes_on(controller, at));
        if run.disks[at].has(candidate(place, k)) {
            lemma_variants_are_tried(run, controller, at + 1, place, (number + 1) as usize);
        } else {
            lemma_file_is_made(run, controller, at + 1, candidate(place, k));
        }
    } else {
        if at < run.events.len() {
            assert(run.goes_on(controller, at));
        }
    }
}

/// A file that is written is a new one, at the first place that nothing is at: its own, or one with
/// a number in its name. Where its directory really lies elsewhere, nothing is written and the
/// caller is told that of the directory.
pub proof fn law_a_new_file_is_written(
    controller: DirectFsController,
    uri: FileNamespace,
    run: Run,
)
    requires
        run.writes(controller, uri),
        controller.received(uri).names.len() > 0,
    ensures
        ({
            let place = controller.received(uri);
            if run.before().keeps(place.parent()) {
                exists|ready: Disk|
                    {
                        &&& run.before().answers(
                            FsAsk::CreateDirs(place.parent()),
                            FsEvent::Done,
                            ready,
                        )
                        &&& #[trigger] ends_at(
                            run,
                            controller,
                            ready,
                            place,
                            first_free(ready, place, 0),
                        )
                    }
            } else {
                &&& run.reply() matches crate::direct_fs_controller::tasks::FsStepView::Reply(
                    crate::direct_fs_controller::tasks::FsReplyView::Opened(Err(error)),
                )
                &&& error matches crate::direct_fs_controller::tasks::FsErrorView::Write(
                    crate::direct_fs_controller::tasks::FileWriteErrorView::FilerequestDirError(_),
                )
                &&& run.before().answers(
                    FsAsk::CreateDirs(place.parent()),
                    FsEvent::Done,
                    run.after(),
                )
            }
        }),
{
    let place = controller.received(uri);
    let dir = place.parent();
    assert(run.goes_on(controller, 0));
    let ready = run.disks[1];
    assert(run.steps[1] == crate::direct_fs_controller::tasks::ensures_dir(
        dir,
        AfterDir::UniqueFile(place),
    ));
    assert(1 < run.events.len());
    assert(run.goes_on(controller, 1));
    assert(2 < run.events.len());
    assert(run.goes_on(controller, 2));
    if run.before().keeps(dir) {
        assert(3 < run.events.len());
        assert(run.goes_on(controller, 3));
        let plain = candidate(place, 0);
        assert(4 < run.events.len());
        assert(run.goes_on(controller, 4));
        assert(run.disks[4] == ready);
        lemma_candidates_are_of_one_name(place, 0);
        if ready.has(plain) {
            lemma_variants_are_tried(run, controller, 5, plain, 0);
            lemma_same_candidates(ready, place, 1);
        } else {
            lemma_file_is_made(run, controller, 5, plain);
        }
        assert forall|k: nat| #[trigger] candidate(plain, k) == candidate(place, k) by {
            lemma_candidates_are_of_one_name(place, k);
        }
        assert(ends_at(run, controller, ready, place, first_free(ready, place, 0)));
    } else {
        if 3 < run.events.len() {
            assert(run.goes_on(controller, 3));
        }
    }
}

proof fn lemma_same_candidates(
    disk: Disk,
    place: crate::direct_fs_controller::tasks::PlaceView,
    k: nat,
)
    requires
        place.names.len() > 0,
    ensures
        first_free(disk, candidate(place, 0), k) == first_free(disk, place, k),
    decreases NUMBER_OF_VARIATIONS_TO_TRY + 1 - k,
{
    lemma_candidates_are_of_one_name(place, k);
    if k <= NUMBER_OF_VARIATIONS_TO_TRY {
        lemma_same_candidates(disk, place, k + 1);
    }
}

proof fn lemma_candidates_differ(
    place: crate::direct_fs_controller::tasks::PlaceView,
    j: nat,
    k: nat,
)
    requires
        place.names.len() > 0,
        j != k,
    ensures
        candidate(place, j).file_name() != candidate(place, k).file_name(),
        candidate(place, j) != candidate(place, k),
{
    let name = place.file_name();
    lemma_candidates_are_of_one_name(place, j);
    lemma_candidates_are_of_one_name(place, k);
    if j == 0 {
        lemma_variants_are_longer(name, (k - 1) as nat);
    } else if k == 0 {
        lemma_variants_are_longer(name, (j - 1) as nat);
    } else {
        crate::direct_fs_controller::law_file_variants_differ(
            name,
            (j - 1) as nat,
            (k - 1) as nat,
        );
    }
}

proof fn lemma_variants_are_longer(name: Seq<char>, number: nat)
    ensures
        crate::direct_fs_controller::file_variant(name, number).len() > name.len(),
{
    reveal_strlit("_");
    reveal_strlit(".");
    crate::text::lemma_last_index_bounds(name, '.');
}

/// The paths of different files in one directory differ.
proof fn lemma_paths_differ(
    controller: DirectFsController,
    a: crate::direct_fs_controller::tasks::PlaceView,
    b: crate::direct_fs_controller::tasks::PlaceView,
)
    requires
        a.names.len() > 0,
        b.names.len() > 0,
        a.parent() == b.parent(),
        a.file_name() != b.file_name(),
        !a.trailing,
        !b.trailing,
        !a.file_name().contains(controller.separator()),
        !b.file_name().contains(controller.separator()),
    ensures
        controller.shown(a) != controller.shown(b),
{
    let separator = controller.separator();
    let above = crate::direct_fs_controller::tasks::joined(
        controller.root(),
        a.names.drop_last(),
        separator,
    );
    assert(a.names.drop_last() == a.parent().names);
    assert(b.names.drop_last() == b.parent().names);
    if a.file_name().len() > 0 {
        assert(a.file_name()[0] != separator);
    }
    if b.file_name().len() > 0 {
        assert(b.file_name()[0] != separator);
    }
    let front = if above.len() == 0 || above.last() == separator {
        above
    } else {
        above.push(separator)
    };
    assert(controller.shown(a) == front + a.file_name());
    assert(controller.shown(b) == front + b.file_name());
    if controller.shown(a) == controller.shown(b) {
        assert(a.file_name() =~= (front + a.file_name()).skip(front.len() as int));
        assert(b.file_name() =~= (front + b.file_name()).skip(front.len() as int));
    }
}

/// Whether the runs write the file one after another, on a disk that has none of its candidates.
pub open spec fn write_in_turn(
    controller: DirectFsController,
    uri: FileNamespace,
    runs: Seq<Run>,
) -> bool {
    let place = controller.received(uri);
    &&& forall|i: int| 0 <= i < runs.len() ==> (#[trigger] runs[i]).writes(controller, uri)
    &&& forall|i: int|
        0 < i < runs.len() ==> (#[trigger] runs[i]).before() == runs[i - 1].after()
    &&& runs.len() > 0 ==> runs[0].before().keeps(place.parent())
    &&& runs.len() > 0 ==> forall|k: nat|
        k <= NUMBER_OF_VARIATIONS_TO_TRY ==> !runs[0].before().has(#[trigger] candidate(place, k))
}

/// Whether the disk has the first so many candidates, and no more of them.
pub open spec fn has_first(
    disk: Disk,
    place: crate::direct_fs_controller::tasks::PlaceView,
    count: nat,
) -> bool {
    forall|k: nat|
        k <= NUMBER_OF_VARIATIONS_TO_TRY ==> (disk.has(#[trigger] candidate(place, k)) <==> k
            < count)
}

proof fn lemma_write_takes_the_next(
    controller: DirectFsController,
    uri: FileNamespace,
    run: Run,
    count: nat,
)
    requires
        run.writes(controller, uri),
        controller.received(uri).names.len() > 0,
        run.before().keeps(controller.received(uri).parent()),
        has_first(run.before(), controller.received(uri), count),
        count <= NUMBER_OF_VARIATIONS_TO_TRY,
    ensures
        run.reply() == crate::direct_fs_controller::tasks::FsStepView::Reply(
            crate::direct_fs_controller::tasks::FsReplyView::Opened(
                Ok(controller.shown(candidate(controller.received(uri), count))),
            ),
        ),
        run.after().keeps(controller.received(uri).parent()),
        has_first(run.after(), controller.received(uri), count + 1),
{
    let place = controller.received(uri);
    let dir = place.parent();
    law_a_new_file_is_written(controller, uri, run);
    let ready = choose|ready: Disk|
        {
            &&& run.before().answers(FsAsk::CreateDirs(dir), FsEvent::Done, ready)
            &&& #[trigger] ends_at(run, controller, ready, place, first_free(ready, place, 0))
        };
    assert forall|k: nat| k <= NUMBER_OF_VARIATIONS_TO_TRY implies (ready.has(
        #[trigger] candidate(place, k),
    ) <==> k < count) by {
        lemma_candidates_are_of_one_name(place, k);
        assert(run.before().has(candidate(place, k)) <==> k < count);
        assert(candidate(place, k).names.len() == dir.names.len() + 1);
    }
    lemma_first_free_is_free(ready, place, 0);
    assert(first_free(ready, place, 0) == Some(count)) by {
        assert(!ready.has(candidate(place, count)));
    }
    assert forall|k: nat| k <= NUMBER_OF_VARIATIONS_TO_TRY implies (run.after().has(
        #[trigger] candidate(place, k),
    ) <==> k < count + 1) by {
        if k != count {
            lemma_candidates_differ(place, k, count);
        }
        assert(ready.has(candidate(place, k)) <==> k < count);
    }
}

proof fn lemma_writes_take_turns(
    controller: DirectFsController,
    uri: FileNamespace,
    runs: Seq<Run>,
    i: int,
)
    requires
        write_in_turn(controller, uri, runs),
        controller.received(uri).names.len() > 0,
        0 <= i < runs.len() <= NUMBER_OF_VARIATIONS_TO_TRY + 1,
    ensures
        has_first(runs[i].before(), controller.received(uri), i as nat),
        runs[i].before().keeps(controller.received(uri).parent()),
        has_first(runs[i].after(), controller.received(uri), (i + 1) as nat),
        runs[i].after().keeps(controller.received(uri).parent()),
        runs[i].reply() == crate::direct_fs_controller::tasks::FsStepView::Reply(
            crate::direct_fs_controller::tasks::FsReplyView::Opened(
                Ok(controller.shown(candidate(controller.received(uri), i as nat))),
            ),
        ),
    decreases i,
{
    if i > 0 {
        lemma_writes_take_turns(controller, uri, runs, i - 1);
        assert(runs[i].before() == runs[i - 1].after());
    }
    assert(runs[i].writes(controller, uri));
    lemma_write_takes_the_next(controller, uri, runs[i], i as nat);
}

/// A file that is written again and again under one name is a new file each time, as often as there
/// are candidates: every write succeeds, at a path of its own where nothing was before, and all of
/// them are in one directory that lies in the place for received files. None is overwritten: the
/// disk has all of them in the end.
pub proof fn law_writes_under_one_name_keep_apart(
    controller: DirectFsController,
    uri: FileNamespace,
    runs: Seq<Run>,
)
    requires
        write_in_turn(controller, uri, runs),
        runs.len() <= NUMBER_OF_VARIATIONS_TO_TRY + 1,
        controller.received(uri).names.len() > 0,
        controller.received(uri).is_inside(controller.windows()),
        controller.separator() == '/' || controller.separator() == '\\',
    ensures
        ({
            let place = controller.received(uri);
            &&& forall|i: int|
                0 <= i < runs.len() ==> {
                    &&& (#[trigger] runs[i]).reply()
                        == crate::direct_fs_controller::tasks::FsStepView::Reply(
                        crate::direct_fs_controller::tasks::FsReplyView::Opened(
                            Ok(controller.shown(candidate(place, i as nat))),
                        ),
                    )
                    &&& !runs[i].before().has(candidate(place, i as nat))
                    &&& candidate(place, i as nat).parent() == place.parent()
                    &&& runs[i].after().keeps(place.parent())
                    &&& runs.last().after().has(candidate(place, i as nat))
                }
            &&& forall|i: int, j: int|
                0 <= i < j < runs.len() ==> (#[trigger] runs[i]).reply() != (
                #[trigger] runs[j]).reply()
        }),
{
    let place = controller.received(uri);
    let windows = controller.windows();
    assert(crate::direct_fs_controller::is_bare_basename(place.names.last(), windows));
    assert forall|i: int| 0 <= i < runs.len() implies {
        &&& (#[trigger] runs[i]).reply() == crate::direct_fs_controller::tasks::FsStepView::Reply(
            crate::direct_fs_controller::tasks::FsReplyView::Opened(
                Ok(controller.shown(candidate(place, i as nat))),
            ),
        )
        &&& !runs[i].before().has(candidate(place, i as nat))
        &&& candidate(place, i as nat).parent() == place.parent()
        &&& runs[i].after().keeps(place.parent())
        &&& runs.last().after().has(candidate(place, i as nat))
    } by {
        lemma_writes_take_turns(controller, uri, runs, i);
        lemma_writes_take_turns(controller, uri, runs, runs.len() - 1);
        lemma_candidates_are_of_one_name(place, i as nat);
    }
    assert forall|i: int, j: int| 0 <= i < j < runs.len() implies (#[trigger] runs[i]).reply() != (
    #[trigger] runs[j]).reply() by {
        lemma_writes_take_turns(controller, uri, runs, i);
        lemma_writes_take_turns(controller, uri, runs, j);
        lemma_candidates_are_of_one_name(place, i as nat);
        lemma_candidates_are_of_one_name(place, j as nat);
        lemma_candidates_differ(place, i as nat, j as nat);
        if i > 0 {
            crate::direct_fs_controller::laws::lemma_variants_are_bare(
                place.file_name(),
                (i - 1) as nat,
                windows,
            );
        }
        crate::direct_fs_controller::laws::lemma_variants_are_bare(
            place.file_name(),
            (j - 1) as nat,
            windows,
        );
        lemma_paths_differ(controller, candidate(place, i as nat), candidate(place, j as nat));
    }
}

/// The files of different requests are in different directories on the disk, whatever their ids and
/// titles are, where the marks of the ids differ in what fits into a name.
pub proof fn law_requests_have_directories_of_their_own(
    controller: DirectFsController,
    request: crate::domain_models::FilerequestView,
    other: crate::domain_models::FilerequestView,
    a: FileNamespace,
    b: FileNamespace,
    separator: char,
)
    requires
        crate::filerequest_drive_handler::fitting(
            crate::filerequest_drive_handler::mark_of(request.id),
        ) != crate::filerequest_drive_handler::fitting(
            crate::filerequest_drive_handler::mark_of(other.id),
        ),
        a@.names[0] == crate::filerequest_drive_handler::safe_dir_name(request, separator),
        b@.names[0] == crate::filerequest_drive_handler::safe_dir_name(other, separator),
        controller.keeps_mark(a, crate::filerequest_drive_handler::mark_of(request.id)),
        controller.keeps_mark(b, crate::filerequest_drive_handler::mark_of(other.id)),
    ensures
        controller.received(a).names.len() > 1,
        controller.received(b).names.len() > 1,
        controller.received(a).names[1] != controller.received(b).names[1],
{
    crate::filerequest_drive_handler::lemma_dir_name_begins_with_mark(
        request.id,
        request.title,
        separator,
    );
    crate::filerequest_drive_handler::lemma_dir_name_begins_with_mark(
        other.id,
        other.title,
        separator,
    );
    crate::filerequest_drive_handler::lemma_marks_tell_names_apart(
        controller.received(a).names[1],
        controller.received(b).names[1],
        crate::filerequest_drive_handler::fitting(
            crate::filerequest_drive_handler::mark_of(request.id),
        ),
        crate::filerequest_drive_handler::fitting(
            crate::filerequest_drive_handler::mark_of(other.id),
        ),
    );
}

/// Whether the run opened a new file in the directory: the path is that of a place in it.
pub open spec fn opened_in(
    controller: DirectFsController,
    run: Run,
    dir: crate::direct_fs_controller::tasks::PlaceView,
) -> bool {
    exists|place: crate::direct_fs_controller::tasks::PlaceView|
        {
            &&& #[trigger] place.parent() == dir
            &&& run.reply() == crate::direct_fs_controller::tasks::FsStepView::Reply(
                crate::direct_fs_controller::tasks::FsReplyView::Opened(
                    Ok(controller.shown(place)),
                ),
            )
        }
}

proof fn lemma_files_are_opened_in_their_directory(
    controller: DirectFsController,
    uri: FileNamespace,
    run: Run,
)
    requires
        run.writes(controller, uri),
        controller.received(uri).names.len() > 0,
        run.reply() matches crate::direct_fs_controller::tasks::FsStepView::Reply(
            crate::direct_fs_controller::tasks::FsReplyView::Opened(Ok(_)),
        ),
    ensures
        opened_in(controller, run, controller.received(uri).parent()),
{
    let place = controller.received(uri);
    law_a_new_file_is_written(controller, uri, run);
    let ready = choose|ready: Disk|
        {
            &&& run.before().answers(FsAsk::CreateDirs(place.parent()), FsEvent::Done, ready)
            &&& #[trigger] ends_at(run, controller, ready, place, first_free(ready, place, 0))
        };
    if let Some(k) = first_free(ready, place, 0) {
        lemma_candidates_are_of_one_name(place, k);
        assert(candidate(place, k).parent() == place.parent());
    }
}

/// Files that are written for different requests are in directories with different paths, whatever
/// the ids and titles of the requests are, where the marks of the ids differ in what fits into a
/// name and the files have names.
pub proof fn law_files_of_different_requests_keep_apart(
    controller: DirectFsController,
    request: crate::domain_models::FilerequestView,
    other: crate::domain_models::FilerequestView,
    a: FileNamespace,
    b: FileNamespace,
    first: Run,
    second: Run,
    separator: char,
)
    requires
        crate::filerequest_drive_handler::fitting(
            crate::filerequest_drive_handler::mark_of(request.id),
        ) != crate::filerequest_drive_handler::fitting(
            crate::filerequest_drive_handler::mark_of(other.id),
        ),
        a@.names[0] == crate::filerequest_drive_handler::safe_dir_name(request, separator),
        b@.names[0] == crate::filerequest_drive_handler::safe_dir_name(other, separator),
        controller.keeps_mark(a, crate::filerequest_drive_handler::mark_of(request.id)),
        controller.keeps_mark(b, crate::filerequest_drive_handler::mark_of(other.id)),
        controller.received(a).names.len() == 3,
        controller.received(b).names.len() == 3,
        controller.received(a).is_inside(controller.windows()),
        controller.received(b).is_inside(controller.windows()),
        controller.separator() == '/' || controller.separator() == '\\',
        first.writes(controller, a),
        second.writes(controller, b),
        first.reply() matches crate::direct_fs_controller::tasks::FsStepView::Reply(
            crate::direct_fs_controller::tasks::FsReplyView::Opened(Ok(_)),
        ),
        second.reply() matches crate::direct_fs_controller::tasks::FsStepView::Reply(
            crate::direct_fs_controller::tasks::FsReplyView::Opened(Ok(_)),
        ),
    ensures
        opened_in(controller, first, controller.received(a).parent()),
        opened_in(controller, second, controller.received(b).parent()),
        controller.shown(controller.received(a).parent()) != controller.shown(
            controller.received(b).parent(),
        ),
{
    lemma_files_are_opened_in_their_directory(controller, a, first);
    lemma_files_are_opened_in_their_directory(controller, b, second);
    law_requests_have_directories_of_their_own(controller, request, other, a, b, separator);
    let here = controller.received(a).parent();
    let there = controller.received(b).parent();
    assert(here.names[0] == controller.received(a).names[0]);
    assert(here.file_name() == controller.received(a).names[1]);
    assert(there.file_name() == controller.received(b).names[1]);
    assert(here.parent().names =~= there.parent().names);
    lemma_paths_differ(controller, here, there);
}

} // verus!
