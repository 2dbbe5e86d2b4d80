//! What is read of a file request after it was changed.
use vstd::prelude::*;

use crate::brain::exchange::{Answer, DbCommand};
use crate::domain_models::{Filerequest, FylesId};
use crate::sqlite::actor::{Ask, DbStep, Event, Stage, Waiting};
use crate::sqlite::plan::{DELETE_AUDIENCE, INSERT_AUDIENCE, UPDATE_FILEREQUEST};
use crate::sqlite::rows::FilerequestRow;

verus! {

/// What a row of `filerequests` holds beside the id.
pub ghost struct RequestColumns {
    pub title: Seq<char>,
    pub description: Seq<char>,
    pub access_type: Seq<char>,
    pub status: Seq<char>,
}

/// The file requests in the database, by their ids, and the pairs of a request and a contact in
/// its audience.
pub ghost struct RequestTables {
    pub requests: Map<Seq<char>, RequestColumns>,
    pub audience: Set<(Seq<char>, Seq<char>)>,
}

impl RequestTables {
    /// Every audience is that of a request, as the foreign key of the table demands.
    pub open spec fn is_sound(self) -> bool {
        forall|pair: (Seq<char>, Seq<char>)| #[trigger]
            self.audience.contains(pair) ==> self.requests.contains_key(pair.0)
    }

    /// The tables without the audience of a request.
    pub open spec fn without_audience(self, id: Seq<char>) -> RequestTables {
        RequestTables {
            audience: self.audience.filter(|pair: (Seq<char>, Seq<char>)| pair.0 != id),
            ..self
        }
    }

    /// The tables after the row of a request was changed, if there is one.
    pub open spec fn with_columns(self, id: Seq<char>, columns: RequestColumns) -> RequestTables {
        if self.requests.contains_key(id) {
            RequestTables { requests: self.requests.insert(id, columns), ..self }
        } else {
            self
        }
    }

    /// Whether the tables are like that after the statement, where the database carries it out. It
    /// inserts no row twice, and none whose request it does not know.
    pub open spec fn executes(
        self,
        statement: crate::sqlite::statement::StatementView,
        after: RequestTables,
    ) -> bool {
        let texts = statement.params;
        if statement.sql == UPDATE_FILEREQUEST@ {
            after == self.with_columns(
                texts[4]->Text_0,
                RequestColumns {
                    title: texts[0]->Text_0,
                    description: texts[1]->Text_0,
                    access_type: texts[2]->Text_0,
                    status: texts[3]->Text_0,
                },
            )
        } else if statement.sql == DELETE_AUDIENCE@ {
            after == self.without_audience(texts[0]->Text_0)
        } else if statement.sql == INSERT_AUDIENCE@ {
            let pair = (texts[0]->Text_0, texts[1]->Text_0);
            &&& self.requests.contains_key(pair.0)
            &&& !self.audience.contains(pair)
            &&& after == RequestTables { audience: self.audience.insert(pair), ..self }
        } else {
            true
        }
    }

    /// Whether the tables are like that after the statements, one after another.
    pub open spec fn executes_all(
        self,
        statements: Seq<crate::sqlite::statement::StatementView>,
        after: RequestTables,
    ) -> bool
        decreases statements.len(),
    {
        if statements.len() == 0 {
            after == self
        } else {
            exists|between: RequestTables|
                self.executes_all(statements.drop_last(), between)
                    && #[trigger] between.executes(statements.last(), after)
        }
    }

    /// Whether the database answers the statements like this and is like that afterwards: it
    /// carries them out and tells whether the first one changed a row, or it fails, and where they
    /// belong together nothing has changed then.
    pub open spec fn answers(self, ask: Ask, event: Event, after: RequestTables) -> bool {
        ask matches Ask::Execute { statements, atomic } && match event {
            Event::Executed(changes) => {
                let run = crate::domain_models::views(statements@);
                &&& self.executes_all(run, after)
                &&& run[0].sql == UPDATE_FILEREQUEST@ ==> (changes > 0
                    <==> self.requests.contains_key(run[0].params[4]->Text_0))
            },
            Event::Failed(_) => atomic ==> after == self,
            _ => false,
        }
    }

    /// Whether these are the row and the audience that are read of a request: every row once, in
    /// whatever order.
    pub open spec fn gives(
        self,
        id: Seq<char>,
        row: FilerequestRow,
        members: Seq<Seq<char>>,
    ) -> bool {
        &&& self.requests.contains_key(id)
        &&& row.id@ == id
        &&& self.requests[id] == RequestColumns {
            title: row.title@,
            description: row.description@,
            access_type: row.access_type@,
            status: row.status@,
        }
        &&& members.no_duplicates()
        &&& forall|c: Seq<char>| #[trigger]
            members.contains(c) <==> self.audience.contains((id, c))
    }

    /// Whether nothing is different of any other request.
    pub open spec fn agrees_beside(self, id: Seq<char>, other: RequestTables) -> bool {
        &&& forall|x: Seq<char>|
            x != id ==> (#[trigger] self.requests.contains_key(x)
                <==> other.requests.contains_key(x))
        &&& forall|x: Seq<char>|
            x != id && self.requests.contains_key(x) ==> #[trigger] self.requests[x]
                == other.requests[x]
        &&& forall|x: Seq<char>, c: Seq<char>|
            x != id ==> (#[trigger] self.audience.contains((x, c))
                <==> other.audience.contains((x, c)))
    }
}

/// Whether two requests are the same, whatever the order in which their audience is listed.
pub open spec fn is_same_request(
    a: crate::domain_models::FilerequestView,
    b: crate::domain_models::FilerequestView,
) -> bool {
    &&& a.id == b.id
    &&& a.title == b.title
    &&& a.description == b.description
    &&& a.is_active == b.is_active
    &&& match (a.access, b.access) {
        (
            crate::domain_models::AccessView::Public,
            crate::domain_models::AccessView::Public,
        ) => true,
        (
            crate::domain_models::AccessView::Audience { contact_ids: x },
            crate::domain_models::AccessView::Audience { contact_ids: y },
        ) => forall|c: Seq<char>| #[trigger] x.contains(c) <==> y.contains(c),
        _ => false,
    }
}

/// The three statements are different ones.
proof fn lemma_statements_differ()
    ensures
        UPDATE_FILEREQUEST@ != DELETE_AUDIENCE@,
        UPDATE_FILEREQUEST@ != INSERT_AUDIENCE@,
        DELETE_AUDIENCE@ != INSERT_AUDIENCE@,
{
    reveal_strlit(
        "UPDATE filerequests
     SET title = ?1, description = ?2, access_type = ?3, updated_at = datetime('now'), status = ?4
     WHERE id = ?5",
    );
    reveal_strlit("DELETE FROM filerequest_audience WHERE filerequest_id = ?");
    reveal_strlit(
        "INSERT INTO filerequest_audience (filerequest_id, contact_id, created_at)
     VALUES (?, ?, datetime('now'))",
    );
    assert(UPDATE_FILEREQUEST@[0] == 'U');
    assert(DELETE_AUDIENCE@[0] == 'D');
    assert(INSERT_AUDIENCE@[0] == 'I');
}

/// Inserting an audience adds the pairs and nothing else. Nobody is in it twice.
proof fn lemma_audience_is_inserted(
    before: RequestTables,
    id: Seq<char>,
    contact_ids: Seq<Seq<char>>,
    front: Seq<crate::sqlite::statement::StatementView>,
    between: RequestTables,
    after: RequestTables,
)
    requires
        before.executes_all(front, between),
        forall|other: RequestTables| #[trigger]
            before.executes_all(front, other) ==> other == between,
        before.executes_all(
            front + crate::sqlite::plan::audience_inserts(id, contact_ids),
            after,
        ),
    ensures
        after.requests == between.requests,
        contact_ids.len() > 0 ==> between.requests.contains_key(id),
        forall|x: Seq<char>, c: Seq<char>| #[trigger]
            after.audience.contains((x, c)) <==> between.audience.contains((x, c)) || (x == id
                && contact_ids.contains(c)),
    decreases contact_ids.len(),
{
    lemma_statements_differ();
    let inserts = crate::sqlite::plan::audience_inserts(id, contact_ids);
    let all = front + inserts;
    if contact_ids.len() == 0 {
        assert(all =~= front);
    } else {
        let fewer = contact_ids.drop_last();
        let last = contact_ids.last();
        assert(all.drop_last() =~= front + crate::sqlite::plan::audience_inserts(id, fewer));
        let ready = choose|ready: RequestTables|
            before.executes_all(all.drop_last(), ready) && #[trigger] ready.executes(
                all.last(),
                after,
            );
        lemma_audience_is_inserted(before, id, fewer, front, between, ready);
        let insert = all.last();
        assert(insert == crate::sqlite::statement::StatementView::of(INSERT_AUDIENCE@).text(
            id,
        ).text(last));
        assert(insert.params[0]->Text_0 == id);
        assert(insert.params[1]->Text_0 == last);
        assert(after.audience == ready.audience.insert((id, last)));
        assert forall|x: Seq<char>, c: Seq<char>| #[trigger]
            after.audience.contains((x, c)) <==> between.audience.contains((x, c)) || (x == id
                && contact_ids.contains(c)) by {
            assert(contact_ids.contains(c) <==> fewer.contains(c) || c == last) by {
                if contact_ids.contains(c) {
                    let i = choose|i: int| 0 <= i < contact_ids.len() && contact_ids[i] == c;
                    if i < fewer.len() {
                        assert(fewer[i] == c);
                    }
                }
                if fewer.contains(c) {
                    let i = choose|i: int| 0 <= i < fewer.len() && fewer[i] == c;
                    assert(contact_ids[i] == c);
                }
                assert(contact_ids[contact_ids.len() - 1] == last);
            }
            assert(ready.audience.contains((x, c)) <==> between.audience.contains((x, c)) || (x
                == id && fewer.contains(c)));
        }
    }
}

/// The tables once the row is changed and the old audience is gone, before the new one is inserted.
pub open spec fn cleared(
    before: RequestTables,
    update: crate::domain_models::FilerequestView,
) -> RequestTables {
    before.with_columns(
        update.id,
        RequestColumns {
            title: update.title,
            description: update.description,
            access_type: crate::sqlite::plan::access_type(update.access),
            status: crate::sqlite::plan::activity(update.is_active),
        },
    ).without_audience(update.id)
}

proof fn lemma_row_is_changed_first(before: RequestTables, update: Filerequest)
    ensures
        ({
            let front = crate::sqlite::plan::planned(
                DbCommand::UpdateFilerequest(update),
                Seq::empty(),
            )->Ok_0.take(2);
            &&& before.executes_all(front, cleared(before, update@))
            &&& forall|other: RequestTables| #[trigger]
                before.executes_all(front, other) ==> other == cleared(before, update@)
        }),
{
    lemma_statements_differ();
    let all = crate::sqlite::plan::planned(
        DbCommand::UpdateFilerequest(update),
        Seq::empty(),
    )->Ok_0;
    let front = all.take(2);
    let change = front[0];
    let clear = front[1];
    assert(change == crate::sqlite::statement::StatementView::of(UPDATE_FILEREQUEST@).text(
        update.title@,
    ).text(update.description@).text(crate::sqlite::plan::access_type(update.access@)).text(
        crate::sqlite::plan::activity(update.is_active),
    ).text(update.id@));
    assert(clear == crate::sqlite::statement::StatementView::of(DELETE_AUDIENCE@).text(update.id@));
    let changed = before.with_columns(
        update.id@,
        RequestColumns {
            title: update.title@,
            description: update.description@,
            access_type: crate::sqlite::plan::access_type(update.access@),
            status: crate::sqlite::plan::activity(update.is_active),
        },
    );
    assert(change.params[0]->Text_0 == update.title@);
    assert(change.params[1]->Text_0 == update.description@);
    assert(change.params[2]->Text_0 == crate::sqlite::plan::access_type(update.access@));
    assert(change.params[3]->Text_0 == crate::sqlite::plan::activity(update.is_active));
    assert(change.params[4]->Text_0 == update.id@);
    assert(clear.params[0]->Text_0 == update.id@);
    let first = front.drop_last();
    assert(first.drop_last() =~= Seq::empty());
    assert(first.last() == change);
    assert(front.last() == clear);
    assert(before.executes_all(first.drop_last(), before));
    assert(before.executes(change, changed));
    assert(before.executes_all(first, changed));
    assert(changed.executes(clear, cleared(before, update@)));
    assert forall|other: RequestTables| #[trigger]
        before.executes_all(front, other) implies other == cleared(before, update@) by {
        let between = choose|between: RequestTables|
            before.executes_all(front.drop_last(), between) && #[trigger] between.executes(
                front.last(),
                other,
            );
        let start = choose|start: RequestTables|
            before.executes_all(first.drop_last(), start) && #[trigger] start.executes(
                first.last(),
                between,
            );
        assert(start == before);
        assert(between == changed);
    }
}

/// After a file request was changed, it is read as it was written: its title, description and
/// activity, and an audience of exactly those who were named, whoever was in it before. No other
/// request is different. Where the change is answered with an error, nothing has changed.
pub proof fn law_updated_filerequest_reads_back(
    update: Filerequest,
    shown: Seq<char>,
    fresh: Vec<FylesId>,
    before: RequestTables,
    after: RequestTables,
    asked: DbStep,
    event: Event,
    replied: DbStep,
    row: FilerequestRow,
    members: Vec<String>,
    reading: Waiting,
    first: DbStep,
    listing: Waiting,
    second: DbStep,
)
    requires
        before.is_sound(),
        fresh@.len() == 0,
        crate::sqlite::actor::starts(DbCommand::UpdateFilerequest(update), shown, fresh, asked),
        asked matches DbStep::Ask(ask, waiting) && before.answers(ask, event, after)
            && crate::sqlite::actor::concludes(waiting, event, replied),
        after.requests.contains_key(update.id@) ==> after.gives(
            update.id@,
            row,
            crate::domain_models::views(members@),
        ),
        reading.stage == Stage::FilerequestRead,
        crate::sqlite::actor::concludes(reading, Event::Filerequest(row), first),
        listing.stage == (Stage::AudienceRead { row }),
        crate::sqlite::actor::concludes(listing, Event::Texts(members), second),
    ensures
        replied matches DbStep::Reply(Answer::Unit(result)) && match result {
            Ok(()) => {
                let read = if first is Ask {
                    second
                } else {
                    first
                };
                &&& read matches DbStep::Reply(Answer::Filerequest(Ok(filerequest)))
                &&& is_same_request(filerequest@, update@)
                &&& before.requests.contains_key(update.id@)
                &&& before.agrees_beside(update.id@, after)
            },
            Err(_) => after == before,
        },
{
    let fresh_views = crate::domain_models::views(fresh@);
    assert(fresh_views =~= Seq::empty());
    let statements = crate::sqlite::plan::planned(
        DbCommand::UpdateFilerequest(update),
        Seq::empty(),
    )->Ok_0;
    let front = statements.take(2);
    let contact_ids = crate::sqlite::plan::audience(update.access@);
    let ready = cleared(before, update@);
    assert(statements =~= front + crate::sqlite::plan::audience_inserts(update.id@, contact_ids));
    lemma_row_is_changed_first(before, update);
    crate::sqlite::laws::law_stored_filerequest_reads_back(update.access@, update.is_active);
    if let Event::Executed(changes) = event {
        lemma_audience_is_inserted(before, update.id@, contact_ids, front, ready, after);
        assert(statements[0].params[4]->Text_0 == update.id@);
        if before.requests.contains_key(update.id@) {
            assert(before.agrees_beside(update.id@, after));
            assert forall|c: Seq<char>| #[trigger]
                crate::domain_models::views(members@).contains(c) <==> contact_ids.contains(c) by {
                assert(after.audience.contains((update.id@, c)) <==> contact_ids.contains(c)) by {
                    assert(!ready.audience.contains((update.id@, c)));
                }
            }
        } else {
            assert(contact_ids.len() == 0);
            assert(after.audience =~= before.audience) by {
                assert forall|pair: (Seq<char>, Seq<char>)| #[trigger]
                    after.audience.contains(pair) <==> before.audience.contains(pair) by {
                    assert(pair == (pair.0, pair.1));
                    if before.audience.contains(pair) {
                        assert(pair.0 != update.id@);
                    }
                }
            }
        }
    }
}

} // verus!
