//! How a database of an older schema is brought to the current one.
pub mod all_migrations;
pub mod data;

use vstd::prelude::*;

use crate::sqlite::migrations::all_migrations::get_migrations;
use crate::sqlite::statement::Statement;
use crate::text::u64_to_string;

verus! {

/// A version of the schema: three numbers, and for what is no release a name behind them.
#[derive(Debug, PartialEq)]
pub struct Version {
    pub major: u64,
    pub minor: u64,
    pub patch: u64,
    /// What stands before a release, empty for a release.
    pub pre: String,
    /// What tells builds of one version apart.
    pub build: String,
}

#[verifier::ext_equal]
pub ghost struct VersionView {
    pub major: u64,
    pub minor: u64,
    pub patch: u64,
    pub pre: Seq<char>,
    pub build: Seq<char>,
}

impl View for Version {
    type V = VersionView;

    open spec fn view(&self) -> VersionView {
        VersionView {
            major: self.major,
            minor: self.minor,
            patch: self.patch,
            pre: self.pre@,
            build: self.build@,
        }
    }
}

/// A release.
pub open spec fn release(major: u64, minor: u64, patch: u64) -> VersionView {
    VersionView { major, minor, patch, pre: Seq::empty(), build: Seq::empty() }
}

impl VersionView {
    pub open spec fn is_release(self) -> bool {
        self.pre.len() == 0 && self.build.len() == 0
    }

    /// Whether the numbers are smaller.
    pub open spec fn is_below(self, other: VersionView) -> bool {
        self.major < other.major || (self.major == other.major && (self.minor < other.minor || (
        self.minor == other.minor && self.patch < other.patch)))
    }

    /// Whether the numbers are the same.
    pub open spec fn is_level_with(self, other: VersionView) -> bool {
        self.major == other.major && self.minor == other.minor && self.patch == other.patch
    }

    /// Whether a release is the given version or a later one. What stands before a release is
    /// older than it, and its builds are newer.
    pub open spec fn is_at_least(self, other: VersionView) -> bool {
        other.is_below(self) || (self.is_level_with(other) && (other.pre.len() > 0
            || other.build.len() == 0))
    }

    /// A release as it is written.
    pub open spec fn text(self) -> Seq<char> {
        crate::text::decimal(self.major as nat) + "."@ + crate::text::decimal(self.minor as nat)
            + "."@ + crate::text::decimal(self.patch as nat)
    }
}

/// The version that a text stands for.
pub uninterp spec fn version_of(text: Seq<char>) -> Option<VersionView>;

/// Whether a release is read from the text that it is written as.
pub open spec fn reads_releases(text: Seq<char>, read: Option<VersionView>) -> bool {
    forall|version: VersionView| #[trigger]
        version.text() == text && version.is_release() ==> read == Some(version)
}

/// `semver::Version::parse`: a function of the text, and three numbers with dots between them are
/// a release.
#[verifier::external_body]
fn parse_version(text: &str) -> (r: Option<Version>)
    ensures
        crate::domain_models::opt_view(r) == version_of(text@),
        reads_releases(text@, crate::domain_models::opt_view(r)),
{
    semver::Version::parse(text).ok().map(
        |v| Version {
            major: v.major,
            minor: v.minor,
            patch: v.patch,
            pre: v.pre.as_str().to_owned(),
            build: v.build.as_str().to_owned(),
        },
    )
}

impl Version {
    /// A release.
    pub fn new(major: u64, minor: u64, patch: u64) -> (r: Self)
        ensures
            r@ == release(major, minor, patch),
    {
        let r = Version { major, minor, patch, pre: "".to_owned(), build: "".to_owned() };
        proof {
            reveal_strlit("");
            assert(r@ =~= release(major, minor, patch));
        }
        r
    }

    /// The version that a text stands for.
    pub fn parse(text: &str) -> (r: Option<Self>)
        ensures
            crate::domain_models::opt_view(r) == version_of(text@),
            reads_releases(text@, crate::domain_models::opt_view(r)),
    {
        parse_version(text)
    }

    /// Whether a release is the given version or a later one.
    pub fn is_at_least(&self, other: &Version) -> (r: bool)
        requires
            self@.is_release(),
        ensures
            r == self@.is_at_least(other@),
    {
        if self.major != other.major {
            return self.major > other.major;
        }
        if self.minor != other.minor {
            return self.minor > other.minor;
        }
        if self.patch != other.patch {
            return self.patch > other.patch;
        }
        other.pre.as_str().unicode_len() > 0 || other.build.as_str().unicode_len() == 0
    }

    /// A release as it is written.
    pub fn to_text(&self) -> (r: String)
        requires
            self@.is_release(),
        ensures
            r@ == self@.text(),
    {
        u64_to_string(self.major).concat(".").concat(u64_to_string(self.minor).as_str()).concat(
            ".",
        ).concat(u64_to_string(self.patch).as_str())
    }
}

impl Clone for Version {
    fn clone(&self) -> (r: Self)
        ensures
            r@ == self@,
    {
        Version {
            major: self.major,
            minor: self.minor,
            patch: self.patch,
            pre: self.pre.clone(),
            build: self.build.clone(),
        }
    }
}

/// A step of a migration that looks at each row.
#[derive(Clone, Copy, Debug, PartialEq, Eq, Structural)]
pub enum DataStep {
    /// Remote file requests name a row of `peers` in place of an id in the network.
    AssignPeers,
    /// Remote file requests name an id in the network again.
    RestorePeers,
    /// Received files name a contact in place of an id in the network.
    AssignContacts,
    /// Received files name an id in the network again.
    RestoreSenders,
}

#[derive(Debug)]
pub enum MigrationStep {
    Run(&'static str),
    Data(DataStep),
}

pub ghost enum MigrationStepView {
    Run(Seq<char>),
    Data(DataStep),
}

impl View for MigrationStep {
    type V = MigrationStepView;

    open spec fn view(&self) -> MigrationStepView {
        match *self {
            MigrationStep::Run(sql) => MigrationStepView::Run(sql@),
            MigrationStep::Data(step) => MigrationStepView::Data(step),
        }
    }
}

/// The steps of a migration in one direction.
#[derive(Debug)]
pub struct Script {
    pub steps: Vec<MigrationStep>,
}

pub ghost struct ScriptView {
    pub steps: Seq<MigrationStepView>,
}

impl View for Script {
    type V = ScriptView;

    open spec fn view(&self) -> ScriptView {
        ScriptView { steps: crate::domain_models::views(self.steps@) }
    }
}

impl ScriptView {
    pub open spec fn empty() -> ScriptView {
        ScriptView { steps: Seq::empty() }
    }

    pub open spec fn run(self, sql: Seq<char>) -> ScriptView {
        ScriptView { steps: self.steps.push(MigrationStepView::Run(sql)) }
    }

    pub open spec fn data(self, step: DataStep) -> ScriptView {
        ScriptView { steps: self.steps.push(MigrationStepView::Data(step)) }
    }
}

impl Script {
    pub fn new() -> (r: Self)
        ensures
            r@ == ScriptView::empty(),
    {
        let r = Script { steps: Vec::new() };
        assert(r@.steps =~= Seq::empty());
        r
    }

    fn with(self, step: MigrationStep) -> (r: Self)
        ensures
            r@.steps == self@.steps.push(step@),
    {
        let Script { mut steps } = self;
        let ghost before = steps@;
        steps.push(step);
        assert(crate::domain_models::views(steps@) =~= crate::domain_models::views(before).push(
            step@,
        ));
        Script { steps }
    }

    pub fn run(self, sql: &'static str) -> (r: Self)
        ensures
            r@ == self@.run(sql@),
    {
        self.with(MigrationStep::Run(sql))
    }

    pub fn data(self, step: DataStep) -> (r: Self)
        ensures
            r@ == self@.data(step),
    {
        self.with(MigrationStep::Data(step))
    }
}

/// A change of the schema, and its reversal.
#[derive(Debug)]
pub struct Migration {
    pub applies_to_version: Version,
    pub target_version: Version,
    pub description: &'static str,
    pub up: Script,
    pub down: Script,
}

pub ghost struct MigrationView {
    pub applies_to_version: VersionView,
    pub target_version: VersionView,
    pub description: Seq<char>,
    pub up: ScriptView,
    pub down: ScriptView,
}

impl View for Migration {
    type V = MigrationView;

    open spec fn view(&self) -> MigrationView {
        MigrationView {
            applies_to_version: self.applies_to_version@,
            target_version: self.target_version@,
            description: self.description@,
            up: self.up@,
            down: self.down@,
        }
    }
}

pub const STORE_SCHEMA_VERSION: &'static str = "UPDATE schema_version SET version = ?";

pub const SELECT_SCHEMA_VERSION: &'static str = "SELECT version FROM schema_version";

impl Migration {
    pub fn new(
        applies_to_version: Version,
        target_version: Version,
        description: &'static str,
        up: Script,
        down: Script,
    ) -> (r: Self)
        ensures
            r@ == (MigrationView {
                applies_to_version: applies_to_version@,
                target_version: target_version@,
                description: description@,
                up: up@,
                down: down@,
            }),
    {
        Migration { applies_to_version, target_version, description, up, down }
    }

    /// The steps forward, and the statement that records them.
    pub fn upgrade(&self) -> (r: (&Script, Statement))
        requires
            self@.target_version.is_release(),
        ensures
            r.0@ == self@.up,
            r.1@ == crate::sqlite::statement::StatementView::of(STORE_SCHEMA_VERSION@).text(
                self@.target_version.text(),
            ),
    {
        (
            &self.up,
            Statement::of(STORE_SCHEMA_VERSION).text(self.target_version.to_text().as_str()),
        )
    }

    /// The steps back, and the statement that records them.
    pub fn rollback(&self) -> (r: (&Script, Statement))
        requires
            self@.applies_to_version.is_release(),
        ensures
            r.0@ == self@.down,
            r.1@ == crate::sqlite::statement::StatementView::of(STORE_SCHEMA_VERSION@).text(
                self@.applies_to_version.text(),
            ),
    {
        (
            &self.down,
            Statement::of(STORE_SCHEMA_VERSION).text(self.applies_to_version.to_text().as_str()),
        )
    }
}

/// Whether the migration is still to be applied to a database of the given version.
pub open spec fn is_pending(current: VersionView) -> spec_fn(MigrationView) -> bool {
    |migration: MigrationView| migration.applies_to_version.is_at_least(current)
}

/// The migrations that a database of the given version needs, in their order.
pub open spec fn pending(current: VersionView) -> Seq<MigrationView> {
    crate::sqlite::migrations::all_migrations::history().filter(is_pending(current))
}

proof fn lemma_history_is_of_releases()
    ensures
        forall|i: int|
            0 <= i < crate::sqlite::migrations::all_migrations::history().len() ==> (#[trigger]
            crate::sqlite::migrations::all_migrations::history()[i]).applies_to_version.is_release()
                && crate::sqlite::migrations::all_migrations::history()[i].target_version.is_release(),
{
}

proof fn lemma_filter_of_one(migration: MigrationView, pred: spec_fn(MigrationView) -> bool)
    ensures
        seq![migration].filter(pred) == if pred(migration) {
            seq![migration]
        } else {
            Seq::empty()
        },
{
    reveal(Seq::filter);
    reveal_with_fuel(Seq::filter, 2);
    assert(seq![migration].drop_last() =~= Seq::empty());
    assert(Seq::<MigrationView>::empty().push(migration) =~= seq![migration]);
}

/// The migrations that a database of the given version needs, in their order.
pub fn pending_migrations(current: &Version) -> (r: Vec<Migration>)
    ensures
        crate::domain_models::views(r@) == pending(current@),
{
    let mut all = get_migrations();
    let ghost history = crate::sqlite::migrations::all_migrations::history();
    let mut needed: Vec<Migration> = Vec::new();
    proof {
        lemma_history_is_of_releases();
        assert(crate::domain_models::views(needed@) =~= Seq::empty());
        assert(history.skip(history.len() as int).filter(is_pending(current@)) =~= Seq::empty());
    }
    while all.len() > 0
        invariant
            history == crate::sqlite::migrations::all_migrations::history(),
            all@.len() <= history.len(),
            crate::domain_models::views(all@) == history.take(all@.len() as int),
            forall|i: int|
                0 <= i < history.len() ==> (
                #[trigger] history[i]).applies_to_version.is_release(),
            crate::domain_models::views(needed@) == history.skip(all@.len() as int).filter(
                is_pending(current@),
            ),
        decreases all@.len(),
    {
        let ghost n = all@.len() - 1;
        let ghost before = needed@;
        let ghost rest = all@;
        assert(crate::domain_models::views(rest)[n] == history[n]);
        if let Some(migration) = all.pop() {
            proof {
                assert(crate::domain_models::views(all@) =~= history.take(n));
                assert(migration == rest[n]);
                assert(history.skip(n) =~= seq![history[n]] + history.skip(n + 1));
                lemma_filter_of_one(history[n], is_pending(current@));
                Seq::filter_distributes_over_add(
                    seq![history[n]],
                    history.skip(n + 1),
                    is_pending(current@),
                );
            }
            if migration.applies_to_version.is_at_least(current) {
                needed.insert(0, migration);
                assert(crate::domain_models::views(needed@) =~= seq![migration@]
                    + crate::domain_models::views(before));
            }
        }
    }
    assert(history.skip(0) =~= history);
    needed
}

/// Whether each of the migrations from `n` on is to be applied, and none before it.
pub open spec fn starts_at(current: VersionView, n: int) -> bool {
    let history = crate::sqlite::migrations::all_migrations::history();
    &&& 0 <= n <= history.len()
    &&& forall|i: int|
        0 <= i < history.len() ==> (is_pending(current)(#[trigger] history[i]) <==> n <= i)
}

proof fn lemma_filter_keeps_all(s: Seq<MigrationView>, pred: spec_fn(MigrationView) -> bool)
    requires
        forall|i: int| 0 <= i < s.len() ==> pred(#[trigger] s[i]),
    ensures
        s.filter(pred) == s,
    decreases s.len(),
{
    reveal(Seq::filter);
    if s.len() > 0 {
        lemma_filter_keeps_all(s.drop_last(), pred);
        assert(pred(s[s.len() - 1]));
        assert(s.drop_last().push(s.last()) =~= s);
    }
}

proof fn lemma_filter_drops_all(s: Seq<MigrationView>, pred: spec_fn(MigrationView) -> bool)
    requires
        forall|i: int| 0 <= i < s.len() ==> !pred(#[trigger] s[i]),
    ensures
        s.filter(pred) == Seq::<MigrationView>::empty(),
    decreases s.len(),
{
    reveal(Seq::filter);
    if s.len() > 0 {
        lemma_filter_drops_all(s.drop_last(), pred);
        assert(!pred(s[s.len() - 1]));
    }
}

proof fn lemma_pending_is_a_suffix(current: VersionView, n: int)
    requires
        starts_at(current, n),
    ensures
        pending(current) == crate::sqlite::migrations::all_migrations::history().skip(n),
{
    let history = crate::sqlite::migrations::all_migrations::history();
    let pred = is_pending(current);
    assert forall|i: int| 0 <= i < history.take(n).len() implies !pred(
        #[trigger] history.take(n)[i],
    ) by {
        assert(history.take(n)[i] == history[i]);
    }
    assert forall|i: int| 0 <= i < history.skip(n).len() implies pred(
        #[trigger] history.skip(n)[i],
    ) by {
        assert(history.skip(n)[i] == history[i + n]);
    }
    lemma_filter_drops_all(history.take(n), pred);
    lemma_filter_keeps_all(history.skip(n), pred);
    assert(history.take(n) + history.skip(n) =~= history);
    Seq::filter_distributes_over_add(history.take(n), history.skip(n), pred);
    assert(Seq::<MigrationView>::empty() + history.skip(n) =~= history.skip(n));
}

/// Each migration leads to a later version, and it is applied before all migrations from that
/// version on.
pub proof fn law_migrations_follow_each_other(i: int, j: int)
    requires
        0 <= i < j < crate::sqlite::migrations::all_migrations::history().len(),
    ensures
        crate::sqlite::migrations::all_migrations::history()[i].applies_to_version.is_below(
            crate::sqlite::migrations::all_migrations::history()[i].target_version,
        ),
        !crate::sqlite::migrations::all_migrations::history()[j].applies_to_version.is_below(
            crate::sqlite::migrations::all_migrations::history()[i].target_version,
        ),
    decreases j - i,
{
    let history = crate::sqlite::migrations::all_migrations::history();
    lemma_neighbours(i);
    if j > i + 1 {
        law_migrations_follow_each_other(i + 1, j);
    }
}

proof fn lemma_neighbours(i: int)
    requires
        0 <= i < crate::sqlite::migrations::all_migrations::history().len(),
    ensures
        crate::sqlite::migrations::all_migrations::history()[i].applies_to_version.is_below(
            crate::sqlite::migrations::all_migrations::history()[i].target_version,
        ),
        i + 1 < crate::sqlite::migrations::all_migrations::history().len()
            ==> !crate::sqlite::migrations::all_migrations::history()[i
            + 1].applies_to_version.is_below(
            crate::sqlite::migrations::all_migrations::history()[i].target_version,
        ),
{
}

/// The first migration that a database of the given version needs.
proof fn lemma_start(current: VersionView, n: int) -> (start: int)
    requires
        0 <= n <= crate::sqlite::migrations::all_migrations::history().len(),
        forall|i: int|
            n <= i < crate::sqlite::migrations::all_migrations::history().len() ==> is_pending(
                current,
            )(#[trigger] crate::sqlite::migrations::all_migrations::history()[i]),
    ensures
        starts_at(current, start),
    decreases n,
{
    let history = crate::sqlite::migrations::all_migrations::history();
    if n > 0 && is_pending(current)(history[n - 1]) {
        lemma_start(current, n - 1)
    } else {
        assert forall|i: int| 0 <= i < n implies !is_pending(current)(#[trigger] history[i]) by {
            if i < n - 1 {
                law_migrations_follow_each_other(i, n - 1);
            }
        }
        n
    }
}

/// A database needs all migrations from one on, and none of those before it.
pub proof fn law_needed_migrations_are_the_last_ones(current: VersionView)
    ensures
        exists|n: int|
            0 <= n <= crate::sqlite::migrations::all_migrations::history().len() && pending(current)
                == #[trigger] crate::sqlite::migrations::all_migrations::history().skip(n),
{
    let start = lemma_start(
        current,
        crate::sqlite::migrations::all_migrations::history().len() as int,
    );
    lemma_pending_is_a_suffix(current, start);
}

/// Where a database needs any migration, the last one brings it to the current version.
pub proof fn law_migrations_lead_to_the_current_version(current: VersionView)
    requires
        pending(current).len() > 0,
    ensures
        pending(current).last().target_version == crate::sqlite::schema::current(),
{
    let history = crate::sqlite::migrations::all_migrations::history();
    let start = lemma_start(current, history.len() as int);
    lemma_pending_is_a_suffix(current, start);
    assert(history.skip(start).last() == history.last());
}

/// A database of a release before the current version needs a migration, and one of the current
/// version needs none.
pub proof fn law_only_older_databases_are_migrated(current: VersionView)
    requires
        current.is_release(),
    ensures
        pending(current).len() > 0 <==> current.is_below(crate::sqlite::schema::current()),
{
    let history = crate::sqlite::migrations::all_migrations::history();
    let start = lemma_start(current, history.len() as int);
    lemma_pending_is_a_suffix(current, start);
    assert(is_pending(current)(history[history.len() - 1]) <==> start <= history.len() - 1);
}

/// After each migration the database needs exactly those behind it, so that an upgrade that was
/// interrupted goes on where it stopped.
pub proof fn law_interrupted_upgrade_goes_on(i: int)
    requires
        0 <= i < crate::sqlite::migrations::all_migrations::history().len(),
    ensures
        pending(crate::sqlite::migrations::all_migrations::history()[i].target_version)
            == crate::sqlite::migrations::all_migrations::history().skip(i + 1),
{
    let history = crate::sqlite::migrations::all_migrations::history();
    let current = history[i].target_version;
    lemma_history_is_of_releases();
    assert forall|k: int| 0 <= k < history.len() implies (is_pending(current)(
        #[trigger] history[k],
    ) <==> i + 1 <= k) by {
        lemma_neighbours(i);
        if k < i {
            law_migrations_follow_each_other(k, i);
            lemma_neighbours(k);
        }
        if i < k {
            law_migrations_follow_each_other(i, k);
        }
    }
    lemma_pending_is_a_suffix(current, i + 1);
}

} // verus!
