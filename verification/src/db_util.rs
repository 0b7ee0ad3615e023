use crate::document::{document_tree, json_document, json_text};
use crate::files::{
    file_arr_from_path, output_dir, output_dir_of, records_of, OutputEntry, OutputEntryView,
    PackagingError,
};
use crate::text::same_text;
use vstd::prelude::*;

verus! {

/// One row of the ledger: the result of one conversion.
#[derive(Debug, PartialEq, Eq)]
pub struct JobEntry {
    /// The identifier under which the result is fetched.
    pub id: String,
    /// The workspace that holds the result.
    pub workspace_path: String,
    /// What the converter reported.
    pub log: Option<String>,
    /// When the row was made, in seconds since the epoch.
    pub created_at: u64,
}

/// What a `JobEntry` holds.
pub struct JobEntryView {
    pub id: Seq<char>,
    pub workspace_path: Seq<char>,
    pub log: Option<Seq<char>>,
    pub created_at: u64,
}

impl View for JobEntry {
    type V = JobEntryView;

    open spec fn view(&self) -> JobEntryView {
        JobEntryView {
            id: self.id@,
            workspace_path: self.workspace_path@,
            log: match self.log {
                Some(text) => Some(text@),
                None => None,
            },
            created_at: self.created_at,
        }
    }
}

impl DeepView for JobEntry {
    type V = JobEntryView;

    open spec fn deep_view(&self) -> JobEntryView {
        self@
    }
}

impl Clone for JobEntry {
    fn clone(&self) -> (copy: JobEntry)
        ensures
            copy@ == self@,
    {
        JobEntry {
            id: self.id.clone(),
            workspace_path: self.workspace_path.clone(),
            log: match &self.log {
                Some(text) => Some(text.clone()),
                None => None,
            },
            created_at: self.created_at,
        }
    }
}

/// No two rows have the same identifier.
pub open spec fn distinct_ids(rows: Seq<JobEntryView>) -> bool {
    forall|i: int, j: int| 0 <= i < j < rows.len() ==> rows[i].id != rows[j].id
}

/// The row with the identifier `id`, if there is one.
pub open spec fn row_of(rows: Seq<JobEntryView>, id: Seq<char>) -> Option<JobEntryView>
    decreases rows.len(),
{
    if rows.len() == 0 {
        None
    } else if rows.last().id == id {
        Some(rows.last())
    } else {
        row_of(rows.drop_last(), id)
    }
}

/// The rows but the one with the identifier `id`.
pub open spec fn rows_without(rows: Seq<JobEntryView>, id: Seq<char>) -> Seq<JobEntryView> {
    rows.filter(|row: JobEntryView| row.id != id)
}

/// The ledger after an attempt to add `row`: a row whose identifier is taken is
/// not added.
pub open spec fn rows_with(rows: Seq<JobEntryView>, row: JobEntryView) -> Seq<JobEntryView> {
    if row_of(rows, row.id) is Some {
        rows
    } else {
        rows.push(row)
    }
}

/// The ledger that a list of rows gives when they are added one by one: of rows
/// that share an identifier the first stays.
pub open spec fn restored(rows: Seq<JobEntryView>) -> Seq<JobEntryView>
    decreases rows.len(),
{
    if rows.len() == 0 {
        Seq::empty()
    } else {
        rows_with(restored(rows.drop_last()), rows.last())
    }
}

/// A lower-case hexadecimal digit.
pub open spec fn is_lower_hex(c: char) -> bool {
    ('0' <= c && c <= '9') || ('a' <= c && c <= 'f')
}

/// The shape of a generated identifier: a random (version 4) UUID in its
/// hyphenated lower-case form, 36 characters long.
pub open spec fn is_identifier(id: Seq<char>) -> bool {
    &&& id.len() == 36
    &&& forall|i: int|
        0 <= i < 36 ==> if i == 8 || i == 13 || i == 18 || i == 23 {
            #[trigger] id[i] == '-'
        } else {
            is_lower_hex(id[i])
        }
    &&& id[14] == '4'
    &&& (id[19] == '8' || id[19] == '9' || id[19] == 'a' || id[19] == 'b')
}

/// What the converter reported for a row, or nothing where the row holds no report.
pub open spec fn log_text(row: JobEntryView) -> Seq<char> {
    match row.log {
        Some(text) => text,
        None => Seq::empty(),
    }
}

/// How long a result waits to be fetched, in seconds.
pub const FILE_EXPIRATION_IN_SEC: u64 = 5 * 60;

/// The row is older than the time to live allows: it was made more than
/// `FILE_EXPIRATION_IN_SEC` seconds before `now`.
pub open spec fn is_expired(row: JobEntryView, now: u64) -> bool {
    row.created_at < now - FILE_EXPIRATION_IN_SEC
}

/// The rows that have expired at the time `now`, in their order.
pub open spec fn expired_rows(rows: Seq<JobEntryView>, now: u64) -> Seq<JobEntryView> {
    rows.filter(|row: JobEntryView| is_expired(row, now))
}

/// The rows that have not expired at the time `now`, in their order.
pub open spec fn live_rows(rows: Seq<JobEntryView>, now: u64) -> Seq<JobEntryView> {
    rows.filter(|row: JobEntryView| !is_expired(row, now))
}

/// Why the ledger refuses an operation.
#[derive(PartialEq, Eq, Structural, Clone, Copy, Debug)]
pub enum LedgerError {
    /// No row has the identifier asked for.
    NotFound,
    /// The row could not be stored: its identifier is taken.
    PersistenceError,
}

/// The record of the results that wait to be fetched, in the order in which
/// they were made. Identifiers are unique among its rows.
#[derive(Debug)]
pub struct Ledger {
    entries: Vec<JobEntry>,
}

impl View for Ledger {
    type V = Seq<JobEntryView>;

    closed spec fn view(&self) -> Seq<JobEntryView> {
        self.entries.deep_view()
    }
}

impl Ledger {
    /// What holds of every ledger: no two rows have the same identifier.
    #[verifier::type_invariant]
    pub closed spec fn valid(self) -> bool {
        distinct_ids(self.entries.deep_view())
    }

    /// The rows of a valid ledger have distinct identifiers.
    pub proof fn lemma_distinct(self)
        requires
            self.valid(),
        ensures
            distinct_ids(self@),
    {
    }

    /// A ledger without rows.
    pub fn new() -> (ledger: Ledger)
        ensures
            ledger@ == Seq::<JobEntryView>::empty(),
            distinct_ids(ledger@),
    {
        let ledger = Ledger { entries: Vec::new() };
        assert(ledger.entries.deep_view() =~= Seq::empty());
        ledger
    }

    /// The number of rows.
    pub fn len(&self) -> (n: usize)
        ensures
            n == self@.len(),
    {
        self.entries.len()
    }

    /// Finds the row with the identifier `id`.
    fn position(&self, id: &str) -> (at: Option<usize>)
        ensures
            match at {
                Some(i) => i < self@.len() && row_of(self@, id@) == Some(self@[i as int])
                    && self.entries[i as int]@ == self@[i as int],
                None => row_of(self@, id@) is None,
            },
    {
        let mut at: Option<usize> = None;
        let mut i: usize = 0;
        while i < self.entries.len()
            invariant
                i <= self.entries.len(),
                match at {
                    Some(k) => k < i && row_of(self@.take(i as int), id@) == Some(
                        self@[k as int],
                    ),
                    None => row_of(self@.take(i as int), id@) is None,
                },
            decreases self.entries.len() - i,
        {
            assert(self@.take(i + 1).drop_last() =~= self@.take(i as int));
            if same_text(self.entries[i].id.as_str(), id) {
                at = Some(i);
            }
            i += 1;
        }
        assert(self@.take(self@.len() as int) =~= self@);
        at
    }

    /// Looks a row up by its identifier. Fails with `NotFound` where no row has it.
    pub fn lookup(&self, id: &str) -> (found: Result<JobEntry, LedgerError>)
        ensures
            match row_of(self@, id@) {
                Some(row) => found matches Ok(entry) && entry@ == row,
                None => found matches Err(e) && e == LedgerError::NotFound,
            },
    {
        match self.position(id) {
            Some(i) => Ok(self.entries[i].clone()),
            None => Err(LedgerError::NotFound),
        }
    }

    /// Adds a row. Fails with `PersistenceError`, and changes nothing, where the
    /// row's identifier is taken.
    pub fn insert(&mut self, entry: JobEntry) -> (stored: Result<(), LedgerError>)
        ensures
            final(self)@ == rows_with(old(self)@, entry@),
            distinct_ids(final(self)@),
            stored == if row_of(old(self)@, entry@.id) is Some {
                Err::<(), LedgerError>(LedgerError::PersistenceError)
            } else {
                Ok(())
            },
    {
        match self.position(entry.id.as_str()) {
            Some(_) => {
                proof {
                    use_type_invariant(&*self);
                }
                Err(LedgerError::PersistenceError)
            },
            None => {
                proof {
                    lemma_row_of_none(self@, entry@.id);
                }
                let mut entries = self.take_rows();
                let ghost before = entries.deep_view();
                entries.push(entry);
                assert(entries.deep_view() =~= before.push(entry@));
                self.entries = entries;
                Ok(())
            },
        }
    }

    /// Takes the rows out, which leaves the ledger empty.
    fn take_rows(&mut self) -> (rows: Vec<JobEntry>)
        ensures
            rows.deep_view() == old(self)@,
            distinct_ids(rows.deep_view()),
            final(self)@ == Seq::<JobEntryView>::empty(),
    {
        proof {
            use_type_invariant(&*self);
        }
        let mut rows: Vec<JobEntry> = Vec::new();
        assert(rows.deep_view() =~= Seq::empty());
        core::mem::swap(&mut self.entries, &mut rows);
        rows
    }

    /// Removes the row with the identifier `id` and hands it out. Where no row
    /// has it, nothing changes: to remove twice is no error.
    pub fn delete(&mut self, id: &str) -> (removed: Option<JobEntry>)
        ensures
            final(self)@ == rows_without(old(self)@, id@),
            match row_of(old(self)@, id@) {
                Some(row) => removed matches Some(entry) && entry@ == row,
                None => removed is None,
            },
            distinct_ids(final(self)@),
    {
        let rows = self.take_rows();
        let ghost all = rows.deep_view();
        let mut kept: Vec<JobEntry> = Vec::new();
        let mut removed: Option<JobEntry> = None;
        proof {
            reveal(Seq::filter);
            assert(kept.deep_view() =~= Seq::empty());
        }
        for entry in it: rows
            invariant
                all == rows.deep_view(),
                distinct_ids(all),
                kept.deep_view() == rows_without(all.take(it.index() as int), id@),
                match row_of(all.take(it.index() as int), id@) {
                    Some(row) => removed matches Some(entry) && entry@ == row,
                    None => removed is None,
                },
                forall|k: int|
                    0 <= k < kept.len() ==> exists|j: int|
                        0 <= j < it.index() && all[j].id == (#[trigger] kept.deep_view()[k]).id,
                distinct_ids(kept.deep_view()),
        {
            let ghost at = it.index() as int;
            proof {
                reveal(Seq::filter);
                assert(all.take(at + 1).drop_last() =~= all.take(at));
                assert(entry@ == all[at]);
            }
            if same_text(entry.id.as_str(), id) {
                removed = Some(entry);
            } else {
                let ghost before = kept.deep_view();
                kept.push(entry);
                assert(kept.deep_view() =~= before.push(all[at]));
            }
        }
        assert(all.take(all.len() as int) =~= all);
        self.entries = kept;
        removed
    }
}

/// Makes a new identifier. This is `uuid::Uuid::new_v4`, a random UUID, written
/// out by its `Display`: 32 lower-case hexadecimal digits in five groups that
/// hyphens part, the first digit of the third group 4, the first of the fourth
/// 8, 9, a or b. Which identifier comes is left open.
#[verifier::external_body]
fn fresh_identifier() -> (id: String)
    ensures
        is_identifier(id@),
{
    uuid::Uuid::new_v4().to_string()
}

/// A row as an earlier run left it, and whether its workspace is still there.
#[derive(Debug, PartialEq, Eq)]
pub struct StoredRow {
    pub entry: JobEntry,
    pub workspace_present: bool,
}

/// What a `StoredRow` holds.
pub struct StoredRowView {
    pub entry: JobEntryView,
    pub workspace_present: bool,
}

impl View for StoredRow {
    type V = StoredRowView;

    open spec fn view(&self) -> StoredRowView {
        StoredRowView { entry: self.entry@, workspace_present: self.workspace_present }
    }
}

impl DeepView for StoredRow {
    type V = StoredRowView;

    open spec fn deep_view(&self) -> StoredRowView {
        self@
    }
}

/// The rows that an earlier run left, parted by their workspaces: those whose
/// workspace is still there, and those whose workspace is gone.
#[derive(Debug, PartialEq, Eq)]
pub struct Reconciled {
    pub kept: Vec<JobEntry>,
    pub stale: Vec<JobEntry>,
}

/// Of the rows that an earlier run left, in their order, those whose workspace
/// is there (`present`) or those whose workspace is gone (not `present`).
pub open spec fn rows_by_workspace(rows: Seq<StoredRowView>, present: bool) -> Seq<JobEntryView>
    decreases rows.len(),
{
    if rows.len() == 0 {
        Seq::empty()
    } else {
        let earlier = rows_by_workspace(rows.drop_last(), present);
        if rows.last().workspace_present == present {
            earlier.push(rows.last().entry)
        } else {
            earlier
        }
    }
}

/// Parts the rows that an earlier run left: a row owns its workspace, so a row
/// whose workspace is gone is stale, to be removed from where the rows are
/// kept, and only the others are kept for the ledger. Both lists are in the
/// rows' order.
pub fn reconcile(rows: Vec<StoredRow>) -> (parted: Reconciled)
    ensures
        parted.kept.deep_view() == rows_by_workspace(rows.deep_view(), true),
        parted.stale.deep_view() == rows_by_workspace(rows.deep_view(), false),
{
    let mut kept: Vec<JobEntry> = Vec::new();
    let mut stale: Vec<JobEntry> = Vec::new();
    let ghost all = rows.deep_view();
    proof {
        assert(kept.deep_view() =~= Seq::empty());
        assert(stale.deep_view() =~= Seq::empty());
    }
    for row in it: rows
        invariant
            all == rows.deep_view(),
            kept.deep_view() == rows_by_workspace(all.take(it.index() as int), true),
            stale.deep_view() == rows_by_workspace(all.take(it.index() as int), false),
    {
        let ghost at = it.index() as int;
        proof {
            assert(all.take(at + 1).drop_last() =~= all.take(at));
            assert(row@ == all[at]);
        }
        if row.workspace_present {
            let ghost before = kept.deep_view();
            kept.push(row.entry);
            assert(kept.deep_view() =~= before.push(all[at].entry));
        } else {
            let ghost before = stale.deep_view();
            stale.push(row.entry);
            assert(stale.deep_view() =~= before.push(all[at].entry));
        }
    }
    assert(all.take(all.len() as int) =~= all);
    Reconciled { kept, stale }
}

/// The ledger with which the service starts: the rows that an earlier run left,
/// in their order. Of rows that share an identifier only the first is taken.
pub fn create_db(rows: Vec<JobEntry>) -> (database: Ledger)
    ensures
        database@ == restored(rows.deep_view()),
        distinct_ids(database@),
{
    let mut database = Ledger::new();
    let ghost all = rows.deep_view();
    for entry in it: rows
        invariant
            all == rows.deep_view(),
            database@ == restored(all.take(it.index() as int)),
            distinct_ids(database@),
    {
        proof {
            let at = it.index() as int;
            assert(all.take(at + 1).drop_last() =~= all.take(at));
            assert(entry@ == all[at]);
        }
        let _ = database.insert(entry);
    }
    assert(all.take(all.len() as int) =~= all);
    database
}

/// Records the result of a conversion under a new identifier, with the time
/// `now`, and returns the identifier. Fails with `PersistenceError`, and changes
/// nothing, where the new identifier is that of a row: so it never fails on a
/// ledger that holds no generated identifier.
pub fn add_migration_result_to_db(
    dir_path: String,
    log: String,
    now: u64,
    database: &mut Ledger,
) -> (uuid: Result<String, LedgerError>)
    ensures
        match uuid {
            Ok(id) => {
                &&& is_identifier(id@)
                &&& row_of(old(database)@, id@) is None
                &&& final(database)@ == old(database)@.push(
                    JobEntryView {
                        id: id@,
                        workspace_path: dir_path@,
                        log: Some(log@),
                        created_at: now,
                    },
                )
            },
            Err(e) => {
                &&& e == LedgerError::PersistenceError
                &&& final(database)@ == old(database)@
                &&& exists|i: int|
                    0 <= i < old(database)@.len() && is_identifier(
                        #[trigger] old(database)@[i].id,
                    )
            },
        },
        distinct_ids(final(database)@),
{
    let uuid = fresh_identifier();
    let entry = JobEntry {
        id: uuid.clone(),
        workspace_path: dir_path,
        log: Some(log),
        created_at: now,
    };
    proof {
        lemma_row_of_some(database@, uuid@);
    }
    match database.insert(entry) {
        Ok(()) => Ok(uuid),
        Err(e) => Err(e),
    }
}

/// Reads the workspace and the converter's report of a row. Fails with
/// `NotFound` where no row has the identifier.
pub fn read_from_db(uuid: &str, database: &Ledger) -> (path_log: Result<
    (String, String),
    LedgerError,
>)
    ensures
        match row_of(database@, uuid@) {
            Some(row) => path_log matches Ok(pair) && pair.0@ == row.workspace_path && pair.1@
                == log_text(row),
            None => path_log matches Err(e) && e == LedgerError::NotFound,
        },
{
    match database.lookup(uuid) {
        Ok(entry) => {
            let log = match entry.log {
                Some(text) => text,
                None => String::new(),
            };
            Ok((entry.workspace_path, log))
        },
        Err(e) => Err(e),
    }
}

/// Removes a row, and returns the workspace that it owned: the caller removes
/// that directory. Where no row has the identifier nothing changes and nothing
/// is returned; this is no error.
pub fn delete_db_entry(uuid: &str, database: &mut Ledger) -> (workspace: Option<String>)
    ensures
        final(database)@ == rows_without(old(database)@, uuid@),
        match row_of(old(database)@, uuid@) {
            Some(row) => workspace matches Some(path) && path@ == row.workspace_path,
            None => workspace is None,
        },
        distinct_ids(final(database)@),
{
    match database.delete(uuid) {
        Some(entry) => Some(entry.workspace_path),
        None => None,
    }
}

/// Removes the rows that have expired at the time `now`, and returns them in
/// their order: the caller removes the workspaces that they owned. A row
/// expires when it is more than `FILE_EXPIRATION_IN_SEC` seconds old; the other
/// rows stay as they are.
pub fn rm_file_after_expiration(database: &mut Ledger, now: u64) -> (reclaimed: Vec<JobEntry>)
    ensures
        reclaimed.deep_view() == expired_rows(old(database)@, now),
        final(database)@ == live_rows(old(database)@, now),
        distinct_ids(final(database)@),
{
    let rows = database.take_rows();
    let ghost all = rows.deep_view();
    let mut kept: Vec<JobEntry> = Vec::new();
    let mut reclaimed: Vec<JobEntry> = Vec::new();
    proof {
        reveal(Seq::filter);
        assert(kept.deep_view() =~= Seq::empty());
        assert(reclaimed.deep_view() =~= Seq::empty());
    }
    for entry in it: rows
        invariant
            all == rows.deep_view(),
            distinct_ids(all),
            kept.deep_view() == live_rows(all.take(it.index() as int), now),
            reclaimed.deep_view() == expired_rows(all.take(it.index() as int), now),
            forall|k: int|
                0 <= k < kept.len() ==> exists|j: int|
                    0 <= j < it.index() && all[j].id == (#[trigger] kept.deep_view()[k]).id,
            distinct_ids(kept.deep_view()),
    {
        let ghost at = it.index() as int;
        proof {
            reveal(Seq::filter);
            assert(all.take(at + 1).drop_last() =~= all.take(at));
            assert(entry@ == all[at]);
        }
        if now >= FILE_EXPIRATION_IN_SEC && entry.created_at < now - FILE_EXPIRATION_IN_SEC {
            let ghost before = reclaimed.deep_view();
            reclaimed.push(entry);
            assert(reclaimed.deep_view() =~= before.push(all[at]));
        } else {
            let ghost before = kept.deep_view();
            kept.push(entry);
            assert(kept.deep_view() =~= before.push(all[at]));
        }
    }
    assert(all.take(all.len() as int) =~= all);
    database.entries = kept;
    reclaimed
}

/// How long the reaper rests between two cycles, in seconds.
pub const CLEANUP_INTERVAL_IN_SEC: u64 = 15;

/// The number of cycles after which the converter's image is fetched anew.
pub const CYCLES_PER_PULL: u32 = 60;

/// The count with which the background task starts, so that its first cycle
/// fetches the image.
pub const FIRST_CYCLE: u32 = 60;

/// What one cycle of the reaper asks of its caller: the rows that left the
/// ledger, whose workspaces are to be removed, and how long to rest before the
/// next cycle.
#[derive(Debug, PartialEq, Eq)]
pub struct CleanupCycle {
    pub reclaimed: Vec<JobEntry>,
    pub sleep_secs: u64,
}

/// What one cycle of the background task asks of its caller: the reaper's
/// part, whether to fetch the converter's image, and the count to bring to the
/// next cycle.
#[derive(Debug, PartialEq, Eq)]
pub struct JobsCycle {
    pub cleanup: CleanupCycle,
    pub pull_image: bool,
    pub loop_counter: u32,
}

/// The count of cycles after one more cycle: it starts again at zero when it
/// reaches `CYCLES_PER_PULL`.
pub open spec fn next_count(loop_counter: u32) -> u32 {
    if loop_counter + 1 >= CYCLES_PER_PULL {
        0
    } else {
        (loop_counter + 1) as u32
    }
}

/// One cycle of the reaper at the time `now`: the expired rows leave the
/// ledger and are handed out, for their workspaces to be removed, and the
/// caller rests for `CLEANUP_INTERVAL_IN_SEC` seconds. No cycle fails.
pub fn async_db_cleanup(database: &mut Ledger, now: u64) -> (cycle: CleanupCycle)
    ensures
        final(database)@ == live_rows(old(database)@, now),
        cycle.reclaimed.deep_view() == expired_rows(old(database)@, now),
        cycle.sleep_secs == CLEANUP_INTERVAL_IN_SEC,
        distinct_ids(final(database)@),
{
    let reclaimed = rm_file_after_expiration(database, now);
    CleanupCycle { reclaimed, sleep_secs: CLEANUP_INTERVAL_IN_SEC }
}

/// One cycle of the background task at the time `now`, the `loop_counter`
/// being the count of cycles since the converter's image was last fetched: a
/// cycle of the reaper, and with every `CYCLES_PER_PULL`th cycle the request to
/// fetch the image.
pub fn async_jobs(database: &mut Ledger, now: u64, loop_counter: u32) -> (cycle: JobsCycle)
    ensures
        final(database)@ == live_rows(old(database)@, now),
        cycle.cleanup.reclaimed.deep_view() == expired_rows(old(database)@, now),
        cycle.cleanup.sleep_secs == CLEANUP_INTERVAL_IN_SEC,
        cycle.pull_image == (loop_counter + 1 >= CYCLES_PER_PULL),
        cycle.loop_counter == next_count(loop_counter),
        distinct_ids(final(database)@),
{
    let cleanup = async_db_cleanup(database, now);
    if loop_counter >= CYCLES_PER_PULL - 1 {
        JobsCycle { cleanup, pull_image: true, loop_counter: 0 }
    } else {
        JobsCycle { cleanup, pull_image: false, loop_counter: loop_counter + 1 }
    }
}

/// The directory of which the archive of a result is made: the output
/// directory of the row's workspace. Fails with `NotFound` where no row has the
/// identifier.
pub fn get_tar(uuid: &str, database: &Ledger) -> (source: Result<String, LedgerError>)
    ensures
        match row_of(database@, uuid@) {
            Some(row) => source matches Ok(path) && path@ == output_dir_of(row.workspace_path),
            None => source matches Err(e) && e == LedgerError::NotFound,
        },
{
    match database.lookup(uuid) {
        Ok(entry) => Ok(output_dir(entry.workspace_path.as_str())),
        Err(e) => Err(e),
    }
}

/// Why a result is not handed out.
#[derive(PartialEq, Eq, Structural, Clone, Copy, Debug)]
pub enum RetrieveError {
    /// No row has the identifier: the result never was, was fetched, or has expired.
    NotFound,
    /// The converter's output could not be packed.
    PackagingFailure(PackagingError),
}

/// The entries of the output directory as the caller found them, by what they
/// hold; `None` where it found no such directory.
pub open spec fn listing_of(listing: Option<Vec<OutputEntry>>) -> Option<Seq<OutputEntryView>> {
    match listing {
        Some(entries) => Some(entries.deep_view()),
        None => None,
    }
}

/// The JSON document that hands out the result under `id`, given the entries of
/// its output directory: the row's report and the files that the entries give.
pub open spec fn retrieved_json(
    rows: Seq<JobEntryView>,
    id: Seq<char>,
    listing: Option<Seq<OutputEntryView>>,
) -> Result<Seq<char>, RetrieveError> {
    match row_of(rows, id) {
        None => Err(RetrieveError::NotFound),
        Some(row) => match listing {
            None => Err(RetrieveError::PackagingFailure(PackagingError::OutputMissing)),
            Some(entries) => match records_of(entries) {
                Err(e) => Err(RetrieveError::PackagingFailure(e)),
                Ok(files) => Ok(json_text(document_tree(log_text(row), files))),
            },
        },
    }
}

/// Writes the JSON document that hands out the result under `uuid`, given the
/// entries of its output directory (`None` where there is no such directory).
/// Fails with `NotFound` where no row has the identifier, whatever the listing
/// holds, and with `PackagingFailure` where the output is absent or an entry of
/// it is no readable connection profile.
pub fn generate_json(
    uuid: &str,
    database: &Ledger,
    listing: &Option<Vec<OutputEntry>>,
) -> (json: Result<String, RetrieveError>)
    ensures
        match retrieved_json(database@, uuid@, listing_of(*listing)) {
            Ok(text) => json matches Ok(found) && found@ == text,
            Err(e) => json matches Err(found) && found == e,
        },
{
    let path_log = match read_from_db(uuid, database) {
        Ok(path_log) => path_log,
        Err(_) => {
            return Err(RetrieveError::NotFound);
        },
    };
    let entries = match listing {
        Some(entries) => entries,
        None => {
            return Err(RetrieveError::PackagingFailure(PackagingError::OutputMissing));
        },
    };
    let files = match file_arr_from_path(entries) {
        Ok(files) => files,
        Err(e) => {
            return Err(RetrieveError::PackagingFailure(e));
        },
    };
    Ok(json_document(path_log.1.as_str(), &files))
}

/// A row that is found under an identifier has it, and is one of the rows.
pub proof fn lemma_row_of_some(rows: Seq<JobEntryView>, id: Seq<char>)
    ensures
        row_of(rows, id) matches Some(row) ==> row.id == id && exists|i: int|
            0 <= i < rows.len() && rows[i] == row,
    decreases rows.len(),
{
    if rows.len() > 0 {
        if rows.last().id == id {
            assert(rows[rows.len() - 1] == rows.last());
        } else {
            lemma_row_of_some(rows.drop_last(), id);
            if row_of(rows, id) is Some {
                let row = row_of(rows, id)->Some_0;
                let front = rows.drop_last();
                let i = choose|i: int| 0 <= i < front.len() && front[i] == row;
                assert(rows[i] == row);
            }
        }
    }
}

/// Where no row is found under an identifier, no row has it.
pub proof fn lemma_row_of_none(rows: Seq<JobEntryView>, id: Seq<char>)
    requires
        row_of(rows, id) is None,
    ensures
        forall|i: int| 0 <= i < rows.len() ==> rows[i].id != id,
    decreases rows.len(),
{
    if rows.len() > 0 {
        lemma_row_of_none(rows.drop_last(), id);
        assert forall|i: int| 0 <= i < rows.len() implies rows[i].id != id by {
            if i < rows.len() - 1 {
                assert(rows.drop_last()[i] == rows[i]);
            }
        }
    }
}

} // verus!
