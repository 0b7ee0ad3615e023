use crate::db_util::{
    distinct_ids, expired_rows, is_expired, lemma_row_of_some, live_rows, log_text,
    retrieved_json, row_of, rows_without, JobEntryView, RetrieveError,
};
use crate::document::{document_tree, json_text};
use crate::files::{
    record_of, records_of, FileType, FileView, OutputEntryView, ValidationErrorView,
};
use crate::migration::{
    converter_words, is_plain_name, lemma_mount_is_one_argument, mount_of, planned, target_path,
};
use crate::reply::{ReplyView, NOT_FOUND};
use crate::routes::{admitted, archive_reply, files_of_fields, json_reply, refusal, FormFieldView};
use vstd::prelude::*;

verus! {

/// A result that was just recorded is found under its identifier, whatever the
/// ledger held before.
pub proof fn lemma_recorded_row_is_found(rows: Seq<JobEntryView>, row: JobEntryView)
    ensures
        row_of(rows.push(row), row.id) == Some(row),
{
}

/// Packing keeps the file set: where the entries of an output directory give
/// files at all, they give one file for each entry, in the entries' order, each
/// with its entry's name and content.
pub proof fn law_packing_keeps_names_and_contents(entries: Seq<OutputEntryView>)
    requires
        records_of(entries) is Ok,
    ensures
        records_of(entries)->Ok_0.len() == entries.len(),
        forall|i: int|
            0 <= i < entries.len() ==> {
                let file = #[trigger] records_of(entries)->Ok_0[i];
                &&& file.file_name == entries[i].file_name
                &&& Some(file.file_content) == entries[i].content
                &&& file.file_type == FileType::NMconnection
            },
    decreases entries.len(),
{
    if entries.len() > 0 {
        law_packing_keeps_names_and_contents(entries.drop_last());
        let files = records_of(entries)->Ok_0;
        let earlier = records_of(entries.drop_last())->Ok_0;
        assert(files == earlier.push(record_of(entries.last())->Ok_0));
        assert forall|i: int| 0 <= i < entries.len() implies {
            let file = #[trigger] records_of(entries)->Ok_0[i];
            &&& file.file_name == entries[i].file_name
            &&& Some(file.file_content) == entries[i].content
            &&& file.file_type == FileType::NMconnection
        } by {
            if i < entries.len() - 1 {
                assert(files[i] == earlier[i]);
                assert(entries.drop_last()[i] == entries[i]);
            }
        }
    }
}

/// A submission that succeeded can be fetched at once: on the ledger as the
/// recording left it, the result under the new identifier is the document of
/// the recorded report and of the files that the converter's output gives.
pub proof fn law_recorded_result_is_retrievable(
    rows: Seq<JobEntryView>,
    row: JobEntryView,
    entries: Seq<OutputEntryView>,
)
    requires
        records_of(entries) is Ok,
    ensures
        retrieved_json(rows.push(row), row.id, Some(entries)) == Ok::<Seq<char>, RetrieveError>(
            json_text(document_tree(log_text(row), records_of(entries)->Ok_0)),
        ),
{
    lemma_recorded_row_is_found(rows, row);
}

/// A submission whose parts all give files, two of them of different kinds, is
/// turned away as `MixedTypes`: no batch comes of it, so nothing is run.
pub proof fn law_mixed_kinds_are_refused(fields: Seq<FormFieldView>, i: int, j: int)
    requires
        files_of_fields(fields) is Ok,
        0 <= i < files_of_fields(fields)->Ok_0.len(),
        0 <= j < files_of_fields(fields)->Ok_0.len(),
        files_of_fields(fields)->Ok_0[i].file_type != files_of_fields(fields)->Ok_0[j].file_type,
    ensures
        admitted(fields) == Err::<Seq<FileView>, ReplyView>(
            refusal(ValidationErrorView::MixedTypes),
        ),
{
}

/// No row is left under an identifier once its row was removed.
pub proof fn lemma_removed_row_is_gone(rows: Seq<JobEntryView>, id: Seq<char>)
    ensures
        row_of(rows_without(rows, id), id) is None,
    decreases rows.len(),
{
    reveal(Seq::filter);
    if rows.len() > 0 {
        lemma_removed_row_is_gone(rows.drop_last(), id);
        if rows.last().id != id {
            let kept = rows_without(rows.drop_last(), id).push(rows.last());
            assert(rows_without(rows, id) == kept);
            assert(kept.drop_last() =~= rows_without(rows.drop_last(), id));
        }
    }
}

/// To remove a row changes nothing where no row has the identifier.
pub proof fn lemma_remove_absent(rows: Seq<JobEntryView>, id: Seq<char>)
    requires
        row_of(rows, id) is None,
    ensures
        rows_without(rows, id) == rows,
    decreases rows.len(),
{
    reveal(Seq::filter);
    if rows.len() > 0 {
        lemma_remove_absent(rows.drop_last(), id);
        assert(rows.drop_last().push(rows.last()) =~= rows);
    }
}

/// A result is handed out once. After a request for the result under an
/// identifier, which removes its row, any further request under that
/// identifier is answered with the status 404, in either form and whatever the
/// caller found in the workspace.
pub proof fn law_retrieval_is_single_use(
    rows: Seq<JobEntryView>,
    id: Seq<char>,
    listing: Option<Seq<OutputEntryView>>,
    archive: Option<Seq<u8>>,
)
    ensures
        retrieved_json(rows_without(rows, id), id, listing) == Err::<Seq<char>, RetrieveError>(
            RetrieveError::NotFound,
        ),
        json_reply(retrieved_json(rows_without(rows, id), id, listing)) == ReplyView::Status(
            NOT_FOUND,
        ),
        archive_reply(row_of(rows_without(rows, id), id) is Some, archive) == ReplyView::Status(
            NOT_FOUND,
        ),
{
    lemma_removed_row_is_gone(rows, id);
}

/// To fetch a result twice succeeds, then fails: where a result is recorded
/// under an identifier and its output can be packed, the first request hands
/// out its document, and the second, which finds the ledger as the first left
/// it, is answered with `NotFound`.
pub proof fn law_second_retrieval_finds_nothing(
    rows: Seq<JobEntryView>,
    id: Seq<char>,
    entries: Seq<OutputEntryView>,
)
    requires
        row_of(rows, id) is Some,
        records_of(entries) is Ok,
    ensures
        retrieved_json(rows, id, Some(entries)) == Ok::<Seq<char>, RetrieveError>(
            json_text(document_tree(log_text(row_of(rows, id)->Some_0), records_of(entries)->Ok_0)),
        ),
        retrieved_json(rows_without(rows, id), id, Some(entries)) == Err::<
            Seq<char>,
            RetrieveError,
        >(RetrieveError::NotFound),
{
    lemma_removed_row_is_gone(rows, id);
}

/// To remove a row a second time is no error and changes nothing: the first
/// removal left no row under the identifier, and the ledger that the second
/// leaves is the one that it found.
pub proof fn law_delete_is_idempotent(rows: Seq<JobEntryView>, id: Seq<char>)
    ensures
        row_of(rows_without(rows, id), id) is None,
        rows_without(rows_without(rows, id), id) == rows_without(rows, id),
{
    lemma_removed_row_is_gone(rows, id);
    lemma_remove_absent(rows_without(rows, id), id);
}

/// Where no row has an identifier, none is found under it.
proof fn lemma_row_of_absent(rows: Seq<JobEntryView>, id: Seq<char>)
    requires
        forall|i: int| 0 <= i < rows.len() ==> (#[trigger] rows[i]).id != id,
    ensures
        row_of(rows, id) is None,
    decreases rows.len(),
{
    if rows.len() > 0 {
        assert(rows[rows.len() - 1].id != id);
        assert forall|i: int| 0 <= i < rows.drop_last().len() implies (#[trigger] rows.drop_last()[i]).id
            != id by {
            assert(rows.drop_last()[i] == rows[i]);
        }
        lemma_row_of_absent(rows.drop_last(), id);
    }
}

/// What is found under an identifier among the rows that a test picks out of a
/// ledger: the row that the ledger holds under it, if that row passes the test.
proof fn lemma_row_of_filter(
    rows: Seq<JobEntryView>,
    test: spec_fn(JobEntryView) -> bool,
    id: Seq<char>,
)
    requires
        distinct_ids(rows),
    ensures
        row_of(rows.filter(test), id) == match row_of(rows, id) {
            Some(row) => if test(row) {
                Some(row)
            } else {
                None
            },
            None => None,
        },
    decreases rows.len(),
{
    reveal(Seq::filter);
    if rows.len() > 0 {
        let front = rows.drop_last();
        let last = rows.last();
        assert(last == rows[rows.len() - 1]);
        assert forall|i: int, j: int| 0 <= i < j < front.len() implies front[i].id
            != front[j].id by {
            assert(front[i] == rows[i]);
            assert(front[j] == rows[j]);
        }
        lemma_row_of_filter(front, test, id);
        if test(last) {
            let picked = front.filter(test).push(last);
            assert(rows.filter(test) == picked);
            assert(picked.drop_last() =~= front.filter(test));
            assert(picked.last() == last);
        }
        if last.id == id {
            assert forall|i: int| 0 <= i < front.len() implies (#[trigger] front[i]).id != id by {
                assert(front[i] == rows[i]);
            }
            lemma_row_of_absent(front, id);
        }
    }
}

/// The reaper in terms of what can be fetched afterwards: a result that had
/// expired is found no more, and every other result is found as before.
pub proof fn law_reaper_ends_the_expired_only(rows: Seq<JobEntryView>, now: u64, id: Seq<char>)
    requires
        distinct_ids(rows),
    ensures
        row_of(live_rows(rows, now), id) == match row_of(rows, id) {
            Some(row) => if is_expired(row, now) {
                None
            } else {
                Some(row)
            },
            None => None,
        },
{
    lemma_row_of_filter(rows, |row: JobEntryView| !is_expired(row, now), id);
}

/// To remove a row leaves every other row to be found as before.
pub proof fn law_delete_leaves_the_others(rows: Seq<JobEntryView>, id: Seq<char>, other: Seq<char>)
    requires
        distinct_ids(rows),
        other != id,
    ensures
        row_of(rows_without(rows, id), other) == row_of(rows, other),
{
    lemma_row_of_filter(rows, |row: JobEntryView| row.id != id, other);
    lemma_row_of_some(rows, other);
}

/// A row is among those that a test picks out of a list exactly if it is in
/// the list and passes the test.
proof fn lemma_filter_contains(
    rows: Seq<JobEntryView>,
    test: spec_fn(JobEntryView) -> bool,
    row: JobEntryView,
)
    ensures
        rows.filter(test).contains(row) <==> rows.contains(row) && test(row),
    decreases rows.len(),
{
    reveal(Seq::filter);
    if rows.len() > 0 {
        let front = rows.drop_last();
        lemma_filter_contains(front, test, row);
        if rows.contains(row) {
            let i = choose|i: int| 0 <= i < rows.len() && rows[i] == row;
            if i < rows.len() - 1 {
                assert(front[i] == row);
            }
        }
        if front.contains(row) {
            let i = choose|i: int| 0 <= i < front.len() && front[i] == row;
            assert(rows[i] == row);
        }
        assert(rows[rows.len() - 1] == rows.last());
        if test(rows.last()) {
            let picked = front.filter(test).push(rows.last());
            assert(rows.filter(test) == picked);
            if front.filter(test).contains(row) {
                let i = choose|i: int|
                    0 <= i < front.filter(test).len() && front.filter(test)[i] == row;
                assert(picked[i] == row);
            }
            assert(picked[picked.len() - 1] == rows.last());
            if picked.contains(row) {
                let i = choose|i: int| 0 <= i < picked.len() && picked[i] == row;
                if i < picked.len() - 1 {
                    assert(front.filter(test)[i] == row);
                }
            }
        }
    }
}

/// The reaper takes the rows that are older than the time to live, and no
/// others: a row is reclaimed exactly if it was in the ledger and had expired,
/// and it stays exactly if it was in the ledger and had not expired. A row made
/// exactly the time to live ago stays.
pub proof fn law_reaper_takes_the_expired_only(
    rows: Seq<JobEntryView>,
    now: u64,
    row: JobEntryView,
)
    ensures
        expired_rows(rows, now).contains(row) <==> rows.contains(row) && row.created_at < now
            - 300,
        live_rows(rows, now).contains(row) <==> rows.contains(row) && row.created_at >= now - 300,
{
    lemma_filter_contains(rows, |row: JobEntryView| is_expired(row, now), row);
    lemma_filter_contains(rows, |row: JobEntryView| !is_expired(row, now), row);
}

/// The workspace is mounted by one argument, whatever its path holds: where
/// a batch has a plan, the mount is among the plan's arguments, behind the
/// words of the command line's beginning.
pub proof fn law_mount_is_one_argument(
    files: Seq<FileView>,
    kind: FileType,
    workspace: Seq<char>,
    head: Option<Seq<Seq<char>>>,
    tail: Option<Seq<Seq<char>>>,
)
    requires
        planned(files, workspace, converter_words(kind, workspace, head, tail)) is Ok,
    ensures
        head is Some,
        ({
            let arguments = planned(
                files,
                workspace,
                converter_words(kind, workspace, head, tail),
            )->Ok_0.arguments;
            arguments[head->Some_0.len() as int] == mount_of(kind, workspace)
        }),
{
    lemma_mount_is_one_argument(kind, workspace, head, tail);
}

/// What is written for a batch comes to lie in its workspace, each file in a
/// place of its own: the path of every planned write is the workspace, a slash,
/// and the plain name of the file, and no two planned writes have one path.
pub proof fn law_writes_stay_in_the_workspace(
    files: Seq<FileView>,
    workspace: Seq<char>,
    words: Option<Seq<Seq<char>>>,
)
    requires
        planned(files, workspace, words) is Ok,
    ensures
        planned(files, workspace, words)->Ok_0.writes.len() == files.len(),
        forall|i: int|
            0 <= i < files.len() ==> {
                let write = #[trigger] planned(files, workspace, words)->Ok_0.writes[i];
                &&& write.path == workspace + "/"@ + files[i].file_name
                &&& is_plain_name(files[i].file_name)
                &&& write.content == files[i].file_content
            },
        forall|i: int, j: int|
            0 <= i < j < files.len() ==> planned(files, workspace, words)->Ok_0.writes[i].path
                != planned(files, workspace, words)->Ok_0.writes[j].path,
{
    let writes = planned(files, workspace, words)->Ok_0.writes;
    let stem = workspace + "/"@;
    assert forall|i: int, j: int| 0 <= i < j < files.len() implies writes[i].path
        != writes[j].path by {
        let a = files[i].file_name;
        let b = files[j].file_name;
        assert((stem + a).subrange(stem.len() as int, (stem + a).len() as int) =~= a);
        assert((stem + b).subrange(stem.len() as int, (stem + b).len() as int) =~= b);
    }
}

/// Two batches that are converted in different workspaces share no file: no
/// planned write of the one has the path of a planned write of the other.
pub proof fn law_batches_do_not_share_files(
    files: Seq<FileView>,
    workspace: Seq<char>,
    words: Option<Seq<Seq<char>>>,
    other_files: Seq<FileView>,
    other_workspace: Seq<char>,
    other_words: Option<Seq<Seq<char>>>,
)
    requires
        planned(files, workspace, words) is Ok,
        planned(other_files, other_workspace, other_words) is Ok,
        workspace != other_workspace,
    ensures
        forall|i: int, j: int|
            0 <= i < files.len() && 0 <= j < other_files.len() ==> planned(
                files,
                workspace,
                words,
            )->Ok_0.writes[i].path != planned(
                other_files,
                other_workspace,
                other_words,
            )->Ok_0.writes[j].path,
{
    assert forall|i: int, j: int| 0 <= i < files.len() && 0 <= j < other_files.len() implies planned(
        files,
        workspace,
        words,
    )->Ok_0.writes[i].path != planned(other_files, other_workspace, other_words)->Ok_0.writes[j].path by {
        if target_path(workspace, files[i].file_name) == target_path(
            other_workspace,
            other_files[j].file_name,
        ) {
            lemma_place_tells_the_workspace(
                workspace,
                files[i].file_name,
                other_workspace,
                other_files[j].file_name,
            );
        }
    }
}

/// A place in a workspace is a place in no other: where the names are plain,
/// the same path comes of the same workspace only.
proof fn lemma_place_tells_the_workspace(
    workspace: Seq<char>,
    name: Seq<char>,
    other_workspace: Seq<char>,
    other_name: Seq<char>,
)
    requires
        is_plain_name(name),
        is_plain_name(other_name),
        target_path(workspace, name) == target_path(other_workspace, other_name),
    ensures
        workspace == other_workspace,
{
    let path = target_path(workspace, name);
    let other_path = target_path(other_workspace, other_name);
    reveal_strlit("/");
    assert(path.len() == workspace.len() + 1 + name.len());
    assert(other_path.len() == other_workspace.len() + 1 + other_name.len());
    assert(path[workspace.len() as int] == '/');
    assert(other_path[other_workspace.len() as int] == '/');
    if workspace.len() < other_workspace.len() {
        let k = other_workspace.len() - workspace.len() - 1;
        assert(name[k] == path[other_workspace.len() as int]);
        assert(name.contains('/'));
    } else if other_workspace.len() < workspace.len() {
        let k = workspace.len() - other_workspace.len() - 1;
        assert(other_name[k] == other_path[workspace.len() as int]);
        assert(other_name.contains('/'));
    } else {
        assert forall|k: int| 0 <= k < workspace.len() implies workspace[k]
            == other_workspace[k] by {
            assert(path[k] == workspace[k]);
            assert(other_path[k] == other_workspace[k]);
        }
        assert(workspace =~= other_workspace);
    }
}

/// Two results that are both in the ledger were recorded under different
/// identifiers: the second recording succeeds only where its identifier is not
/// that of a row, and the first result is such a row. Both are then found,
/// each under its own identifier.
pub proof fn law_recorded_identifiers_differ(
    rows: Seq<JobEntryView>,
    first: JobEntryView,
    second: JobEntryView,
)
    requires
        row_of(rows.push(first), second.id) is None,
    ensures
        first.id != second.id,
        row_of(rows.push(first).push(second), first.id) == Some(first),
        row_of(rows.push(first).push(second), second.id) == Some(second),
{
    let one = rows.push(first);
    let both = one.push(second);
    assert(both.drop_last() =~= one);
    assert(one.last() == first);
    assert(row_of(one, first.id) == Some(first));
    assert(row_of(both, first.id) == row_of(one, first.id));
}

} // verus!
