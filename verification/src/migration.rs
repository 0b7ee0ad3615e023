use crate::db_util::{
    add_migration_result_to_db, delete_db_entry, distinct_ids, is_identifier, row_of,
    rows_without, JobEntryView, Ledger,
};
use crate::files::{File, FileType, FileView};
use crate::reply::{Reply, ReplyView, INTERNAL_SERVER_ERROR, UNPROCESSABLE_ENTITY};
use crate::text::{characters, joined, same_text};
use vstd::prelude::*;

verus! {

/// The image that holds the converter.
pub const REGISTRY_URL: &'static str =
    "registry.opensuse.org/home/jcronenberg/migrate-wicked/containers/opensuse/wicked2nm:latest";

/// The words that `shlex::split` makes of a command line, or `None` where it
/// finds the line erroneous (an open quotation, a backslash at the end).
pub uninterp spec fn shell_words(line: Seq<char>) -> Option<Seq<Seq<char>>>;

/// Splits a command line into words as a POSIX shell would. This is
/// `shlex::split`, whose result depends on the line alone; nothing more is
/// claimed of it than that it is that result.
#[verifier::external_body]
fn split_command_line(line: &str) -> (words: Option<Vec<String>>)
    ensures
        match words {
            Some(list) => shell_words(line@) == Some(list.deep_view()),
            None => shell_words(line@) is None,
        },
{
    shlex::split(line)
}

/// How the command line that runs the converter begins, up to the mount. A
/// sysconfig directory is migrated where it stands, which two variables of the
/// environment ask for; any other input is converted as a directory.
pub open spec fn command_head(kind: FileType) -> Seq<char> {
    if kind == FileType::Sysconfig {
        "run -e \"W2NM_CONTINUE_MIGRATION=true\" -e \"W2NM_WITHOUT_NETCONFIG=true\" --rm -v"@
    } else {
        "run --rm -v"@
    }
}

/// The mount, which is one argument whatever the workspace's path holds: the
/// workspace, and behind a colon the place that it takes in the container. A
/// sysconfig directory takes the place of the system's own.
pub open spec fn mount_of(kind: FileType, workspace: Seq<char>) -> Seq<char> {
    if kind == FileType::Sysconfig {
        workspace + ":/etc/sysconfig/network:z"@
    } else {
        workspace + ":/migration-tmpdir:z"@
    }
}

/// How the command line that runs the converter goes on behind the mount: the
/// image and, but for a sysconfig directory, the script that converts the
/// mounted directory and copies the result back into it.
pub open spec fn command_tail(kind: FileType) -> Seq<char> {
    if kind == FileType::Sysconfig {
        REGISTRY_URL@
    } else {
        REGISTRY_URL@
            + " bash -c \"wicked2nm migrate -c --without-netconfig /migration-tmpdir/ && mkdir /migration-tmpdir/NM-migrated && cp -r /etc/NetworkManager/system-connections /migration-tmpdir/NM-migrated\""@
    }
}

/// The arguments that run the converter on a workspace, given the words of
/// the command line's beginning and of its end: the mount stands between them
/// as one argument. There are none where one of the two could not be split.
pub open spec fn converter_words(
    kind: FileType,
    workspace: Seq<char>,
    head: Option<Seq<Seq<char>>>,
    tail: Option<Seq<Seq<char>>>,
) -> Option<Seq<Seq<char>>> {
    match head {
        None => None,
        Some(before) => match tail {
            None => None,
            Some(behind) => Some(before.push(mount_of(kind, workspace)) + behind),
        },
    }
}

/// How the command line that runs the converter begins, up to the mount.
pub fn converter_command_head(kind: FileType) -> (line: String)
    ensures
        line@ == command_head(kind),
{
    if kind == FileType::Sysconfig {
        "run -e \"W2NM_CONTINUE_MIGRATION=true\" -e \"W2NM_WITHOUT_NETCONFIG=true\" --rm -v".to_owned()
    } else {
        "run --rm -v".to_owned()
    }
}

/// The mount of a workspace into the container, as one argument.
pub fn converter_mount(kind: FileType, workspace: &str) -> (mount: String)
    ensures
        mount@ == mount_of(kind, workspace@),
{
    if kind == FileType::Sysconfig {
        joined(workspace, ":/etc/sysconfig/network:z")
    } else {
        joined(workspace, ":/migration-tmpdir:z")
    }
}

/// How the command line that runs the converter goes on behind the mount.
pub fn converter_command_tail(kind: FileType) -> (line: String)
    ensures
        line@ == command_tail(kind),
{
    if kind == FileType::Sysconfig {
        REGISTRY_URL.to_owned()
    } else {
        joined(
            REGISTRY_URL,
            " bash -c \"wicked2nm migrate -c --without-netconfig /migration-tmpdir/ && mkdir /migration-tmpdir/NM-migrated && cp -r /etc/NetworkManager/system-connections /migration-tmpdir/NM-migrated\"",
        )
    }
}

/// Puts the arguments together that run the converter on a workspace, given
/// the words of the command line's beginning and of its end: the words of the
/// beginning, the mount as one argument, the words of the end. Gives none
/// where one of the two could not be split.
pub fn converter_arguments(
    kind: FileType,
    workspace: &str,
    head: Option<Vec<String>>,
    tail: Option<Vec<String>>,
) -> (arguments: Option<Vec<String>>)
    ensures
        words_of(arguments) == converter_words(kind, workspace@, words_of(head), words_of(tail)),
{
    let mut arguments = match head {
        Some(before) => before,
        None => {
            return None;
        },
    };
    let mut behind = match tail {
        Some(behind) => behind,
        None => {
            return None;
        },
    };
    let ghost before = arguments.deep_view();
    let ghost after = behind.deep_view();
    let mount = converter_mount(kind, workspace);
    arguments.push(mount);
    assert(arguments.deep_view() =~= before.push(mount_of(kind, workspace@)));
    arguments.append(&mut behind);
    assert(arguments.deep_view() =~= before.push(mount_of(kind, workspace@)) + after);
    Some(arguments)
}

/// The program that runs the converter's image.
pub const CONTAINER_RUNTIME: &'static str = "podman";

/// The command line that fetches the newest image of the converter.
pub open spec fn pull_command_line() -> Seq<char> {
    "pull "@ + REGISTRY_URL@
}

/// The kinds of failure that are the server's own.
#[derive(PartialEq, Eq, Structural, Clone, Copy, Debug)]
pub enum ServerFault {
    /// The converter could not be started.
    ExecutorError,
    /// The result could not be recorded.
    PersistenceError,
    /// A file could not be written into the workspace.
    IOFailure,
}

impl ServerFault {
    /// The text that describes the failure in the server's log.
    pub open spec fn message_text(self) -> Seq<char> {
        match self {
            ServerFault::ExecutorError => "The converter could not be started"@,
            ServerFault::PersistenceError => "The result could not be recorded"@,
            ServerFault::IOFailure => "A file could not be written into the workspace"@,
        }
    }

    /// The text that describes the failure in the server's log.
    pub fn message(&self) -> (text: String)
        ensures
            text@ == self.message_text(),
    {
        match self {
            ServerFault::ExecutorError => "The converter could not be started".to_owned(),
            ServerFault::PersistenceError => "The result could not be recorded".to_owned(),
            ServerFault::IOFailure => "A file could not be written into the workspace".to_owned(),
        }
    }
}

/// Why a submission gives no result.
#[derive(Debug, PartialEq, Eq)]
pub enum MigrateError {
    /// The server failed; the text is for its log.
    ServerError(String),
    /// The converter rejected the input; the text is its report.
    MigrationError(String),
}

/// What a `MigrateError` holds.
pub enum MigrateErrorView {
    ServerError(Seq<char>),
    MigrationError(Seq<char>),
}

impl View for MigrateError {
    type V = MigrateErrorView;

    open spec fn view(&self) -> MigrateErrorView {
        match self {
            MigrateError::ServerError(text) => MigrateErrorView::ServerError(text@),
            MigrateError::MigrationError(text) => MigrateErrorView::MigrationError(text@),
        }
    }
}

impl MigrateErrorView {
    /// The error that a failure of the server's own gives.
    pub open spec fn of_fault(fault: ServerFault) -> MigrateErrorView {
        MigrateErrorView::ServerError(fault.message_text())
    }

    /// The text that describes the error.
    pub open spec fn message_text(self) -> Seq<char> {
        match self {
            MigrateErrorView::ServerError(text) => "Server error: '"@ + text + "'"@,
            MigrateErrorView::MigrationError(text) => "Failed to migrate files: '"@ + text + "'"@,
        }
    }

    /// The answer that the error gives: a rejection by the converter is
    /// reported with the converter's own words, a failure of the server with
    /// its status alone.
    pub open spec fn response(self) -> ReplyView {
        match self {
            MigrateErrorView::MigrationError(text) => ReplyView::Text {
                status: UNPROCESSABLE_ENTITY,
                body: text,
            },
            MigrateErrorView::ServerError(_) => ReplyView::Status(INTERNAL_SERVER_ERROR),
        }
    }
}

impl MigrateError {
    /// The error that a failure of the server's own gives.
    pub fn of_fault(fault: ServerFault) -> (error: MigrateError)
        ensures
            error@ == MigrateErrorView::of_fault(fault),
    {
        MigrateError::ServerError(fault.message())
    }

    /// The text that describes the error.
    pub fn message(&self) -> (text: String)
        ensures
            text@ == self@.message_text(),
    {
        match self {
            MigrateError::ServerError(detail) => {
                let mut text = joined("Server error: '", detail.as_str());
                text.append("'");
                text
            },
            MigrateError::MigrationError(detail) => {
                let mut text = joined("Failed to migrate files: '", detail.as_str());
                text.append("'");
                text
            },
        }
    }

    /// The answer that the error gives to the client: the converter's report
    /// under the status 422, or the bare status 500.
    pub fn into_response(self) -> (reply: Reply)
        ensures
            reply@ == self@.response(),
    {
        match self {
            MigrateError::MigrationError(e) => Reply::Text {
                status: UNPROCESSABLE_ENTITY,
                body: e,
            },
            MigrateError::ServerError(_) => Reply::Status(INTERNAL_SERVER_ERROR),
        }
    }
}

/// How a run of the converter ended: what it wrote to its error stream, and
/// whether it left with the status zero.
#[derive(Debug, PartialEq, Eq)]
pub struct ExecutionResult {
    pub log: String,
    pub succeeded: bool,
}

/// One file to write before the converter runs.
#[derive(Debug, PartialEq, Eq)]
pub struct PlannedWrite {
    pub path: String,
    pub content: String,
}

/// What a `PlannedWrite` holds.
pub struct PlannedWriteView {
    pub path: Seq<char>,
    pub content: Seq<char>,
}

impl View for PlannedWrite {
    type V = PlannedWriteView;

    open spec fn view(&self) -> PlannedWriteView {
        PlannedWriteView { path: self.path@, content: self.content@ }
    }
}

impl DeepView for PlannedWrite {
    type V = PlannedWriteView;

    open spec fn deep_view(&self) -> PlannedWriteView {
        self@
    }
}

/// What is to be done to convert a batch: the files to write into the
/// workspace, none of them there before, and the arguments with which the
/// container runtime is then started.
#[derive(Debug, PartialEq, Eq)]
pub struct Invocation {
    pub writes: Vec<PlannedWrite>,
    pub arguments: Vec<String>,
}

/// What an `Invocation` holds.
pub struct InvocationView {
    pub writes: Seq<PlannedWriteView>,
    pub arguments: Seq<Seq<char>>,
}

impl View for Invocation {
    type V = InvocationView;

    open spec fn view(&self) -> InvocationView {
        InvocationView { writes: self.writes.deep_view(), arguments: self.arguments.deep_view() }
    }
}

/// The name is one that a file can have in a directory: it is not empty, holds
/// no slash, and is neither `.` nor `..`.
pub open spec fn is_plain_name(name: Seq<char>) -> bool {
    name.len() > 0 && !name.contains('/') && name != "."@ && name != ".."@
}

/// Every file of the batch has a name that a file can have in a directory.
pub open spec fn plain_names(files: Seq<FileView>) -> bool {
    forall|i: int| 0 <= i < files.len() ==> is_plain_name((#[trigger] files[i]).file_name)
}

/// No two files of the batch have the same name.
pub open spec fn distinct_names(files: Seq<FileView>) -> bool {
    forall|i: int, j: int| 0 <= i < j < files.len() ==> files[i].file_name != files[j].file_name
}

/// The place of a file in a workspace.
pub open spec fn target_path(workspace: Seq<char>, file_name: Seq<char>) -> Seq<char> {
    workspace + "/"@ + file_name
}

/// The writes that put a batch into a workspace, in the order of its files.
pub open spec fn planned_writes(files: Seq<FileView>, workspace: Seq<char>) -> Seq<
    PlannedWriteView,
> {
    Seq::new(
        files.len(),
        |i: int|
            PlannedWriteView {
                path: target_path(workspace, files[i].file_name),
                content: files[i].file_content,
            },
    )
}

/// The words of a command line as they came from the splitting, by their characters.
pub open spec fn words_of(words: Option<Vec<String>>) -> Option<Seq<Seq<char>>> {
    match words {
        Some(list) => Some(list.deep_view()),
        None => None,
    }
}

/// What is to be done to convert a batch in a workspace, given the words of the
/// converter's command line. A file whose name is no plain name would not come
/// to lie in the workspace, and two files of one name would be written to one
/// place: both are `IOFailure`. A command line that could not be split into
/// words is `ExecutorError`.
pub open spec fn planned(
    files: Seq<FileView>,
    workspace: Seq<char>,
    words: Option<Seq<Seq<char>>>,
) -> Result<InvocationView, ServerFault> {
    if !plain_names(files) || !distinct_names(files) {
        Err(ServerFault::IOFailure)
    } else {
        match words {
            None => Err(ServerFault::ExecutorError),
            Some(arguments) => Ok(
                InvocationView { writes: planned_writes(files, workspace), arguments },
            ),
        }
    }
}

/// Tells whether a name is one that a file can have in a directory.
pub fn has_plain_name(name: &str) -> (b: bool)
    ensures
        b == is_plain_name(name@),
{
    if same_text(name, ".") || same_text(name, "..") {
        return false;
    }
    let letters = characters(name);
    let mut i: usize = 0;
    while i < letters.len()
        invariant
            i <= letters.len(),
            letters@ == name@,
            forall|k: int| 0 <= k < i ==> name@[k] != '/',
        decreases letters.len() - i,
    {
        if letters[i] == '/' {
            assert(name@[i as int] == '/');
            return false;
        }
        i += 1;
    }
    letters.len() > 0
}

/// Tells whether every file of the batch has a name that a file can have in a directory.
pub fn has_plain_names(files: &Vec<File>) -> (b: bool)
    ensures
        b == plain_names(files.deep_view()),
{
    let mut i: usize = 0;
    while i < files.len()
        invariant
            i <= files.len(),
            forall|k: int|
                0 <= k < i ==> is_plain_name((#[trigger] files.deep_view()[k]).file_name),
        decreases files.len() - i,
    {
        if !has_plain_name(files[i].file_name.as_str()) {
            assert(!is_plain_name(files.deep_view()[i as int].file_name));
            return false;
        }
        i += 1;
    }
    true
}

/// Tells whether no two files of the batch have the same name.
pub fn has_distinct_names(files: &Vec<File>) -> (b: bool)
    ensures
        b == distinct_names(files.deep_view()),
{
    let mut j: usize = 0;
    while j < files.len()
        invariant
            j <= files.len(),
            forall|a: int, b: int|
                0 <= a < b < j ==> (#[trigger] files.deep_view()[a]).file_name != (
                #[trigger] files.deep_view()[b]).file_name,
        decreases files.len() - j,
    {
        let mut i: usize = 0;
        while i < j
            invariant
                i <= j < files.len(),
                forall|a: int|
                    0 <= a < i ==> (#[trigger] files.deep_view()[a]).file_name
                        != files.deep_view()[j as int].file_name,
            decreases j - i,
        {
            if same_text(files[i].file_name.as_str(), files[j].file_name.as_str()) {
                assert(files.deep_view()[i as int].file_name
                    == files.deep_view()[j as int].file_name);
                return false;
            }
            i += 1;
        }
        j += 1;
    }
    true
}

/// Lays out the conversion of a batch in a workspace, given the words of the
/// converter's command line: the files to write, then the arguments to start
/// the container runtime with. Fails as a server error where a file's name is
/// no plain name or two files have one name (`IOFailure`), or the command line
/// could not be split into words (`ExecutorError`).
pub fn plan_migration(
    files: &Vec<File>,
    migration_target_path: &str,
    words: Option<Vec<String>>,
) -> (plan: Result<Invocation, MigrateError>)
    ensures
        match planned(files.deep_view(), migration_target_path@, words_of(words)) {
            Ok(expected) => plan matches Ok(found) && found@ == expected,
            Err(fault) => plan matches Err(e) && e@ == MigrateErrorView::of_fault(fault),
        },
{
    if !has_plain_names(files) || !has_distinct_names(files) {
        return Err(MigrateError::of_fault(ServerFault::IOFailure));
    }
    let arguments = match words {
        Some(arguments) => arguments,
        None => {
            return Err(MigrateError::of_fault(ServerFault::ExecutorError));
        },
    };
    let mut writes: Vec<PlannedWrite> = Vec::new();
    let mut i: usize = 0;
    assert(writes.deep_view() =~= planned_writes(
        files.deep_view().take(0),
        migration_target_path@,
    ));
    while i < files.len()
        invariant
            i <= files.len(),
            writes.deep_view() == planned_writes(
                files.deep_view().take(i as int),
                migration_target_path@,
            ),
        decreases files.len() - i,
    {
        let mut path = joined(migration_target_path, "/");
        path.append(files[i].file_name.as_str());
        let ghost before = writes.deep_view();
        let ghost added = PlannedWriteView {
            path: target_path(migration_target_path@, files.deep_view()[i as int].file_name),
            content: files.deep_view()[i as int].file_content,
        };
        let write = PlannedWrite { path, content: files[i].file_content.clone() };
        assert(write@ == added);
        writes.push(write);
        assert(writes.deep_view() =~= before.push(added));
        assert(writes.deep_view() =~= planned_writes(
            files.deep_view().take(i + 1),
            migration_target_path@,
        ));
        i += 1;
    }
    assert(files.deep_view().take(files.len() as int) =~= files.deep_view());
    Ok(Invocation { writes, arguments })
}

/// Lays out the conversion of a batch in a workspace: the files to write, then
/// the arguments to start the container runtime with. The arguments are the
/// words of the command line for the kind of the batch's first file, with the
/// mount of the workspace among them as one argument, whatever its path holds.
/// Fails as a server error where a file's name is no plain name or two files
/// have one name (`IOFailure`), or the command line cannot be split
/// (`ExecutorError`).
pub fn migrate_files(files: &Vec<File>, migration_target_path: &str) -> (plan: Result<
    Invocation,
    MigrateError,
>)
    requires
        files.len() > 0,
    ensures
        match planned(
            files.deep_view(),
            migration_target_path@,
            converter_words(
                files[0].file_type,
                migration_target_path@,
                shell_words(command_head(files[0].file_type)),
                shell_words(command_tail(files[0].file_type)),
            ),
        ) {
            Ok(expected) => plan matches Ok(found) && found@ == expected,
            Err(fault) => plan matches Err(e) && e@ == MigrateErrorView::of_fault(fault),
        },
        plan matches Ok(found) ==> found@.arguments.contains(
            mount_of(files[0].file_type, migration_target_path@),
        ),
{
    let kind = files[0].file_type;
    let head = split_command_line(converter_command_head(kind).as_str());
    let tail = split_command_line(converter_command_tail(kind).as_str());
    let words = converter_arguments(kind, migration_target_path, head, tail);
    proof {
        lemma_mount_is_one_argument(
            kind,
            migration_target_path@,
            shell_words(command_head(kind)),
            shell_words(command_tail(kind)),
        );
    }
    plan_migration(files, migration_target_path, words)
}

/// The mount is one of the arguments that run the converter, wherever there
/// are arguments at all: it stands behind the words of the beginning.
pub proof fn lemma_mount_is_one_argument(
    kind: FileType,
    workspace: Seq<char>,
    head: Option<Seq<Seq<char>>>,
    tail: Option<Seq<Seq<char>>>,
)
    ensures
        converter_words(kind, workspace, head, tail) matches Some(arguments) ==> {
            &&& head is Some
            &&& tail is Some
            &&& arguments.len() == head->Some_0.len() + 1 + tail->Some_0.len()
            &&& arguments[head->Some_0.len() as int] == mount_of(kind, workspace)
            &&& arguments.contains(mount_of(kind, workspace))
        },
{
    if converter_words(kind, workspace, head, tail) is Some {
        let arguments = converter_words(kind, workspace, head, tail)->Some_0;
        assert(arguments[head->Some_0.len() as int] == mount_of(kind, workspace));
    }
}

/// The arguments with which the container runtime fetches the newest image of
/// the converter, or `None` where the command line cannot be split.
pub fn pull_arguments() -> (arguments: Option<Vec<String>>)
    ensures
        words_of(arguments) == shell_words(pull_command_line()),
{
    let line = joined("pull ", REGISTRY_URL);
    split_command_line(line.as_str())
}

/// Judges an attempt to fetch the newest image: it failed, with what the
/// runtime reported, unless the runtime left with the status zero.
pub fn pull_latest_migration_image(attempt: ExecutionResult) -> (pulled: Result<(), String>)
    ensures
        attempt.succeeded ==> pulled is Ok,
        !attempt.succeeded ==> (pulled matches Err(report) && report@ == attempt.log@),
{
    if !attempt.succeeded {
        return Err(attempt.log);
    }
    Ok(())
}

/// How a submission ended: the identifier of its result or the error, and the
/// workspace to remove where no result was recorded.
#[derive(Debug, PartialEq, Eq)]
pub struct Settlement {
    pub outcome: Result<String, MigrateError>,
    pub abandoned: Option<String>,
}

/// Settles a submission after the converter was started on its workspace.
///
/// Where the converter could not be started (`launch` holds what went wrong)
/// the outcome is a server error with that text. Where it left with a status
/// other than zero the outcome is `MigrationError` with its report. In both
/// cases the ledger stays as it is. Otherwise the result is recorded under a
/// new identifier with the time `now`, and the outcome is that identifier;
/// only where the new identifier is that of a row does this fail, as a server
/// error (`PersistenceError`), and the ledger stays as it is.
///
/// The workspace is abandoned, for the caller to remove, exactly where the
/// outcome is an error.
pub fn migrate(
    launch: Result<ExecutionResult, String>,
    workspace: String,
    now: u64,
    database: &mut Ledger,
) -> (settled: Settlement)
    ensures
        match launch {
            Err(detail) => {
                &&& settled.outcome matches Err(e) && e@ == MigrateErrorView::ServerError(detail@)
                &&& final(database)@ == old(database)@
            },
            Ok(result) => if !result.succeeded {
                &&& settled.outcome matches Err(e) && e@ == MigrateErrorView::MigrationError(
                    result.log@,
                )
                &&& final(database)@ == old(database)@
            } else {
                match settled.outcome {
                    Ok(id) => {
                        &&& is_identifier(id@)
                        &&& row_of(old(database)@, id@) is None
                        &&& final(database)@ == old(database)@.push(
                            JobEntryView {
                                id: id@,
                                workspace_path: workspace@,
                                log: Some(result.log@),
                                created_at: now,
                            },
                        )
                    },
                    Err(e) => {
                        &&& e@ == MigrateErrorView::of_fault(ServerFault::PersistenceError)
                        &&& final(database)@ == old(database)@
                        &&& exists|i: int|
                            0 <= i < old(database)@.len() && is_identifier(
                                #[trigger] old(database)@[i].id,
                            )
                    },
                }
            },
        },
        match settled.abandoned {
            Some(path) => settled.outcome is Err && path@ == workspace@,
            None => settled.outcome is Ok,
        },
        distinct_ids(final(database)@),
{
    let output = match launch {
        Ok(output) => output,
        Err(detail) => {
            proof {
                use_type_invariant(&*database);
                database.lemma_distinct();
            }
            return Settlement {
                outcome: Err(MigrateError::ServerError(detail)),
                abandoned: Some(workspace),
            };
        },
    };
    if !output.succeeded {
        proof {
            use_type_invariant(&*database);
            database.lemma_distinct();
        }
        return Settlement {
            outcome: Err(MigrateError::MigrationError(output.log)),
            abandoned: Some(workspace),
        };
    }
    match add_migration_result_to_db(workspace.clone(), output.log, now, database) {
        Ok(uuid) => Settlement { outcome: Ok(uuid), abandoned: None },
        Err(_) => Settlement {
            outcome: Err(MigrateError::of_fault(ServerFault::PersistenceError)),
            abandoned: Some(workspace),
        },
    }
}

/// Takes back the recording of a result that could not be kept, as when the
/// database file refuses its row: the row leaves the ledger, its workspace is
/// abandoned, and the outcome is a server error (`PersistenceError`).
pub fn revoke(uuid: &str, database: &mut Ledger) -> (settled: Settlement)
    ensures
        final(database)@ == rows_without(old(database)@, uuid@),
        settled.outcome matches Err(e) && e@ == MigrateErrorView::of_fault(
            ServerFault::PersistenceError,
        ),
        match row_of(old(database)@, uuid@) {
            Some(row) => settled.abandoned matches Some(path) && path@ == row.workspace_path,
            None => settled.abandoned is None,
        },
        distinct_ids(final(database)@),
{
    let abandoned = delete_db_entry(uuid, database);
    Settlement { outcome: Err(MigrateError::of_fault(ServerFault::PersistenceError)), abandoned }
}

} // verus!
