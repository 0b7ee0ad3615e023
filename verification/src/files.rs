use crate::migration::ExecutionResult;
use crate::text::{
    characters, ends_with, has_prefix, has_suffix, joined, matches_at, same_text, starts_with,
};
use vstd::prelude::*;

verus! {

/// The kinds of configuration file that the converter knows.
#[derive(PartialEq, Eq, Structural, Clone, Copy, Debug)]
pub enum FileType {
    /// A single-file export of the legacy configuration.
    Xml,
    /// One file of a legacy sysconfig directory (interfaces, routes, global settings).
    Sysconfig,
    /// A connection profile in the target format.
    NMconnection,
}

/// Why a submitted file or batch is turned away before any work is done.
#[derive(Debug, PartialEq, Eq)]
pub enum ValidationError {
    /// No rule matches the text, which is kept for the report.
    UnrecognizedType(String),
    /// The batch holds files of more than one kind.
    MixedTypes,
    /// A form part came without a declared content type.
    MissingType,
    /// A form part came without a file name.
    MissingFileName,
    /// The body of a form part could not be read; the text says why.
    UnreadableBody(String),
    /// The form has no part, so that there is nothing to convert.
    NoFiles,
}

/// What a `ValidationError` holds.
pub enum ValidationErrorView {
    UnrecognizedType(Seq<char>),
    MixedTypes,
    MissingType,
    MissingFileName,
    UnreadableBody(Seq<char>),
    NoFiles,
}

impl View for ValidationError {
    type V = ValidationErrorView;

    open spec fn view(&self) -> ValidationErrorView {
        match self {
            ValidationError::UnrecognizedType(text) => ValidationErrorView::UnrecognizedType(text@),
            ValidationError::MixedTypes => ValidationErrorView::MixedTypes,
            ValidationError::MissingType => ValidationErrorView::MissingType,
            ValidationError::MissingFileName => ValidationErrorView::MissingFileName,
            ValidationError::UnreadableBody(text) => ValidationErrorView::UnreadableBody(text@),
            ValidationError::NoFiles => ValidationErrorView::NoFiles,
        }
    }
}

impl ValidationErrorView {
    /// The text that reports this error to the client.
    pub open spec fn message_text(self) -> Seq<char> {
        match self {
            ValidationErrorView::UnrecognizedType(name) => "File type of "@ + name
                + " not recognized or supported"@,
            ValidationErrorView::MixedTypes => {
                "File types not uniform, please dont mix ifcfg and .xml files"@
            },
            ValidationErrorView::MissingType => "Type missing in multipart/form data"@,
            ValidationErrorView::MissingFileName => {
                "file name field missing in multipart/form data"@
            },
            ValidationErrorView::UnreadableBody(detail) => detail,
            ValidationErrorView::NoFiles => "No file in multipart/form data"@,
        }
    }
}

/// Why the converter's output cannot be handed out.
#[derive(PartialEq, Eq, Structural, Clone, Copy, Debug)]
pub enum PackagingError {
    /// The output subtree is absent.
    OutputMissing,
    /// An entry of the output has no extension to tell its kind by.
    PoorlyFormatted,
    /// An entry of the output is no connection profile.
    NotNmconnection,
    /// An entry of the output could not be read as text.
    Unreadable,
    /// The archiver left with a status other than zero.
    ArchiveFailed,
}

/// One file of a submission, or of a converted result.
#[derive(Debug, PartialEq, Eq)]
pub struct File {
    pub file_content: String,
    pub file_name: String,
    pub file_type: FileType,
}

/// What a `File` holds.
pub struct FileView {
    pub file_content: Seq<char>,
    pub file_name: Seq<char>,
    pub file_type: FileType,
}

impl View for File {
    type V = FileView;

    open spec fn view(&self) -> FileView {
        FileView {
            file_content: self.file_content@,
            file_name: self.file_name@,
            file_type: self.file_type,
        }
    }
}

impl DeepView for File {
    type V = FileView;

    open spec fn deep_view(&self) -> FileView {
        self@
    }
}

/// One entry of the directory in which the converter leaves its result:
/// its name, and its content where that could be read as text.
#[derive(Debug, PartialEq, Eq)]
pub struct OutputEntry {
    pub file_name: String,
    pub content: Option<String>,
}

/// What an `OutputEntry` holds.
pub struct OutputEntryView {
    pub file_name: Seq<char>,
    pub content: Option<Seq<char>>,
}

impl View for OutputEntry {
    type V = OutputEntryView;

    open spec fn view(&self) -> OutputEntryView {
        OutputEntryView {
            file_name: self.file_name@,
            content: match self.content {
                Some(text) => Some(text@),
                None => None,
            },
        }
    }
}

impl DeepView for OutputEntry {
    type V = OutputEntryView;

    open spec fn deep_view(&self) -> OutputEntryView {
        self@
    }
}

/// The kind that the rules give to a name, the first rule that matches deciding:
/// sysconfig files are known by the start of their name or by the whole of it,
/// connection profiles and exports by its end.
pub open spec fn kind_of_name(file_name: Seq<char>) -> Option<FileType> {
    if starts_with(file_name, "ifroute"@) {
        Some(FileType::Sysconfig)
    } else if starts_with(file_name, "ifcfg"@) {
        Some(FileType::Sysconfig)
    } else if file_name == "routes"@ {
        Some(FileType::Sysconfig)
    } else if file_name == "config"@ {
        Some(FileType::Sysconfig)
    } else if ends_with(file_name, ".nmconnection"@) {
        Some(FileType::NMconnection)
    } else if ends_with(file_name, ".xml"@) {
        Some(FileType::Xml)
    } else {
        None
    }
}

/// The kind of a form part: that of its declared type where a rule matches it,
/// else that of its file name.
pub open spec fn kind_of_part(declared_type: Seq<char>, file_name: Seq<char>) -> Option<FileType> {
    match kind_of_name(declared_type) {
        Some(kind) => Some(kind),
        None => kind_of_name(file_name),
    }
}

/// What the classifier answers for a text.
pub open spec fn classified(file_name: Seq<char>) -> Result<FileType, ValidationErrorView> {
    match kind_of_name(file_name) {
        Some(kind) => Ok(kind),
        None => Err(ValidationErrorView::UnrecognizedType(file_name)),
    }
}

/// What the classifier answers for a form part. The error names the file.
pub open spec fn classified_part(declared_type: Seq<char>, file_name: Seq<char>) -> Result<
    FileType,
    ValidationErrorView,
> {
    match kind_of_part(declared_type, file_name) {
        Some(kind) => Ok(kind),
        None => Err(ValidationErrorView::UnrecognizedType(file_name)),
    }
}

/// All files of the batch are of one kind.
pub open spec fn uniform(files: Seq<FileView>) -> bool {
    forall|i: int, j: int|
        0 <= i < files.len() && 0 <= j < files.len() ==> files[i].file_type == files[j].file_type
}

/// Position of the last `c` in `s`, or -1 where `s` holds none.
pub open spec fn last_index_of(s: Seq<char>, c: char) -> int
    decreases s.len(),
{
    if s.len() == 0 {
        -1
    } else if s.last() == c {
        s.len() - 1
    } else {
        last_index_of(s.drop_last(), c)
    }
}

/// The extension of a file name, which is one path component: what follows its
/// last dot. A name without a dot has none, nor has one whose only dot leads it,
/// nor has the parent directory's name.
pub open spec fn extension(file_name: Seq<char>) -> Option<Seq<char>> {
    let dot = last_index_of(file_name, '.');
    if dot <= 0 || file_name == ".."@ {
        None
    } else {
        Some(file_name.subrange(dot + 1, file_name.len() as int))
    }
}

/// The file that one entry of the output gives: a connection profile with the
/// entry's name and content. The name is looked at before the content.
pub open spec fn record_of(entry: OutputEntryView) -> Result<FileView, PackagingError> {
    match extension(entry.file_name) {
        None => Err(PackagingError::PoorlyFormatted),
        Some(ext) => if ext != "nmconnection"@ {
            Err(PackagingError::NotNmconnection)
        } else {
            match entry.content {
                None => Err(PackagingError::Unreadable),
                Some(text) => Ok(
                    FileView {
                        file_content: text,
                        file_name: entry.file_name,
                        file_type: FileType::NMconnection,
                    },
                ),
            }
        },
    }
}

/// The files that the entries of the output give, in their order; where some
/// entry gives none, the error of the first such entry.
pub open spec fn records_of(entries: Seq<OutputEntryView>) -> Result<Seq<FileView>, PackagingError>
    decreases entries.len(),
{
    if entries.len() == 0 {
        Ok(Seq::empty())
    } else {
        match records_of(entries.drop_last()) {
            Err(e) => Err(e),
            Ok(files) => match record_of(entries.last()) {
                Err(e) => Err(e),
                Ok(file) => Ok(files.push(file)),
            },
        }
    }
}

/// The program that packs an archive.
pub const ARCHIVER: &'static str = "tar";

/// How the name of an archive's file begins.
pub const ARCHIVE_PREFIX: &'static str = "nm-migrated.";

/// How the name of an archive's file ends.
pub const ARCHIVE_SUFFIX: &'static str = ".tar";

/// The directory, below a workspace, that the converter fills.
pub open spec fn output_dir_of(workspace: Seq<char>) -> Seq<char> {
    workspace + "/NM-migrated"@
}

/// The directory, below a workspace, that holds the converted connection profiles.
pub open spec fn connections_dir_of(workspace: Seq<char>) -> Seq<char> {
    workspace + "/NM-migrated/system-connections"@
}

/// The arguments with which `tar` packs the tree below `path` into `archive`.
pub open spec fn tar_arguments(path: Seq<char>, archive: Seq<char>) -> Seq<Seq<char>> {
    seq!["cf"@, archive, "-C"@, path, "."@]
}

impl ValidationError {
    /// The text that reports this error to the client.
    pub fn message(&self) -> (text: String)
        ensures
            text@ == self@.message_text(),
    {
        match self {
            ValidationError::UnrecognizedType(name) => {
                let mut text = joined("File type of ", name.as_str());
                text.append(" not recognized or supported");
                text
            },
            ValidationError::MixedTypes => {
                "File types not uniform, please dont mix ifcfg and .xml files".to_owned()
            },
            ValidationError::MissingType => "Type missing in multipart/form data".to_owned(),
            ValidationError::MissingFileName => {
                "file name field missing in multipart/form data".to_owned()
            },
            ValidationError::UnreadableBody(detail) => detail.clone(),
            ValidationError::NoFiles => "No file in multipart/form data".to_owned(),
        }
    }
}

impl PackagingError {
    /// The text that describes this error in the server's log.
    pub open spec fn message_text(self) -> Seq<char> {
        match self {
            PackagingError::OutputMissing => "The migration left no output"@,
            PackagingError::PoorlyFormatted => "The file path is poorly formatted"@,
            PackagingError::NotNmconnection => "The returned file is not of type nmconnection"@,
            PackagingError::Unreadable => "The returned file could not be read"@,
            PackagingError::ArchiveFailed => "The output could not be packed into an archive"@,
        }
    }

    /// The text that describes this error in the server's log.
    pub fn message(&self) -> (text: String)
        ensures
            text@ == self.message_text(),
    {
        match self {
            PackagingError::OutputMissing => "The migration left no output".to_owned(),
            PackagingError::PoorlyFormatted => "The file path is poorly formatted".to_owned(),
            PackagingError::NotNmconnection => {
                "The returned file is not of type nmconnection".to_owned()
            },
            PackagingError::Unreadable => "The returned file could not be read".to_owned(),
            PackagingError::ArchiveFailed => {
                "The output could not be packed into an archive".to_owned()
            },
        }
    }
}

impl FileType {
    /// Classifies a file by its name, or by whatever text stands for it.
    /// Fails with `UnrecognizedType`, which keeps the text, where no rule matches.
    pub fn from_str(file_name: &str) -> (kind: Result<FileType, ValidationError>)
        ensures
            match classified(file_name@) {
                Ok(k) => kind matches Ok(found) && found == k,
                Err(e) => kind matches Err(found) && found@ == e,
            },
    {
        if has_prefix(file_name, "ifroute") {
            return Ok(FileType::Sysconfig);
        }
        if has_prefix(file_name, "ifcfg") {
            return Ok(FileType::Sysconfig);
        }
        if same_text(file_name, "routes") {
            return Ok(FileType::Sysconfig);
        }
        if same_text(file_name, "config") {
            return Ok(FileType::Sysconfig);
        }
        if has_suffix(file_name, ".nmconnection") {
            return Ok(FileType::NMconnection);
        }
        if has_suffix(file_name, ".xml") {
            return Ok(FileType::Xml);
        }
        Err(ValidationError::UnrecognizedType(file_name.to_owned()))
    }

    /// Classifies a form part by its declared content type and, where no rule
    /// matches that, by its file name. Fails with `UnrecognizedType`, which keeps
    /// the file name, where no rule matches either.
    pub fn of_part(declared_type: &str, file_name: &str) -> (kind: Result<
        FileType,
        ValidationError,
    >)
        ensures
            match classified_part(declared_type@, file_name@) {
                Ok(k) => kind matches Ok(found) && found == k,
                Err(e) => kind matches Err(found) && found@ == e,
            },
    {
        match FileType::from_str(declared_type) {
            Ok(kind) => Ok(kind),
            Err(_) => FileType::from_str(file_name),
        }
    }
}

impl std::str::FromStr for FileType {
    type Err = ValidationError;

    /// Classifies a file by its name, as the method of the same name does:
    /// the kind of the first rule that matches, or `UnrecognizedType`, which
    /// keeps the text, where no rule matches.
    fn from_str(file_name: &str) -> (kind: Result<FileType, ValidationError>)
        ensures
            match classified(file_name@) {
                Ok(k) => kind matches Ok(found) && found == k,
                Err(e) => kind matches Err(found) && found@ == e,
            },
    {
        FileType::from_str(file_name)
    }
}

/// Tells whether all files of a batch are of one kind.
pub fn is_uniform(files: &Vec<File>) -> (b: bool)
    ensures
        b == uniform(files.deep_view()),
{
    let mut i: usize = 1;
    while i < files.len()
        invariant
            1 <= i,
            forall|j: int|
                0 <= j < i && j < files.len() ==> (#[trigger] files[j]).file_type
                    == files[0].file_type,
        decreases files.len() - i,
    {
        if files[i].file_type != files[0].file_type {
            assert(files.deep_view()[i as int].file_type != files.deep_view()[0].file_type);
            return false;
        }
        i += 1;
    }
    true
}

/// Finds the last dot among the characters of a name.
fn last_dot(file_name: &Vec<char>) -> (dot: Option<usize>)
    ensures
        match dot {
            Some(at) => at == last_index_of(file_name@, '.') && at < file_name.len(),
            None => last_index_of(file_name@, '.') == -1,
        },
{
    let mut dot: Option<usize> = None;
    let mut i: usize = 0;
    while i < file_name.len()
        invariant
            i <= file_name.len(),
            match dot {
                Some(at) => at == last_index_of(file_name@.take(i as int), '.') && at < i,
                None => last_index_of(file_name@.take(i as int), '.') == -1,
            },
        decreases file_name.len() - i,
    {
        assert(file_name@.take(i + 1).drop_last() =~= file_name@.take(i as int));
        if file_name[i] == '.' {
            dot = Some(i);
        }
        i += 1;
    }
    assert(file_name@.take(file_name.len() as int) =~= file_name@);
    dot
}

/// Tells the kind of one entry of the converter's output by its name: a
/// connection profile, or an error where the extension is another or is absent.
pub fn output_kind(file_name: &str) -> (kind: Result<FileType, PackagingError>)
    ensures
        kind == match extension(file_name@) {
            None => Err::<FileType, PackagingError>(PackagingError::PoorlyFormatted),
            Some(ext) => if ext == "nmconnection"@ {
                Ok(FileType::NMconnection)
            } else {
                Err(PackagingError::NotNmconnection)
            },
        },
{
    let name = characters(file_name);
    let wanted = characters("nmconnection");
    match last_dot(&name) {
        None => Err(PackagingError::PoorlyFormatted),
        Some(dot) => {
            if dot == 0 || same_text(file_name, "..") {
                Err(PackagingError::PoorlyFormatted)
            } else if name.len() - (dot + 1) == wanted.len() && matches_at(
                &name,
                dot + 1,
                &wanted,
            ) {
                Ok(FileType::NMconnection)
            } else {
                Err(PackagingError::NotNmconnection)
            }
        },
    }
}

/// Turns the entries of the converter's output directory into files, in their
/// order. Every entry must be a connection profile by its name and readable as
/// text; the first that is not decides the error.
pub fn file_arr_from_path(entries: &Vec<OutputEntry>) -> (files: Result<Vec<File>, PackagingError>)
    ensures
        match records_of(entries.deep_view()) {
            Ok(expected) => files matches Ok(found) && found.deep_view() == expected,
            Err(e) => files matches Err(found) && found == e,
        },
{
    let mut file_arr: Vec<File> = Vec::new();
    let mut i: usize = 0;
    assert(file_arr.deep_view() =~= Seq::empty());
    while i < entries.len()
        invariant
            i <= entries.len(),
            records_of(entries.deep_view().take(i as int)) == Ok::<Seq<FileView>, PackagingError>(
                file_arr.deep_view(),
            ),
        decreases entries.len() - i,
    {
        let entry = &entries[i];
        proof {
            let upto = entries.deep_view().take(i + 1);
            assert(upto.drop_last() =~= entries.deep_view().take(i as int));
            assert(upto.last() == entry@);
        }
        let file_type = match output_kind(entry.file_name.as_str()) {
            Ok(file_type) => file_type,
            Err(e) => {
                proof {
                    lemma_records_fail_later(entries.deep_view(), i + 1);
                }
                return Err(e);
            },
        };
        let file_content = match &entry.content {
            Some(text) => text.clone(),
            None => {
                proof {
                    lemma_records_fail_later(entries.deep_view(), i + 1);
                }
                return Err(PackagingError::Unreadable);
            },
        };
        let ghost before = file_arr.deep_view();
        file_arr.push(File { file_content, file_name: entry.file_name.clone(), file_type });
        assert(file_arr.deep_view() =~= before.push(record_of(entry@)->Ok_0));
        i += 1;
    }
    assert(entries.deep_view().take(entries.len() as int) =~= entries.deep_view());
    Ok(file_arr)
}

/// An error among the first `upto` entries is the error of the whole.
proof fn lemma_records_fail_later(entries: Seq<OutputEntryView>, upto: int)
    requires
        0 <= upto <= entries.len(),
        records_of(entries.take(upto)) is Err,
    ensures
        records_of(entries) == records_of(entries.take(upto)),
    decreases entries.len() - upto,
{
    if upto < entries.len() {
        assert(entries.take(upto + 1).drop_last() =~= entries.take(upto));
        lemma_records_fail_later(entries, upto + 1);
    } else {
        assert(entries.take(upto) =~= entries);
    }
}

/// The directory, below a workspace, that the converter fills and an archive is made of.
pub fn output_dir(workspace: &str) -> (path: String)
    ensures
        path@ == output_dir_of(workspace@),
{
    joined(workspace, "/NM-migrated")
}

/// The directory, below a workspace, whose entries are the converted connection profiles.
pub fn connections_dir(workspace: &str) -> (path: String)
    ensures
        path@ == connections_dir_of(workspace@),
{
    joined(workspace, "/NM-migrated/system-connections")
}

/// Where the converter's output is: the output directory of the workspace, or
/// `OutputMissing` where the caller found none there.
pub fn locate_output(workspace: &str, present: bool) -> (path: Result<String, PackagingError>)
    ensures
        present ==> (path matches Ok(p) && p@ == output_dir_of(workspace@)),
        !present ==> (path matches Err(e) && e == PackagingError::OutputMissing),
{
    if present {
        Ok(output_dir(workspace))
    } else {
        Err(PackagingError::OutputMissing)
    }
}

/// The arguments for `tar` that pack everything below `path` into the file `archive`.
pub fn return_as_tar(path: &str, archive: &str) -> (arguments: Vec<String>)
    ensures
        arguments.deep_view() == tar_arguments(path@, archive@),
{
    let mut arguments: Vec<String> = Vec::new();
    arguments.push("cf".to_owned());
    arguments.push(archive.to_owned());
    arguments.push("-C".to_owned());
    arguments.push(path.to_owned());
    arguments.push(".".to_owned());
    assert(arguments.deep_view() =~= tar_arguments(path@, archive@));
    arguments
}

/// Judges a run of the archiver: the archive is what it wrote, given here as
/// `bytes`, where it left with the status zero, and there is none
/// (`ArchiveFailed`) where it left with another.
pub fn archive_outcome(packed: ExecutionResult, bytes: Vec<u8>) -> (archive: Result<
    Vec<u8>,
    PackagingError,
>)
    ensures
        packed.succeeded ==> archive == Ok::<Vec<u8>, PackagingError>(bytes),
        !packed.succeeded ==> archive == Err::<Vec<u8>, PackagingError>(
            PackagingError::ArchiveFailed,
        ),
{
    if !packed.succeeded {
        return Err(PackagingError::ArchiveFailed);
    }
    Ok(bytes)
}

} // verus!
