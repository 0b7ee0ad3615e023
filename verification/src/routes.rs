use crate::db_util::{
    delete_db_entry, generate_json, listing_of, retrieved_json, row_of, rows_without, Ledger,
    RetrieveError,
};
use crate::files::{
    classified, classified_part, is_uniform, uniform, File, FileType, FileView, OutputEntry,
    ValidationError, ValidationErrorView,
};
use crate::migration::{MigrateError, MigrateErrorView};
use crate::reply::{Reply, ReplyView, BAD_REQUEST, INTERNAL_SERVER_ERROR, NOT_FOUND};
use crate::text::{joined, same_text};
use vstd::prelude::*;

verus! {

/// One part of a multipart submission, as it was read: the content type and the
/// file name that it declares, where it declares them, and its body as text,
/// or why the body could not be read.
#[derive(Debug, PartialEq, Eq)]
pub struct FormField {
    pub content_type: Option<String>,
    pub file_name: Option<String>,
    pub data: Result<String, String>,
}

/// What a `FormField` holds.
pub struct FormFieldView {
    pub content_type: Option<Seq<char>>,
    pub file_name: Option<Seq<char>>,
    pub data: Result<Seq<char>, Seq<char>>,
}

impl View for FormField {
    type V = FormFieldView;

    open spec fn view(&self) -> FormFieldView {
        FormFieldView {
            content_type: match self.content_type {
                Some(text) => Some(text@),
                None => None,
            },
            file_name: match self.file_name {
                Some(text) => Some(text@),
                None => None,
            },
            data: match self.data {
                Ok(text) => Ok(text@),
                Err(detail) => Err(detail@),
            },
        }
    }
}

impl DeepView for FormField {
    type V = FormFieldView;

    open spec fn deep_view(&self) -> FormFieldView {
        self@
    }
}

/// The file that one part of a submission gives. The part must declare a
/// content type, be of a known kind, declare a file name, and have a body that
/// could be read, which are looked at in this order. Its kind is that of the
/// declared type where a rule matches it, else that of the file name.
pub open spec fn file_of_field(field: FormFieldView) -> Result<FileView, ValidationErrorView> {
    match field.content_type {
        None => Err(ValidationErrorView::MissingType),
        Some(declared) => match field.file_name {
            None => match classified(declared) {
                Err(e) => Err(e),
                Ok(_) => Err(ValidationErrorView::MissingFileName),
            },
            Some(name) => match classified_part(declared, name) {
                Err(e) => Err(e),
                Ok(kind) => match field.data {
                    Err(detail) => Err(ValidationErrorView::UnreadableBody(detail)),
                    Ok(text) => Ok(
                        FileView { file_content: text, file_name: name, file_type: kind },
                    ),
                },
            },
        },
    }
}

/// The files that the parts of a submission give, in their order; where some
/// part gives none, the error of the first such part.
pub open spec fn files_of_fields(fields: Seq<FormFieldView>) -> Result<
    Seq<FileView>,
    ValidationErrorView,
>
    decreases fields.len(),
{
    if fields.len() == 0 {
        Ok(Seq::empty())
    } else {
        match files_of_fields(fields.drop_last()) {
            Err(e) => Err(e),
            Ok(files) => match file_of_field(fields.last()) {
                Err(e) => Err(e),
                Ok(file) => Ok(files.push(file)),
            },
        }
    }
}

/// The answer to a submission that is turned away.
pub open spec fn refusal(error: ValidationErrorView) -> ReplyView {
    match error {
        ValidationErrorView::MixedTypes => ReplyView::Text {
            status: BAD_REQUEST,
            body: error.message_text(),
        },
        _ => ReplyView::Text {
            status: BAD_REQUEST,
            body: "An error occured: "@ + error.message_text(),
        },
    }
}

/// What becomes of a multipart submission before any work is done: the batch
/// of files to convert, or the answer that turns it away. It is turned away
/// where the form has no part, where a part gives no file, and where the files
/// are not all of one kind.
pub open spec fn admitted(fields: Seq<FormFieldView>) -> Result<Seq<FileView>, ReplyView> {
    if fields.len() == 0 {
        Err(refusal(ValidationErrorView::NoFiles))
    } else {
        match files_of_fields(fields) {
            Err(e) => Err(refusal(e)),
            Ok(files) => if uniform(files) {
                Ok(files)
            } else {
                Err(refusal(ValidationErrorView::MixedTypes))
            },
        }
    }
}

/// The place to which a client is sent for its result: the JSON document where
/// it submitted to `/json`, else the archive.
pub open spec fn result_location(uri: Seq<char>, uuid: Seq<char>) -> Seq<char> {
    if uri == "/json"@ {
        "/json/"@ + uuid
    } else {
        "/tar/"@ + uuid
    }
}

/// The answer to a submission once it is settled: a redirect to the result, or
/// what the error gives.
pub open spec fn submission_reply(
    uri: Seq<char>,
    outcome: Result<Seq<char>, MigrateErrorView>,
) -> ReplyView {
    match outcome {
        Ok(uuid) => ReplyView::Redirect(result_location(uri, uuid)),
        Err(e) => e.response(),
    }
}

/// The answer to a request for a result as a JSON document.
pub open spec fn json_reply(found: Result<Seq<char>, RetrieveError>) -> ReplyView {
    match found {
        Ok(text) => ReplyView::Json(text),
        Err(RetrieveError::NotFound) => ReplyView::Status(NOT_FOUND),
        Err(RetrieveError::PackagingFailure(_)) => ReplyView::Status(INTERNAL_SERVER_ERROR),
    }
}

/// The answer to a request for a result as an archive, given the archive that
/// the caller made of the output (`None` where it could make none).
pub open spec fn archive_reply(found: bool, archive: Option<Seq<u8>>) -> ReplyView {
    if !found {
        ReplyView::Status(NOT_FOUND)
    } else {
        match archive {
            Some(bytes) => ReplyView::Archive(bytes),
            None => ReplyView::Status(INTERNAL_SERVER_ERROR),
        }
    }
}

/// Turns one part of a submission into a file.
pub fn file_from_field(field: FormField) -> (file: Result<File, ValidationError>)
    ensures
        match file_of_field(field@) {
            Ok(expected) => file matches Ok(found) && found@ == expected,
            Err(e) => file matches Err(found) && found@ == e,
        },
{
    let declared = match field.content_type {
        Some(declared) => declared,
        None => {
            return Err(ValidationError::MissingType);
        },
    };
    match field.file_name {
        None => match FileType::from_str(declared.as_str()) {
            Err(e) => Err(e),
            Ok(_) => Err(ValidationError::MissingFileName),
        },
        Some(file_name) => match FileType::of_part(declared.as_str(), file_name.as_str()) {
            Err(e) => Err(e),
            Ok(file_type) => match field.data {
                Err(detail) => Err(ValidationError::UnreadableBody(detail)),
                Ok(file_content) => Ok(File { file_content, file_name, file_type }),
            },
        },
    }
}

/// Turns the parts of a multipart submission into files, in their order. The
/// first part that gives no file decides the error.
pub fn read_multipart_post_data_to_file_arr(fields: Vec<FormField>) -> (files: Result<
    Vec<File>,
    ValidationError,
>)
    ensures
        match files_of_fields(fields.deep_view()) {
            Ok(expected) => files matches Ok(found) && found.deep_view() == expected,
            Err(e) => files matches Err(found) && found@ == e,
        },
{
    let mut data_array: Vec<File> = Vec::new();
    let ghost all = fields.deep_view();
    assert(data_array.deep_view() =~= Seq::empty());
    for field in it: fields
        invariant
            all == fields.deep_view(),
            files_of_fields(all.take(it.index() as int)) == Ok::<
                Seq<FileView>,
                ValidationErrorView,
            >(data_array.deep_view()),
    {
        let ghost at = it.index() as int;
        proof {
            assert(all.take(at + 1).drop_last() =~= all.take(at));
            assert(field@ == all[at]);
        }
        match file_from_field(field) {
            Ok(file) => {
                let ghost before = data_array.deep_view();
                data_array.push(file);
                assert(data_array.deep_view() =~= before.push(file@));
            },
            Err(e) => {
                proof {
                    lemma_fields_fail_later(all, at + 1);
                }
                return Err(e);
            },
        }
    }
    assert(all.take(all.len() as int) =~= all);
    Ok(data_array)
}

/// An error among the first `upto` parts is the error of the whole.
proof fn lemma_fields_fail_later(fields: Seq<FormFieldView>, upto: int)
    requires
        0 <= upto <= fields.len(),
        files_of_fields(fields.take(upto)) is Err,
    ensures
        files_of_fields(fields) == files_of_fields(fields.take(upto)),
    decreases fields.len() - upto,
{
    if upto < fields.len() {
        assert(fields.take(upto + 1).drop_last() =~= fields.take(upto));
        lemma_fields_fail_later(fields, upto + 1);
    } else {
        assert(fields.take(upto) =~= fields);
    }
}

/// Where the parts of a submission give files at all, they give one for each part.
pub proof fn lemma_one_file_for_each_part(fields: Seq<FormFieldView>)
    ensures
        files_of_fields(fields) matches Ok(files) ==> files.len() == fields.len(),
    decreases fields.len(),
{
    if fields.len() > 0 {
        lemma_one_file_for_each_part(fields.drop_last());
    }
}

/// The answer that turns a submission away.
pub fn refuse(error: &ValidationError) -> (reply: Reply)
    ensures
        reply@ == refusal(error@),
{
    match error {
        ValidationError::MixedTypes => Reply::Text { status: BAD_REQUEST, body: error.message() },
        _ => Reply::Text {
            status: BAD_REQUEST,
            body: joined("An error occured: ", error.message().as_str()),
        },
    }
}

/// Decides on a multipart submission before any work is done: either the batch
/// of files to convert, or the answer that turns the submission away, with the
/// status 400 and a text that says why. A submission is turned away where the
/// form has no part, where a part gives no file, and where the files are not
/// all of one kind; nothing is then to be run. A batch that is admitted holds
/// a file for every part, and so at least one.
pub fn redirect_post_multipart_form(fields: Vec<FormField>) -> (admission: Result<Vec<File>, Reply>)
    ensures
        match admitted(fields.deep_view()) {
            Ok(expected) => admission matches Ok(found) && found.deep_view() == expected,
            Err(reply) => admission matches Err(found) && found@ == reply,
        },
        admission matches Ok(found) ==> found.len() == fields.len() && found.len() > 0,
{
    if fields.len() == 0 {
        return Err(refuse(&ValidationError::NoFiles));
    }
    proof {
        lemma_one_file_for_each_part(fields.deep_view());
    }
    let data_array = match read_multipart_post_data_to_file_arr(fields) {
        Ok(data_array) => data_array,
        Err(e) => {
            return Err(refuse(&e));
        },
    };
    if !is_uniform(&data_array) {
        return Err(refuse(&ValidationError::MixedTypes));
    }
    Ok(data_array)
}

/// The batch that a submission of one raw body gives: the body as one export
/// of the legacy configuration, under the name `wicked.xml`.
pub fn redirect(data_string: String) -> (data_arr: Vec<File>)
    ensures
        data_arr.deep_view() == seq![
            FileView {
                file_content: data_string@,
                file_name: "wicked.xml"@,
                file_type: FileType::Xml,
            },
        ],
{
    let mut data_arr: Vec<File> = Vec::new();
    data_arr.push(
        File {
            file_content: data_string,
            file_name: "wicked.xml".to_owned(),
            file_type: FileType::Xml,
        },
    );
    assert(data_arr.deep_view() =~= seq![
        FileView {
            file_content: data_string@,
            file_name: "wicked.xml"@,
            file_type: FileType::Xml,
        },
    ]);
    data_arr
}

/// The answer to a submission once it is settled. A result sends the client on
/// to it: to the JSON document where the submission came to `/json`, else to
/// the archive. An error gives its own answer.
pub fn redirect_to_result(uri: &str, outcome: Result<String, MigrateError>) -> (reply: Reply)
    ensures
        reply@ == submission_reply(
            uri@,
            match outcome {
                Ok(uuid) => Ok(uuid@),
                Err(e) => Err(e@),
            },
        ),
{
    match outcome {
        Ok(uuid) => {
            if same_text(uri, "/json") {
                Reply::Redirect(joined("/json/", uuid.as_str()))
            } else {
                Reply::Redirect(joined("/tar/", uuid.as_str()))
            }
        },
        Err(e) => e.into_response(),
    }
}

/// What a request for a result comes to: the answer, and the workspace that
/// the caller is to remove because its row is gone.
#[derive(Debug, PartialEq, Eq)]
pub struct Retrieval {
    pub reply: Reply,
    pub workspace: Option<String>,
}

/// Hands out the result under `uuid` as a JSON document, given the entries of
/// its output directory (`None` where there is no such directory), and consumes
/// it: whether or not the document could be made, the row is removed and its
/// workspace returned for removal. Where no row has the identifier the answer
/// is the status 404 and nothing changes; where the output cannot be packed it
/// is the status 500.
pub fn return_config_json(
    uuid: &str,
    database: &mut Ledger,
    listing: Option<Vec<OutputEntry>>,
) -> (retrieval: Retrieval)
    ensures
        retrieval.reply@ == json_reply(
            retrieved_json(old(database)@, uuid@, listing_of(listing)),
        ),
        final(database)@ == rows_without(old(database)@, uuid@),
        match row_of(old(database)@, uuid@) {
            Some(row) => retrieval.workspace matches Some(path) && path@ == row.workspace_path,
            None => retrieval.workspace is None,
        },
{
    let reply = match generate_json(uuid, database, &listing) {
        Ok(json_string) => Reply::Json(json_string),
        Err(RetrieveError::NotFound) => Reply::Status(NOT_FOUND),
        Err(RetrieveError::PackagingFailure(_)) => Reply::Status(INTERNAL_SERVER_ERROR),
    };
    let workspace = delete_db_entry(uuid, database);
    Retrieval { reply, workspace }
}

/// Hands out the result under `uuid` as an archive, given the archive that the
/// caller made of its output directory (`None` where it could make none), and
/// consumes it: whether or not there is an archive, the row is removed and its
/// workspace returned for removal. Where no row has the identifier the answer
/// is the status 404 and nothing changes; where there is no archive it is the
/// status 500.
pub fn return_config_file(
    uuid: &str,
    database: &mut Ledger,
    archive: Option<Vec<u8>>,
) -> (retrieval: Retrieval)
    ensures
        retrieval.reply@ == archive_reply(
            row_of(old(database)@, uuid@) is Some,
            match archive {
                Some(bytes) => Some(bytes@),
                None => None,
            },
        ),
        final(database)@ == rows_without(old(database)@, uuid@),
        match row_of(old(database)@, uuid@) {
            Some(row) => retrieval.workspace matches Some(path) && path@ == row.workspace_path,
            None => retrieval.workspace is None,
        },
{
    let workspace = delete_db_entry(uuid, database);
    let reply = match &workspace {
        None => Reply::Status(NOT_FOUND),
        Some(_) => match archive {
            Some(file_contents) => Reply::Archive(file_contents),
            None => Reply::Status(INTERNAL_SERVER_ERROR),
        },
    };
    Retrieval { reply, workspace }
}

} // verus!
