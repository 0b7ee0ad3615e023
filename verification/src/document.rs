use crate::files::{File, FileView};
use vstd::prelude::*;

verus! {

/// A JSON value as its members, in place of the `json` crate's own type, whose
/// inside is not visible here.
pub enum JsonTree {
    /// A string.
    Text(Seq<char>),
    /// An array: its items in their order.
    List(Seq<JsonTree>),
    /// An object: its keys, each with its value, in the order in which they were set.
    Record(Seq<(Seq<char>, JsonTree)>),
    /// Anything else (null, a boolean, a number), by the text that stands for it.
    Literal(Seq<char>),
}

/// `json::JsonValue`, which is carried through as it is: of its inside only
/// what `json_tree` names is spoken of.
#[verifier::external_type_specification]
#[verifier::external_body]
pub struct ExJsonValue(json::JsonValue);

/// What a value of the `json` crate holds.
pub uninterp spec fn json_tree(value: json::JsonValue) -> JsonTree;

/// The text that `JsonValue::dump` writes for a value that holds `tree`: JSON
/// without white space, the members of an object in the order in which they were set.
pub uninterp spec fn json_text(tree: JsonTree) -> Seq<char>;

/// `JsonValue::new_object`, which makes an object without members.
#[verifier::external_body]
fn new_object() -> (value: json::JsonValue)
    ensures
        json_tree(value) == JsonTree::Record(Seq::empty()),
{
    json::JsonValue::new_object()
}

/// `JsonValue::new_array`, which makes an array without items.
#[verifier::external_body]
fn new_array() -> (value: json::JsonValue)
    ensures
        json_tree(value) == JsonTree::List(Seq::empty()),
{
    json::JsonValue::new_array()
}

/// `JsonValue::from` on a `String`, which makes the JSON string of that text.
#[verifier::external_body]
fn from_string(text: String) -> (value: json::JsonValue)
    ensures
        json_tree(value) == JsonTree::Text(text@),
{
    json::JsonValue::from(text)
}

/// Assignment through `JsonValue`'s index by a key. On an object that has no
/// member of that key, which is all that is asked of it here, it adds the
/// member behind the others.
#[verifier::external_body]
fn set_member(object: &mut json::JsonValue, key: &str, member: json::JsonValue)
    requires
        json_tree(*old(object)) is Record,
        forall|i: int|
            0 <= i < json_tree(*old(object))->Record_0.len() ==> (#[trigger] json_tree(
                *old(object),
            )->Record_0[i]).0 != key@,
    ensures
        json_tree(*final(object)) == JsonTree::Record(
            json_tree(*old(object))->Record_0.push((key@, json_tree(member))),
        ),
{
    object[key] = member;
}

/// `JsonValue::push`, which adds an item behind the others of an array and
/// reports success; on a value that is no array it changes nothing and reports
/// failure.
#[verifier::external_body]
fn push_item(list: &mut json::JsonValue, item: json::JsonValue) -> (pushed: bool)
    ensures
        match json_tree(*old(list)) {
            JsonTree::List(items) => pushed && json_tree(*final(list)) == JsonTree::List(
                items.push(json_tree(item)),
            ),
            _ => !pushed && json_tree(*final(list)) == json_tree(*old(list)),
        },
{
    list.push(item).is_ok()
}

/// `JsonValue::dump`, which writes the value out as JSON text.
#[verifier::external_body]
fn dump(value: &json::JsonValue) -> (text: String)
    ensures
        text@ == json_text(json_tree(*value)),
{
    value.dump()
}

/// The JSON object that stands for one file: its name and its content.
pub open spec fn file_tree(file: FileView) -> JsonTree {
    JsonTree::Record(
        seq![
            ("fileName"@, JsonTree::Text(file.file_name)),
            ("fileContent"@, JsonTree::Text(file.file_content)),
        ],
    )
}

/// The JSON document that hands out a result: the converter's report under
/// `log`, and under `files` the files in their order.
pub open spec fn document_tree(log: Seq<char>, files: Seq<FileView>) -> JsonTree {
    JsonTree::Record(
        seq![
            ("log"@, JsonTree::Text(log)),
            ("files"@, JsonTree::List(Seq::new(files.len(), |i: int| file_tree(files[i])))),
        ],
    )
}

/// Writes the JSON document that hands out a result: the converter's report
/// and the converted files.
pub fn json_document(log: &str, files: &Vec<File>) -> (text: String)
    ensures
        text@ == json_text(document_tree(log@, files.deep_view())),
{
    let mut list = new_array();
    let mut i: usize = 0;
    assert(Seq::new(0, |k: int| file_tree(files.deep_view()[k])) =~= Seq::<JsonTree>::empty());
    while i < files.len()
        invariant
            i <= files.len(),
            json_tree(list) == JsonTree::List(
                Seq::new(i as nat, |k: int| file_tree(files.deep_view()[k])),
            ),
        decreases files.len() - i,
    {
        let file = &files[i];
        let mut file_data = new_object();
        proof {
            reveal_strlit("fileName");
            reveal_strlit("fileContent");
            assert("fileName"@.len() != "fileContent"@.len());
        }
        set_member(&mut file_data, "fileName", from_string(file.file_name.clone()));
        assert(json_tree(file_data)->Record_0[0].0 == "fileName"@);
        set_member(&mut file_data, "fileContent", from_string(file.file_content.clone()));
        assert(json_tree(file_data)->Record_0 =~= file_tree(file@)->Record_0);
        let ghost before = json_tree(list)->List_0;
        let _ = push_item(&mut list, file_data);
        assert(before.push(file_tree(file@)) =~= Seq::new(
            (i + 1) as nat,
            |k: int| file_tree(files.deep_view()[k]),
        ));
        i += 1;
    }
    let mut data = new_object();
    proof {
        reveal_strlit("log");
        reveal_strlit("files");
        assert("log"@.len() != "files"@.len());
    }
    set_member(&mut data, "log", from_string(log.to_owned()));
    assert(json_tree(data)->Record_0[0].0 == "log"@);
    set_member(&mut data, "files", list);
    assert(json_tree(data)->Record_0 =~= document_tree(log@, files.deep_view())->Record_0);
    dump(&data)
}

} // verus!
