//! The manifest: the tree of pages to publish, with their attachments.

use crate::model::{option_view, PublishError, UploadAttachmentRequest, UploadAttachmentRequestView};
use vstd::prelude::*;

verus! {

/// `serde_json::Map`, the map of a JSON object. Nothing is claimed of it here:
/// a value of it is carried through, and read by [`attachment_entries`] alone.
#[verifier::external_type_specification]
#[verifier::external_body]
#[verifier::reject_recursive_types(K)]
#[verifier::reject_recursive_types(V)]
pub struct ExJsonMap<K, V>(serde_json::Map<K, V>);

/// `serde_json::Value`, a JSON value. Nothing is claimed of it here.
#[verifier::external_type_specification]
#[verifier::external_body]
pub struct ExJsonValue(serde_json::Value);

/// What is to be published: the pages of one space.
#[derive(Debug)]
pub struct Metadata {
    pub space_key: String,
    pub pages: Vec<Page>,
}

/// A page of the manifest. Its body is read from a local file.
#[derive(Debug)]
pub struct Page {
    pub title: String,
    pub content_file_path: String,
    pub children: Vec<Page>,
    /// From the name of each attachment to the path of its local file.
    pub attachments: serde_json::Map<String, serde_json::Value>,
}

/// The entries of an attachment map in the order in which
/// `serde_json::Map::iter` walks them: each as its key and, where the value is
/// a JSON string, that string.
pub uninterp spec fn attachment_entries(
    attachments: serde_json::Map<String, serde_json::Value>,
) -> Seq<(Seq<char>, Option<Seq<char>>)>;

/// The views of a list of entries, in the list's order.
pub open spec fn entries_view(entries: Seq<(String, Option<String>)>) -> Seq<
    (Seq<char>, Option<Seq<char>>),
> {
    entries.map_values(|entry: (String, Option<String>)| (entry.0@, option_view(entry.1)))
}

/// Hands out the entries of an attachment map as plain values.
///
/// Calls `serde_json::Map::iter`, and `serde_json::Value::as_str` on each
/// value. Nothing is proved of it: the contract only gives the outcome its
/// name, [`attachment_entries`].
#[verifier::external_body]
fn entries_of(attachments: &serde_json::Map<String, serde_json::Value>) -> (entries: Vec<
    (String, Option<String>),
>)
    ensures
        entries_view(entries@) == attachment_entries(*attachments),
{
    attachments
        .iter()
        .map(|(name, path)| (name.clone(), path.as_str().map(str::to_owned)))
        .collect()
}

/// Whether `planned` is what is to be done about the attachment `entry` of
/// the page `content_id`: the upload of its file under its name, with an empty
/// comment, or, where the manifest gives no path for it, a
/// [`PublishError::LocalIo`] that bears the attachment's name.
pub open spec fn plans_entry(
    planned: Result<UploadAttachmentRequest, PublishError>,
    content_id: Seq<char>,
    entry: (Seq<char>, Option<Seq<char>>),
) -> bool {
    match entry.1 {
        Some(path) => planned is Ok && planned->Ok_0@ == (UploadAttachmentRequestView {
            content_id,
            name: entry.0,
            file: path,
            comment: Seq::<char>::empty(),
        }),
        None => planned is Err && planned->Err_0 is LocalIo && planned->Err_0->LocalIo_0@
            == entry.0,
    }
}

/// Whether `plan` plans each of `entries` in turn for the page `content_id`.
pub open spec fn plans_entries(
    plan: Seq<Result<UploadAttachmentRequest, PublishError>>,
    content_id: Seq<char>,
    entries: Seq<(Seq<char>, Option<Seq<char>>)>,
) -> bool {
    &&& plan.len() == entries.len()
    &&& forall|i: int|
        0 <= i < plan.len() ==> plans_entry(#[trigger] plan[i], content_id, entries[i])
}

/// Plans the attachments `entries` of the remote page `content_id`, one item
/// for each entry and in their order.
pub fn plan_entries(content_id: &str, entries: &Vec<(String, Option<String>)>) -> (plan: Vec<
    Result<UploadAttachmentRequest, PublishError>,
>)
    ensures
        plans_entries(plan@, content_id@, entries_view(entries@)),
{
    let mut plan: Vec<Result<UploadAttachmentRequest, PublishError>> = Vec::new();
    let mut i: usize = 0;
    while i < entries.len()
        invariant
            i <= entries.len(),
            plan@.len() == i,
            forall|j: int|
                0 <= j < i ==> plans_entry(
                    #[trigger] plan@[j],
                    content_id@,
                    entries_view(entries@)[j],
                ),
        decreases entries.len() - i,
    {
        let entry = &entries[i];
        let planned = match &entry.1 {
            Some(path) => Ok(
                UploadAttachmentRequest::new(content_id, entry.0.as_str(), path.as_str(), ""),
            ),
            None => Err(PublishError::LocalIo(entry.0.clone())),
        };
        proof {
            reveal_strlit("");
            assert(""@ =~= Seq::<char>::empty());
        }
        plan.push(planned);
        i = i + 1;
    }
    plan
}

impl Page {
    /// Plans the attachments of this page, once it stands in the wiki as
    /// `content_id`: one item for each entry of the attachment map, in the
    /// order in which the map is walked.
    pub fn attachment_plan(&self, content_id: &str) -> (plan: Vec<
        Result<UploadAttachmentRequest, PublishError>,
    >)
        ensures
            plans_entries(plan@, content_id@, attachment_entries(self.attachments)),
    {
        let entries = entries_of(&self.attachments);
        plan_entries(content_id, &entries)
    }
}

} // verus!
