//! Requests sent to the wiki and the remote items it reports.

use vstd::prelude::*;

verus! {

/// The content type under which every page is written.
pub open spec fn page_type() -> Seq<char> {
    "page"@
}

/// The representation in which every page body is written.
pub open spec fn storage_format() -> Seq<char> {
    "storage"@
}

/// The metadata that a title search asks the wiki to expand.
pub open spec fn version_expansion() -> Seq<char> {
    "version"@
}

/// A title as it stands in a search query: each space becomes a plus sign.
pub open spec fn encode_title_spec(title: Seq<char>) -> Seq<char> {
    title.map_values(|c: char| if c == ' ' { '+' } else { c })
}

/// Writes `title` as a search query wants it, with `+` for every space.
pub fn encode_title(title: &str) -> (encoded: String)
    ensures
        encoded@ == encode_title_spec(title@),
{
    let n: usize = title.unicode_len();
    let mut encoded = String::new();
    let mut i: usize = 0;
    while i < n
        invariant
            n == title@.len(),
            i <= n,
            encoded@.len() == i,
            forall|j: int| 0 <= j < i ==> #[trigger] encoded@[j] == encode_title_spec(title@)[j],
        decreases n - i,
    {
        let c = title.get_char(i);
        if c == ' ' {
            proof {
                reveal_strlit("+");
            }
            encoded.append("+");
        } else {
            encoded.append(title.substring_char(i, i + 1));
        }
        i = i + 1;
    }
    assert(encoded@ =~= encode_title_spec(title@));
    encoded
}

/// A page of the wiki as a write request for a new page describes it.
#[derive(Clone, Debug, PartialEq, Eq)]
pub struct CreatePageRequest {
    pub title: String,
    pub space: String,
    pub body: String,
    pub representation: String,
    pub content_type: String,
    /// The parent under which the page is created; `None` for a root page.
    pub ancestor: Option<String>,
}

pub ghost struct CreatePageRequestView {
    pub title: Seq<char>,
    pub space: Seq<char>,
    pub body: Seq<char>,
    pub representation: Seq<char>,
    pub content_type: Seq<char>,
    pub ancestor: Option<Seq<char>>,
}

/// The view of an optional string.
pub open spec fn option_view(s: Option<String>) -> Option<Seq<char>> {
    match s {
        Some(s) => Some(s@),
        None => None,
    }
}

impl View for CreatePageRequest {
    type V = CreatePageRequestView;

    open spec fn view(&self) -> CreatePageRequestView {
        CreatePageRequestView {
            title: self.title@,
            space: self.space@,
            body: self.body@,
            representation: self.representation@,
            content_type: self.content_type@,
            ancestor: option_view(self.ancestor),
        }
    }
}

/// A new version of an existing page.
#[derive(Clone, Debug, PartialEq, Eq)]
pub struct UpdatePageRequest {
    /// The remote id of the page that is overwritten.
    pub id: String,
    pub title: String,
    pub space: String,
    pub body: String,
    pub representation: String,
    pub content_type: String,
    /// Always `None`: an update leaves the page where it is.
    pub ancestor: Option<String>,
    /// The version that the page has after the update.
    pub version: u64,
}

pub ghost struct UpdatePageRequestView {
    pub id: Seq<char>,
    pub title: Seq<char>,
    pub space: Seq<char>,
    pub body: Seq<char>,
    pub representation: Seq<char>,
    pub content_type: Seq<char>,
    pub ancestor: Option<Seq<char>>,
    pub version: u64,
}

impl View for UpdatePageRequest {
    type V = UpdatePageRequestView;

    open spec fn view(&self) -> UpdatePageRequestView {
        UpdatePageRequestView {
            id: self.id@,
            title: self.title@,
            space: self.space@,
            body: self.body@,
            representation: self.representation@,
            content_type: self.content_type@,
            ancestor: option_view(self.ancestor),
            version: self.version,
        }
    }
}

/// A title search within one space.
#[derive(Clone, Debug, PartialEq, Eq)]
pub struct FindPageRequest {
    /// The title in query form: see [`encode_title`].
    pub title: String,
    pub space: String,
    pub expand: String,
}

pub ghost struct FindPageRequestView {
    pub title: Seq<char>,
    pub space: Seq<char>,
    pub expand: Seq<char>,
}

impl View for FindPageRequest {
    type V = FindPageRequestView;

    open spec fn view(&self) -> FindPageRequestView {
        FindPageRequestView { title: self.title@, space: self.space@, expand: self.expand@ }
    }
}

/// A search by exact title among the direct children of one page.
#[derive(Clone, Debug, PartialEq, Eq)]
pub struct FindChildPageRequest {
    /// The remote id of the parent.
    pub content_id: String,
    pub title: String,
}

pub ghost struct FindChildPageRequestView {
    pub content_id: Seq<char>,
    pub title: Seq<char>,
}

impl View for FindChildPageRequest {
    type V = FindChildPageRequestView;

    open spec fn view(&self) -> FindChildPageRequestView {
        FindChildPageRequestView { content_id: self.content_id@, title: self.title@ }
    }
}

/// A remote page or attachment as a lookup reports it.
#[derive(Clone, Debug, PartialEq, Eq)]
pub struct Content {
    pub id: String,
    pub title: String,
    /// The current version number, where the wiki sent version metadata.
    pub version: Option<u64>,
}

pub ghost struct ContentView {
    pub id: Seq<char>,
    pub title: Seq<char>,
    pub version: Option<u64>,
}

impl View for Content {
    type V = ContentView;

    open spec fn view(&self) -> ContentView {
        ContentView { id: self.id@, title: self.title@, version: self.version }
    }
}

/// The views of a list of remote items, in the list's order.
pub open spec fn contents_view(list: Seq<Content>) -> Seq<ContentView> {
    list.map_values(|c: Content| c@)
}

/// The version number that an item is taken to have where the wiki sent none
/// with it.
pub const DEFAULT_VERSION: u64 = 1;

/// The version number that a remote item currently has.
pub open spec fn current_version(content: ContentView) -> u64 {
    match content.version {
        Some(number) => number,
        None => DEFAULT_VERSION,
    }
}

impl Content {
    /// A remote item with the given id, title and version.
    pub fn new(id: &str, title: &str, version: Option<u64>) -> (content: Content)
        ensures
            content@ == (ContentView { id: id@, title: title@, version }),
    {
        Content { id: id.to_owned(), title: title.to_owned(), version }
    }

    /// The item's version number, [`DEFAULT_VERSION`] where it carries none.
    pub fn current_version(&self) -> (number: u64)
        ensures
            number == current_version(self@),
    {
        match self.version {
            Some(number) => number,
            None => DEFAULT_VERSION,
        }
    }

    /// Whether the wiki sent no version metadata with this item, so that
    /// [`DEFAULT_VERSION`] stands in for its version.
    pub fn version_is_assumed(&self) -> (assumed: bool)
        ensures
            assumed == (self@.version is None),
    {
        self.version.is_none()
    }
}

/// A remote page that was found: what the next write needs of it.
#[derive(Clone, Debug, PartialEq, Eq)]
pub struct ContentData {
    pub id: String,
    pub title: String,
    pub version: u64,
}

pub ghost struct ContentDataView {
    pub id: Seq<char>,
    pub title: Seq<char>,
    pub version: u64,
}

impl View for ContentData {
    type V = ContentDataView;

    open spec fn view(&self) -> ContentDataView {
        ContentDataView { id: self.id@, title: self.title@, version: self.version }
    }
}

/// The page reference that stands for a reported page.
pub open spec fn content_data_of(content: ContentView) -> ContentDataView {
    ContentDataView { id: content.id, title: content.title, version: current_version(content) }
}

impl ContentData {
    /// The reference to a reported page, at its current version.
    pub fn from_content(content: &Content) -> (data: ContentData)
        ensures
            data@ == content_data_of(content@),
    {
        ContentData {
            id: content.id.clone(),
            title: content.title.clone(),
            version: content.current_version(),
        }
    }
}

/// A remote attachment that was found under a page.
#[derive(Clone, Debug, PartialEq, Eq)]
pub struct AttachmentData {
    pub id: String,
    /// The remote id of the page that owns the attachment.
    pub content_id: String,
}

pub ghost struct AttachmentDataView {
    pub id: Seq<char>,
    pub content_id: Seq<char>,
}

impl View for AttachmentData {
    type V = AttachmentDataView;

    open spec fn view(&self) -> AttachmentDataView {
        AttachmentDataView { id: self.id@, content_id: self.content_id@ }
    }
}

/// The attachment reference that stands for an item reported under the page
/// `content_id`.
pub open spec fn attachment_data_of(content_id: Seq<char>, content: ContentView)
    -> AttachmentDataView {
    AttachmentDataView { id: content.id, content_id }
}

impl AttachmentData {
    /// The reference to an attachment reported under the page `content_id`.
    pub fn from_content(content_id: &str, content: &Content) -> (data: AttachmentData)
        ensures
            data@ == attachment_data_of(content_id@, content@),
    {
        AttachmentData { id: content.id.clone(), content_id: content_id.to_owned() }
    }
}

/// A local file to be attached to a page under a name.
#[derive(Clone, Debug, PartialEq, Eq)]
pub struct UploadAttachmentRequest {
    /// The remote id of the owning page.
    pub content_id: String,
    pub name: String,
    /// The path of the local file.
    pub file: String,
    pub comment: String,
}

pub ghost struct UploadAttachmentRequestView {
    pub content_id: Seq<char>,
    pub name: Seq<char>,
    pub file: Seq<char>,
    pub comment: Seq<char>,
}

impl View for UploadAttachmentRequest {
    type V = UploadAttachmentRequestView;

    open spec fn view(&self) -> UploadAttachmentRequestView {
        UploadAttachmentRequestView {
            content_id: self.content_id@,
            name: self.name@,
            file: self.file@,
            comment: self.comment@,
        }
    }
}

/// A local file that replaces the data of an existing attachment.
#[derive(Clone, Debug, PartialEq, Eq)]
pub struct UpdateAttachmentRequest {
    pub content_id: String,
    /// The remote id of the attachment that is replaced.
    pub attachment_id: String,
    pub name: String,
    pub file: String,
    pub comment: String,
}

pub ghost struct UpdateAttachmentRequestView {
    pub content_id: Seq<char>,
    pub attachment_id: Seq<char>,
    pub name: Seq<char>,
    pub file: Seq<char>,
    pub comment: Seq<char>,
}

impl View for UpdateAttachmentRequest {
    type V = UpdateAttachmentRequestView;

    open spec fn view(&self) -> UpdateAttachmentRequestView {
        UpdateAttachmentRequestView {
            content_id: self.content_id@,
            attachment_id: self.attachment_id@,
            name: self.name@,
            file: self.file@,
            comment: self.comment@,
        }
    }
}

/// The replacement of the attachment `attachment_id` by the file of `request`.
pub open spec fn replacement_of(request: UploadAttachmentRequestView, attachment_id: Seq<char>)
    -> UpdateAttachmentRequestView {
    UpdateAttachmentRequestView {
        content_id: request.content_id,
        attachment_id,
        name: request.name,
        file: request.file,
        comment: request.comment,
    }
}

impl UploadAttachmentRequest {
    /// The upload of the local file `file` to the page `content_id`, under
    /// the name `name`.
    pub fn new(content_id: &str, name: &str, file: &str, comment: &str) -> (request: Self)
        ensures
            request@ == (UploadAttachmentRequestView {
                content_id: content_id@,
                name: name@,
                file: file@,
                comment: comment@,
            }),
    {
        UploadAttachmentRequest {
            content_id: content_id.to_owned(),
            name: name.to_owned(),
            file: file.to_owned(),
            comment: comment.to_owned(),
        }
    }

    /// A request equal to this one.
    pub fn clone_request(&self) -> (request: Self)
        ensures
            request@ == self@,
    {
        UploadAttachmentRequest {
            content_id: self.content_id.clone(),
            name: self.name.clone(),
            file: self.file.clone(),
            comment: self.comment.clone(),
        }
    }

    /// The request that replaces the found attachment `data` by this file.
    pub fn to_update_attachment_request(&self, data: AttachmentData) -> (request:
        UpdateAttachmentRequest)
        ensures
            request@ == replacement_of(self@, data@.id),
    {
        UpdateAttachmentRequest {
            content_id: self.content_id.clone(),
            attachment_id: data.id,
            name: self.name.clone(),
            file: self.file.clone(),
            comment: self.comment.clone(),
        }
    }
}

/// Why a reconciliation did not come to a write, or why the write failed.
#[derive(Clone, Debug, PartialEq, Eq)]
pub enum PublishError {
    /// The transport did not complete the request.
    Network(String),
    /// The wiki answered, but without the list that a lookup returns.
    NotFound,
    /// The answer could not be decoded.
    Parse(String),
    /// A local file could not be read.
    LocalIo(String),
}

} // verus!
