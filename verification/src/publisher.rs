//! The rules of reconciliation: from a desired page or attachment and what a
//! lookup reported of the wiki to the one write that brings the wiki up to date.

use crate::model::{
    attachment_data_of, content_data_of, contents_view, current_version, encode_title,
    encode_title_spec, page_type, replacement_of, storage_format, version_expansion,
    AttachmentData, Content, ContentData, ContentView,
    CreatePageRequest, CreatePageRequestView, FindChildPageRequest, FindChildPageRequestView,
    FindPageRequest, FindPageRequestView, PublishError, UpdateAttachmentRequest,
    UpdateAttachmentRequestView, UpdatePageRequest, UpdatePageRequestView,
    UploadAttachmentRequest, UploadAttachmentRequestView,
};
use vstd::prelude::*;

verus! {

/// A root page as it should stand in the wiki.
#[derive(Clone, Debug, PartialEq, Eq)]
pub struct CreateOrUpdatePageRequest {
    pub title: String,
    pub space: String,
    pub body: String,
}

pub ghost struct CreateOrUpdatePageRequestView {
    pub title: Seq<char>,
    pub space: Seq<char>,
    pub body: Seq<char>,
}

impl View for CreateOrUpdatePageRequest {
    type V = CreateOrUpdatePageRequestView;

    open spec fn view(&self) -> CreateOrUpdatePageRequestView {
        CreateOrUpdatePageRequestView { title: self.title@, space: self.space@, body: self.body@ }
    }
}

/// The write that overwrites the page `id`, now at `version`, with the given
/// title and body. It carries the next version number and no ancestor.
pub open spec fn update_of(
    title: Seq<char>,
    space: Seq<char>,
    body: Seq<char>,
    id: Seq<char>,
    version: u64,
) -> UpdatePageRequestView
    recommends
        version < u64::MAX,
{
    UpdatePageRequestView {
        id,
        title,
        space,
        body,
        representation: storage_format(),
        content_type: page_type(),
        ancestor: None,
        version: (version + 1) as u64,
    }
}

/// The write that creates a page with the given title and body, under
/// `ancestor` where there is one.
pub open spec fn creation_of(
    title: Seq<char>,
    space: Seq<char>,
    body: Seq<char>,
    ancestor: Option<Seq<char>>,
) -> CreatePageRequestView {
    CreatePageRequestView {
        title,
        space,
        body,
        representation: storage_format(),
        content_type: page_type(),
        ancestor,
    }
}

impl CreateOrUpdatePageRequest {
    /// The root page titled `title` of the space `space`, with `body` for its
    /// body.
    pub fn new(title: &str, space: &str, body: &str) -> (request: Self)
        ensures
            request@ == (CreateOrUpdatePageRequestView {
                title: title@,
                space: space@,
                body: body@,
            }),
    {
        CreateOrUpdatePageRequest {
            title: title.to_owned(),
            space: space.to_owned(),
            body: body.to_owned(),
        }
    }

    /// The update that overwrites the remote page `content_id`, which is at
    /// `version`, with this page.
    pub fn to_update_request(&self, content_id: &str, version: &u64) -> (update: UpdatePageRequest)
        requires
            *version < u64::MAX,
        ensures
            update@ == update_of(self@.title, self@.space, self@.body, content_id@, *version),
    {
        UpdatePageRequest {
            id: content_id.to_owned(),
            title: self.title.clone(),
            space: self.space.clone(),
            body: self.body.clone(),
            representation: "storage".to_owned(),
            content_type: "page".to_owned(),
            ancestor: None,
            version: *version + 1,
        }
    }

    /// The request that creates this page as a root page.
    pub fn to_create_request(&self) -> (create: CreatePageRequest)
        ensures
            create@ == creation_of(self@.title, self@.space, self@.body, None),
    {
        CreatePageRequest {
            title: self.title.clone(),
            space: self.space.clone(),
            body: self.body.clone(),
            representation: "storage".to_owned(),
            content_type: "page".to_owned(),
            ancestor: None,
        }
    }

    /// The title search that looks this page up in its space.
    pub fn to_find_request(&self) -> (find: FindPageRequest)
        ensures
            find@ == (FindPageRequestView {
                title: encode_title_spec(self@.title),
                space: self@.space,
                expand: version_expansion(),
            }),
    {
        FindPageRequest {
            title: encode_title(self.title.as_str()),
            space: self.space.clone(),
            expand: "version".to_owned(),
        }
    }
}

/// A page as it should stand in the wiki below the page `content_id`.
#[derive(Clone, Debug, PartialEq, Eq)]
pub struct CreateChildPageRequest {
    /// The remote id of the parent.
    pub content_id: String,
    pub title: String,
    pub space: String,
    pub body: String,
}

pub ghost struct CreateChildPageRequestView {
    pub content_id: Seq<char>,
    pub title: Seq<char>,
    pub space: Seq<char>,
    pub body: Seq<char>,
}

impl View for CreateChildPageRequest {
    type V = CreateChildPageRequestView;

    open spec fn view(&self) -> CreateChildPageRequestView {
        CreateChildPageRequestView {
            content_id: self.content_id@,
            title: self.title@,
            space: self.space@,
            body: self.body@,
        }
    }
}

impl CreateChildPageRequest {
    /// The page titled `title` below the remote page `content_id`, with
    /// `body` for its body.
    pub fn new(content_id: &str, title: &str, space: &str, body: &str) -> (request: Self)
        ensures
            request@ == (CreateChildPageRequestView {
                content_id: content_id@,
                title: title@,
                space: space@,
                body: body@,
            }),
    {
        CreateChildPageRequest {
            content_id: content_id.to_owned(),
            title: title.to_owned(),
            space: space.to_owned(),
            body: body.to_owned(),
        }
    }

    /// The update that overwrites the remote page `content_id`, which is at
    /// `version`, with this page. The page stays under the parent it has.
    pub fn to_update_request(&self, content_id: &str, version: &u64) -> (update: UpdatePageRequest)
        requires
            *version < u64::MAX,
        ensures
            update@ == update_of(self@.title, self@.space, self@.body, content_id@, *version),
    {
        UpdatePageRequest {
            id: content_id.to_owned(),
            title: self.title.clone(),
            space: self.space.clone(),
            body: self.body.clone(),
            representation: "storage".to_owned(),
            content_type: "page".to_owned(),
            ancestor: None,
            version: *version + 1,
        }
    }

    /// The request that creates this page with the parent as its one ancestor.
    pub fn to_create_request(&self) -> (create: CreatePageRequest)
        ensures
            create@ == creation_of(
                self@.title,
                self@.space,
                self@.body,
                Some(self@.content_id),
            ),
    {
        CreatePageRequest {
            title: self.title.clone(),
            space: self.space.clone(),
            body: self.body.clone(),
            representation: "storage".to_owned(),
            content_type: "page".to_owned(),
            ancestor: Some(self.content_id.clone()),
        }
    }

    /// The search for this page among the children of its parent, by the
    /// title as it is written.
    pub fn to_find_request(&self) -> (find: FindChildPageRequest)
        ensures
            find@ == (FindChildPageRequestView {
                content_id: self@.content_id,
                title: self@.title,
            }),
    {
        FindChildPageRequest { content_id: self.content_id.clone(), title: self.title.clone() }
    }
}

/// The one write that reconciles a page.
#[derive(Clone, Debug, PartialEq, Eq)]
pub enum PageAction {
    Create(CreatePageRequest),
    Update(UpdatePageRequest),
}

pub ghost enum PageActionView {
    Create(CreatePageRequestView),
    Update(UpdatePageRequestView),
}

impl View for PageAction {
    type V = PageActionView;

    open spec fn view(&self) -> PageActionView {
        match self {
            PageAction::Create(create) => PageActionView::Create(create@),
            PageAction::Update(update) => PageActionView::Update(update@),
        }
    }
}

/// The one write that reconciles an attachment.
#[derive(Clone, Debug, PartialEq, Eq)]
pub enum AttachmentAction {
    Upload(UploadAttachmentRequest),
    Replace(UpdateAttachmentRequest),
}

pub ghost enum AttachmentActionView {
    Upload(UploadAttachmentRequestView),
    Replace(UpdateAttachmentRequestView),
}

impl View for AttachmentAction {
    type V = AttachmentActionView;

    open spec fn view(&self) -> AttachmentActionView {
        match self {
            AttachmentAction::Upload(upload) => AttachmentActionView::Upload(upload@),
            AttachmentAction::Replace(replace) => AttachmentActionView::Replace(replace@),
        }
    }
}

/// What a lookup came to: the transport's failure, an answer without a list
/// (`Ok(None)`), or the list of what the wiki reported, which may be empty.
pub type Lookup = Result<Option<Vec<Content>>, PublishError>;

/// Whether `i` is the place of the first item of `list` titled `title`.
pub open spec fn is_first_titled(list: Seq<ContentView>, title: Seq<char>, i: int) -> bool {
    &&& 0 <= i < list.len()
    &&& list[i].title == title
    &&& forall|j: int| 0 <= j < i ==> (#[trigger] list[j]).title != title
}

/// Whether some item of `list` is titled `title`.
pub open spec fn has_titled(list: Seq<ContentView>, title: Seq<char>) -> bool {
    exists|i: int| 0 <= i < list.len() && (#[trigger] list[i]).title == title
}

/// The first item of `list` whose title is exactly `title`.
pub open spec fn find_titled(list: Seq<ContentView>, title: Seq<char>) -> Option<ContentView> {
    if has_titled(list, title) {
        Some(list[choose|i: int| is_first_titled(list, title, i)])
    } else {
        None
    }
}

/// The first titled item is the one at the first place where the title stands.
pub proof fn lemma_find_titled(list: Seq<ContentView>, title: Seq<char>, i: int)
    requires
        is_first_titled(list, title, i),
    ensures
        has_titled(list, title),
        find_titled(list, title) == Some(list[i]),
{
    let k = choose|k: int| is_first_titled(list, title, k);
    assert(is_first_titled(list, title, k));
    if k < i {
        assert(list[k].title != title);
    }
    if i < k {
        assert(list[i].title != title);
    }
}

/// The write that reconciles the root page `request` where the title search
/// reported `found`: a creation where nothing was found, else an update of the
/// first item found, to the version after its current one.
pub open spec fn page_action(request: CreateOrUpdatePageRequestView, found: Seq<ContentView>)
    -> PageActionView {
    if found.len() == 0 {
        PageActionView::Create(creation_of(request.title, request.space, request.body, None))
    } else {
        PageActionView::Update(
            update_of(
                request.title,
                request.space,
                request.body,
                found[0].id,
                current_version(found[0]),
            ),
        )
    }
}

/// The write that reconciles the child page `request` where its parent's
/// children are `children`: an update of the first child with the very title,
/// else a creation under the parent.
pub open spec fn child_page_action(request: CreateChildPageRequestView, children: Seq<ContentView>)
    -> PageActionView {
    match find_titled(children, request.title) {
        Some(child) => PageActionView::Update(
            update_of(
                request.title,
                request.space,
                request.body,
                child.id,
                current_version(child),
            ),
        ),
        None => PageActionView::Create(
            creation_of(request.title, request.space, request.body, Some(request.content_id)),
        ),
    }
}

/// The write that reconciles the attachment `request` where the owning page's
/// attachments are `attachments`: a replacement of the first one with the very
/// name, else a fresh upload.
pub open spec fn attachment_action(
    request: UploadAttachmentRequestView,
    attachments: Seq<ContentView>,
) -> AttachmentActionView {
    match find_titled(attachments, request.name) {
        Some(attachment) => AttachmentActionView::Replace(replacement_of(request, attachment.id)),
        None => AttachmentActionView::Upload(request),
    }
}

/// Whether the update of the item that reconciliation would pick from `found`
/// can carry the next version number.
pub open spec fn next_version_fits(picked: Option<ContentView>) -> bool {
    match picked {
        Some(content) => current_version(content) < u64::MAX,
        None => true,
    }
}

/// The first item of a title search, which is the one that a root page is
/// reconciled with.
pub open spec fn first_found(found: Seq<ContentView>) -> Option<ContentView> {
    if found.len() == 0 {
        None
    } else {
        Some(found[0])
    }
}

/// The list that a lookup reported, where it reported one.
pub open spec fn reported(lookup: Lookup) -> Option<Seq<ContentView>> {
    match lookup {
        Ok(Some(list)) => Some(contents_view(list@)),
        _ => None,
    }
}

/// The error with which every reconciliation ends on a lookup that reported no
/// list: the transport's own failure, handed on as it is, or
/// [`PublishError::NotFound`] for an answer without a list.
pub open spec fn lookup_failure(lookup: Lookup) -> PublishError {
    match lookup {
        Err(error) => error,
        _ => PublishError::NotFound,
    }
}

/// The place of the first item of `list` titled `title`.
pub fn position_titled(list: &Vec<Content>, title: &String) -> (place: Option<usize>)
    ensures
        match place {
            Some(i) => is_first_titled(contents_view(list@), title@, i as int),
            None => !has_titled(contents_view(list@), title@),
        },
{
    let mut i: usize = 0;
    while i < list.len()
        invariant
            i <= list.len(),
            forall|j: int| 0 <= j < i ==> (#[trigger] contents_view(list@)[j]).title != title@,
        decreases list.len() - i,
    {
        if list[i].title == *title {
            return Some(i);
        }
        i = i + 1;
    }
    None
}

/// Decides the writes of a one-way publish. It keeps no state: each decision
/// is made from the desired item and a fresh lookup alone.
#[derive(Clone, Debug, PartialEq, Eq)]
pub struct Publisher {}

impl Publisher {
    /// A publisher. One is as good as another: it holds nothing.
    pub fn new() -> Self {
        Publisher {  }
    }

    /// Looks for the page of `request` in the listing of its parent's children.
    ///
    /// The title is compared as it is written. A listing that failed or held no
    /// list at all is an error; a list without the title is `Ok(None)`.
    pub fn find_child_page(&self, request: &FindChildPageRequest, listing: Lookup) -> (found:
        Result<Option<ContentData>, PublishError>)
        ensures
            match reported(listing) {
                Some(children) => found is Ok && (match find_titled(children, request@.title) {
                    Some(child) => found->Ok_0 is Some && found->Ok_0->Some_0@ == content_data_of(
                        child,
                    ),
                    None => found->Ok_0 is None,
                }),
                None => found == Err::<Option<ContentData>, PublishError>(lookup_failure(listing)),
            },
    {
        match listing {
            Ok(Some(list)) => {
                match position_titled(&list, &request.title) {
                    Some(i) => {
                        proof {
                            lemma_find_titled(contents_view(list@), request@.title, i as int);
                        }
                        Ok(Some(ContentData::from_content(&list[i])))
                    },
                    None => Ok(None),
                }
            },
            Ok(None) => Err(PublishError::NotFound),
            Err(error) => Err(error),
        }
    }

    /// Whether [`Publisher::create_or_update_page`] can decide on `lookup`: it
    /// cannot where the page to update is at the last version number there is.
    pub fn can_update_page(&self, lookup: &Lookup) -> (fits: bool)
        ensures
            fits == (reported(*lookup) is Some ==> next_version_fits(
                first_found(reported(*lookup)->Some_0),
            )),
    {
        match lookup {
            Ok(Some(found)) => found.len() == 0 || found[0].current_version() < u64::MAX,
            _ => true,
        }
    }

    /// Whether [`Publisher::create_or_update_child_page`] can decide on
    /// `listing`: it cannot where the child to update is at the last version
    /// number there is.
    pub fn can_update_child_page(
        &self,
        request: &CreateChildPageRequest,
        listing: &Lookup,
    ) -> (fits: bool)
        ensures
            fits == (reported(*listing) is Some ==> next_version_fits(
                find_titled(reported(*listing)->Some_0, request@.title),
            )),
    {
        match listing {
            Ok(Some(children)) => {
                match position_titled(children, &request.title) {
                    Some(i) => {
                        proof {
                            lemma_find_titled(contents_view(children@), request@.title, i as int);
                        }
                        children[i].current_version() < u64::MAX
                    },
                    None => true,
                }
            },
            _ => true,
        }
    }

    /// Decides the write for the root page `request` from what the title search
    /// of [`CreateOrUpdatePageRequest::to_find_request`] came to.
    ///
    /// An empty list gives the creation of the page; any other list gives the
    /// update of its first item, whether or not the body differs. A search that
    /// failed gives that failure, one that held no list
    /// [`PublishError::NotFound`].
    pub fn create_or_update_page(
        &self,
        request: &CreateOrUpdatePageRequest,
        lookup: Lookup,
    ) -> (action: Result<PageAction, PublishError>)
        requires
            reported(lookup) is Some ==> next_version_fits(first_found(reported(lookup)->Some_0)),
        ensures
            match reported(lookup) {
                Some(found) => action is Ok && action->Ok_0@ == page_action(request@, found),
                None => action == Err::<PageAction, PublishError>(lookup_failure(lookup)),
            },
    {
        match lookup {
            Ok(Some(found)) => {
                if found.len() == 0 {
                    Ok(PageAction::Create(request.to_create_request()))
                } else {
                    let first = &found[0];
                    let version = first.current_version();
                    Ok(PageAction::Update(request.to_update_request(first.id.as_str(), &version)))
                }
            },
            Ok(None) => Err(PublishError::NotFound),
            Err(error) => Err(error),
        }
    }

    /// Decides the write for the child page `request` from the listing of its
    /// parent's children.
    ///
    /// Only the listing is searched, so a page of the same title elsewhere in
    /// the space is never taken for the child.
    pub fn create_or_update_child_page(
        &self,
        request: &CreateChildPageRequest,
        listing: Lookup,
    ) -> (action: Result<PageAction, PublishError>)
        requires
            reported(listing) is Some ==> next_version_fits(
                find_titled(reported(listing)->Some_0, request@.title),
            ),
        ensures
            match reported(listing) {
                Some(children) => action is Ok && action->Ok_0@ == child_page_action(
                    request@,
                    children,
                ),
                None => action == Err::<PageAction, PublishError>(lookup_failure(listing)),
            },
    {
        let find = request.to_find_request();
        match self.find_child_page(&find, listing) {
            Ok(None) => Ok(PageAction::Create(request.to_create_request())),
            Ok(Some(content)) => {
                let update = request.to_update_request(content.id.as_str(), &content.version);
                Ok(PageAction::Update(update))
            },
            Err(error) => Err(error),
        }
    }

    /// Reads the wiki's reply to a write: the reference to the page as it now
    /// stands, exactly as the wiki reported it. A reply without a page is
    /// [`PublishError::NotFound`]; a failed write gives its own failure.
    pub fn written_page(
        &self,
        reply: Result<Option<Content>,
        PublishError>,
    ) -> (written: Result< ContentData, PublishError, >)
        ensures
            match reply {
                Ok(Some(page)) => written is Ok && written->Ok_0@ == content_data_of(page@),
                Ok(None) => written == Err::<ContentData, PublishError>(PublishError::NotFound),
                Err(error) => written == Err::<ContentData, PublishError>(error),
            },
    {
        match reply {
            Ok(Some(page)) => Ok(ContentData::from_content(&page)),
            Ok(None) => Err(PublishError::NotFound),
            Err(error) => Err(error),
        }
    }

    /// Looks for the attachment named `filename` in the listing of the
    /// attachments of the page `content_id`.
    pub fn find_attachment_by_name(
        &self,
        content_id: &str,
        filename: &str,
        listing: Lookup,
    ) -> (found: Result<Option<AttachmentData>, PublishError>)
        ensures
            match reported(listing) {
                Some(attachments) => found is Ok && (match find_titled(attachments, filename@) {
                    Some(attachment) => found->Ok_0 is Some && found->Ok_0->Some_0@
                        == attachment_data_of(content_id@, attachment),
                    None => found->Ok_0 is None,
                }),
                None => found == Err::<Option<AttachmentData>, PublishError>(
                    lookup_failure(listing),
                ),
            },
    {
        match listing {
            Ok(Some(list)) => {
                let name = filename.to_owned();
                match position_titled(&list, &name) {
                    Some(i) => {
                        proof {
                            lemma_find_titled(contents_view(list@), filename@, i as int);
                        }
                        Ok(Some(AttachmentData::from_content(content_id, &list[i])))
                    },
                    None => Ok(None),
                }
            },
            Ok(None) => Err(PublishError::NotFound),
            Err(error) => Err(error),
        }
    }

    /// Decides the write for the attachment `request` from the listing of the
    /// owning page's attachments: the replacement of the one that bears the
    /// name, or an upload where none does.
    pub fn upload_or_update_attachment(
        &self,
        request: &UploadAttachmentRequest,
        listing: Lookup,
    ) -> (action: Result<AttachmentAction, PublishError>)
        ensures
            match reported(listing) {
                Some(attachments) => action is Ok && action->Ok_0@ == attachment_action(
                    request@,
                    attachments,
                ),
                None => action == Err::<AttachmentAction, PublishError>(lookup_failure(listing)),
            },
    {
        match self.find_attachment_by_name(
            request.content_id.as_str(),
            request.name.as_str(),
            listing,
        ) {
            Ok(Some(data)) => Ok(
                AttachmentAction::Replace(request.to_update_attachment_request(data)),
            ),
            Ok(None) => Ok(AttachmentAction::Upload(request.clone_request())),
            Err(error) => Err(error),
        }
    }
}

} // verus!
