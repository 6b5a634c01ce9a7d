//! The walk over the manifest: which page is reconciled next, given how the
//! reconciliation before it ended.
//!
//! The walk is depth-first. A root page comes first, then each of its children
//! under the remote id that the root page got, then the next root page. The
//! children of a page are visited only if the page itself was reconciled; a
//! child that fails leaves its siblings their turn, and so does an attachment.

use crate::model::{option_view, PublishError, UploadAttachmentRequest};
use crate::publisher::{
    CreateChildPageRequest, CreateChildPageRequestView, CreateOrUpdatePageRequest,
    CreateOrUpdatePageRequestView,
};
use crate::yml::{attachment_entries, plans_entries, Metadata, Page};
use vstd::prelude::*;

verus! {

/// Where the walk stands: at the page that is reconciled next.
#[derive(Clone, Debug, PartialEq, Eq)]
pub enum Walk {
    /// At the root page `page` of the manifest.
    Root { page: usize },
    /// At the child `child` of the root page `page`, which stands in the wiki
    /// as `parent_id`.
    Child { page: usize, child: usize, parent_id: String },
    /// Past the last page.
    Done,
}

pub ghost enum WalkView {
    Root { page: int },
    Child { page: int, child: int, parent_id: Seq<char> },
    Done,
}

impl View for Walk {
    type V = WalkView;

    open spec fn view(&self) -> WalkView {
        match self {
            Walk::Root { page } => WalkView::Root { page: *page as int },
            Walk::Child { page, child, parent_id } => WalkView::Child {
                page: *page as int,
                child: *child as int,
                parent_id: parent_id@,
            },
            Walk::Done => WalkView::Done,
        }
    }
}

/// The page to reconcile, as it should stand in the wiki.
#[derive(Clone, Debug, PartialEq, Eq)]
pub enum PageRequest {
    Root(CreateOrUpdatePageRequest),
    Child(CreateChildPageRequest),
}

pub ghost enum PageRequestView {
    Root(CreateOrUpdatePageRequestView),
    Child(CreateChildPageRequestView),
}

impl View for PageRequest {
    type V = PageRequestView;

    open spec fn view(&self) -> PageRequestView {
        match self {
            PageRequest::Root(request) => PageRequestView::Root(request@),
            PageRequest::Child(request) => PageRequestView::Child(request@),
        }
    }
}

/// Whether `walk` stands at a page of `metadata`, or past the last.
pub open spec fn walk_in(metadata: &Metadata, walk: WalkView) -> bool {
    match walk {
        WalkView::Root { page } => 0 <= page < metadata.pages@.len(),
        WalkView::Child { page, child, .. } => {
            &&& 0 <= page < metadata.pages@.len()
            &&& 0 <= child < metadata.pages@[page].children@.len()
        },
        WalkView::Done => true,
    }
}

/// The walk at the root page `page`, or past the last page where the manifest
/// has no such page.
pub open spec fn walk_from_root(metadata: &Metadata, page: int) -> WalkView {
    if 0 <= page < metadata.pages@.len() {
        WalkView::Root { page }
    } else {
        WalkView::Done
    }
}

/// Where the walk stands after the page at `walk` was dealt with. `outcome` is
/// the remote id of that page where its reconciliation succeeded, `None` where
/// it failed.
pub open spec fn walk_after(metadata: &Metadata, walk: WalkView, outcome: Option<Seq<char>>)
    -> WalkView {
    match walk {
        WalkView::Root { page } => match outcome {
            Some(id) if metadata.pages@[page].children@.len() > 0 => WalkView::Child {
                page,
                child: 0,
                parent_id: id,
            },
            _ => walk_from_root(metadata, page + 1),
        },
        WalkView::Child { page, child, parent_id } => if child + 1
            < metadata.pages@[page].children@.len() {
            WalkView::Child { page, child: child + 1, parent_id }
        } else {
            walk_from_root(metadata, page + 1)
        },
        WalkView::Done => WalkView::Done,
    }
}

/// The page at `walk` as it should stand in the wiki, with `body` for its
/// body: in the space of the manifest, under the title that the manifest gives
/// it, and, for a child, below the remote page `parent_id`.
pub open spec fn request_at(metadata: &Metadata, walk: WalkView, body: Seq<char>) -> Option<
    PageRequestView,
> {
    match walk {
        WalkView::Root { page } => Some(
            PageRequestView::Root(
                CreateOrUpdatePageRequestView {
                    title: metadata.pages@[page].title@,
                    space: metadata.space_key@,
                    body,
                },
            ),
        ),
        WalkView::Child { page, child, parent_id } => Some(
            PageRequestView::Child(
                CreateChildPageRequestView {
                    content_id: parent_id,
                    title: metadata.pages@[page].children@[child].title@,
                    space: metadata.space_key@,
                    body,
                },
            ),
        ),
        WalkView::Done => None,
    }
}

impl Walk {
    /// The walk at its beginning: at the first root page, if there is one.
    pub fn start(metadata: &Metadata) -> (walk: Walk)
        ensures
            walk@ == walk_from_root(metadata, 0),
            walk_in(metadata, walk@),
    {
        if metadata.pages.len() > 0 {
            Walk::Root { page: 0 }
        } else {
            Walk::Done
        }
    }

    /// Whether the walk is past the last page.
    pub fn is_done(&self) -> (done: bool)
        ensures
            done == (self@ is Done),
    {
        match self {
            Walk::Done => true,
            _ => false,
        }
    }

    /// Whether the walk stands at a page of `metadata`, or past the last.
    pub fn stands_in(&self, metadata: &Metadata) -> (inside: bool)
        ensures
            inside == walk_in(metadata, self@),
    {
        match self {
            Walk::Root { page } => *page < metadata.pages.len(),
            Walk::Child { page, child, .. } => *page < metadata.pages.len() && *child
                < metadata.pages[*page].children.len(),
            Walk::Done => true,
        }
    }

    /// The page at which the walk stands as it should stand in the wiki, with
    /// `body` for its body.
    pub fn request(&self, metadata: &Metadata, body: &str) -> (request: Option<PageRequest>)
        requires
            walk_in(metadata, self@),
        ensures
            match request_at(metadata, self@, body@) {
                Some(due) => request is Some && request->Some_0@ == due,
                None => request is None,
            },
    {
        match self {
            Walk::Root { page } => {
                let title = metadata.pages[*page].title.as_str();
                Some(
                    PageRequest::Root(
                        CreateOrUpdatePageRequest::new(title, metadata.space_key.as_str(), body),
                    ),
                )
            },
            Walk::Child { page, child, parent_id } => {
                let title = metadata.pages[*page].children[*child].title.as_str();
                Some(
                    PageRequest::Child(
                        CreateChildPageRequest::new(
                            parent_id.as_str(),
                            title,
                            metadata.space_key.as_str(),
                            body,
                        ),
                    ),
                )
            },
            Walk::Done => None,
        }
    }

    /// The page of the manifest at which the walk stands.
    pub fn page<'a>(&self, metadata: &'a Metadata) -> (page: Option<&'a Page>)
        requires
            walk_in(metadata, self@),
        ensures
            match self@ {
                WalkView::Root { page: at } => page == Some(&metadata.pages@[at]),
                WalkView::Child { page: at, child, .. } => page == Some(
                    &metadata.pages@[at].children@[child],
                ),
                WalkView::Done => page is None,
            },
    {
        match self {
            Walk::Root { page } => Some(&metadata.pages[*page]),
            Walk::Child { page, child, .. } => Some(&metadata.pages[*page].children[*child]),
            Walk::Done => None,
        }
    }

    /// The remote id under which the page at which the walk stands is to be
    /// reconciled: that of its parent for a child, none for a root page.
    pub fn parent_id(&self) -> (id: Option<String>)
        ensures
            match self@ {
                WalkView::Child { parent_id, .. } => option_view(id) == Some(parent_id),
                _ => id is None,
            },
    {
        match self {
            Walk::Child { parent_id, .. } => Some(parent_id.clone()),
            _ => None,
        }
    }

    /// The attachments to reconcile now that the page at which the walk stands
    /// came to `outcome`: those of a child that was reconciled, planned under
    /// its remote id, and none in every other case.
    pub fn attachments(&self, metadata: &Metadata, outcome: &Option<String>) -> (plan: Vec<
        Result<UploadAttachmentRequest, PublishError>,
    >)
        requires
            walk_in(metadata, self@),
        ensures
            match (self@, option_view(*outcome)) {
                (WalkView::Child { page, child, .. }, Some(id)) => plans_entries(
                    plan@,
                    id,
                    attachment_entries(metadata.pages@[page].children@[child].attachments),
                ),
                _ => plan@.len() == 0,
            },
    {
        match (self, outcome) {
            (Walk::Child { page, child, .. }, Some(id)) => {
                metadata.pages[*page].children[*child].attachment_plan(id.as_str())
            },
            _ => Vec::new(),
        }
    }

    /// Moves on from the page at which the walk stands. `outcome` is the remote
    /// id of that page where its reconciliation succeeded, `None` where it
    /// failed.
    pub fn advance(self, metadata: &Metadata, outcome: Option<String>) -> (next: Walk)
        requires
            walk_in(metadata, self@),
        ensures
            next@ == walk_after(metadata, self@, option_view(outcome)),
            walk_in(metadata, next@),
    {
        let pages: usize = metadata.pages.len();
        match self {
            Walk::Root { page } => {
                match outcome {
                    Some(id) => {
                        if metadata.pages[page].children.len() > 0 {
                            Walk::Child { page, child: 0, parent_id: id }
                        } else {
                            Walk::from_root(metadata, page + 1)
                        }
                    },
                    None => Walk::from_root(metadata, page + 1),
                }
            },
            Walk::Child { page, child, parent_id } => {
                let children: usize = metadata.pages[page].children.len();
                if child + 1 < children {
                    Walk::Child { page, child: child + 1, parent_id }
                } else {
                    Walk::from_root(metadata, page + 1)
                }
            },
            Walk::Done => Walk::Done,
        }
    }

    fn from_root(metadata: &Metadata, page: usize) -> (walk: Walk)
        ensures
            walk@ == walk_from_root(metadata, page as int),
            walk_in(metadata, walk@),
    {
        if page < metadata.pages.len() {
            Walk::Root { page }
        } else {
            Walk::Done
        }
    }
}

} // verus!
