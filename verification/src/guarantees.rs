//! What holds of every reconciliation, proved from the rules of
//! [`crate::publisher`].
//!
//! Where a statement speaks of two reconciliations in a row, the wiki between
//! them is modelled by [`found_after`]: it carries out the one write and
//! nothing else changes.

use crate::model::{current_version, ContentView};
use crate::publisher::{
    attachment_action, child_page_action, creation_of, find_titled, has_titled, is_first_titled,
    lemma_find_titled, page_action, update_of, AttachmentActionView,
    CreateChildPageRequestView, CreateOrUpdatePageRequestView, PageActionView,
};
use crate::model::UploadAttachmentRequestView;
use crate::reader::{walk_after, walk_in, WalkView};
use crate::yml::Metadata;
use vstd::prelude::*;

verus! {

/// The version number that the wiki gives a page when it creates it.
pub const INITIAL_VERSION: u64 = 1;

/// What the same lookup reports once the wiki has carried out `action`, where
/// it reported `found` before and nothing else has changed. A created page
/// comes last, under the id `new_id` that the wiki gave it and at
/// [`INITIAL_VERSION`]; an updated page stands where it stood, at the version
/// that the update carried.
pub open spec fn found_after(found: Seq<ContentView>, action: PageActionView, new_id: Seq<char>)
    -> Seq<ContentView> {
    match action {
        PageActionView::Create(create) => found.push(
            ContentView { id: new_id, title: create.title, version: Some(INITIAL_VERSION) },
        ),
        PageActionView::Update(update) => found.map_values(
            |page: ContentView|
                if page.id == update.id {
                    ContentView { id: page.id, title: update.title, version: Some(update.version) }
                } else {
                    page
                },
        ),
    }
}

/// Among the items that bear a title, one comes first.
pub proof fn lemma_first_titled_exists(list: Seq<ContentView>, title: Seq<char>, i: int)
    requires
        0 <= i < list.len(),
        list[i].title == title,
    ensures
        exists|k: int| is_first_titled(list, title, k),
    decreases i,
{
    if exists|j: int| 0 <= j < i && (#[trigger] list[j]).title == title {
        let j = choose|j: int| 0 <= j < i && (#[trigger] list[j]).title == title;
        lemma_first_titled_exists(list, title, j);
    } else {
        assert(is_first_titled(list, title, i));
    }
}

/// A search by title finds an item exactly where the list holds one with that
/// title, and then the first of them.
pub proof fn lemma_find_titled_is_first(list: Seq<ContentView>, title: Seq<char>)
    ensures
        has_titled(list, title) <==> find_titled(list, title) is Some,
        find_titled(list, title) is Some ==> exists|k: int|
            is_first_titled(list, title, k) && find_titled(list, title) == Some(list[k]),
{
    if has_titled(list, title) {
        let i = choose|i: int| 0 <= i < list.len() && (#[trigger] list[i]).title == title;
        lemma_first_titled_exists(list, title, i);
        let k = choose|k: int| is_first_titled(list, title, k);
        lemma_find_titled(list, title, k);
    }
}

/// A root page that the title search did not find is reconciled by one write,
/// and that write is a creation, of a page without a parent. The page then
/// stands in the wiki at [`INITIAL_VERSION`], under the id that the wiki gave.
pub proof fn unmatched_page_is_created(
    request: CreateOrUpdatePageRequestView,
    found: Seq<ContentView>,
    new_id: Seq<char>,
)
    requires
        found.len() == 0,
    ensures
        page_action(request, found) == PageActionView::Create(
            creation_of(request.title, request.space, request.body, None),
        ),
        found_after(found, page_action(request, found), new_id) == seq![
            ContentView { id: new_id, title: request.title, version: Some(INITIAL_VERSION) },
        ],
{
    assert(found_after(found, page_action(request, found), new_id) =~= seq![
        ContentView { id: new_id, title: request.title, version: Some(INITIAL_VERSION) },
    ]);
}

/// A root page that the title search found at version `v` is reconciled by one
/// write, and that write is an update of the found page that carries the whole
/// desired body and version `v + 1`.
pub proof fn matched_page_is_updated(
    request: CreateOrUpdatePageRequestView,
    found: Seq<ContentView>,
)
    requires
        found.len() >= 1,
        current_version(found[0]) < u64::MAX,
    ensures
        page_action(request, found) is Update,
        page_action(request, found)->Update_0.id == found[0].id,
        page_action(request, found)->Update_0.body == request.body,
        page_action(request, found)->Update_0.version == current_version(found[0]) + 1,
{
}

/// Reconciling the same root page again and again, with no other change to the
/// wiki, never submits a version number twice: after the first write each
/// reconciliation is an update of the same page, with the version after the
/// one that the write before it left.
pub proof fn versions_are_never_reused(
    request: CreateOrUpdatePageRequestView,
    found: Seq<ContentView>,
    new_id: Seq<char>,
)
    requires
        found.len() >= 1 ==> current_version(found[0]) + 2 < u64::MAX,
    ensures
        ({
            let first = page_action(request, found);
            let found_then = found_after(found, first, new_id);
            let second = page_action(request, found_then);
            let third = page_action(request, found_after(found_then, second, new_id));
            &&& second is Update
            &&& third is Update
            &&& third->Update_0.id == second->Update_0.id
            &&& third->Update_0.version == second->Update_0.version + 1
            &&& match first {
                PageActionView::Create(_) => {
                    &&& second->Update_0.id == new_id
                    &&& second->Update_0.version == INITIAL_VERSION + 1
                },
                PageActionView::Update(update) => {
                    &&& update.version == current_version(found[0]) + 1
                    &&& second->Update_0.id == update.id
                    &&& second->Update_0.version == update.version + 1
                },
            }
        }),
{
    let first = page_action(request, found);
    let found_then = found_after(found, first, new_id);
    assert(found_then.len() >= 1);
    let second = page_action(request, found_then);
    let found_last = found_after(found_then, second, new_id);
    assert(found_last.len() >= 1);
}

/// A child page is matched among the children of its parent only. An update
/// always overwrites an item of the listing that bears the very title, the
/// first of them; where the listing holds no such item, the page is created
/// under the parent, whatever else in the space bears the title.
pub proof fn child_match_is_scoped(
    request: CreateChildPageRequestView,
    children: Seq<ContentView>,
)
    ensures
        match child_page_action(request, children) {
            PageActionView::Update(update) => exists|k: int|
                is_first_titled(children, request.title, k) && update == update_of(
                    request.title,
                    request.space,
                    request.body,
                    children[k].id,
                    current_version(children[k]),
                ),
            PageActionView::Create(create) => {
                &&& !has_titled(children, request.title)
                &&& create.ancestor == Some(request.content_id)
            },
        },
{
    lemma_find_titled_is_first(children, request.title);
}

/// An attachment whose name stands in the listing of the owning page is never
/// uploaded anew: it is replaced, and the replacement names the first listed
/// attachment of that name. One whose name does not stand there is uploaded.
pub proof fn named_attachment_is_replaced(
    request: UploadAttachmentRequestView,
    attachments: Seq<ContentView>,
)
    ensures
        has_titled(attachments, request.name) <==> attachment_action(request, attachments)
            is Replace,
        !has_titled(attachments, request.name) ==> attachment_action(request, attachments)
            == AttachmentActionView::Upload(request),
        has_titled(attachments, request.name) ==> exists|k: int|
            is_first_titled(attachments, request.name, k) && attachment_action(
                request,
                attachments,
            )->Replace_0.attachment_id == attachments[k].id,
{
    lemma_find_titled_is_first(attachments, request.name);
}

/// How far a walk has come: the root page it is at or below, and, below it,
/// the number of pages of that subtree that it has left behind.
pub open spec fn walk_position(metadata: &Metadata, walk: WalkView) -> (int, int) {
    match walk {
        WalkView::Root { page } => (page, 0),
        WalkView::Child { page, child, .. } => (page, child + 1),
        WalkView::Done => (metadata.pages@.len() as int, 0),
    }
}

/// Every step of the walk moves it forward, whatever came of the page it
/// stood at, so the walk comes to its end and visits no page twice.
pub proof fn walk_moves_forward(metadata: &Metadata, walk: WalkView, outcome: Option<Seq<char>>)
    requires
        walk_in(metadata, walk),
        !(walk is Done),
    ensures
        walk_in(metadata, walk_after(metadata, walk, outcome)),
        ({
            let before = walk_position(metadata, walk);
            let after = walk_position(metadata, walk_after(metadata, walk, outcome));
            before.0 < after.0 || (before.0 == after.0 && before.1 < after.1)
        }),
{
}

/// The children of a root page are visited only when the page itself was
/// reconciled, and then under the remote id that it got.
pub proof fn children_follow_their_parent(
    metadata: &Metadata,
    page: int,
    outcome: Option<Seq<char>>,
)
    requires
        walk_in(metadata, WalkView::Root { page }),
    ensures
        walk_after(metadata, WalkView::Root { page }, outcome) is Child <==> outcome is Some
            && metadata.pages@[page].children@.len() > 0,
        outcome is Some && metadata.pages@[page].children@.len() > 0 ==> walk_after(
            metadata,
            WalkView::Root { page },
            outcome,
        ) == (WalkView::Child { page, child: 0, parent_id: outcome->Some_0 }),
{
}

/// A child that could not be reconciled takes nothing from its siblings: the
/// walk goes on to the next of them just as after a child that could.
pub proof fn failed_child_keeps_siblings(
    metadata: &Metadata,
    page: int,
    child: int,
    parent_id: Seq<char>,
    outcome: Option<Seq<char>>,
)
    requires
        walk_in(metadata, WalkView::Child { page, child, parent_id }),
    ensures
        walk_after(metadata, WalkView::Child { page, child, parent_id }, None) == walk_after(
            metadata,
            WalkView::Child { page, child, parent_id },
            outcome,
        ),
        child + 1 < metadata.pages@[page].children@.len() ==> walk_after(
            metadata,
            WalkView::Child { page, child, parent_id },
            None,
        ) == (WalkView::Child { page, child: child + 1, parent_id }),
{
}

} // verus!
