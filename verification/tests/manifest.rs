use serde_json::Value;
use wiki_publisher::model::{PublishError, UploadAttachmentRequest};
use wiki_publisher::reader::Walk;
use wiki_publisher::yml::{plan_entries, Metadata, Page};

fn leaf(title: &str) -> Page {
    Page {
        title: title.to_string(),
        content_file_path: format!("{}.html", title),
        children: Vec::new(),
        attachments: serde_json::Map::new(),
    }
}

fn with_children(title: &str, children: Vec<Page>) -> Page {
    Page { children, ..leaf(title) }
}

fn manifest(pages: Vec<Page>) -> Metadata {
    Metadata { space_key: "DOCS".to_string(), pages }
}

#[test]
fn attachments_are_planned_from_the_map() {
    let mut attachments: serde_json::Map<String, Value> = serde_json::Map::new();
    attachments.insert("a.png".to_string(), Value::String("img/a.png".to_string()));
    attachments.insert("b.png".to_string(), Value::Bool(true));
    attachments.insert("c.pdf".to_string(), Value::String("docs/c.pdf".to_string()));
    let details = Page { attachments, ..leaf("Details") };
    let plan = details.attachment_plan("101");
    assert_eq!(
        plan,
        vec![
            Ok(UploadAttachmentRequest::new("101", "a.png", "img/a.png", "")),
            Err(PublishError::LocalIo("b.png".to_string())),
            Ok(UploadAttachmentRequest::new("101", "c.pdf", "docs/c.pdf", "")),
        ]
    );
    assert!(leaf("Bare").attachment_plan("101").is_empty());
}

#[test]
fn entries_are_planned_one_for_one() {
    let entries = vec![
        ("z.png".to_string(), Some("z.png".to_string())),
        ("a.png".to_string(), None),
        ("z.png".to_string(), Some("other/z.png".to_string())),
    ];
    assert_eq!(
        plan_entries("7", &entries),
        vec![
            Ok(UploadAttachmentRequest::new("7", "z.png", "z.png", "")),
            Err(PublishError::LocalIo("a.png".to_string())),
            Ok(UploadAttachmentRequest::new("7", "z.png", "other/z.png", "")),
        ]
    );
    assert!(plan_entries("7", &Vec::new()).is_empty());
}

#[test]
fn walk_of_empty_manifest_is_done() {
    let metadata = manifest(Vec::new());
    let walk = Walk::start(&metadata);
    assert!(walk.is_done());
    assert!(walk.page(&metadata).is_none());
    assert_eq!(walk.advance(&metadata, Some("1".to_string())), Walk::Done);
}

#[test]
fn walk_is_depth_first() {
    let metadata = manifest(vec![
        with_children("Intro", vec![leaf("Details"), leaf("More")]),
        leaf("Appendix"),
    ]);
    let mut walk = Walk::start(&metadata);
    assert_eq!(walk, Walk::Root { page: 0 });
    assert_eq!(walk.page(&metadata).unwrap().title, "Intro");
    assert_eq!(walk.parent_id(), None);

    walk = walk.advance(&metadata, Some("100".to_string()));
    assert_eq!(walk, Walk::Child { page: 0, child: 0, parent_id: "100".to_string() });
    assert_eq!(walk.page(&metadata).unwrap().title, "Details");
    assert_eq!(walk.parent_id(), Some("100".to_string()));

    walk = walk.advance(&metadata, Some("101".to_string()));
    assert_eq!(walk, Walk::Child { page: 0, child: 1, parent_id: "100".to_string() });
    assert_eq!(walk.page(&metadata).unwrap().title, "More");

    walk = walk.advance(&metadata, Some("102".to_string()));
    assert_eq!(walk, Walk::Root { page: 1 });
    assert_eq!(walk.page(&metadata).unwrap().title, "Appendix");

    walk = walk.advance(&metadata, Some("103".to_string()));
    assert!(walk.is_done());
}

#[test]
fn failed_root_page_skips_its_children() {
    let metadata = manifest(vec![with_children("Intro", vec![leaf("Details")]), leaf("Appendix")]);
    let walk = Walk::start(&metadata).advance(&metadata, None);
    assert_eq!(walk, Walk::Root { page: 1 });
    let done = walk.advance(&metadata, None);
    assert_eq!(done, Walk::Done);
}

#[test]
fn failed_child_leaves_siblings_their_turn() {
    let metadata = manifest(vec![with_children("Intro", vec![leaf("Details"), leaf("More")])]);
    let first = Walk::start(&metadata).advance(&metadata, Some("100".to_string()));
    let second = first.advance(&metadata, None);
    assert_eq!(second, Walk::Child { page: 0, child: 1, parent_id: "100".to_string() });
    assert_eq!(second.advance(&metadata, None), Walk::Done);
}

#[test]
fn attachments_are_due_after_a_reconciled_child() {
    let mut attachments: serde_json::Map<String, Value> = serde_json::Map::new();
    attachments.insert("diagram.png".to_string(), Value::String("img/diagram.png".to_string()));
    let details = Page { attachments, ..leaf("Details") };
    let mut root_attachments: serde_json::Map<String, Value> = serde_json::Map::new();
    root_attachments.insert("root.png".to_string(), Value::String("root.png".to_string()));
    let intro = Page { attachments: root_attachments, ..with_children("Intro", vec![details]) };
    let metadata = manifest(vec![intro]);

    let at_root = Walk::start(&metadata);
    assert!(at_root.attachments(&metadata, &Some("100".to_string())).is_empty());
    let at_child = at_root.advance(&metadata, Some("100".to_string()));
    assert!(at_child.attachments(&metadata, &None).is_empty());
    assert_eq!(
        at_child.attachments(&metadata, &Some("101".to_string())),
        vec![Ok(UploadAttachmentRequest::new("101", "diagram.png", "img/diagram.png", ""))]
    );
    assert!(Walk::Done.attachments(&metadata, &Some("1".to_string())).is_empty());
}
