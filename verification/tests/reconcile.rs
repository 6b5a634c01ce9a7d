use wiki_publisher::model::{
    encode_title, AttachmentData, Content, ContentData, CreatePageRequest, FindChildPageRequest,
    FindPageRequest, PublishError, UpdateAttachmentRequest, UpdatePageRequest,
    UploadAttachmentRequest, DEFAULT_VERSION,
};
use wiki_publisher::publisher::{
    position_titled, AttachmentAction, CreateChildPageRequest, CreateOrUpdatePageRequest, Lookup,
    PageAction, Publisher,
};

fn page(id: &str, title: &str, version: u64) -> Content {
    Content::new(id, title, Some(version))
}

fn listed(items: Vec<Content>) -> Lookup {
    Ok(Some(items))
}

fn intro() -> CreateOrUpdatePageRequest {
    CreateOrUpdatePageRequest::new("Intro", "DOCS", "<p>hello</p>")
}

fn expect_update(action: Result<PageAction, PublishError>) -> UpdatePageRequest {
    match action {
        Ok(PageAction::Update(update)) => update,
        other => panic!("expected an update, got {:?}", other),
    }
}

fn expect_create(action: Result<PageAction, PublishError>) -> CreatePageRequest {
    match action {
        Ok(PageAction::Create(create)) => create,
        other => panic!("expected a creation, got {:?}", other),
    }
}

#[test]
fn encode_title_replaces_each_space() {
    assert_eq!(encode_title("My Page Title"), "My+Page+Title");
    assert_eq!(encode_title("  a  "), "++a++");
    assert_eq!(encode_title("Intro"), "Intro");
    assert_eq!(encode_title(""), "");
    assert_eq!(encode_title("a+b c"), "a+b+c");
    assert_eq!(encode_title("Übersicht der Seiten"), "Übersicht+der+Seiten");
}

#[test]
fn find_request_of_root_page() {
    let request = CreateOrUpdatePageRequest::new("Release Notes", "DOCS", "body");
    assert_eq!(
        request.to_find_request(),
        FindPageRequest {
            title: "Release+Notes".to_string(),
            space: "DOCS".to_string(),
            expand: "version".to_string(),
        }
    );
}

#[test]
fn find_request_of_child_page_keeps_title() {
    let request = CreateChildPageRequest::new("100", "Release Notes", "DOCS", "body");
    assert_eq!(
        request.to_find_request(),
        FindChildPageRequest { content_id: "100".to_string(), title: "Release Notes".to_string() }
    );
}

#[test]
fn new_requests_hold_their_arguments() {
    let root = CreateOrUpdatePageRequest::new("T", "S", "B");
    assert_eq!((root.title.as_str(), root.space.as_str(), root.body.as_str()), ("T", "S", "B"));
    let child = CreateChildPageRequest::new("7", "T", "S", "B");
    assert_eq!(child.content_id, "7");
    assert_eq!((child.title.as_str(), child.space.as_str(), child.body.as_str()), ("T", "S", "B"));
    let upload = UploadAttachmentRequest::new("7", "a.png", "/tmp/a.png", "note");
    assert_eq!(upload.content_id, "7");
    assert_eq!(upload.name, "a.png");
    assert_eq!(upload.file, "/tmp/a.png");
    assert_eq!(upload.comment, "note");
}

#[test]
fn update_request_carries_next_version() {
    let update = intro().to_update_request("100", &41);
    assert_eq!(
        update,
        UpdatePageRequest {
            id: "100".to_string(),
            title: "Intro".to_string(),
            space: "DOCS".to_string(),
            body: "<p>hello</p>".to_string(),
            representation: "storage".to_string(),
            content_type: "page".to_string(),
            ancestor: None,
            version: 42,
        }
    );
    let top = intro().to_update_request("100", &(u64::MAX - 1));
    assert_eq!(top.version, u64::MAX);
}

#[test]
fn child_update_request_sets_no_ancestor() {
    let child = CreateChildPageRequest::new("100", "Details", "DOCS", "text");
    let update = child.to_update_request("101", &3);
    assert_eq!(update.id, "101");
    assert_eq!(update.version, 4);
    assert_eq!(update.ancestor, None);
    assert_eq!(update.title, "Details");
    assert_eq!(update.content_type, "page");
    assert_eq!(update.representation, "storage");
}

#[test]
fn new_root_page_is_created() {
    let publisher = Publisher::new();
    let create = expect_create(publisher.create_or_update_page(&intro(), listed(vec![])));
    assert_eq!(
        create,
        CreatePageRequest {
            title: "Intro".to_string(),
            space: "DOCS".to_string(),
            body: "<p>hello</p>".to_string(),
            representation: "storage".to_string(),
            content_type: "page".to_string(),
            ancestor: None,
        }
    );
    let written = publisher.written_page(Ok(Some(page("100", "Intro", 1)))).unwrap();
    assert_eq!(
        written,
        ContentData { id: "100".to_string(), title: "Intro".to_string(), version: 1 }
    );
}

#[test]
fn existing_root_page_is_updated() {
    let publisher = Publisher::new();
    let update =
        expect_update(publisher.create_or_update_page(&intro(), listed(vec![page("100", "Intro", 1)])));
    assert_eq!(update.id, "100");
    assert_eq!(update.version, 2);
    assert_eq!(update.body, "<p>hello</p>");
}

#[test]
fn new_child_page_is_created_under_parent() {
    let publisher = Publisher::new();
    let details = CreateChildPageRequest::new("100", "Details", "DOCS", "text");
    let create = expect_create(publisher.create_or_update_child_page(&details, listed(vec![])));
    assert_eq!(create.ancestor, Some("100".to_string()));
    assert_eq!(create.title, "Details");
    assert_eq!(create.space, "DOCS");
    assert_eq!(create.body, "text");
    assert_eq!(create.content_type, "page");
}

#[test]
fn attachment_is_uploaded_then_replaced() {
    let publisher = Publisher::new();
    let request = UploadAttachmentRequest::new("101", "diagram.png", "img/diagram.png", "");
    let first = publisher.upload_or_update_attachment(&request, listed(vec![])).unwrap();
    assert_eq!(first, AttachmentAction::Upload(request.clone()));
    let present = listed(vec![Content::new("att7", "diagram.png", Some(1))]);
    let second = publisher.upload_or_update_attachment(&request, present).unwrap();
    assert_eq!(
        second,
        AttachmentAction::Replace(UpdateAttachmentRequest {
            content_id: "101".to_string(),
            attachment_id: "att7".to_string(),
            name: "diagram.png".to_string(),
            file: "img/diagram.png".to_string(),
            comment: "".to_string(),
        })
    );
}

#[test]
fn repeated_reconciliation_never_reuses_a_version() {
    let publisher = Publisher::new();
    let mut remote: Vec<Content> = vec![page("100", "Intro", 5)];
    let mut submitted: Vec<u64> = Vec::new();
    for _ in 0..3 {
        let update = expect_update(publisher.create_or_update_page(&intro(), listed(remote.clone())));
        submitted.push(update.version);
        remote = vec![page(&update.id, &update.title, update.version)];
    }
    assert_eq!(submitted, vec![6, 7, 8]);
}

#[test]
fn first_match_is_the_one_updated() {
    let publisher = Publisher::new();
    let found = listed(vec![page("100", "Intro", 4), page("200", "Intro", 9)]);
    let update = expect_update(publisher.create_or_update_page(&intro(), found));
    assert_eq!(update.id, "100");
    assert_eq!(update.version, 5);
}

#[test]
fn absent_version_counts_as_default() {
    assert_eq!(DEFAULT_VERSION, 1);
    let bare = Content::new("100", "Intro", None);
    assert!(bare.version_is_assumed());
    assert_eq!(bare.current_version(), 1);
    assert!(!page("100", "Intro", 3).version_is_assumed());
    assert_eq!(page("100", "Intro", 3).current_version(), 3);
    let publisher = Publisher::new();
    let update = expect_update(publisher.create_or_update_page(&intro(), listed(vec![bare])));
    assert_eq!(update.version, 2);
}

#[test]
fn lookup_without_list_is_not_found() {
    let publisher = Publisher::new();
    assert_eq!(publisher.create_or_update_page(&intro(), Ok(None)), Err(PublishError::NotFound));
    let details = CreateChildPageRequest::new("100", "Details", "DOCS", "text");
    assert_eq!(
        publisher.create_or_update_child_page(&details, Ok(None)),
        Err(PublishError::NotFound)
    );
    assert_eq!(
        publisher.find_child_page(&details.to_find_request(), Ok(None)),
        Err(PublishError::NotFound)
    );
    assert_eq!(
        publisher.find_attachment_by_name("101", "a.png", Ok(None)),
        Err(PublishError::NotFound)
    );
    let upload = UploadAttachmentRequest::new("101", "a.png", "a.png", "");
    assert_eq!(
        publisher.upload_or_update_attachment(&upload, Ok(None)),
        Err(PublishError::NotFound)
    );
    assert_eq!(publisher.written_page(Ok(None)), Err(PublishError::NotFound));
}

#[test]
fn transport_failure_is_handed_on() {
    let publisher = Publisher::new();
    let refused = || PublishError::Network("connection refused".to_string());
    let garbled = || PublishError::Parse("unexpected end of input".to_string());
    assert_eq!(publisher.create_or_update_page(&intro(), Err(refused())), Err(refused()));
    assert_eq!(publisher.create_or_update_page(&intro(), Err(garbled())), Err(garbled()));
    let details = CreateChildPageRequest::new("100", "Details", "DOCS", "text");
    assert_eq!(publisher.create_or_update_child_page(&details, Err(refused())), Err(refused()));
    assert_eq!(
        publisher.find_child_page(&details.to_find_request(), Err(garbled())),
        Err(garbled())
    );
    assert_eq!(publisher.find_attachment_by_name("101", "a.png", Err(refused())), Err(refused()));
    let upload = UploadAttachmentRequest::new("101", "a.png", "a.png", "");
    assert_eq!(publisher.upload_or_update_attachment(&upload, Err(garbled())), Err(garbled()));
    assert_eq!(publisher.written_page(Err(refused())), Err(refused()));
    let unread = PublishError::LocalIo("a.png".to_string());
    assert_eq!(publisher.written_page(Err(unread.clone())), Err(unread));
}

#[test]
fn child_is_matched_by_exact_title_only() {
    let publisher = Publisher::new();
    let details = CreateChildPageRequest::new("100", "Details", "DOCS", "text");
    let children = vec![
        page("101", "details", 3),
        page("102", "Details ", 4),
        page("103", "Details", 7),
        page("104", "Details", 9),
    ];
    assert_eq!(position_titled(&children, &"Details".to_string()), Some(2));
    assert_eq!(position_titled(&children, &"Missing".to_string()), None);
    let found = publisher.find_child_page(&details.to_find_request(), listed(children.clone()));
    assert_eq!(
        found,
        Ok(Some(ContentData { id: "103".to_string(), title: "Details".to_string(), version: 7 }))
    );
    let update = expect_update(publisher.create_or_update_child_page(&details, listed(children)));
    assert_eq!(update.id, "103");
    assert_eq!(update.version, 8);
    assert_eq!(update.ancestor, None);
}

#[test]
fn child_elsewhere_in_space_is_not_matched() {
    let publisher = Publisher::new();
    let details = CreateChildPageRequest::new("100", "Details", "DOCS", "text");
    // "Details" exists below another parent; the children of "100" hold none.
    let children_of_100 = vec![page("110", "Overview", 2)];
    let create = expect_create(publisher.create_or_update_child_page(&details, listed(children_of_100)));
    assert_eq!(create.ancestor, Some("100".to_string()));
    let none = publisher.find_child_page(&details.to_find_request(), listed(vec![]));
    assert_eq!(none, Ok(None));
}

#[test]
fn child_without_version_is_updated_to_two() {
    let publisher = Publisher::new();
    let details = CreateChildPageRequest::new("100", "Details", "DOCS", "text");
    let children = vec![Content::new("101", "Details", None)];
    let update = expect_update(publisher.create_or_update_child_page(&details, listed(children)));
    assert_eq!(update.version, 2);
}

#[test]
fn attachment_is_found_by_name() {
    let publisher = Publisher::new();
    let attachments = vec![
        Content::new("att1", "logo.png", Some(1)),
        Content::new("att2", "diagram.png", Some(2)),
        Content::new("att3", "diagram.png", Some(1)),
    ];
    assert_eq!(
        publisher.find_attachment_by_name("101", "diagram.png", listed(attachments.clone())),
        Ok(Some(AttachmentData { id: "att2".to_string(), content_id: "101".to_string() }))
    );
    assert_eq!(
        publisher.find_attachment_by_name("101", "diagram.PNG", listed(attachments)),
        Ok(None)
    );
}

#[test]
fn existing_attachment_is_never_uploaded_again() {
    let publisher = Publisher::new();
    let request = UploadAttachmentRequest::new("101", "diagram.png", "img/diagram.png", "");
    let attachments = vec![
        Content::new("att1", "logo.png", Some(1)),
        Content::new("att2", "diagram.png", Some(2)),
    ];
    match publisher.upload_or_update_attachment(&request, listed(attachments)) {
        Ok(AttachmentAction::Replace(replace)) => {
            assert_eq!(replace.attachment_id, "att2");
            assert_eq!(replace.content_id, "101");
            assert_eq!(replace.name, "diagram.png");
            assert_eq!(replace.file, "img/diagram.png");
        }
        other => panic!("expected a replacement, got {:?}", other),
    }
    let others = vec![Content::new("att1", "logo.png", Some(1))];
    assert_eq!(
        publisher.upload_or_update_attachment(&request, listed(others)),
        Ok(AttachmentAction::Upload(request.clone()))
    );
}

#[test]
fn replacement_request_names_found_attachment() {
    let request = UploadAttachmentRequest::new("101", "a.png", "files/a.png", "c");
    let data = AttachmentData { id: "att9".to_string(), content_id: "101".to_string() };
    let replace = request.to_update_attachment_request(data);
    assert_eq!(replace.attachment_id, "att9");
    assert_eq!(replace.content_id, "101");
    assert_eq!(replace.comment, "c");
    assert_eq!(request.clone_request(), request);
}

#[test]
fn references_are_taken_from_reported_items() {
    let reported = Content::new("55", "Guide", None);
    assert_eq!(
        ContentData::from_content(&reported),
        ContentData { id: "55".to_string(), title: "Guide".to_string(), version: 1 }
    );
    assert_eq!(
        AttachmentData::from_content("9", &reported),
        AttachmentData { id: "55".to_string(), content_id: "9".to_string() }
    );
}

#[test]
fn last_version_number_cannot_be_advanced() {
    let publisher = Publisher::new();
    let details = CreateChildPageRequest::new("100", "Details", "DOCS", "text");
    let at_end = listed(vec![page("100", "Intro", 3), page("101", "Details", u64::MAX)]);
    assert!(publisher.can_update_page(&at_end));
    assert!(!publisher.can_update_child_page(&details, &at_end));
    let first_at_end = listed(vec![page("100", "Intro", u64::MAX), page("101", "Details", 1)]);
    assert!(!publisher.can_update_page(&first_at_end));
    assert!(publisher.can_update_child_page(&details, &first_at_end));
    assert!(publisher.can_update_page(&listed(vec![])));
    assert!(publisher.can_update_page(&Ok(None)));
    assert!(publisher.can_update_child_page(&details, &Err(PublishError::NotFound)));
    let nearly = listed(vec![page("100", "Intro", u64::MAX - 1)]);
    assert!(publisher.can_update_page(&nearly));
    assert_eq!(expect_update(publisher.create_or_update_page(&intro(), nearly)).version, u64::MAX);
}
