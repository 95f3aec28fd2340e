use backend::media::DecodeError;
use backend::reply::{Reply, Status};
use backend::storage::{Method, StorageResponse, StorageSettings};
use backend::user::{
    is_link, plan_slot, resume, start_slot, update, update_reply, FeUserRequest, Media, SlotPlan,
    Social, Stage, Step, UserRequest, COVER_BUCKET, COVER_INFO, PROFILE_BUCKET,
};

const PNG_TEXT: &str = "iVBORw0KGgoAAA==";

const MP4_TEXT: &str = "AAAAGGZ0eXBtcDQyAAAAAG1wNDJpc29t";

fn png_bytes() -> Vec<u8> {
    vec![0x89, 0x50, 0x4E, 0x47, 0x0D, 0x0A, 0x1A, 0x0A, 0x00, 0x00]
}

fn settings() -> StorageSettings {
    StorageSettings {
        api_key: "key".to_string(),
        url: "https://s.example".to_string(),
    }
}

fn socials() -> Vec<Social> {
    vec![Social {
        link: "https://social.example/ann".to_string(),
        icons: "icon".to_string(),
        platforms: "example".to_string(),
    }]
}

fn edit(
    old_profile: Option<&str>,
    profile: &str,
    old_cover: Option<&str>,
    cover: &str,
) -> FeUserRequest {
    FeUserRequest {
        theme: "dark".to_string(),
        profile_image: profile.to_string(),
        first_name: "Ann".to_string(),
        last_name: "Lee".to_string(),
        phone: "123".to_string(),
        old_profile_media: old_profile.map(|s| s.to_string()),
        old_cover_media: old_cover.map(|s| s.to_string()),
        email: "ann@example.com".to_string(),
        title: "Dr".to_string(),
        password: None,
        confirm_password: None,
        bio: "bio".to_string(),
        cover_image: cover.to_string(),
        cover_type: "image".to_string(),
        qr_code: "qr".to_string(),
        social: socials(),
    }
}

fn record(photo: &str, kind: &str, cover: &str) -> UserRequest {
    UserRequest {
        first_name: "Ann".to_string(),
        last_name: "Lee".to_string(),
        email: "ann@example.com".to_string(),
        phone: "123".to_string(),
        title: "Dr".to_string(),
        bio: "bio".to_string(),
        photo: photo.to_string(),
        qr_code: "qr".to_string(),
        theme: "dark".to_string(),
        media: vec![Media {
            info: "This Is My Cover Media".to_string(),
            kind: kind.to_string(),
            media: cover.to_string(),
        }],
        social: socials(),
    }
}

fn internal(text: &str) -> Step {
    Step::Answer(Reply {
        status: Status::InternalServerError,
        body: text.to_string(),
    })
}

#[test]
fn the_names_of_the_slots() {
    assert_eq!(PROFILE_BUCKET, "profile_media");
    assert_eq!(COVER_BUCKET, "cover_media");
    assert_eq!(COVER_INFO, "This Is My Cover Media");
}

#[test]
fn links_begin_with_a_scheme() {
    assert!(is_link("http://x"));
    assert!(is_link("https://x/y.png"));
    assert!(is_link("https://"));
    assert!(!is_link("https:/"));
    assert!(!is_link("ftp://x"));
    assert!(!is_link(" https://x"));
    assert!(!is_link("HTTP://x"));
    assert!(!is_link(""));
    assert!(!is_link(PNG_TEXT));
}

#[test]
fn a_link_without_old_reference_is_kept() {
    assert_eq!(plan_slot(&None, "https://x/y.png"), SlotPlan::Keep);
    assert_eq!(plan_slot(&Some(String::new()), "http://x/y.png"), SlotPlan::Keep);
    assert_eq!(
        start_slot(&settings(), PROFILE_BUCKET, &None, "https://x/y.png"),
        None
    );
}

#[test]
fn bytes_without_old_reference_are_uploaded() {
    assert_eq!(plan_slot(&None, PNG_TEXT), SlotPlan::CreateNew);
    assert_eq!(plan_slot(&Some(String::new()), PNG_TEXT), SlotPlan::CreateNew);
    assert_eq!(plan_slot(&None, ""), SlotPlan::CreateNew);
    let request = start_slot(&settings(), PROFILE_BUCKET, &None, PNG_TEXT)
        .unwrap()
        .unwrap();
    assert_eq!(request.method, Method::Post);
    assert!(request
        .url
        .starts_with("https://s.example/storage/v1/object/biz_touch/profile_media/"));
}

#[test]
fn an_old_reference_is_overwritten() {
    let old = Some("https://x/old.png".to_string());
    assert_eq!(plan_slot(&old, PNG_TEXT), SlotPlan::Overwrite);
    assert_eq!(plan_slot(&old, "https://x/y.png"), SlotPlan::Overwrite);
    assert_eq!(plan_slot(&Some("old".to_string()), PNG_TEXT), SlotPlan::Overwrite);
    let request = start_slot(&settings(), COVER_BUCKET, &old, PNG_TEXT)
        .unwrap()
        .unwrap();
    assert_eq!(request.method, Method::Put);
    assert_eq!(request.url, "https://x/old.png");
    assert_eq!(request.public_url, "https://x/old.png");
}

#[test]
fn two_links_go_to_the_store_without_a_write() {
    let step = update(
        settings(),
        "ann".to_string(),
        edit(None, "https://x/y.png", None, "http://x/c.mp4"),
    );
    assert_eq!(
        step,
        Step::Persist {
            record: record("https://x/y.png", "image", "http://x/c.mp4"),
            username: "ann".to_string(),
        }
    );
}

#[test]
fn a_profile_of_bytes_is_uploaded_once_and_referred_to_by_the_returned_url() {
    let user = edit(None, PNG_TEXT, None, "https://x/c.png");
    let step = update(settings(), "ann".to_string(), user.clone());
    let (request, pending) = match step {
        Step::Send { request, pending } => (request, pending),
        other => panic!("{:?}", other),
    };
    assert_eq!(request.method, Method::Post);
    assert!(request
        .url
        .starts_with("https://s.example/storage/v1/object/biz_touch/profile_media/"));
    assert_eq!(request.bearer, "key");
    assert_eq!(request.content_type, "image/png");
    assert_eq!(request.body, png_bytes());
    assert_eq!(pending.stage, Stage::Profile);
    assert_eq!(pending.method, Method::Post);
    assert_eq!(pending.public_url, request.public_url);
    assert_eq!(pending.mime_type, "image/png");
    assert_eq!(pending.username, "ann");
    assert_eq!(pending.user, user);
    assert_eq!(pending.settings, settings());
    let next = resume(pending, StorageResponse::Success);
    assert_eq!(
        next,
        Step::Persist {
            record: record(&request.public_url, "image", "https://x/c.png"),
            username: "ann".to_string(),
        }
    );
}

#[test]
fn an_old_profile_is_overwritten_once_and_keeps_its_reference() {
    let user = edit(Some("https://x/old.png"), PNG_TEXT, None, "https://x/c.png");
    let step = update(settings(), "ann".to_string(), user);
    let (request, pending) = match step {
        Step::Send { request, pending } => (request, pending),
        other => panic!("{:?}", other),
    };
    assert_eq!(request.method, Method::Put);
    assert_eq!(request.url, "https://x/old.png");
    assert_eq!(request.public_url, "https://x/old.png");
    assert_eq!(request.body, png_bytes());
    assert_eq!(pending.stage, Stage::Profile);
    let next = resume(pending, StorageResponse::Success);
    assert_eq!(
        next,
        Step::Persist {
            record: record("https://x/old.png", "image", "https://x/c.png"),
            username: "ann".to_string(),
        }
    );
}

#[test]
fn an_old_profile_in_public_storage_is_written_behind_its_read_url() {
    let old = "https://s.example/storage/v1/object/public/biz_touch/profile_media/abc";
    let user = edit(Some(old), PNG_TEXT, None, "https://x/c.png");
    match update(settings(), "ann".to_string(), user) {
        Step::Send { request, pending } => {
            assert_eq!(
                request.url,
                "https://s.example/storage/v1/object/biz_touch/profile_media/abc"
            );
            assert_eq!(pending.public_url, old);
        }
        other => panic!("{:?}", other),
    }
}

#[test]
fn both_slots_are_written_one_after_the_other() {
    let user = edit(None, PNG_TEXT, Some("https://x/cover"), MP4_TEXT);
    let (first, pending) = match update(settings(), "ann".to_string(), user) {
        Step::Send { request, pending } => (request, pending),
        other => panic!("{:?}", other),
    };
    assert_eq!(first.method, Method::Post);
    let (second, pending) = match resume(pending, StorageResponse::Success) {
        Step::Send { request, pending } => (request, pending),
        other => panic!("{:?}", other),
    };
    assert_eq!(second.method, Method::Put);
    assert_eq!(second.url, "https://x/cover");
    assert_eq!(second.content_type, "video/mp4");
    assert_eq!(pending.stage, Stage::Cover);
    assert_eq!(pending.photo, first.public_url);
    assert_eq!(
        resume(pending, StorageResponse::Success),
        Step::Persist {
            record: record(&first.public_url, "video", "https://x/cover"),
            username: "ann".to_string(),
        }
    );
}

#[test]
fn a_cover_of_bytes_is_uploaded_into_the_cover_bucket() {
    let user = edit(None, "https://x/y.png", None, MP4_TEXT);
    let (request, pending) = match update(settings(), "ann".to_string(), user) {
        Step::Send { request, pending } => (request, pending),
        other => panic!("{:?}", other),
    };
    assert_eq!(request.method, Method::Post);
    assert!(request
        .url
        .starts_with("https://s.example/storage/v1/object/biz_touch/cover_media/"));
    assert_eq!(request.content_type, "video/mp4");
    assert_eq!(pending.stage, Stage::Cover);
    assert_eq!(pending.photo, "https://x/y.png");
    assert_eq!(
        resume(pending, StorageResponse::Success),
        Step::Persist {
            record: record("https://x/y.png", "video", &request.public_url),
            username: "ann".to_string(),
        }
    );
}

#[test]
fn a_cover_of_unknown_bytes_counts_as_an_image() {
    let user = edit(None, "https://x/y.png", None, "aGVsbG8=");
    let pending = match update(settings(), "ann".to_string(), user) {
        Step::Send { request, pending } => {
            assert_eq!(request.content_type, "application/octet-stream");
            pending
        }
        other => panic!("{:?}", other),
    };
    match resume(pending, StorageResponse::Success) {
        Step::Persist { record, .. } => assert_eq!(record.media[0].kind, "image"),
        other => panic!("{:?}", other),
    }
}

#[test]
fn an_old_cover_is_overwritten_whatever_it_looks_like() {
    let user = edit(None, "https://x/y.png", Some("covers/old"), PNG_TEXT);
    match update(settings(), "ann".to_string(), user) {
        Step::Send { request, pending } => {
            assert_eq!(request.method, Method::Put);
            assert_eq!(request.url, "covers/old");
            assert_eq!(pending.stage, Stage::Cover);
        }
        other => panic!("{:?}", other),
    }
}

#[test]
fn a_payload_that_is_not_base64_ends_the_update() {
    let user = edit(None, "???", None, "https://x/c.png");
    assert_eq!(
        update(settings(), "ann".to_string(), user),
        internal(&DecodeError::InvalidByte(0, b'?').message())
    );
    let user = edit(Some("https://x/old.png"), "a", None, "https://x/c.png");
    assert_eq!(
        update(settings(), "ann".to_string(), user),
        internal("Encoded text cannot have a 6-bit remainder.")
    );
    let user = edit(None, "https://x/y.png", None, "abc");
    assert_eq!(
        update(settings(), "ann".to_string(), user),
        internal("Invalid padding")
    );
}

#[test]
fn a_failed_write_ends_the_update_before_the_store() {
    let responses = [
        (
            StorageResponse::Rejected("no".to_string()),
            "Failed to upload file: no",
        ),
        (
            StorageResponse::Unsent("down".to_string()),
            "Failed to upload file: down",
        ),
        (StorageResponse::Unreadable("cut".to_string()), "cut"),
    ];
    for (response, words) in responses {
        let user = edit(None, PNG_TEXT, None, "https://x/c.png");
        let pending = match update(settings(), "ann".to_string(), user) {
            Step::Send { pending, .. } => pending,
            other => panic!("{:?}", other),
        };
        assert_eq!(resume(pending, response), internal(words));
    }
    let user = edit(None, "https://x/y.png", Some("https://x/old"), PNG_TEXT);
    let pending = match update(settings(), "ann".to_string(), user) {
        Step::Send { pending, .. } => pending,
        other => panic!("{:?}", other),
    };
    assert_eq!(
        resume(pending, StorageResponse::Rejected("no".to_string())),
        internal("Failed to overwrite file: no")
    );
}

#[test]
fn a_bad_cover_ends_the_update_after_the_profile_was_written() {
    let user = edit(None, PNG_TEXT, None, "!");
    let pending = match update(settings(), "ann".to_string(), user) {
        Step::Send { pending, .. } => pending,
        other => panic!("{:?}", other),
    };
    assert_eq!(
        resume(pending, StorageResponse::Success),
        internal("Invalid byte 33, offset 0.")
    );
}

#[test]
fn the_answer_of_the_update() {
    assert_eq!(
        update_reply(Ok(1)),
        Reply {
            status: Status::Success,
            body: "User updated successfully".to_string()
        }
    );
    assert_eq!(
        update_reply(Ok(0)),
        Reply {
            status: Status::BadRequest,
            body: "User not updated".to_string()
        }
    );
    assert_eq!(
        update_reply(Err("connection lost".to_string())),
        Reply {
            status: Status::InternalServerError,
            body: "connection lost".to_string()
        }
    );
}
