//! The user records, and the update of a profile: for each of its two media
//! slots the choice between keeping a link, overwriting a stored object and
//! creating a new one, then the record that is written.

use vstd::prelude::*;
use vstd::string::StringExecFns;
use crate::customers::outcome_view;
use crate::media::{coarse_kind, coarse_type, media_of, DecodeError, IMAGE};
use crate::reply::{Reply, ReplyView, Status};
use crate::storage::{
    is_object_name, is_upload_of, overwrite_in_supabase, overwrite_plan, planned_view, settle,
    public_url_of, settlement, upload_plan, upload_to_supabase, Method, StorageErrorView,
    StorageRequest, StorageRequestView, StorageResponse, StorageResponseView, StorageSettings,
};
use crate::text::{push_char, starts_with};

verus! {

/// The bucket of the profile images.
pub const PROFILE_BUCKET: &'static str = "profile_media";

/// The bucket of the cover media.
pub const COVER_BUCKET: &'static str = "cover_media";

/// The label that every cover medium carries.
pub const COVER_INFO: &'static str = "This Is My Cover Media";

pub const HTTP: &'static str = "http://";

pub const HTTPS: &'static str = "https://";

pub const USER_UPDATED: &'static str = "User updated successfully";

pub const USER_NOT_UPDATED: &'static str = "User not updated";

pub const USER_CREATED: &'static str = "User created successfully";

pub const USER_NOT_CREATED: &'static str = "Failed to created user";

pub const USER_DELETED: &'static str = "User deleted successfully";

pub const USER_NOT_FOUND: &'static str = "User not found";

/// The number of random characters at the end of a generated username.
pub const SUFFIX_LENGTH: usize = 5;

/// A customer of an account.
#[derive(Clone, Debug, PartialEq, Eq)]
pub struct Customer {
    pub id: i32,
    pub firstname: String,
    pub lastname: String,
    pub email: String,
    pub phone: String,
    pub priority: i16,
}

/// A group of a company. `created_at` counts the microseconds since the
/// start of 1970, UTC.
#[derive(Clone, Debug, PartialEq, Eq)]
pub struct Groups {
    pub id: i64,
    pub created_at: i64,
    pub number: String,
    pub name: String,
    pub company_id: i64,
}

/// A user as the store holds it. `created_at` counts the microseconds since
/// the start of 1970, UTC; `media` and `social` hold JSON text.
#[derive(Clone, Debug, PartialEq, Eq)]
pub struct UserResponse {
    pub id: Option<i64>,
    pub created_at: Option<i64>,
    pub first_name: Option<String>,
    pub last_name: Option<String>,
    pub username: Option<String>,
    pub email: Option<String>,
    pub phone: Option<String>,
    pub title: Option<String>,
    pub bio: Option<String>,
    pub photo: Option<String>,
    pub qr_code: Option<String>,
    pub theme: Option<String>,
    pub media: Option<String>,
    pub social: Option<String>,
    pub linkable_id: Option<i64>,
    pub linkable_type: Option<String>,
    pub campaign_id: Option<i64>,
    pub address: Option<String>,
    pub suburb: Option<String>,
    pub post_code: Option<String>,
    pub country: Option<String>,
    pub state: Option<String>,
    pub kind: Option<String>,
}

/// A medium of a profile: a label, the coarse kind and the read URL.
#[derive(Clone, Debug, PartialEq, Eq)]
pub struct Media {
    pub info: String,
    pub kind: String,
    pub media: String,
}

pub struct MediaView {
    pub info: Seq<char>,
    pub kind: Seq<char>,
    pub media: Seq<char>,
}

impl View for Media {
    type V = MediaView;

    open spec fn view(&self) -> MediaView {
        MediaView { info: self.info@, kind: self.kind@, media: self.media@ }
    }
}

/// A link of a profile to a social platform.
#[derive(Clone, Debug, PartialEq, Eq)]
pub struct Social {
    pub link: String,
    pub icons: String,
    pub platforms: String,
}

/// The record that an update writes: the scalar fields and the two lists,
/// each replaced as a whole.
#[derive(Clone, Debug, PartialEq, Eq)]
pub struct UserRequest {
    pub first_name: String,
    pub last_name: String,
    pub email: String,
    pub phone: String,
    pub title: String,
    pub bio: String,
    pub photo: String,
    pub qr_code: String,
    pub theme: String,
    pub media: Vec<Media>,
    pub social: Vec<Social>,
}

/// The edit of a profile as the front end sends it.
#[derive(Clone, Debug, PartialEq, Eq)]
pub struct FeUserRequest {
    pub theme: String,
    pub profile_image: String,
    pub first_name: String,
    pub last_name: String,
    pub phone: String,
    pub old_profile_media: Option<String>,
    pub old_cover_media: Option<String>,
    pub email: String,
    pub title: String,
    pub password: Option<String>,
    pub confirm_password: Option<String>,
    pub bio: String,
    pub cover_image: String,
    pub cover_type: String,
    pub qr_code: String,
    pub social: Vec<Social>,
}

/// Whether the text is a link: it begins with `http://` or `https://`.
pub open spec fn is_link_text(text: Seq<char>) -> bool {
    HTTP@.is_prefix_of(text) || HTTPS@.is_prefix_of(text)
}

/// Whether the text is a link rather than embedded bytes.
pub fn is_link(text: &str) -> (r: bool)
    ensures
        r == is_link_text(text@),
{
    starts_with(text, HTTP) || starts_with(text, HTTPS)
}

/// What is done for one media slot.
#[derive(Clone, Copy, Debug, PartialEq, Eq, Structural)]
pub enum SlotPlan {
    /// The payload is a link, which becomes the reference as it is.
    Keep,
    /// The object behind the old reference takes the payload's bytes.
    Overwrite,
    /// A new object is created from the payload's bytes.
    CreateNew,
}

/// An optional text taken as a sequence.
pub open spec fn text_view(text: Option<String>) -> Option<Seq<char>> {
    match text {
        Some(t) => Some(t@),
        None => None,
    }
}

/// The plan for a slot: an old reference that is there and not empty is
/// overwritten; without one, a link is kept and anything else is uploaded.
pub open spec fn slot_plan(old_reference: Option<Seq<char>>, payload: Seq<char>) -> SlotPlan {
    if old_reference matches Some(reference) && reference.len() > 0 {
        SlotPlan::Overwrite
    } else if is_link_text(payload) {
        SlotPlan::Keep
    } else {
        SlotPlan::CreateNew
    }
}

/// Decides what is done for one media slot.
pub fn plan_slot(old_reference: &Option<String>, payload: &str) -> (plan: SlotPlan)
    ensures
        plan == slot_plan(text_view(*old_reference), payload@),
{
    match old_reference {
        Some(reference) => {
            if !reference.as_str().is_empty() {
                return SlotPlan::Overwrite;
            }
        },
        None => {},
    }
    if is_link(payload) {
        SlotPlan::Keep
    } else {
        SlotPlan::CreateNew
    }
}

/// Begins the work on one media slot: nothing where the payload is kept as
/// the reference, else the request that writes the payload's bytes, or the
/// reason why the payload holds none.
pub open spec fn slot_start_of(
    start: Option<Result<StorageRequest, DecodeError>>,
    settings: StorageSettings,
    bucket: Seq<char>,
    old_reference: Option<Seq<char>>,
    payload: Seq<char>,
) -> bool {
    match slot_plan(old_reference, payload) {
        SlotPlan::Keep => start is None,
        SlotPlan::Overwrite => start matches Some(planned) && planned_view(planned)
            == overwrite_plan(settings.api_key@, old_reference->0, payload),
        SlotPlan::CreateNew => start matches Some(planned) && is_upload_of(
            planned,
            settings.api_key@,
            settings.url@,
            bucket,
            payload,
        ),
    }
}

/// Begins the work on one media slot, the same way for either slot.
pub fn start_slot(
    settings: &StorageSettings,
    bucket: &str,
    old_reference: &Option<String>,
    payload: &str,
) -> (start: Option<Result<StorageRequest, DecodeError>>)
    ensures
        slot_start_of(start, *settings, bucket@, text_view(*old_reference), payload@),
{
    match plan_slot(old_reference, payload) {
        SlotPlan::Keep => None,
        SlotPlan::Overwrite => {
            let reference = old_reference.as_ref().unwrap();
            Some(overwrite_in_supabase(settings.api_key.as_str(), reference.as_str(), payload))
        },
        SlotPlan::CreateNew => Some(
            upload_to_supabase(settings.api_key.as_str(), settings.url.as_str(), bucket, payload),
        ),
    }
}

/// The slot that a write belongs to.
#[derive(Clone, Copy, Debug, PartialEq, Eq, Structural)]
pub enum Stage {
    Profile,
    Cover,
}

/// An update that waits for the answer to a write.
#[derive(Clone, Debug, PartialEq, Eq)]
pub struct Pending {
    pub stage: Stage,
    /// The method, the read URL and the MIME type of the write.
    pub method: Method,
    pub public_url: String,
    pub mime_type: String,
    /// The reference of the profile image, once the cover is under way.
    pub photo: String,
    pub settings: StorageSettings,
    pub username: String,
    pub user: FeUserRequest,
}

/// What the update asks of its surroundings next.
#[derive(Clone, Debug, PartialEq, Eq)]
pub enum Step {
    /// Send the request to the storage service, then resume with its answer.
    Send { request: StorageRequest, pending: Pending },
    /// Write the record over the row of the user, then answer by the outcome.
    Persist { record: UserRequest, username: String },
    /// Answer the caller; nothing else is done.
    Answer(Reply),
}

/// Whether the step answers with an internal error in the given words.
pub open spec fn answers_internal(step: Step, message: Seq<char>) -> bool {
    step matches Step::Answer(reply) && reply@ == (ReplyView {
        status: Status::InternalServerError,
        body: message,
    })
}

/// Whether the step sends exactly the given request and waits for its
/// answer with everything that the rest of the update needs.
pub open spec fn sends(
    step: Step,
    wanted: StorageRequestView,
    stage: Stage,
    photo: Seq<char>,
    settings: StorageSettings,
    username: Seq<char>,
    user: FeUserRequest,
) -> bool {
    step matches Step::Send { request, pending } && {
        &&& request@ == wanted
        &&& pending.stage == stage
        &&& pending.method == wanted.method
        &&& pending.public_url@ == wanted.public_url
        &&& pending.mime_type@ == wanted.content_type
        &&& pending.photo@ == photo
        &&& pending.settings.api_key@ == settings.api_key@
        &&& pending.settings.url@ == settings.url@
        &&& pending.username@ == username
        &&& pending.user == user
    }
}

/// Whether the step sends the planned request or, where the payload gave
/// none, answers with the decoding error.
pub open spec fn sends_or_aborts(
    step: Step,
    planned: Result<StorageRequestView, DecodeError>,
    stage: Stage,
    photo: Seq<char>,
    settings: StorageSettings,
    username: Seq<char>,
    user: FeUserRequest,
) -> bool {
    match planned {
        Ok(wanted) => sends(step, wanted, stage, photo, settings, username, user),
        Err(e) => answers_internal(step, e.message_text()),
    }
}

/// Whether `record` is the edit `user` with the resolved profile reference
/// and the one resolved cover medium.
pub open spec fn is_record_of(
    record: UserRequest,
    user: FeUserRequest,
    photo: Seq<char>,
    cover: MediaView,
) -> bool {
    &&& record.first_name@ == user.first_name@
    &&& record.last_name@ == user.last_name@
    &&& record.email@ == user.email@
    &&& record.phone@ == user.phone@
    &&& record.title@ == user.title@
    &&& record.bio@ == user.bio@
    &&& record.photo@ == photo
    &&& record.qr_code@ == user.qr_code@
    &&& record.theme@ == user.theme@
    &&& record.media@.len() == 1
    &&& record.media@[0]@ == cover
    &&& record.social@ == user.social@
}

/// Whether the step writes the record of the edit for the user `username`.
pub open spec fn persists(
    step: Step,
    username: Seq<char>,
    user: FeUserRequest,
    photo: Seq<char>,
    cover: MediaView,
) -> bool {
    step matches Step::Persist { record, username: name } && name@ == username && is_record_of(
        record,
        user,
        photo,
        cover,
    )
}

/// The cover medium with the given kind and read URL.
pub open spec fn cover_of(kind: Seq<char>, url: Seq<char>) -> MediaView {
    MediaView { info: COVER_INFO@, kind, media: url }
}

/// What the update does for the cover slot once the profile image has the
/// reference `photo`: a kept link is taken for an image and the record is
/// written; otherwise the write of the cover is sent, under some generated
/// name where it creates an object, or its decoding error is the answer.
pub open spec fn cover_stage_of(
    step: Step,
    settings: StorageSettings,
    username: Seq<char>,
    user: FeUserRequest,
    photo: Seq<char>,
) -> bool {
    let old = text_view(user.old_cover_media);
    let payload = user.cover_image@;
    match slot_plan(old, payload) {
        SlotPlan::Keep => persists(step, username, user, photo, cover_of(IMAGE@, payload)),
        SlotPlan::Overwrite => sends_or_aborts(
            step,
            overwrite_plan(settings.api_key@, old->0, payload),
            Stage::Cover,
            photo,
            settings,
            username,
            user,
        ),
        SlotPlan::CreateNew => exists|name: Seq<char>|
            is_object_name(name) && sends_or_aborts(
                step,
                #[trigger] upload_plan(settings.api_key@, settings.url@, COVER_BUCKET@, name, payload),
                Stage::Cover,
                photo,
                settings,
                username,
                user,
            ),
    }
}

/// What the update does first: the profile slot, and where that needs no
/// write, the cover slot at once.
pub open spec fn update_of(
    step: Step,
    settings: StorageSettings,
    username: Seq<char>,
    user: FeUserRequest,
) -> bool {
    let old = text_view(user.old_profile_media);
    let payload = user.profile_image@;
    match slot_plan(old, payload) {
        SlotPlan::Keep => cover_stage_of(step, settings, username, user, payload),
        SlotPlan::Overwrite => sends_or_aborts(
            step,
            overwrite_plan(settings.api_key@, old->0, payload),
            Stage::Profile,
            Seq::empty(),
            settings,
            username,
            user,
        ),
        SlotPlan::CreateNew => exists|name: Seq<char>|
            is_object_name(name) && sends_or_aborts(
                step,
                #[trigger] upload_plan(
                    settings.api_key@,
                    settings.url@,
                    PROFILE_BUCKET@,
                    name,
                    payload,
                ),
                Stage::Profile,
                Seq::empty(),
                settings,
                username,
                user,
            ),
    }
}

/// What the update does with the answer to a write: a failed write is the
/// answer to the caller, an internal error in the words of the failure, and
/// nothing is written to the store. After the profile image comes the
/// cover slot; after the cover, the record, whose cover medium has the kind
/// of the bytes that were written.
pub open spec fn resume_of(step: Step, pending: Pending, response: StorageResponseView) -> bool {
    match settlement(pending.method, pending.public_url@, pending.mime_type@, response) {
        Err(e) => answers_internal(step, e.text()),
        Ok((url, mime)) => match pending.stage {
            Stage::Profile => cover_stage_of(
                step,
                pending.settings,
                pending.username@,
                pending.user,
                url,
            ),
            Stage::Cover => persists(
                step,
                pending.username@,
                pending.user,
                pending.photo@,
                cover_of(coarse_kind(mime), url),
            ),
        },
    }
}

fn send_step(
    request: StorageRequest,
    stage: Stage,
    photo: String,
    settings: StorageSettings,
    username: String,
    user: FeUserRequest,
) -> (step: Step)
    ensures
        sends(step, request@, stage, photo@, settings, username@, user),
{
    let pending = Pending {
        stage,
        method: request.method,
        public_url: request.public_url.clone(),
        mime_type: request.content_type.clone(),
        photo,
        settings,
        username,
        user,
    };
    Step::Send { request, pending }
}

fn send_or_abort(
    planned: Result<StorageRequest, DecodeError>,
    stage: Stage,
    photo: String,
    settings: StorageSettings,
    username: String,
    user: FeUserRequest,
) -> (step: Step)
    ensures
        sends_or_aborts(step, planned_view(planned), stage, photo@, settings, username@, user),
{
    match planned {
        Ok(request) => send_step(request, stage, photo, settings, username, user),
        Err(e) => Step::Answer(Reply::internal(e.message())),
    }
}

fn persist_step(username: String, user: FeUserRequest, photo: String, cover: Media) -> (step: Step)
    ensures
        persists(step, username@, user, photo@, cover@),
{
    let mut media: Vec<Media> = Vec::new();
    media.push(cover);
    let record = UserRequest {
        first_name: user.first_name,
        last_name: user.last_name,
        email: user.email,
        phone: user.phone,
        title: user.title,
        bio: user.bio,
        photo,
        qr_code: user.qr_code,
        theme: user.theme,
        media,
        social: user.social,
    };
    Step::Persist { record, username }
}

fn cover_stage(settings: StorageSettings, username: String, user: FeUserRequest, photo: String) -> (step:
    Step)
    ensures
        cover_stage_of(step, settings, username@, user, photo@),
{
    let start = start_slot(
        &settings,
        COVER_BUCKET,
        &user.old_cover_media,
        user.cover_image.as_str(),
    );
    match start {
        None => {
            let cover = Media {
                info: String::from_str(COVER_INFO),
                kind: String::from_str(IMAGE),
                media: user.cover_image.clone(),
            };
            persist_step(username, user, photo, cover)
        },
        Some(planned) => {
            let ghost view = planned_view(planned);
            let step = send_or_abort(planned, Stage::Cover, photo, settings, username, user);
            proof {
                if slot_plan(text_view(user.old_cover_media), user.cover_image@)
                    == SlotPlan::CreateNew {
                    let name = choose|name: Seq<char>|
                        is_object_name(name) && view == #[trigger] upload_plan(
                            settings.api_key@,
                            settings.url@,
                            COVER_BUCKET@,
                            name,
                            user.cover_image@,
                        );
                    assert(is_object_name(name) && sends_or_aborts(
                        step,
                        upload_plan(
                            settings.api_key@,
                            settings.url@,
                            COVER_BUCKET@,
                            name,
                            user.cover_image@,
                        ),
                        Stage::Cover,
                        photo@,
                        settings,
                        username@,
                        user,
                    ));
                }
            }
            step
        },
    }
}

/// Begins the update of the profile of `username`: decides the profile
/// slot, then the cover slot unless a write has to be answered first, and
/// says what is to be done next. A payload that is not base64 text ends the
/// update with an internal error before anything is sent or written.
pub fn update(settings: StorageSettings, username: String, updated_user: FeUserRequest) -> (step:
    Step)
    ensures
        update_of(step, settings, username@, updated_user),
{
    let start = start_slot(
        &settings,
        PROFILE_BUCKET,
        &updated_user.old_profile_media,
        updated_user.profile_image.as_str(),
    );
    match start {
        None => {
            let photo = updated_user.profile_image.clone();
            cover_stage(settings, username, updated_user, photo)
        },
        Some(planned) => {
            let ghost view = planned_view(planned);
            let step = send_or_abort(
                planned,
                Stage::Profile,
                String::new(),
                settings,
                username,
                updated_user,
            );
            proof {
                if slot_plan(text_view(updated_user.old_profile_media), updated_user.profile_image@)
                    == SlotPlan::CreateNew {
                    let name = choose|name: Seq<char>|
                        is_object_name(name) && view == #[trigger] upload_plan(
                            settings.api_key@,
                            settings.url@,
                            PROFILE_BUCKET@,
                            name,
                            updated_user.profile_image@,
                        );
                    assert(is_object_name(name) && sends_or_aborts(
                        step,
                        upload_plan(
                            settings.api_key@,
                            settings.url@,
                            PROFILE_BUCKET@,
                            name,
                            updated_user.profile_image@,
                        ),
                        Stage::Profile,
                        Seq::empty(),
                        settings,
                        username@,
                        updated_user,
                    ));
                }
            }
            step
        },
    }
}

/// Resumes the update with the answer to the write that it waited for.
pub fn resume(pending: Pending, response: StorageResponse) -> (step: Step)
    ensures
        resume_of(step, pending, response@),
{
    let Pending { stage, method, public_url, mime_type, photo, settings, username, user } = pending;
    match settle(method, public_url, mime_type, response) {
        Err(e) => Step::Answer(Reply::internal(e.message())),
        Ok((url, mime)) => match stage {
            Stage::Profile => cover_stage(settings, username, user, url),
            Stage::Cover => {
                let cover = Media {
                    info: String::from_str(COVER_INFO),
                    kind: String::from_str(coarse_type(mime.as_str())),
                    media: url,
                };
                persist_step(username, user, photo, cover)
            },
        },
    }
}

/// What the update answers once the record was sent to the store.
pub open spec fn update_reply_of(outcome: Result<u64, Seq<char>>) -> ReplyView {
    match outcome {
        Ok(rows) => if rows == 0 {
            ReplyView { status: Status::BadRequest, body: USER_NOT_UPDATED@ }
        } else {
            ReplyView { status: Status::Success, body: USER_UPDATED@ }
        },
        Err(message) => ReplyView { status: Status::InternalServerError, body: message },
    }
}

/// The answer of the update, from the outcome of its statement: a bad
/// request where no row has the user's name, success where one has, an
/// internal error in the driver's words where the statement failed.
pub fn update_reply(outcome: Result<u64, String>) -> (reply: Reply)
    ensures
        reply@ == update_reply_of(outcome_view(outcome)),
{
    match outcome {
        Ok(rows) => if rows == 0 {
            Reply::with_text(Status::BadRequest, USER_NOT_UPDATED)
        } else {
            Reply::with_text(Status::Success, USER_UPDATED)
        },
        Err(message) => Reply::internal(message),
    }
}

/// A link that comes without an old reference, or with an empty one, is
/// kept as the reference: nothing is sent to the storage service.
pub proof fn lemma_link_without_reference_is_kept(
    settings: StorageSettings,
    bucket: Seq<char>,
    payload: Seq<char>,
    start: Option<Result<StorageRequest, DecodeError>>,
)
    requires
        is_link_text(payload),
    ensures
        slot_plan(None, payload) == SlotPlan::Keep,
        slot_plan(Some(Seq::empty()), payload) == SlotPlan::Keep,
        slot_start_of(start, settings, bucket, None, payload) ==> start is None,
{
}

/// An old reference that is not empty is overwritten, whatever the payload
/// looks like, and the reference that a successful overwrite gives is the
/// old one, unchanged.
pub proof fn lemma_overwrite_keeps_reference(
    key: Seq<char>,
    reference: Seq<char>,
    payload: Seq<char>,
)
    requires
        reference.len() > 0,
    ensures
        slot_plan(Some(reference), payload) == SlotPlan::Overwrite,
        overwrite_plan(key, reference, payload) matches Ok(wanted) ==> wanted.method == Method::Put
            && settlement(
            wanted.method,
            wanted.public_url,
            wanted.content_type,
            StorageResponseView::Success,
        ) == Ok::<(Seq<char>, Seq<char>), StorageErrorView>((reference, wanted.content_type)),
{
}

/// A payload that is no link and comes without an old reference is
/// uploaded, and the reference that a successful upload gives is the read
/// URL of the new object.
pub proof fn lemma_upload_gives_public_url(
    key: Seq<char>,
    base: Seq<char>,
    bucket: Seq<char>,
    name: Seq<char>,
    payload: Seq<char>,
)
    requires
        !is_link_text(payload),
    ensures
        slot_plan(None, payload) == SlotPlan::CreateNew,
        upload_plan(key, base, bucket, name, payload) matches Ok(wanted) ==> wanted.method
            == Method::Post && settlement(
            wanted.method,
            wanted.public_url,
            wanted.content_type,
            StorageResponseView::Success,
        ) == Ok::<(Seq<char>, Seq<char>), StorageErrorView>(
            (public_url_of(base, bucket, name), wanted.content_type),
        ),
{
}

/// A write that the service did not answer with success ends the update:
/// the step is an internal error, and neither a request nor a record
/// follows.
pub proof fn lemma_failed_write_ends_update(
    step: Step,
    pending: Pending,
    response: StorageResponseView,
)
    requires
        resume_of(step, pending, response),
        !(response is Success),
    ensures
        step matches Step::Answer(reply) && reply.status == Status::InternalServerError,
{
}

/// A profile payload that has to be written and is not base64 text ends
/// the update at once with an internal error in the words of the decoding
/// error.
pub proof fn lemma_undecodable_payload_ends_update(
    step: Step,
    settings: StorageSettings,
    username: Seq<char>,
    user: FeUserRequest,
)
    requires
        update_of(step, settings, username, user),
        slot_plan(text_view(user.old_profile_media), user.profile_image@) != SlotPlan::Keep,
        media_of(user.profile_image@) is Err,
    ensures
        answers_internal(step, media_of(user.profile_image@)->Err_0.message_text()),
{
}

/// Whether `c` is a letter of the English alphabet or a decimal digit.
pub open spec fn is_alphanumeric(c: char) -> bool {
    ('A' <= c && c <= 'Z') || ('a' <= c && c <= 'z') || ('0' <= c && c <= '9')
}

/// `fastrand::alphanumeric`: a random character out of `A` to `Z`, `a` to
/// `z` and `0` to `9`. Which one is not stated.
#[verifier::external_body]
fn random_alphanumeric() -> (c: char)
    ensures
        is_alphanumeric(c),
{
    fastrand::alphanumeric()
}

/// Whether `suffix` has the shape of a generated suffix.
pub open spec fn is_suffix(suffix: Seq<char>) -> bool {
    suffix.len() == SUFFIX_LENGTH && forall|i: int|
        0 <= i < suffix.len() ==> is_alphanumeric(#[trigger] suffix[i])
}

/// Draws the random end of a username.
pub fn random_suffix() -> (suffix: String)
    ensures
        is_suffix(suffix@),
{
    let mut suffix = String::new();
    let mut i: usize = 0;
    while i < SUFFIX_LENGTH
        invariant
            i <= SUFFIX_LENGTH,
            suffix@.len() == i,
            forall|j: int| 0 <= j < i ==> is_alphanumeric(#[trigger] suffix@[j]),
        decreases SUFFIX_LENGTH - i,
    {
        push_char(&mut suffix, random_alphanumeric());
        i = i + 1;
    }
    suffix
}

/// The text of an optional name: nothing where there is none.
pub open spec fn name_text(name: Option<String>) -> Seq<char> {
    match name {
        Some(text) => text@,
        None => Seq::empty(),
    }
}

/// The username made of the two names and a suffix, with dots between.
pub open spec fn username_of(first: Seq<char>, last: Seq<char>, suffix: Seq<char>) -> Seq<char> {
    first + "."@ + last + "."@ + suffix
}

/// Makes the username of a user from the names and a suffix.
pub fn candidate_username(first_name: &Option<String>, last_name: &Option<String>, suffix: &str) -> (name:
    String)
    ensures
        name@ == username_of(name_text(*first_name), name_text(*last_name), suffix@),
{
    let mut name = String::new();
    match first_name {
        Some(first) => {
            name.append(first.as_str());
        },
        None => {},
    }
    name.append(".");
    match last_name {
        Some(last) => {
            name.append(last.as_str());
        },
        None => {},
    }
    name.append(".");
    name.append(suffix);
    assert(name@ =~= username_of(name_text(*first_name), name_text(*last_name), suffix@));
    name
}

/// What the creation of a user asks of its surroundings next.
#[derive(Clone, Debug, PartialEq, Eq)]
pub enum CreateStep {
    /// Ask the store whether a user has this name, then go on by the answer.
    Check { username: String, user: UserResponse },
    /// Insert the user, then answer by the outcome.
    Insert(UserResponse),
}

/// Whether `name` is a username generated for `user`: its two names and
/// some suffix.
pub open spec fn is_generated_for(name: Seq<char>, user: UserResponse) -> bool {
    exists|suffix: Seq<char>|
        is_suffix(suffix) && name == #[trigger] username_of(
            name_text(user.first_name),
            name_text(user.last_name),
            suffix,
        )
}

/// Whether the step asks the store for a username generated for `user`.
pub open spec fn checks_candidate(step: CreateStep, user: UserResponse) -> bool {
    step matches CreateStep::Check { username, user: kept } && kept == user && is_generated_for(
        username@,
        user,
    )
}

fn check_step(user: UserResponse) -> (step: CreateStep)
    ensures
        checks_candidate(step, user),
{
    let suffix = random_suffix();
    let username = candidate_username(&user.first_name, &user.last_name, suffix.as_str());
    CreateStep::Check { username, user }
}

/// Begins the creation of a user: one that brings a username is inserted
/// as it is; for one without, a generated name is first checked against
/// the store.
pub fn create(new_user: UserResponse) -> (step: CreateStep)
    ensures
        new_user.username is Some ==> step == CreateStep::Insert(new_user),
        new_user.username is None ==> checks_candidate(step, new_user),
{
    if new_user.username.is_some() {
        CreateStep::Insert(new_user)
    } else {
        check_step(new_user)
    }
}

/// Goes on with the store's answer for a generated username. `taken` holds
/// what the store said, or nothing where the question failed, which counts
/// as taken. A free name is given to the user, who is inserted; otherwise
/// another generated name is checked. The check guards against a name that
/// is in use, as far as one question before the insertion can.
pub fn create_checked(user: UserResponse, username: String, taken: Option<bool>) -> (step:
    CreateStep)
    ensures
        taken == Some(false) ==> step == CreateStep::Insert(
            UserResponse { username: Some(username), ..user },
        ),
        taken != Some(false) ==> checks_candidate(step, user),
{
    match taken {
        Some(false) => {
            let mut named = user;
            named.username = Some(username);
            CreateStep::Insert(named)
        },
        _ => check_step(user),
    }
}

/// What the creation of a user answers.
pub open spec fn create_reply_of(outcome: Result<u64, Seq<char>>) -> ReplyView {
    match outcome {
        Ok(rows) => if rows == 0 {
            ReplyView { status: Status::BadRequest, body: USER_NOT_CREATED@ }
        } else {
            ReplyView { status: Status::Success, body: USER_CREATED@ }
        },
        Err(message) => ReplyView { status: Status::InternalServerError, body: message },
    }
}

/// The answer to the creation of a user, from the outcome of the
/// insertion.
pub fn create_reply(outcome: Result<u64, String>) -> (reply: Reply)
    ensures
        reply@ == create_reply_of(outcome_view(outcome)),
{
    match outcome {
        Ok(rows) => if rows == 0 {
            Reply::with_text(Status::BadRequest, USER_NOT_CREATED)
        } else {
            Reply::with_text(Status::Success, USER_CREATED)
        },
        Err(message) => Reply::internal(message),
    }
}

/// What the deletion of a user answers.
pub open spec fn delete_reply_of(outcome: Result<u64, Seq<char>>) -> ReplyView {
    match outcome {
        Ok(rows) => if rows == 0 {
            ReplyView { status: Status::NotFound, body: USER_NOT_FOUND@ }
        } else {
            ReplyView { status: Status::Success, body: USER_DELETED@ }
        },
        Err(message) => ReplyView { status: Status::InternalServerError, body: message },
    }
}

/// The answer to the deletion of the user of a given name, from the
/// outcome of its statement: not found where the statement touched no row,
/// which is the case exactly when no user has the name.
pub fn delete(outcome: Result<u64, String>) -> (reply: Reply)
    ensures
        reply@ == delete_reply_of(outcome_view(outcome)),
        outcome == Ok::<u64, String>(0) <==> reply.status == Status::NotFound,
        reply.status == Status::Success <==> (outcome matches Ok(rows) && rows > 0),
{
    match outcome {
        Ok(rows) => if rows == 0 {
            Reply::with_text(Status::NotFound, USER_NOT_FOUND)
        } else {
            Reply::with_text(Status::Success, USER_DELETED)
        },
        Err(message) => Reply::internal(message),
    }
}

/// The answer to the listing of the users: the users as the store gave
/// them, or an internal error in the driver's words.
pub fn get(outcome: Result<Vec<UserResponse>, String>) -> (r: Result<Vec<UserResponse>, Reply>)
    ensures
        outcome matches Ok(users) ==> r == Ok::<Vec<UserResponse>, Reply>(users),
        outcome matches Err(message) ==> (r matches Err(reply) && reply@ == (ReplyView {
            status: Status::InternalServerError,
            body: message@,
        })),
{
    match outcome {
        Ok(users) => Ok(users),
        Err(message) => Err(Reply::internal(message)),
    }
}

/// A targeted statement that names no existing row touches none, and then
/// neither the deletion nor the update of a user answers success: the
/// deletion answers not found, the update a bad request. Each answers
/// success exactly where a row was touched.
pub proof fn lemma_untouched_row_is_no_success(rows: u64)
    ensures
        delete_reply_of(Ok(rows)).status == Status::NotFound <==> rows == 0,
        update_reply_of(Ok(rows)).status == Status::BadRequest <==> rows == 0,
        delete_reply_of(Ok(rows)).status == Status::Success <==> rows > 0,
        update_reply_of(Ok(rows)).status == Status::Success <==> rows > 0,
{
}

} // verus!
