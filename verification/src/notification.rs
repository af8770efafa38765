//! Notifications before a backend has put them into frames: what is told, to
//! whom, and on account of which device.

use crate::datetime::CivilDateTime;
use crate::message::{
    convert_option, opt_text, serialize_date, text_or_nil, timestamp_value, UpdateType,
};
use crate::models::{Cipher, DbSend, Device, Folder, User};
use crate::value::{is_plain, lemma_msg_array_view, msg_views, MsgValue, MsgView};
use vstd::prelude::*;

verus! {

/// Something that the clients of some users are to be told.
#[derive(Debug)]
pub struct Notification {
    pub update_type: UpdateType,
    pub payload: Vec<(String, MsgValue)>,
    pub acting_device_id: Option<String>,
    pub target_users: Vec<String>,
}

/// What a [`Notification`] stands for.
pub struct NotificationView {
    pub update_type: UpdateType,
    pub payload: Seq<(Seq<char>, MsgView)>,
    pub acting_device_id: Option<Seq<char>>,
    pub target_users: Seq<Seq<char>>,
}

/// The characters of each of some texts.
pub open spec fn text_views(texts: Seq<String>) -> Seq<Seq<char>> {
    texts.map_values(|text: String| text@)
}

/// The names and values of a payload.
pub open spec fn payload_views(payload: Seq<(String, MsgValue)>) -> Seq<(Seq<char>, MsgView)> {
    payload.map_values(|field: (String, MsgValue)| (field.0@, field.1@))
}

impl View for Notification {
    type V = NotificationView;

    open spec fn view(&self) -> NotificationView {
        NotificationView {
            update_type: self.update_type,
            payload: payload_views(self.payload@),
            acting_device_id: opt_text(self.acting_device_id),
            target_users: text_views(self.target_users@),
        }
    }
}

impl NotificationView {
    /// Whether every value of the payload can be written as JSON.
    pub open spec fn is_plain(self) -> bool {
        forall|i: int| 0 <= i < self.payload.len() ==> is_plain((#[trigger] self.payload[i]).1)
    }
}

/// The notification that an account has changed.
pub open spec fn user_update_of(
    ut: UpdateType,
    user: Seq<char>,
    updated_at: CivilDateTime,
) -> NotificationView {
    NotificationView {
        update_type: ut,
        payload: seq![
            ("UserId"@, MsgView::Text(user)),
            ("Date"@, timestamp_value(updated_at)),
        ],
        acting_device_id: None,
        target_users: seq![user],
    }
}

/// The notification that an account is to be logged out.
pub open spec fn logout_of(
    user: Seq<char>,
    updated_at: CivilDateTime,
    acting_device_id: Option<Seq<char>>,
) -> NotificationView {
    NotificationView {
        acting_device_id,
        ..user_update_of(UpdateType::LogOut, user, updated_at)
    }
}

/// The notification that a folder has changed.
pub open spec fn folder_update_of(
    ut: UpdateType,
    folder: Seq<char>,
    user: Seq<char>,
    updated_at: CivilDateTime,
    device: Seq<char>,
) -> NotificationView {
    NotificationView {
        update_type: ut,
        payload: seq![
            ("Id"@, MsgView::Text(folder)),
            ("UserId"@, MsgView::Text(user)),
            ("RevisionDate"@, timestamp_value(updated_at)),
        ],
        acting_device_id: Some(device),
        target_users: seq![user],
    }
}

/// Texts as an array of text values.
pub open spec fn text_array(texts: Seq<Seq<char>>) -> MsgView {
    MsgView::Array(texts.map_values(|text: Seq<char>| MsgView::Text(text)))
}

/// The notification that a vault item has changed. Where collections are named,
/// the item belongs to them and not to one user, and the change counts as made
/// now.
pub open spec fn cipher_update_of(
    ut: UpdateType,
    cipher: Seq<char>,
    user: Option<Seq<char>>,
    organization: Option<Seq<char>>,
    updated_at: CivilDateTime,
    target_users: Seq<Seq<char>>,
    device: Seq<char>,
    collections: Option<Seq<Seq<char>>>,
    now: CivilDateTime,
) -> NotificationView {
    let (user_value, collection_value, revision_date) = match collections {
        Some(ids) => (MsgView::Nil, text_array(ids), now),
        None => (text_or_nil(user), MsgView::Nil, updated_at),
    };
    NotificationView {
        update_type: ut,
        payload: seq![
            ("Id"@, MsgView::Text(cipher)),
            ("UserId"@, user_value),
            ("OrganizationId"@, text_or_nil(organization)),
            ("CollectionIds"@, collection_value),
            ("RevisionDate"@, timestamp_value(revision_date)),
        ],
        acting_device_id: Some(device),
        target_users,
    }
}

/// The notification that a send has changed. It names no acting device.
pub open spec fn send_update_of(
    ut: UpdateType,
    send: Seq<char>,
    user: Option<Seq<char>>,
    revision_date: CivilDateTime,
    target_users: Seq<Seq<char>>,
) -> NotificationView {
    NotificationView {
        update_type: ut,
        payload: seq![
            ("Id"@, MsgView::Text(send)),
            ("UserId"@, text_or_nil(user)),
            ("RevisionDate"@, timestamp_value(revision_date)),
        ],
        acting_device_id: None,
        target_users,
    }
}

/// The notification that a login from another device asks for approval, or that
/// it was answered.
pub open spec fn auth_notification_of(
    ut: UpdateType,
    request: Seq<char>,
    user: Seq<char>,
    device: Seq<char>,
) -> NotificationView {
    NotificationView {
        update_type: ut,
        payload: seq![("Id"@, MsgView::Text(request)), ("UserId"@, MsgView::Text(user))],
        acting_device_id: Some(device),
        target_users: seq![user],
    }
}

fn one_text(text: &String) -> (texts: Vec<String>)
    ensures
        text_views(texts@) == seq![text@],
{
    let texts = vec![text.clone()];
    assert(text_views(texts@) =~= seq![text@]);
    texts
}

fn copy_texts(texts: &Vec<String>) -> (copy: Vec<String>)
    ensures
        copy@ == texts@,
{
    let copy = texts.clone();
    assert(copy@ =~= texts@);
    copy
}

fn text_field(name: &str, text: &str) -> (field: (String, MsgValue))
    ensures
        field.0@ == name@,
        field.1@ == MsgView::Text(text@),
{
    (name.to_owned(), MsgValue::Text(text.to_owned()))
}

fn field(name: &str, value: MsgValue) -> (field: (String, MsgValue))
    ensures
        field.0@ == name@,
        field.1@ == value@,
{
    (name.to_owned(), value)
}

fn text_array_value(texts: &Vec<String>) -> (value: MsgValue)
    ensures
        value@ == text_array(text_views(texts@)),
{
    let mut items: Vec<MsgValue> = Vec::new();
    let mut i: usize = 0;
    while i < texts.len()
        invariant
            i <= texts@.len(),
            items@.len() == i,
            forall|j: int| 0 <= j < i ==> (#[trigger] items@[j])@ == MsgView::Text(texts@[j]@),
        decreases texts.len() - i,
    {
        items.push(MsgValue::Text(texts[i].clone()));
        i += 1;
    }
    proof {
        lemma_msg_array_view(items);
        assert(msg_views(items@) =~= text_array(text_views(texts@))->Array_0);
    }
    MsgValue::Array(items)
}

/// Tells a user's clients that the account has changed.
pub fn user_update(ut: UpdateType, user: &User) -> (notification: Notification)
    requires
        user.updated_at.valid(),
    ensures
        notification@ == user_update_of(ut, user.uuid@, user.updated_at),
        notification@.is_plain(),
{
    let payload = vec![
        text_field("UserId", &user.uuid),
        field("Date", serialize_date(user.updated_at)),
    ];
    let notification = Notification {
        update_type: ut,
        payload,
        acting_device_id: None,
        target_users: one_text(&user.uuid),
    };
    assert(notification@.payload =~= user_update_of(ut, user.uuid@, user.updated_at).payload);
    notification
}

/// Tells a user's clients to log out.
pub fn logout(user: &User, acting_device_id: Option<String>) -> (notification: Notification)
    requires
        user.updated_at.valid(),
    ensures
        notification@ == logout_of(user.uuid@, user.updated_at, opt_text(acting_device_id)),
        notification@.is_plain(),
{
    let update = user_update(UpdateType::LogOut, user);
    Notification { acting_device_id, ..update }
}

/// Tells a user's clients that a folder has changed.
pub fn folder_update(ut: UpdateType, folder: &Folder, device: &Device) -> (notification:
    Notification)
    requires
        folder.updated_at.valid(),
    ensures
        notification@ == folder_update_of(
            ut,
            folder.uuid@,
            folder.user_uuid@,
            folder.updated_at,
            device.uuid@,
        ),
        notification@.is_plain(),
{
    let payload = vec![
        text_field("Id", &folder.uuid),
        text_field("UserId", &folder.user_uuid),
        field("RevisionDate", serialize_date(folder.updated_at)),
    ];
    let notification = Notification {
        update_type: ut,
        payload,
        acting_device_id: Some(device.uuid.clone()),
        target_users: one_text(&folder.user_uuid),
    };
    assert(notification@.payload =~= folder_update_of(
        ut,
        folder.uuid@,
        folder.user_uuid@,
        folder.updated_at,
        device.uuid@,
    ).payload);
    notification
}

/// The characters of each of some texts that may be missing.
pub open spec fn opt_text_views(texts: Option<Vec<String>>) -> Option<Seq<Seq<char>>> {
    match texts {
        Some(texts) => Some(text_views(texts@)),
        None => None,
    }
}

/// Tells some users' clients that a vault item has changed, at a given time.
pub fn cipher_update(
    ut: UpdateType,
    cipher: &Cipher,
    user_ids: &Vec<String>,
    device: &Device,
    collection_uuids: Option<Vec<String>>,
    now: CivilDateTime,
) -> (notification: Notification)
    requires
        cipher.updated_at.valid(),
        now.valid(),
    ensures
        notification@ == cipher_update_of(
            ut,
            cipher.uuid@,
            opt_text(cipher.user_uuid),
            opt_text(cipher.organization_uuid),
            cipher.updated_at,
            text_views(user_ids@),
            device.uuid@,
            opt_text_views(collection_uuids),
            now,
        ),
        notification@.is_plain(),
{
    let org_id = convert_option(cipher.organization_uuid.clone());
    let (user_id, collection_ids, revision_date) = match &collection_uuids {
        Some(ids) => (MsgValue::Nil, text_array_value(ids), serialize_date(now)),
        None => (
            convert_option(cipher.user_uuid.clone()),
            MsgValue::Nil,
            serialize_date(cipher.updated_at),
        ),
    };
    let payload = vec![
        text_field("Id", &cipher.uuid),
        field("UserId", user_id),
        field("OrganizationId", org_id),
        field("CollectionIds", collection_ids),
        field("RevisionDate", revision_date),
    ];
    let notification = Notification {
        update_type: ut,
        payload,
        acting_device_id: Some(device.uuid.clone()),
        target_users: copy_texts(user_ids),
    };
    proof {
        reveal_with_fuel(is_plain, 2);
        assert(notification@.payload =~= cipher_update_of(
            ut,
            cipher.uuid@,
            opt_text(cipher.user_uuid),
            opt_text(cipher.organization_uuid),
            cipher.updated_at,
            text_views(user_ids@),
            device.uuid@,
            opt_text_views(collection_uuids),
            now,
        ).payload);
    }
    notification
}

/// Tells some users' clients that a send has changed.
pub fn send_update(ut: UpdateType, send: &DbSend, user_ids: &Vec<String>) -> (notification:
    Notification)
    requires
        send.revision_date.valid(),
    ensures
        notification@ == send_update_of(
            ut,
            send.uuid@,
            opt_text(send.user_uuid),
            send.revision_date,
            text_views(user_ids@),
        ),
        notification@.is_plain(),
{
    let payload = vec![
        text_field("Id", &send.uuid),
        field("UserId", convert_option(send.user_uuid.clone())),
        field("RevisionDate", serialize_date(send.revision_date)),
    ];
    let notification = Notification {
        update_type: ut,
        payload,
        acting_device_id: None,
        target_users: copy_texts(user_ids),
    };
    assert(notification@.payload =~= send_update_of(
        ut,
        send.uuid@,
        opt_text(send.user_uuid),
        send.revision_date,
        text_views(user_ids@),
    ).payload);
    notification
}

/// Tells a user's clients of a login request, or of the answer to one.
pub fn auth_notification(
    ut: UpdateType,
    user_id: &String,
    auth_request_id: &str,
    device: &Device,
) -> (notification: Notification)
    ensures
        notification@ == auth_notification_of(ut, auth_request_id@, user_id@, device.uuid@),
        notification@.is_plain(),
{
    let payload = vec![text_field("Id", auth_request_id), text_field("UserId", user_id)];
    let notification = Notification {
        update_type: ut,
        payload,
        acting_device_id: Some(device.uuid.clone()),
        target_users: one_text(user_id),
    };
    assert(notification@.payload =~= auth_notification_of(
        ut,
        auth_request_id@,
        user_id@,
        device.uuid@,
    ).payload);
    notification
}

/// The value of a field of a payload.
pub open spec fn field_value(payload: Seq<(Seq<char>, MsgView)>, name: Seq<char>) -> Option<MsgView>
    decreases payload.len(),
{
    if payload.len() == 0 {
        None
    } else if payload[0].0 == name {
        Some(payload[0].1)
    } else {
        field_value(payload.drop_first(), name)
    }
}

/// The value of one of the first fields of a payload whose names differ from it before.
proof fn lemma_field_found(payload: Seq<(Seq<char>, MsgView)>, i: int)
    requires
        0 <= i < payload.len(),
        forall|j: int| 0 <= j < i ==> (#[trigger] payload[j]).0 != payload[i].0,
    ensures
        field_value(payload, payload[i].0) == Some(payload[i].1),
    decreases i,
{
    if i > 0 {
        let rest = payload.drop_first();
        assert(payload[0].0 != payload[i].0);
        assert(rest[i - 1] == payload[i]);
        assert forall|j: int| 0 <= j < i - 1 implies (#[trigger] rest[j]).0 != rest[i - 1].0 by {
            assert(payload[j + 1].0 != payload[i].0);
        }
        lemma_field_found(rest, i - 1);
    }
}

proof fn lemma_field_names_differ()
    ensures
        "Id"@ != "UserId"@,
        "Id"@ != "OrganizationId"@,
        "Id"@ != "CollectionIds"@,
        "Id"@ != "RevisionDate"@,
        "UserId"@ != "OrganizationId"@,
        "UserId"@ != "CollectionIds"@,
        "UserId"@ != "RevisionDate"@,
        "UserId"@ != "Date"@,
        "OrganizationId"@ != "CollectionIds"@,
        "OrganizationId"@ != "RevisionDate"@,
        "CollectionIds"@ != "RevisionDate"@,
{
    reveal_strlit("Id");
    reveal_strlit("UserId");
    reveal_strlit("OrganizationId");
    reveal_strlit("CollectionIds");
    reveal_strlit("RevisionDate");
    reveal_strlit("Date");
    assert("Id"@[0] == 'I' && "UserId"@[0] == 'U' && "OrganizationId"@[0] == 'O');
    assert("CollectionIds"@[0] == 'C' && "RevisionDate"@[0] == 'R' && "Date"@[0] == 'D');
}

/// An account update tells the account's own clients, and nobody else, whose account it
/// is and when it changed. A logout tells the same, whoever asked for it, and names the
/// device that asked.
pub proof fn law_user_update_fields(
    ut: UpdateType,
    user: Seq<char>,
    updated_at: CivilDateTime,
    acting_device_id: Option<Seq<char>>,
)
    ensures
        ({
            let update = user_update_of(ut, user, updated_at);
            let out = logout_of(user, updated_at, acting_device_id);
            &&& update.update_type == ut && out.update_type is LogOut
            &&& update.acting_device_id is None && out.acting_device_id == acting_device_id
            &&& update.target_users == seq![user] && out.target_users == seq![user]
            &&& update.payload.len() == 2 && out.payload.len() == 2
            &&& field_value(update.payload, "UserId"@) == Some(MsgView::Text(user))
            &&& field_value(out.payload, "UserId"@) == Some(MsgView::Text(user))
            &&& field_value(update.payload, "Date"@) == Some(timestamp_value(updated_at))
            &&& field_value(out.payload, "Date"@) == Some(timestamp_value(updated_at))
        }),
{
    lemma_field_names_differ();
    let payload = user_update_of(ut, user, updated_at).payload;
    lemma_field_found(payload, 0);
    lemma_field_found(payload, 1);
    let out = logout_of(user, updated_at, acting_device_id).payload;
    lemma_field_found(out, 0);
    lemma_field_found(out, 1);
}

/// A folder update tells the clients of the folder's owner which folder it is, whose,
/// and when it changed, on account of the device that changed it.
pub proof fn law_folder_update_fields(
    ut: UpdateType,
    folder: Seq<char>,
    user: Seq<char>,
    updated_at: CivilDateTime,
    device: Seq<char>,
)
    ensures
        ({
            let update = folder_update_of(ut, folder, user, updated_at, device);
            &&& update.update_type == ut
            &&& update.acting_device_id == Some(device)
            &&& update.target_users == seq![user]
            &&& update.payload.len() == 3
            &&& field_value(update.payload, "Id"@) == Some(MsgView::Text(folder))
            &&& field_value(update.payload, "UserId"@) == Some(MsgView::Text(user))
            &&& field_value(update.payload, "RevisionDate"@) == Some(timestamp_value(updated_at))
        }),
{
    lemma_field_names_differ();
    let payload = folder_update_of(ut, folder, user, updated_at, device).payload;
    lemma_field_found(payload, 0);
    lemma_field_found(payload, 1);
    lemma_field_found(payload, 2);
}

/// A vault item update tells every user that was named which item it is and, whether or
/// not collections are named, which organization it belongs to if it belongs to one.
/// Where no collections are named it tells whose item it is and when it changed; where
/// some are, it tells all of them, no user, and the time of the call.
pub proof fn law_cipher_update_fields(
    ut: UpdateType,
    cipher: Seq<char>,
    user: Option<Seq<char>>,
    organization: Option<Seq<char>>,
    updated_at: CivilDateTime,
    target_users: Seq<Seq<char>>,
    device: Seq<char>,
    collections: Option<Seq<Seq<char>>>,
    now: CivilDateTime,
)
    ensures
        ({
            let update = cipher_update_of(
                ut,
                cipher,
                user,
                organization,
                updated_at,
                target_users,
                device,
                collections,
                now,
            );
            let named = field_value(update.payload, "CollectionIds"@);
            &&& update.update_type == ut
            &&& update.acting_device_id == Some(device)
            &&& update.target_users == target_users
            &&& update.payload.len() == 5
            &&& field_value(update.payload, "Id"@) == Some(MsgView::Text(cipher))
            &&& organization matches Some(owner) ==> field_value(update.payload, "OrganizationId"@)
                == Some(MsgView::Text(owner))
            &&& organization is None ==> field_value(update.payload, "OrganizationId"@) == Some(
                MsgView::Nil,
            )
            &&& collections is None ==> {
                &&& user matches Some(owner) ==> field_value(update.payload, "UserId"@) == Some(
                    MsgView::Text(owner),
                )
                &&& user is None ==> field_value(update.payload, "UserId"@) == Some(MsgView::Nil)
                &&& named == Some(MsgView::Nil)
                &&& field_value(update.payload, "RevisionDate"@) == Some(
                    timestamp_value(updated_at),
                )
            }
            &&& collections matches Some(ids) ==> {
                &&& field_value(update.payload, "UserId"@) == Some(MsgView::Nil)
                &&& named is Some && named->0 is Array
                &&& named->0->Array_0.len() == ids.len()
                &&& forall|i: int|
                    0 <= i < ids.len() ==> #[trigger] named->0->Array_0[i] == MsgView::Text(ids[i])
                &&& field_value(update.payload, "RevisionDate"@) == Some(timestamp_value(now))
            }
        }),
{
    lemma_field_names_differ();
    let payload = cipher_update_of(
        ut,
        cipher,
        user,
        organization,
        updated_at,
        target_users,
        device,
        collections,
        now,
    ).payload;
    lemma_field_found(payload, 0);
    lemma_field_found(payload, 1);
    lemma_field_found(payload, 2);
    lemma_field_found(payload, 3);
    lemma_field_found(payload, 4);
}

/// A send update tells every user that was named which send it is, whose if it is
/// somebody's, and when it changed. It names no device.
pub proof fn law_send_update_fields(
    ut: UpdateType,
    send: Seq<char>,
    user: Option<Seq<char>>,
    revision_date: CivilDateTime,
    target_users: Seq<Seq<char>>,
)
    ensures
        ({
            let update = send_update_of(ut, send, user, revision_date, target_users);
            &&& update.update_type == ut
            &&& update.acting_device_id is None
            &&& update.target_users == target_users
            &&& update.payload.len() == 3
            &&& field_value(update.payload, "Id"@) == Some(MsgView::Text(send))
            &&& user matches Some(owner) ==> field_value(update.payload, "UserId"@) == Some(
                MsgView::Text(owner),
            )
            &&& user is None ==> field_value(update.payload, "UserId"@) == Some(MsgView::Nil)
            &&& field_value(update.payload, "RevisionDate"@) == Some(timestamp_value(revision_date))
        }),
{
    lemma_field_names_differ();
    let payload = send_update_of(ut, send, user, revision_date, target_users).payload;
    lemma_field_found(payload, 0);
    lemma_field_found(payload, 1);
    lemma_field_found(payload, 2);
}

/// A login request, or its answer, tells the clients of the user which request it is and
/// whose, on account of the device.
pub proof fn law_auth_notification_fields(
    ut: UpdateType,
    request: Seq<char>,
    user: Seq<char>,
    device: Seq<char>,
)
    ensures
        ({
            let notification = auth_notification_of(ut, request, user, device);
            &&& notification.update_type == ut
            &&& notification.acting_device_id == Some(device)
            &&& notification.target_users == seq![user]
            &&& notification.payload.len() == 2
            &&& field_value(notification.payload, "Id"@) == Some(MsgView::Text(request))
            &&& field_value(notification.payload, "UserId"@) == Some(MsgView::Text(user))
        }),
{
    lemma_field_names_differ();
    let payload = auth_notification_of(ut, request, user, device).payload;
    lemma_field_found(payload, 0);
    lemma_field_found(payload, 1);
}

/// A notification stands for exactly the fields, the users and the device that it
/// holds.
pub proof fn law_notification_view_keeps_everything(
    notification: Notification,
    texts: Option<Vec<String>>,
    i: int,
)
    ensures
        notification@.update_type == notification.update_type,
        notification.acting_device_id is None <==> notification@.acting_device_id is None,
        notification.acting_device_id matches Some(device) ==> notification@.acting_device_id
            == Some(device@),
        notification@.payload.len() == notification.payload@.len(),
        notification@.target_users.len() == notification.target_users@.len(),
        0 <= i < notification.payload@.len() ==> notification@.payload[i].0
            == notification.payload@[i].0@ && notification@.payload[i].1
            == notification.payload@[i].1@,
        0 <= i < notification.target_users@.len() ==> notification@.target_users[i]
            == notification.target_users@[i]@,
        texts is None <==> opt_text_views(texts) is None,
        texts matches Some(list) ==> opt_text_views(texts)->0.len() == list@.len() && (0 <= i
            < list@.len() ==> opt_text_views(texts)->0[i] == list@[i]@),
{
}

}
