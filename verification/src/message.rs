//! The messages that the hubs push to clients.
//!
//! Every message is an invocation in the MessagePack hub protocol:
//!
//! ```text
//! [
//!     1,                  // an invocation
//!     {},                 // headers
//!     nil,                // no invocation id
//!     "ReceiveMessage",   // target
//!     [ { "ContextId": .., "Type": .., "Payload": .. } ],
//! ]
//! ```

use crate::datetime::CivilDateTime;
use crate::frame::{law_value_reads_back, read_frame, serialize, value_frame};
use crate::value::{
    is_record, json_text, law_members_are_listed_one_way, lemma_msg_array_view,
    lemma_msg_mapping_view, lists_members, maps_members, msg_from_json_text, msg_pair_views,
    msg_views, msgpack, parse_msg, print_json, Json, JsonView, MsgValue, MsgView,
};
use vstd::arithmetic::div_mod::lemma_div_denominator;
use vstd::prelude::*;

verus! {

/// What an update is about.
#[derive(Debug, Clone, Copy, PartialEq, Eq, Structural)]
pub enum UpdateType {
    SyncCipherUpdate,
    SyncCipherCreate,
    SyncLoginDelete,
    SyncFolderDelete,
    SyncCiphers,
    SyncVault,
    SyncOrgKeys,
    SyncFolderCreate,
    SyncFolderUpdate,
    SyncCipherDelete,
    SyncSettings,
    LogOut,
    SyncSendCreate,
    SyncSendUpdate,
    SyncSendDelete,
    AuthRequest,
    AuthRequestResponse,
    Nothing,
}

impl UpdateType {
    /// The number that stands for this kind of update on the wire.
    pub open spec fn spec_code(self) -> i32 {
        match self {
            UpdateType::SyncCipherUpdate => 0,
            UpdateType::SyncCipherCreate => 1,
            UpdateType::SyncLoginDelete => 2,
            UpdateType::SyncFolderDelete => 3,
            UpdateType::SyncCiphers => 4,
            UpdateType::SyncVault => 5,
            UpdateType::SyncOrgKeys => 6,
            UpdateType::SyncFolderCreate => 7,
            UpdateType::SyncFolderUpdate => 8,
            UpdateType::SyncCipherDelete => 9,
            UpdateType::SyncSettings => 10,
            UpdateType::LogOut => 11,
            UpdateType::SyncSendCreate => 12,
            UpdateType::SyncSendUpdate => 13,
            UpdateType::SyncSendDelete => 14,
            UpdateType::AuthRequest => 15,
            UpdateType::AuthRequestResponse => 16,
            UpdateType::Nothing => 100,
        }
    }

    /// The number that stands for this kind of update on the wire.
    pub fn code(self) -> (code: i32)
        ensures
            code == self.spec_code(),
    {
        match self {
            UpdateType::SyncCipherUpdate => 0,
            UpdateType::SyncCipherCreate => 1,
            UpdateType::SyncLoginDelete => 2,
            UpdateType::SyncFolderDelete => 3,
            UpdateType::SyncCiphers => 4,
            UpdateType::SyncVault => 5,
            UpdateType::SyncOrgKeys => 6,
            UpdateType::SyncFolderCreate => 7,
            UpdateType::SyncFolderUpdate => 8,
            UpdateType::SyncCipherDelete => 9,
            UpdateType::SyncSettings => 10,
            UpdateType::LogOut => 11,
            UpdateType::SyncSendCreate => 12,
            UpdateType::SyncSendUpdate => 13,
            UpdateType::SyncSendDelete => 14,
            UpdateType::AuthRequest => 15,
            UpdateType::AuthRequestResponse => 16,
            UpdateType::Nothing => 100,
        }
    }
}

/// A client that reads the number of an update knows which kind it is.
pub proof fn law_update_codes_differ(a: UpdateType, b: UpdateType)
    ensures
        a.spec_code() == b.spec_code() ==> a == b,
{
}

/// The word of a MessagePack timestamp: nanoseconds in the upper 30 bits, seconds
/// in the lower 34. Seconds that need more bits, as those before 1970 do, run
/// into the nanoseconds.
pub open spec fn timestamp_word(seconds: i64, nanos: u32) -> u64 {
    ((nanos as u64) << 34) | (seconds as u64)
}

/// A word as eight bytes, highest first.
pub open spec fn big_endian(word: u64) -> Seq<u8> {
    Seq::new(8, |i: int| ((word as int / pow256(7 - i)) % 256) as u8)
}

/// 256 to a power.
pub open spec fn pow256(exponent: int) -> int
    decreases exponent,
{
    if exponent <= 0 {
        1
    } else {
        256 * pow256(exponent - 1)
    }
}

/// The timestamp extension value for a date: tag -1 and the word in eight bytes.
pub open spec fn timestamp_value(date: CivilDateTime) -> MsgView {
    MsgView::Ext(-1, big_endian(timestamp_word(date.unix_seconds() as i64, date.nano)))
}

fn big_endian_bytes(word: u64) -> (bytes: Vec<u8>)
    ensures
        bytes@ == big_endian(word),
{
    let bytes = vec![
        ((word / 0x100_0000_0000_0000) % 256) as u8,
        ((word / 0x1_0000_0000_0000) % 256) as u8,
        ((word / 0x100_0000_0000) % 256) as u8,
        ((word / 0x1_0000_0000) % 256) as u8,
        ((word / 0x100_0000) % 256) as u8,
        ((word / 0x1_0000) % 256) as u8,
        ((word / 0x100) % 256) as u8,
        (word % 256) as u8,
    ];
    proof {
        reveal_with_fuel(pow256, 9);
        assert(bytes@ =~= big_endian(word));
    }
    bytes
}

/// Encodes a date as a MessagePack timestamp.
pub fn serialize_date(date: CivilDateTime) -> (value: MsgValue)
    requires
        date.valid(),
    ensures
        value@ == timestamp_value(date),
{
    let seconds: i64 = date.timestamp();
    let nanos: u64 = date.timestamp_subsec_nanos() as u64;
    let word: u64 = (nanos << 34) | (#[verifier::truncate] (seconds as u64));
    MsgValue::Ext(-1, big_endian_bytes(word))
}

/// The word that eight bytes hold, highest first.
pub open spec fn word_of(bytes: Seq<u8>) -> int
    decreases bytes.len(),
{
    if bytes.len() == 0 {
        0
    } else {
        256 * word_of(bytes.drop_last()) + bytes.last()
    }
}

proof fn lemma_word_of_prefix(word: u64, n: nat)
    requires
        n <= 8,
    ensures
        word_of(big_endian(word).take(n as int)) == word as int / pow256(8 - n),
    decreases n,
{
    reveal_with_fuel(pow256, 9);
    let bytes = big_endian(word).take(n as int);
    if n == 0 {
        assert(pow256(8) == 0x1_0000_0000_0000_0000);
        assert(word as int / 0x1_0000_0000_0000_0000 == 0);
    } else {
        lemma_word_of_prefix(word, (n - 1) as nat);
        assert(bytes.drop_last() =~= big_endian(word).take(n - 1));
        assert(bytes.last() == ((word as int / pow256(8 - n)) % 256) as u8);
        let unit = pow256(8 - n);
        assert(unit > 0 && pow256(9 - n) == unit * 256);
        lemma_div_denominator(word as int, unit, 256);
        let shifted = word as int / unit;
        assert(word_of(bytes.drop_last()) == shifted / 256);
        assert(word_of(bytes) == 256 * (shifted / 256) + shifted % 256);
    }
}

/// The date that a client reads out of the timestamp extension value is the date
/// that was put in, for every date from 1970 up to the year 2514, where the
/// seconds outgrow their 34 bits.
pub proof fn law_timestamp_reads_back(date: CivilDateTime)
    requires
        date.regular(),
        0 <= date.unix_seconds() < 0x4_0000_0000,
    ensures
        timestamp_value(date) matches MsgView::Ext(tag, bytes) && tag == -1 && bytes.len() == 8
            && word_of(bytes) % 0x4_0000_0000 == date.unix_seconds() && word_of(bytes)
            / 0x4_0000_0000 == date.nano,
{
    let seconds = date.unix_seconds() as i64;
    let nanos = date.nano;
    let word = timestamp_word(seconds, nanos);
    let unsigned = seconds as u64;
    assert(((nanos as u64) << 34) | unsigned == (nanos as u64) * 0x4_0000_0000 + unsigned)
        by (bit_vector)
        requires
            nanos < 1_000_000_000,
            unsigned < 0x4_0000_0000,
    ;
    lemma_word_of_prefix(word, 8);
    assert(big_endian(word).take(8) =~= big_endian(word));
}

/// The value, or nil where there is none.
pub open spec fn text_or_nil(text: Option<Seq<char>>) -> MsgView {
    match text {
        Some(text) => MsgView::Text(text),
        None => MsgView::Nil,
    }
}

/// The characters of a text that may be missing.
pub open spec fn opt_text(text: Option<String>) -> Option<Seq<char>> {
    match text {
        Some(text) => Some(text@),
        None => None,
    }
}

/// Turns a text that may be missing into a value.
pub fn convert_option(option: Option<String>) -> (value: MsgValue)
    ensures
        value@ == text_or_nil(opt_text(option)),
{
    match option {
        Some(text) => MsgValue::Text(text),
        None => MsgValue::Nil,
    }
}

/// An invocation of one target with one argument.
pub open spec fn invocation(target: Seq<char>, argument: MsgView) -> MsgView {
    MsgView::Array(
        seq![
            MsgView::Integer(1),
            MsgView::Mapping(Seq::empty()),
            MsgView::Nil,
            MsgView::Text(target),
            MsgView::Array(seq![argument]),
        ],
    )
}

/// The message that tells a logged-in client of an update.
pub open spec fn update_message(
    payload: MsgView,
    ut: UpdateType,
    acting_device_id: Option<Seq<char>>,
) -> MsgView {
    invocation(
        "ReceiveMessage"@,
        MsgView::Mapping(
            seq![
                (MsgView::Text("ContextId"@), text_or_nil(acting_device_id)),
                (MsgView::Text("Type"@), MsgView::Integer(ut.spec_code() as int)),
                (MsgView::Text("Payload"@), payload),
            ],
        ),
    )
}

/// The message that tells an anonymous client of the answer to its request.
pub open spec fn anonymous_message(payload: MsgView, ut: UpdateType, user_id: Seq<char>) -> MsgView {
    invocation(
        "AuthRequestResponseRecieved"@,
        MsgView::Mapping(
            seq![
                (MsgView::Text("Type"@), MsgView::Integer(ut.spec_code() as int)),
                (MsgView::Text("Payload"@), payload),
                (MsgView::Text("UserId"@), MsgView::Text(user_id)),
            ],
        ),
    )
}

/// The message that keeps a connection alive.
pub open spec fn ping_message() -> MsgView {
    MsgView::Array(seq![MsgView::Integer(6)])
}

/// A text value.
fn text_value(text: &str) -> (value: MsgValue)
    ensures
        value@ == MsgView::Text(text@),
{
    MsgValue::Text(text.to_owned())
}

fn invoke(target: &str, argument: MsgValue) -> (value: MsgValue)
    ensures
        value@ == invocation(target@, argument@),
{
    let arguments = vec![argument];
    let headers: Vec<(MsgValue, MsgValue)> = Vec::new();
    proof {
        lemma_msg_array_view(arguments);
        lemma_msg_mapping_view(headers);
        assert(msg_views(arguments@) =~= seq![argument@]);
        assert(msg_pair_views(headers@) =~= Seq::empty());
    }
    let parts = vec![
        MsgValue::Signed(1),
        MsgValue::Mapping(headers),
        MsgValue::Nil,
        text_value(target),
        MsgValue::Array(arguments),
    ];
    proof {
        lemma_msg_array_view(parts);
        assert(msg_views(parts@) =~= invocation(target@, argument@)->Array_0);
    }
    MsgValue::Array(parts)
}

/// Builds the message that tells a logged-in client of an update.
pub fn update_value(
    payload: MsgValue,
    ut: UpdateType,
    acting_device_id: Option<String>,
) -> (value: MsgValue)
    ensures
        value@ == update_message(payload@, ut, opt_text(acting_device_id)),
{
    let ghost device = opt_text(acting_device_id);
    let fields = vec![
        (text_value("ContextId"), convert_option(acting_device_id)),
        (text_value("Type"), MsgValue::Signed(ut.code() as i64)),
        (text_value("Payload"), payload),
    ];
    proof {
        lemma_msg_mapping_view(fields);
        assert(msg_pair_views(fields@) =~= seq![
            (MsgView::Text("ContextId"@), text_or_nil(device)),
            (MsgView::Text("Type"@), MsgView::Integer(ut.spec_code() as int)),
            (MsgView::Text("Payload"@), payload@),
        ]);
    }
    invoke("ReceiveMessage", MsgValue::Mapping(fields))
}

/// Builds the frame that tells a logged-in client of an update.
pub fn create_update(
    payload: Vec<(MsgValue, MsgValue)>,
    ut: UpdateType,
    acting_device_id: Option<String>,
) -> (data: Vec<u8>)
    ensures
        data@ == value_frame(
            update_message(
                MsgView::Mapping(msg_pair_views(payload@)),
                ut,
                opt_text(acting_device_id),
            ),
        ),
{
    proof {
        lemma_msg_mapping_view(payload);
    }
    serialize(update_value(MsgValue::Mapping(payload), ut, acting_device_id))
}

/// Builds the message that tells an anonymous client of the answer to its
/// request.
pub fn anonymous_value(payload: MsgValue, ut: UpdateType, user_id: &str) -> (value: MsgValue)
    ensures
        value@ == anonymous_message(payload@, ut, user_id@),
{
    let fields = vec![
        (text_value("Type"), MsgValue::Signed(ut.code() as i64)),
        (text_value("Payload"), payload),
        (text_value("UserId"), text_value(user_id)),
    ];
    proof {
        lemma_msg_mapping_view(fields);
        assert(msg_pair_views(fields@) =~= seq![
            (MsgView::Text("Type"@), MsgView::Integer(ut.spec_code() as int)),
            (MsgView::Text("Payload"@), payload@),
            (MsgView::Text("UserId"@), MsgView::Text(user_id@)),
        ]);
    }
    invoke("AuthRequestResponseRecieved", MsgValue::Mapping(fields))
}

/// Builds the frame that tells an anonymous client of the answer to its request.
pub fn create_anonymous_update(
    payload: Vec<(MsgValue, MsgValue)>,
    ut: UpdateType,
    user_id: &str,
) -> (data: Vec<u8>)
    ensures
        data@ == value_frame(
            anonymous_message(MsgView::Mapping(msg_pair_views(payload@)), ut, user_id@),
        ),
{
    proof {
        lemma_msg_mapping_view(payload);
    }
    serialize(anonymous_value(MsgValue::Mapping(payload), ut, user_id))
}

/// Builds the frame that keeps a connection alive.
pub fn create_ping() -> (data: Vec<u8>)
    ensures
        data@ == value_frame(ping_message()),
{
    let parts = vec![MsgValue::Signed(6)];
    proof {
        lemma_msg_array_view(parts);
        assert(msg_views(parts@) =~= seq![MsgView::Integer(6)]);
    }
    serialize(MsgValue::Array(parts))
}

/// A value read from a JSON text, or nil where nothing could be read.
pub open spec fn value_or_nil(parsed: Option<MsgView>) -> MsgView {
    match parsed {
        Some(value) => value,
        None => MsgView::Nil,
    }
}

/// The MessagePack value of a JSON payload: what its text reads as, or nil where
/// it has no text or the text does not read.
pub open spec fn payload_value(payload: JsonView) -> MsgView {
    match json_text(payload) {
        Some(text) => value_or_nil(msg_from_json_text(text)),
        None => MsgView::Nil,
    }
}

/// The frame that tells a logged-in client of an update with a JSON payload.
pub open spec fn payload_frame(
    payload: JsonView,
    ut: UpdateType,
    acting_device_id: Option<Seq<char>>,
) -> Seq<u8> {
    value_frame(update_message(payload_value(payload), ut, acting_device_id))
}

/// The value that was read, or nil where nothing could be read.
pub fn or_nil(parsed: Option<MsgValue>) -> (value: MsgValue)
    ensures
        parsed is Some ==> value@ == parsed->0@,
        parsed is None ==> value@ == MsgView::Nil,
{
    match parsed {
        Some(value) => value,
        None => MsgValue::Nil,
    }
}

/// Builds the frame that tells a logged-in client of an update whose payload is
/// given as JSON. For a record this is the frame that [`create_update`] builds for its
/// members in the order of their names, so that clients cannot tell the two apart.
pub fn create_update_from_payload(
    payload: &Json,
    ut: UpdateType,
    acting_device_id: Option<String>,
) -> (data: Vec<u8>)
    ensures
        data@ == payload_frame(payload@, ut, opt_text(acting_device_id)),
        is_record(payload@) ==> maps_members(payload_value(payload@), payload@),
        is_record(payload@) ==> forall|pairs: Seq<(MsgView, MsgView)>| #[trigger]
            lists_members(pairs, payload@) ==> data@ == value_frame(
                update_message(MsgView::Mapping(pairs), ut, opt_text(acting_device_id)),
            ),
{
    let parsed = match print_json(payload) {
        Some(text) => parse_msg(&text),
        None => None,
    };
    proof {
        if is_record(payload@) {
            assert forall|pairs: Seq<(MsgView, MsgView)>| #[trigger]
                lists_members(pairs, payload@) implies payload_value(payload@)
                == MsgView::Mapping(pairs) by {
                law_relayed_payload_is_its_members(payload@, pairs);
            }
        }
    }
    serialize(update_value(or_nil(parsed), ut, acting_device_id))
}

/// What a record reads as is the mapping of its members in the order of their names.
pub proof fn law_relayed_payload_is_its_members(
    payload: JsonView,
    pairs: Seq<(MsgView, MsgView)>,
)
    requires
        maps_members(payload_value(payload), payload),
        lists_members(pairs, payload),
    ensures
        payload_value(payload) == MsgView::Mapping(pairs),
{
    law_members_are_listed_one_way(payload_value(payload)->Mapping_0, pairs, payload);
}

/// An update that was relayed as JSON looks to clients like the one that is built
/// from the same members in place: the frames are equal.
pub proof fn law_relayed_update_equals_local_one(
    payload: JsonView,
    pairs: Seq<(MsgView, MsgView)>,
    ut: UpdateType,
    acting_device_id: Option<Seq<char>>,
)
    requires
        maps_members(payload_value(payload), payload),
        lists_members(pairs, payload),
    ensures
        payload_frame(payload, ut, acting_device_id) == value_frame(
            update_message(MsgView::Mapping(pairs), ut, acting_device_id),
        ),
{
    law_relayed_payload_is_its_members(payload, pairs);
}

/// The numbers of the kinds of updates are those that clients know.
pub proof fn law_update_codes_are_known()
    ensures
        UpdateType::SyncCipherUpdate.spec_code() == 0,
        UpdateType::SyncCipherCreate.spec_code() == 1,
        UpdateType::SyncLoginDelete.spec_code() == 2,
        UpdateType::SyncFolderDelete.spec_code() == 3,
        UpdateType::SyncCiphers.spec_code() == 4,
        UpdateType::SyncVault.spec_code() == 5,
        UpdateType::SyncOrgKeys.spec_code() == 6,
        UpdateType::SyncFolderCreate.spec_code() == 7,
        UpdateType::SyncFolderUpdate.spec_code() == 8,
        UpdateType::SyncCipherDelete.spec_code() == 9,
        UpdateType::SyncSettings.spec_code() == 10,
        UpdateType::LogOut.spec_code() == 11,
        UpdateType::SyncSendCreate.spec_code() == 12,
        UpdateType::SyncSendUpdate.spec_code() == 13,
        UpdateType::SyncSendDelete.spec_code() == 14,
        UpdateType::AuthRequest.spec_code() == 15,
        UpdateType::AuthRequestResponse.spec_code() == 16,
        UpdateType::Nothing.spec_code() == 100,
{
}

/// For every date, also a leap second or one before 1970, the eight bytes of its
/// timestamp hold the nanoseconds shifted by 34 bits and the seconds as they are in 64
/// bits.
pub proof fn law_timestamp_holds_the_date(date: CivilDateTime)
    ensures
        timestamp_value(date) is Ext,
        timestamp_value(date)->Ext_0 == -1,
        timestamp_value(date)->Ext_1.len() == 8,
        word_of(timestamp_value(date)->Ext_1) == (((date.nano as u64) << 34u64) | (
        date.unix_seconds() as i64) as u64),
{
    let word = timestamp_word(date.unix_seconds() as i64, date.nano);
    lemma_word_of_prefix(word, 8);
    assert(big_endian(word).take(8) =~= big_endian(word));
    reveal_with_fuel(pow256, 1);
}

/// The value of a key in a mapping.
pub open spec fn value_of(value: MsgView, key: Seq<char>) -> Option<MsgView> {
    match value {
        MsgView::Mapping(pairs) => first_value(pairs, key),
        _ => None,
    }
}

/// The value of the first of some pairs that has a key.
pub open spec fn first_value(pairs: Seq<(MsgView, MsgView)>, key: Seq<char>) -> Option<MsgView>
    decreases pairs.len(),
{
    if pairs.len() == 0 {
        None
    } else if pairs[0].0 == MsgView::Text(key) {
        Some(pairs[0].1)
    } else {
        first_value(pairs.drop_first(), key)
    }
}

/// Whether a message invokes a target with one argument, as the protocol has it: the
/// kind of message, no headers, no invocation to answer, the target, the arguments.
pub open spec fn invokes(message: MsgView, target: Seq<char>) -> bool {
    &&& message matches MsgView::Array(parts)
    &&& parts.len() == 5
    &&& parts[0] == MsgView::Integer(1)
    &&& parts[1] is Mapping && parts[1]->Mapping_0.len() == 0
    &&& parts[2] is Nil
    &&& parts[3] == MsgView::Text(target)
    &&& parts[4] matches MsgView::Array(arguments) && arguments.len() == 1
}

/// The argument of an invocation.
pub open spec fn argument_of(message: MsgView) -> MsgView {
    message->Array_0[4]->Array_0[0]
}

/// Whether a message tells a logged-in client of an update: it names the acting device
/// if there is one, the kind of update and the payload, and nothing else.
pub open spec fn tells_update(
    message: MsgView,
    payload: MsgView,
    ut: UpdateType,
    acting_device_id: Option<Seq<char>>,
) -> bool {
    let argument = argument_of(message);
    &&& invokes(message, "ReceiveMessage"@)
    &&& argument is Mapping && argument->Mapping_0.len() == 3
    &&& acting_device_id matches Some(device) ==> value_of(argument, "ContextId"@) == Some(
        MsgView::Text(device),
    )
    &&& acting_device_id is None ==> value_of(argument, "ContextId"@) == Some(MsgView::Nil)
    &&& value_of(argument, "Type"@) == Some(MsgView::Integer(ut.spec_code() as int))
    &&& value_of(argument, "Payload"@) == Some(payload)
}

/// Whether a message tells an anonymous client of the answer to its request.
pub open spec fn tells_answer(
    message: MsgView,
    payload: MsgView,
    ut: UpdateType,
    user_id: Seq<char>,
) -> bool {
    let argument = argument_of(message);
    &&& invokes(message, "AuthRequestResponseRecieved"@)
    &&& argument is Mapping && argument->Mapping_0.len() == 3
    &&& value_of(argument, "Type"@) == Some(MsgView::Integer(ut.spec_code() as int))
    &&& value_of(argument, "Payload"@) == Some(payload)
    &&& value_of(argument, "UserId"@) == Some(MsgView::Text(user_id))
}

proof fn lemma_three_values(
    a: Seq<char>,
    x: MsgView,
    b: Seq<char>,
    y: MsgView,
    c: Seq<char>,
    z: MsgView,
)
    requires
        a != b,
        a != c,
        b != c,
    ensures
        ({
            let mapping = MsgView::Mapping(
                seq![(MsgView::Text(a), x), (MsgView::Text(b), y), (MsgView::Text(c), z)],
            );
            &&& value_of(mapping, a) == Some(x)
            &&& value_of(mapping, b) == Some(y)
            &&& value_of(mapping, c) == Some(z)
        }),
{
    reveal_with_fuel(first_value, 4);
    let pairs = seq![(MsgView::Text(a), x), (MsgView::Text(b), y), (MsgView::Text(c), z)];
    assert(pairs.drop_first() =~= seq![(MsgView::Text(b), y), (MsgView::Text(c), z)]);
    assert(pairs.drop_first().drop_first() =~= seq![(MsgView::Text(c), z)]);
}

proof fn lemma_keys_of_messages_differ()
    ensures
        "ContextId"@ != "Type"@,
        "ContextId"@ != "Payload"@,
        "Type"@ != "Payload"@,
        "Type"@ != "UserId"@,
        "Payload"@ != "UserId"@,
{
    reveal_strlit("ContextId");
    reveal_strlit("Type");
    reveal_strlit("Payload");
    reveal_strlit("UserId");
    assert("ContextId"@[0] != "Type"@[0] && "ContextId"@[0] != "Payload"@[0]);
    assert("Type"@[0] != "Payload"@[0] && "Type"@[0] != "UserId"@[0]);
    assert("Payload"@[0] != "UserId"@[0]);
}

/// A frame of an update, read by a client, tells of the payload, the kind of update
/// and the acting device that it was built for, whichever they are.
pub proof fn law_update_tells_what_it_was_given(
    payload: MsgView,
    ut: UpdateType,
    acting_device_id: Option<Seq<char>>,
)
    ensures
        tells_update(
            update_message(payload, ut, acting_device_id),
            payload,
            ut,
            acting_device_id,
        ),
{
    lemma_keys_of_messages_differ();
    lemma_three_values(
        "ContextId"@,
        text_or_nil(acting_device_id),
        "Type"@,
        MsgView::Integer(ut.spec_code() as int),
        "Payload"@,
        payload,
    );
}

/// A frame of an answer, read by a client, tells of the payload, the kind of update and
/// the user that it was built for.
pub proof fn law_answer_tells_what_it_was_given(payload: MsgView, ut: UpdateType, user_id: Seq<char>)
    ensures
        tells_answer(anonymous_message(payload, ut, user_id), payload, ut, user_id),
{
    lemma_keys_of_messages_differ();
    lemma_three_values(
        "Type"@,
        MsgView::Integer(ut.spec_code() as int),
        "Payload"@,
        payload,
        "UserId"@,
        MsgView::Text(user_id),
    );
}

/// A ping is a message that holds the kind of message and nothing else.
pub proof fn law_ping_is_its_kind()
    ensures
        ping_message() is Array,
        ping_message()->Array_0.len() == 1,
        ping_message()->Array_0[0] == MsgView::Integer(6),
{
}

/// A text that is there stays what it is, and only a missing one becomes nil.
pub proof fn law_only_missing_text_is_nil(text: Option<Seq<char>>, string: Option<String>)
    ensures
        text is None <==> text_or_nil(text) is Nil,
        text matches Some(chars) ==> text_or_nil(text) == MsgView::Text(chars),
        opt_text(string) is None <==> string is None,
        string matches Some(chars) ==> opt_text(string) == Some(chars@),
{
}

/// What clients read out of the frame of an update whose payload is JSON: an update
/// with what the text of the payload reads as, or with nil where it does not read, and
/// with the kind and the device that were given.
pub proof fn law_json_update_tells_what_it_was_given(
    payload: JsonView,
    ut: UpdateType,
    acting_device_id: Option<Seq<char>>,
    rest: Seq<u8>,
)
    ensures
        exists|message: MsgView, told: MsgView|
            {
                &&& #[trigger] tells_update(message, told, ut, acting_device_id)
                &&& read_frame(payload_frame(payload, ut, acting_device_id) + rest) == Some(
                    (msgpack(message), rest),
                )
                &&& json_text(payload) is None ==> told is Nil
                &&& json_text(payload) matches Some(text) ==> (msg_from_json_text(text) is None
                    ==> told is Nil) && (msg_from_json_text(text) is Some ==> Some(told)
                    == msg_from_json_text(text))
            },
{
    let told = payload_value(payload);
    let message = update_message(told, ut, acting_device_id);
    law_update_tells_what_it_was_given(told, ut, acting_device_id);
    law_value_reads_back(message, rest);
    assert(tells_update(message, told, ut, acting_device_id));
}

}
