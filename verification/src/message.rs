//! The message layer: room-key encryption chained with an identity-key
//! signature, a freshness window against a server timestamp, and room-key
//! fan-out to account keys.

use vstd::prelude::*;

use crate::account_key::{account_envelope_for, account_key_valid, encrypt_data_account_key};
use crate::crypto::AEAD_MAX_LEN;
use crate::identity_key::{
    identity_key_valid, is_valid_identity_key_private, is_valid_identity_key_public,
    sign_identity_key, verify_identity_key, verify_identity_spec,
};
use crate::json::{
    jparse, json_get, json_get_bool, json_get_str, json_get_u64, json_text, jstr, jv_get,
    jv_get_bool, jv_get_str, jv_get_u64, parse_json, push_field, push_item, str_eq, view_of_arr,
    view_of_obj, write_json, Json, JsonV,
};
use crate::room_key::{
    decrypt_data_room_key, encrypt_data_room_key, is_valid_encrypted_data_room_key,
    is_valid_room_key, room_key_valid, sym_env_decrypts_to,
};
use crate::schema::validate_message;
use crate::signature::sign_obj65_ok;
use crate::types::{
    enc_msg_jv, key_field_of, EncryptedMessage, ImageContent, MediaMetadata, TextContent,
};
use crate::utils::is_b64_len;

verus! {

/// Everything `encrypt_message` needs: a valid room key holding 32 key
/// bytes, a valid identity private key holding 4032 key bytes, metadata
/// with the header fields, and a payload within the AEAD size bound.
pub open spec fn encrypt_message_ready(
    mv: Seq<char>,
    meta: Seq<char>,
    rk: Seq<char>,
    ip: Seq<char>,
) -> bool {
    &&& room_key_valid(rk)
    &&& identity_key_valid(ip, "identityKeyPrivate"@, 4032)
    &&& vstd::utf8::encode_utf8(mv).len() <= AEAD_MAX_LEN
    &&& (jparse(meta) matches Some(m) && jv_get_str(m, "channel"@) is Some && jv_get_u64(
        m,
        "timestamp"@,
    ) is Some && jv_get_bool(m, "isLarge"@) is Some)
}

/// The `original` header of parsed metadata: present only when it is a
/// string member.
pub open spec fn original_of(m: JsonV) -> Option<Seq<char>> {
    match jv_get(m, "original"@) {
        Some(JsonV::Str(o)) => Some(o),
        _ => None,
    }
}

/// Encrypts a message payload under the room key, wraps it in the message
/// header taken from `metadata_json`, and signs the whole record with the
/// identity key.  The result carries the signed record and the envelope.
pub fn encrypt_message(
    message_value_json: &str,
    metadata_json: &str,
    room_key_json: &str,
    identity_priv_json: &str,
    identity_pubhash: &str,
    roomid: &str,
) -> (r: Option<String>)
    ensures
        r is Some <==> encrypt_message_ready(
            message_value_json@,
            metadata_json@,
            room_key_json@,
            identity_priv_json@,
        ),
        r matches Some(t) ==> exists|msg_text: Seq<char>, sign_text: Seq<char>, env_text: Seq<char>|
            #![trigger sign_obj65_ok(sign_text, key_field_of(identity_priv_json@), vstd::utf8::encode_utf8(msg_text), identity_pubhash@, "identityKey"@), sym_env_decrypts_to(room_key_json@, env_text, message_value_json@)]
            t@ == json_text(
                JsonV::Obj(
                    seq![("message"@, JsonV::Str(msg_text)), ("sign"@, JsonV::Str(sign_text))],
                ),
            ) && msg_text == json_text(
                enc_msg_jv(
                    env_text,
                    jv_get_str(jparse(metadata_json@).unwrap(), "channel"@).unwrap(),
                    original_of(jparse(metadata_json@).unwrap()),
                    jv_get_u64(jparse(metadata_json@).unwrap(), "timestamp"@).unwrap(),
                    jv_get_bool(jparse(metadata_json@).unwrap(), "isLarge"@).unwrap(),
                    roomid@,
                ),
            ) && sym_env_decrypts_to(room_key_json@, env_text, message_value_json@)
                && sign_obj65_ok(
                sign_text,
                key_field_of(identity_priv_json@),
                vstd::utf8::encode_utf8(msg_text),
                identity_pubhash@,
                "identityKey"@,
            ),
{
    if !is_valid_room_key(room_key_json) {
        return None;
    }
    if !is_valid_identity_key_private(identity_priv_json) {
        return None;
    }
    let encrypted_val = match encrypt_data_room_key(room_key_json, message_value_json) {
        Some(e) => e,
        None => {
            return None;
        },
    };
    let meta = match parse_json(metadata_json) {
        Some(m) => m,
        None => {
            return None;
        },
    };
    let channel = match json_get_str(&meta, "channel") {
        Some(c) => c,
        None => {
            return None;
        },
    };
    let timestamp = match json_get_u64(&meta, "timestamp") {
        Some(t) => t,
        None => {
            return None;
        },
    };
    let is_large = match json_get_bool(&meta, "isLarge") {
        Some(b) => b,
        None => {
            return None;
        },
    };
    let original = match json_get(&meta, "original") {
        Some(Json::Str(o)) => Some(o.clone()),
        _ => None,
    };
    let msg = EncryptedMessage {
        encrypted: true,
        value: encrypted_val,
        channel,
        original,
        timestamp,
        is_large,
        roomid: roomid.to_owned(),
    };
    let msg_str = msg.to_text();
    let sign = match sign_identity_key(identity_priv_json, msg_str.as_str(), identity_pubhash) {
        Some(s) => s,
        None => {
            return None;
        },
    };
    let mut fields: Vec<(String, Json)> = Vec::new();
    proof {
        assert(view_of_obj(fields@) =~= Seq::<(Seq<char>, JsonV)>::empty());
    }
    push_field(&mut fields, "message", jstr(msg_str.as_str()));
    push_field(&mut fields, "sign", jstr(sign.as_str()));
    let res = Json::Obj(fields);
    proof {
        assert(res@ matches JsonV::Obj(fs) && fs =~= seq![
            ("message"@, JsonV::Str(msg_str@)),
            ("sign"@, JsonV::Str(sign@)),
        ]);
        assert(msg.jv() == enc_msg_jv(
            msg.value@,
            msg.channel@,
            crate::types::view_opt_str(msg.original),
            msg.timestamp,
            msg.is_large,
            msg.roomid@,
        ));
    }
    Some(write_json(&res))
}

/// The JSON object of a rebuilt cleartext message: the header fields
/// around the carried value, `encrypted` set to false.
pub open spec fn rebuilt_msg_jv(
    value: JsonV,
    channel: Seq<char>,
    original: Option<Seq<char>>,
    timestamp: u64,
    is_large: bool,
    roomid: Seq<char>,
) -> JsonV {
    JsonV::Obj(
        seq![
            ("encrypted"@, JsonV::Bool(false)),
            ("value"@, value),
            ("channel"@, JsonV::Str(channel)),
        ] + (match original {
            Some(o) => seq![("original"@, JsonV::Str(o))],
            None => Seq::empty(),
        }) + seq![
            ("timestamp"@, JsonV::UInt(timestamp)),
            ("isLarge"@, JsonV::Bool(is_large)),
            ("roomid"@, JsonV::Str(roomid)),
        ],
    )
}

/// The header checks every accepted message passes: the expected fields
/// present, the caller's room, and a timestamp within 60000 ms of the
/// server's.
pub open spec fn msg_header_ok(m: JsonV, roomid: Seq<char>, server_ts: u64) -> bool {
    &&& jv_get_u64(m, "timestamp"@) matches Some(ts) && ts <= server_ts + 60000 && server_ts <= ts
        + 60000
    &&& jv_get_str(m, "channel"@) is Some
    &&& jv_get_bool(m, "isLarge"@) is Some
    &&& jv_get_str(m, "roomid"@) == Some(roomid)
}

/// A cleartext message that passes every check: it parses, says
/// `encrypted: false`, carries the header fields for this room and
/// window, and has a value member.
pub open spec fn cleartext_ready(msg: Seq<char>, roomid: Seq<char>, server_ts: u64) -> bool {
    jparse(msg) matches Some(m) && jv_get(m, "encrypted"@) == Some(JsonV::Bool(false))
        && msg_header_ok(m, roomid, server_ts) && jv_get(m, "value"@) is Some
}

/// What decryption returns for an accepted cleartext message: the rebuilt
/// record with the value passed through unchanged.
pub open spec fn cleartext_output(msg: Seq<char>, roomid: Seq<char>) -> Seq<char> {
    let m = jparse(msg).unwrap();
    json_text(
        rebuilt_msg_jv(
            jv_get(m, "value"@).unwrap(),
            jv_get_str(m, "channel"@).unwrap(),
            original_of(m),
            jv_get_u64(m, "timestamp"@).unwrap(),
            jv_get_bool(m, "isLarge"@).unwrap(),
            roomid,
        ),
    )
}

/// An encrypted message that passes every check: it parses, says
/// `encrypted: true`, carries the header fields for this room and window,
/// the room key is valid, and the value is a structurally valid room
/// envelope.
pub open spec fn encrypted_ready(
    msg: Seq<char>,
    roomid: Seq<char>,
    server_ts: u64,
    rk: Seq<char>,
) -> bool {
    jparse(msg) matches Some(m) && jv_get(m, "encrypted"@) == Some(JsonV::Bool(true))
        && msg_header_ok(m, roomid, server_ts) && room_key_valid(rk) && (jv_get_str(m, "value"@)
        matches Some(env) && crate::room_key::enc_data_room_valid(env))
}

/// The envelope text inside an encrypted message.
pub open spec fn inner_env_of(msg: Seq<char>) -> Seq<char> {
    jv_get_str(jparse(msg).unwrap(), "value"@).unwrap()
}

/// The payload discriminator chosen for a decrypted value: `text` when it
/// has a `text` member, else `image` when it has a `uri` member, else
/// `text`.
pub open spec fn inner_type_of(v: JsonV) -> Seq<char> {
    if jv_get(v, "text"@) is Some {
        "text"@
    } else if jv_get(v, "uri"@) is Some {
        "image"@
    } else {
        "text"@
    }
}

/// What decryption returns for an accepted encrypted message whose
/// envelope sealed `inner`: the rebuilt record around a typed value
/// holding `inner` as its content.
pub open spec fn encrypted_output(msg: Seq<char>, roomid: Seq<char>, inner: Seq<char>) -> Seq<
    char,
> {
    let m = jparse(msg).unwrap();
    json_text(
        rebuilt_msg_jv(
            JsonV::Obj(
                seq![
                    ("type"@, JsonV::Str(inner_type_of(jparse(inner).unwrap()))),
                    ("content"@, JsonV::Str(inner)),
                ],
            ),
            jv_get_str(m, "channel"@).unwrap(),
            original_of(m),
            jv_get_u64(m, "timestamp"@).unwrap(),
            jv_get_bool(m, "isLarge"@).unwrap(),
            roomid,
        ),
    )
}

/// Verifies, checks freshness and room binding, and decrypts a message.
/// Success requires the identity signature to verify over the message
/// text, the message's `roomid` to match the caller's, and its timestamp
/// to lie within 60000 ms of the server's.  Conversely, a verified, fresh
/// and room-bound message is accepted: a cleartext one returns the
/// rebuilt record with its value unchanged, and an encrypted one whose
/// envelope seals some text returns the rebuilt record around that text.
pub fn decrypt_message(
    message_str: &str,
    sign_str: &str,
    server_timestamp: u64,
    room_key_json: &str,
    identity_pub_json: &str,
    roomid: &str,
) -> (r: Option<String>)
    ensures
        r is Some ==> (identity_key_valid(identity_pub_json@, "identityKeyPublic"@, 1952)
            && verify_identity_spec(identity_pub_json@, sign_str@, message_str@) && (jparse(
            message_str@,
        ) matches Some(m) && jv_get_str(m, "roomid"@) == Some(roomid@) && (jv_get_u64(
            m,
            "timestamp"@,
        ) matches Some(ts) && ts <= server_timestamp + 60000 && server_timestamp <= ts + 60000))),
        (identity_key_valid(identity_pub_json@, "identityKeyPublic"@, 1952)
            && verify_identity_spec(identity_pub_json@, sign_str@, message_str@)
            && cleartext_ready(message_str@, roomid@, server_timestamp)) ==> (r matches Some(p)
            && p@ == cleartext_output(message_str@, roomid@)),
        forall|inner: Seq<char>|
            (identity_key_valid(identity_pub_json@, "identityKeyPublic"@, 1952)
                && verify_identity_spec(identity_pub_json@, sign_str@, message_str@)
                && encrypted_ready(message_str@, roomid@, server_timestamp, room_key_json@)
                && #[trigger] sym_env_decrypts_to(
                room_key_json@,
                inner_env_of(message_str@),
                inner,
            ) && vstd::utf8::encode_utf8(inner).len() <= AEAD_MAX_LEN && jparse(inner) is Some)
                ==> (r matches Some(p) && p@ == encrypted_output(message_str@, roomid@, inner)),
{
    if !is_valid_identity_key_public(identity_pub_json) {
        return None;
    }
    if !verify_identity_key(identity_pub_json, sign_str, message_str) {
        return None;
    }
    let v = match parse_json(message_str) {
        Some(m) => m,
        None => {
            return None;
        },
    };
    let encrypted = match json_get(&v, "encrypted") {
        Some(Json::Bool(b)) => *b,
        _ => {
            return None;
        },
    };
    let timestamp = match json_get_u64(&v, "timestamp") {
        Some(t) => t,
        None => {
            return None;
        },
    };
    let channel = match json_get_str(&v, "channel") {
        Some(c) => c,
        None => {
            return None;
        },
    };
    let is_large = match json_get_bool(&v, "isLarge") {
        Some(b) => b,
        None => {
            return None;
        },
    };
    let original = match json_get(&v, "original") {
        Some(Json::Str(o)) => Some(o.clone()),
        _ => None,
    };
    let rid = match json_get_str(&v, "roomid") {
        Some(x) => x,
        None => {
            return None;
        },
    };
    if !str_eq(rid.as_str(), roomid) {
        return None;
    }
    let in_window = if timestamp >= server_timestamp {
        timestamp - server_timestamp <= 60000
    } else {
        server_timestamp - timestamp <= 60000
    };
    if !in_window {
        return None;
    }
    if !encrypted {
        let val: Json = match json_get(&v, "value") {
            Some(x) => crate::json::json_clone(x),
            None => {
                return None;
            },
        };
        let out = rebuild_message(val, channel, original, timestamp, is_large, roomid);
        return Some(out);
    }
    if !is_valid_room_key(room_key_json) {
        return None;
    }
    let enc_val = match json_get(&v, "value") {
        Some(Json::Str(s)) => s.clone(),
        _ => {
            return None;
        },
    };
    proof {
        assert(inner_env_of(message_str@) == enc_val@);
    }
    if !is_valid_encrypted_data_room_key(enc_val.as_str()) {
        return None;
    }
    let decrypted = match decrypt_data_room_key(room_key_json, enc_val.as_str()) {
        Some(d) => d,
        None => {
            proof {
                assert forall|inner: Seq<char>|
                    encrypted_ready(message_str@, roomid@, server_timestamp, room_key_json@)
                        && #[trigger] sym_env_decrypts_to(
                        room_key_json@,
                        inner_env_of(message_str@),
                        inner,
                    ) && vstd::utf8::encode_utf8(inner).len() <= AEAD_MAX_LEN implies false by {
                    assert(sym_env_decrypts_to(room_key_json@, enc_val@, inner));
                }
            }
            return None;
        },
    };
    let val_json = match parse_json(decrypted.as_str()) {
        Some(x) => x,
        None => {
            proof {
                assert forall|inner: Seq<char>|
                    encrypted_ready(message_str@, roomid@, server_timestamp, room_key_json@)
                        && #[trigger] sym_env_decrypts_to(
                        room_key_json@,
                        inner_env_of(message_str@),
                        inner,
                    ) && vstd::utf8::encode_utf8(inner).len() <= AEAD_MAX_LEN && jparse(inner)
                        is Some implies false by {
                    assert(sym_env_decrypts_to(room_key_json@, enc_val@, inner));
                    assert(decrypted@ == inner);
                }
            }
            return None;
        },
    };
    let content_type: &str = if json_get(&val_json, "text").is_some() {
        "text"
    } else if json_get(&val_json, "uri").is_some() {
        "image"
    } else {
        "text"
    };
    proof {
        assert(content_type@ == inner_type_of(val_json@));
    }
    let mut value_fields: Vec<(String, Json)> = Vec::new();
    proof {
        assert(view_of_obj(value_fields@) =~= Seq::<(Seq<char>, JsonV)>::empty());
    }
    push_field(&mut value_fields, "type", jstr(content_type));
    push_field(&mut value_fields, "content", jstr(decrypted.as_str()));
    let value_obj = Json::Obj(value_fields);
    let ghost value_obj_view = value_obj@;
    let ghost channel_view = channel@;
    let ghost original_view = crate::types::view_opt_str(original);
    let ghost decrypted_view = decrypted@;
    proof {
        assert(value_obj_view matches JsonV::Obj(fs) && fs =~= seq![
            ("type"@, JsonV::Str(inner_type_of(val_json@))),
            ("content"@, JsonV::Str(decrypted_view)),
        ]);
    }
    let out = rebuild_message(value_obj, channel, original, timestamp, is_large, roomid);
    proof {
        assert forall|inner: Seq<char>|
            encrypted_ready(message_str@, roomid@, server_timestamp, room_key_json@)
                && #[trigger] sym_env_decrypts_to(
                room_key_json@,
                inner_env_of(message_str@),
                inner,
            ) && vstd::utf8::encode_utf8(inner).len() <= AEAD_MAX_LEN && jparse(inner)
                is Some implies out@ == encrypted_output(message_str@, roomid@, inner) by {
            assert(sym_env_decrypts_to(room_key_json@, enc_val@, inner));
            assert(decrypted_view == inner);
            assert(jparse(inner) == Some(val_json@));
            assert(value_obj_view == JsonV::Obj(
                seq![
                    ("type"@, JsonV::Str(inner_type_of(jparse(inner).unwrap()))),
                    ("content"@, JsonV::Str(inner)),
                ],
            ));
            assert(out@ == json_text(
                rebuilt_msg_jv(
                    value_obj_view,
                    channel_view,
                    original_view,
                    timestamp,
                    is_large,
                    roomid@,
                ),
            ));
            assert(original_view == original_of(v@));
        }
    }
    Some(out)
}

/// Reassembles a cleartext message record around a decrypted or passed
/// through value.
fn rebuild_message(
    value: Json,
    channel: String,
    original: Option<String>,
    timestamp: u64,
    is_large: bool,
    roomid: &str,
) -> (r: String)
    ensures
        r@ == json_text(
            rebuilt_msg_jv(
                value@,
                channel@,
                crate::types::view_opt_str(original),
                timestamp,
                is_large,
                roomid@,
            ),
        ),
{
    let ghost value_view = value@;
    let mut fields: Vec<(String, Json)> = Vec::new();
    proof {
        assert(view_of_obj(fields@) =~= Seq::<(Seq<char>, JsonV)>::empty());
    }
    push_field(&mut fields, "encrypted", Json::Bool(false));
    push_field(&mut fields, "value", value);
    push_field(&mut fields, "channel", jstr(channel.as_str()));
    if let Some(o) = &original {
        push_field(&mut fields, "original", jstr(o.as_str()));
    }
    push_field(&mut fields, "timestamp", Json::UInt(timestamp));
    push_field(&mut fields, "isLarge", Json::Bool(is_large));
    push_field(&mut fields, "roomid", jstr(roomid));
    let res = Json::Obj(fields);
    proof {
        assert(res@ matches JsonV::Obj(fs) && fs =~= rebuilt_msg_jv(
            value_view,
            channel@,
            crate::types::view_opt_str(original),
            timestamp,
            is_large,
            roomid@,
        )->Obj_0);
    }
    write_json(&res)
}

/// Validates a message text by shape alone.
pub fn is_valid_message(message_str: &str) -> (r: bool)
    ensures
        r == (jparse(message_str@) matches Some(v) && crate::schema::validate_message_spec(v)),
{
    match parse_json(message_str) {
        Some(v) => validate_message(&v),
        None => false,
    }
}

/// The view of an optional borrowed text.
pub open spec fn view_opt_text(o: Option<&str>) -> Option<Seq<char>> {
    match o {
        Some(s) => Some(s@),
        None => None,
    }
}

/// The JSON object of a text payload.
pub open spec fn text_content_jv(
    text: Seq<char>,
    format: Option<Seq<char>>,
    is_thumbnail: Option<bool>,
    thumbnail_of: Option<Seq<char>>,
    original_size: Option<u64>,
) -> JsonV {
    JsonV::Obj(
        seq![("text"@, JsonV::Str(text))] + (match format {
            Some(f) => seq![("format"@, JsonV::Str(f))],
            None => Seq::empty(),
        }) + crate::types::is_thumbnail_piece(is_thumbnail) + (match thumbnail_of {
            Some(t) => seq![("thumbnailOf"@, JsonV::Str(t))],
            None => Seq::empty(),
        }) + (match original_size {
            Some(n) => seq![("originalSize"@, JsonV::UInt(n))],
            None => Seq::empty(),
        }),
    )
}

/// The JSON object of a media payload.
pub open spec fn media_content_jv(
    uri: Seq<char>,
    filename: Seq<char>,
    mime_type: Seq<char>,
    is_thumbnail: Option<bool>,
    thumbnail_of: Option<Seq<char>>,
    original_size: Option<u64>,
) -> JsonV {
    JsonV::Obj(
        seq![
            ("uri"@, JsonV::Str(uri)),
            (
                "metadata"@,
                JsonV::Obj(
                    seq![
                        ("filename"@, JsonV::Str(filename)),
                        ("mimeType"@, JsonV::Str(mime_type)),
                    ],
                ),
            ),
        ] + crate::types::is_thumbnail_piece(is_thumbnail) + (match thumbnail_of {
            Some(t) => seq![("thumbnailOf"@, JsonV::Str(t))],
            None => Seq::empty(),
        }) + (match original_size {
            Some(n) => seq![("originalSize"@, JsonV::UInt(n))],
            None => Seq::empty(),
        }),
    )
}

/// Builds a text payload record.
pub fn create_text_content(
    text: &str,
    format: Option<&str>,
    is_thumbnail: Option<bool>,
    thumbnail_of: Option<&str>,
    original_size: Option<u64>,
) -> (r: Option<String>)
    ensures
        r matches Some(t) ==> t@ == json_text(
            text_content_jv(
                text@,
                view_opt_text(format),
                is_thumbnail,
                view_opt_text(thumbnail_of),
                original_size,
            ),
        ),
        r is Some,
{
    let content = TextContent {
        text: text.to_owned(),
        format: match format {
            Some(f) => Some(f.to_owned()),
            None => None,
        },
        is_thumbnail,
        thumbnail_of: match thumbnail_of {
            Some(t) => Some(t.to_owned()),
            None => None,
        },
        original_size,
    };
    let t = content.to_text();
    proof {
        assert(content.jv() == text_content_jv(
            text@,
            view_opt_text(format),
            is_thumbnail,
            view_opt_text(thumbnail_of),
            original_size,
        ));
    }
    Some(t)
}

/// Builds an image payload record.
pub fn create_image_content(
    uri: &str,
    filename: &str,
    mime_type: &str,
    is_thumbnail: Option<bool>,
    thumbnail_of: Option<&str>,
    original_size: Option<u64>,
) -> (r: Option<String>)
    ensures
        r matches Some(t) ==> t@ == json_text(
            media_content_jv(
                uri@,
                filename@,
                mime_type@,
                is_thumbnail,
                view_opt_text(thumbnail_of),
                original_size,
            ),
        ),
        r is Some,
{
    let metadata = MediaMetadata { filename: filename.to_owned(), mime_type: mime_type.to_owned() };
    let content = ImageContent {
        uri: uri.to_owned(),
        metadata,
        is_thumbnail,
        thumbnail_of: match thumbnail_of {
            Some(t) => Some(t.to_owned()),
            None => None,
        },
        original_size,
    };
    let t = content.to_text();
    proof {
        assert(content.jv() == media_content_jv(
            uri@,
            filename@,
            mime_type@,
            is_thumbnail,
            view_opt_text(thumbnail_of),
            original_size,
        ));
    }
    Some(t)
}

/// Builds a video payload record: the image payload shape.
pub fn create_video_content(
    uri: &str,
    filename: &str,
    mime_type: &str,
    is_thumbnail: Option<bool>,
    thumbnail_of: Option<&str>,
    original_size: Option<u64>,
) -> (r: Option<String>)
    ensures
        r matches Some(t) ==> t@ == json_text(
            media_content_jv(
                uri@,
                filename@,
                mime_type@,
                is_thumbnail,
                view_opt_text(thumbnail_of),
                original_size,
            ),
        ),
        r is Some,
{
    create_image_content(uri, filename, mime_type, is_thumbnail, thumbnail_of, original_size)
}

/// Builds an audio payload record: the image payload shape.
pub fn create_audio_content(
    uri: &str,
    filename: &str,
    mime_type: &str,
    is_thumbnail: Option<bool>,
    thumbnail_of: Option<&str>,
    original_size: Option<u64>,
) -> (r: Option<String>)
    ensures
        r matches Some(t) ==> t@ == json_text(
            media_content_jv(
                uri@,
                filename@,
                mime_type@,
                is_thumbnail,
                view_opt_text(thumbnail_of),
                original_size,
            ),
        ),
        r is Some,
{
    create_image_content(uri, filename, mime_type, is_thumbnail, thumbnail_of, original_size)
}

/// Builds a file payload record: the image payload shape.
pub fn create_file_content(
    uri: &str,
    filename: &str,
    mime_type: &str,
    is_thumbnail: Option<bool>,
    thumbnail_of: Option<&str>,
    original_size: Option<u64>,
) -> (r: Option<String>)
    ensures
        r matches Some(t) ==> t@ == json_text(
            media_content_jv(
                uri@,
                filename@,
                mime_type@,
                is_thumbnail,
                view_opt_text(thumbnail_of),
                original_size,
            ),
        ),
        r is Some,
{
    create_image_content(uri, filename, mime_type, is_thumbnail, thumbnail_of, original_size)
}

/// Every fan-out entry carries the two required string members.
pub open spec fn fan_out_entries_ok(users: Seq<JsonV>) -> bool {
    forall|i: int|
        0 <= i < users.len() ==> (jv_get_str(#[trigger] users[i], "accountKey"@) is Some
            && jv_get_str(users[i], "userId"@) is Some)
}

/// The fan-out result: one output entry per input entry whose account key
/// validates, in input order, each binding the entry's user to an account
/// envelope that wraps the room-key record text under that account key.
pub open spec fn fan_out_ok(users: Seq<JsonV>, rk: Seq<char>, outs: Seq<JsonV>) -> bool
    decreases users.len(),
{
    if users.len() == 0 {
        outs.len() == 0
    } else {
        let u = users.last();
        let ak = jv_get_str(u, "accountKey"@).unwrap();
        let uid = jv_get_str(u, "userId"@).unwrap();
        if account_key_valid(ak, "accountKeyPublic"@, 1184) && vstd::utf8::encode_utf8(rk).len()
            <= AEAD_MAX_LEN {
            outs.len() >= 1 && (exists|e: Seq<char>|
                outs.last() == JsonV::Obj(
                    #[trigger] seq![("userId"@, JsonV::Str(uid)), ("encryptedData"@, JsonV::Str(e))],
                ) && account_envelope_for(e, ak, rk)) && fan_out_ok(
                users.drop_last(),
                rk,
                outs.drop_last(),
            )
        } else {
            fan_out_ok(users.drop_last(), rk, outs)
        }
    }
}

/// Wraps the room-key record text under each recipient's account key, in
/// input order; entries whose account key fails to validate are dropped.
pub fn encrypt_room_key_with_account_keys(users_json: &str, room_key_json: &str) -> (r: Option<
    String,
>)
    ensures
        r is Some <==> (jparse(users_json@) matches Some(uv) && uv matches JsonV::Arr(us)
            && fan_out_entries_ok(us)),
        r matches Some(t) ==> (jparse(users_json@) matches Some(uv) && uv matches JsonV::Arr(us)
            && exists|outs: Seq<JsonV>|
            t@ == json_text(JsonV::Arr(outs)) && #[trigger] fan_out_ok(us, room_key_json@, outs)),
{
    let parsed = match parse_json(users_json) {
        Some(v) => v,
        None => {
            return None;
        },
    };
    let users = match parsed {
        Json::Arr(items) => items,
        _ => {
            return None;
        },
    };
    let ghost us = view_of_arr(users@);
    proof {
        crate::json::lemma_view_of_arr_len(users@);
        assert(us.take(0) =~= Seq::<JsonV>::empty());
    }
    let mut outs: Vec<Json> = Vec::new();
    proof {
        assert(view_of_arr(outs@) =~= Seq::<JsonV>::empty());
    }
    let n = users.len();
    let mut i: usize = 0;
    while i < n
        invariant
            n == users@.len(),
            us == view_of_arr(users@),
            jparse(users_json@) == Some(JsonV::Arr(us)),
            us.len() == n,
            i <= n,
            fan_out_ok(us.take(i as int), room_key_json@, view_of_arr(outs@)),
            forall|j: int|
                0 <= j < i ==> (jv_get_str(#[trigger] us[j], "accountKey"@) is Some && jv_get_str(
                    us[j],
                    "userId"@,
                ) is Some),
        decreases n - i,
    {
        proof {
            crate::json::lemma_view_of_arr_index(users@, i as int);
        }
        let account_key = match json_get_str(&users[i], "accountKey") {
            Some(a) => a,
            None => {
                proof {
                    assert(jv_get_str(us[i as int], "accountKey"@) is None);
                }
                return None;
            },
        };
        let user_id = match json_get_str(&users[i], "userId") {
            Some(u) => u,
            None => {
                proof {
                    assert(jv_get_str(us[i as int], "userId"@) is None);
                }
                return None;
            },
        };
        let ghost outs_before = view_of_arr(outs@);
        match encrypt_data_account_key(account_key.as_str(), room_key_json) {
            Some(enc) => {
                let mut entry_fields: Vec<(String, Json)> = Vec::new();
                proof {
                    assert(view_of_obj(entry_fields@) =~= Seq::<(Seq<char>, JsonV)>::empty());
                }
                push_field(&mut entry_fields, "userId", jstr(user_id.as_str()));
                push_field(&mut entry_fields, "encryptedData", jstr(enc.as_str()));
                let entry = Json::Obj(entry_fields);
                proof {
                    assert(entry@ matches JsonV::Obj(fs) && fs =~= seq![
                        ("userId"@, JsonV::Str(user_id@)),
                        ("encryptedData"@, JsonV::Str(enc@)),
                    ]);
                }
                push_item(&mut outs, entry);
                proof {
                    assert(us.take(i + 1).drop_last() =~= us.take(i as int));
                    assert(us.take(i + 1).last() == us[i as int]);
                    assert(view_of_arr(outs@).drop_last() =~= outs_before);
                }
            },
            None => {
                proof {
                    assert(us.take(i + 1).drop_last() =~= us.take(i as int));
                    assert(us.take(i + 1).last() == us[i as int]);
                }
            },
        }
        i = i + 1;
    }
    proof {
        assert(us.take(n as int) =~= us);
    }
    let arr = Json::Arr(outs);
    Some(write_json(&arr))
}

} // verus!
