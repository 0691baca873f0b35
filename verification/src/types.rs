//! The typed records that cross the API: key records, the signed envelope,
//! and the encrypted envelope.  Each knows its exact JSON object model and
//! its compact text.

use vstd::prelude::*;

use crate::json::{
    jparse, json_get_str, json_get_u64, json_opt_str, json_opt_u64, json_text, jstr, jv_get_str,
    jv_get_u64, jv_opt_str, jv_opt_u64, parse_json, push_field, push_item, view_of_arr,
    view_of_obj, write_json, Json, JsonV,
};

verus! {

broadcast use vstd::string::axiom_str_literal_len, vstd::string::axiom_str_literal_get_char;

/// The view of an optional string field.
pub open spec fn view_opt_str(o: Option<String>) -> Option<Seq<char>> {
    match o {
        Some(s) => Some(s@),
        None => None,
    }
}

#[derive(Clone, Debug)]
pub struct MasterKey {
    pub key_type: String,
    pub key: String,
}

impl MasterKey {
    /// The JSON object this record serializes to.
    pub open spec fn jv(self) -> JsonV {
        JsonV::Obj(
            seq![("keyType"@, JsonV::Str(self.key_type@)), ("key"@, JsonV::Str(self.key@))],
        )
    }

    /// Whether a JSON value carries this record's fields with their types.
    pub open spec fn shape(v: JsonV) -> bool {
        jv_get_str(v, "keyType"@) is Some
            && jv_get_str(v, "key"@) is Some
    }

    /// Builds the JSON object of this record.
    pub fn to_json(&self) -> (r: Json)
        ensures
            r@ == self.jv(),
    {
        let mut fields: Vec<(String, Json)> = Vec::new();
        proof {
            assert(view_of_obj(fields@) =~= Seq::<(Seq<char>, JsonV)>::empty());
        }
        push_field(&mut fields, "keyType", jstr(self.key_type.as_str()));
        push_field(&mut fields, "key", jstr(self.key.as_str()));
        let r = Json::Obj(fields);
        proof {
            assert(r@ matches JsonV::Obj(fs) && fs =~= self.jv()->Obj_0);
        }
        r
    }

    /// The compact record text.
    pub fn to_text(&self) -> (r: String)
        ensures
            r@ == json_text(self.jv()),
    {
        let j = self.to_json();
        write_json(&j)
    }

    /// Reads this record's fields out of a JSON value; extra members
    /// are ignored.
    pub fn from_json(v: &Json) -> (r: Option<Self>)
        ensures
            r matches Some(rec) ==> MasterKey::shape(v@)
                && jv_get_str(v@, "keyType"@) == Some(rec.key_type@)
                && jv_get_str(v@, "key"@) == Some(rec.key@),
            r is None ==> !MasterKey::shape(v@),
    {
        let key_type = match json_get_str(v, "keyType") {
            Some(x) => x,
            None => { return None; },
        };
        let key = match json_get_str(v, "key") {
            Some(x) => x,
            None => { return None; },
        };
        Some(MasterKey { key_type, key })
    }

    /// Parses a record from its text.
    pub fn from_text(s: &str) -> (r: Option<Self>)
        ensures
            r matches Some(rec) ==> (jparse(s@) matches Some(v) && MasterKey::shape(v)
                && jv_get_str(v, "keyType"@) == Some(rec.key_type@)
                && jv_get_str(v, "key"@) == Some(rec.key@)
            ),
            r is None ==> (jparse(s@) is None || !MasterKey::shape(jparse(s@).unwrap())),
    {
        match parse_json(s) {
            None => None,
            Some(j) => MasterKey::from_json(&j),
        }
    }
}

#[derive(Clone, Debug)]
pub struct IdentityKey {
    pub key_type: String,
    pub key: String,
    pub algorithm: String,
    pub timestamp: u64,
    pub session_uuid: String,
}

impl IdentityKey {
    /// The JSON object this record serializes to.
    pub open spec fn jv(self) -> JsonV {
        JsonV::Obj(
            seq![("keyType"@, JsonV::Str(self.key_type@)), ("key"@, JsonV::Str(self.key@)), ("algorithm"@, JsonV::Str(self.algorithm@)), ("timestamp"@, JsonV::UInt(self.timestamp)), ("sessionUuid"@, JsonV::Str(self.session_uuid@))],
        )
    }

    /// Whether a JSON value carries this record's fields with their types.
    pub open spec fn shape(v: JsonV) -> bool {
        jv_get_str(v, "keyType"@) is Some
            && jv_get_str(v, "key"@) is Some
            && jv_get_str(v, "algorithm"@) is Some
            && jv_get_u64(v, "timestamp"@) is Some
            && jv_get_str(v, "sessionUuid"@) is Some
    }

    /// Builds the JSON object of this record.
    pub fn to_json(&self) -> (r: Json)
        ensures
            r@ == self.jv(),
    {
        let mut fields: Vec<(String, Json)> = Vec::new();
        proof {
            assert(view_of_obj(fields@) =~= Seq::<(Seq<char>, JsonV)>::empty());
        }
        push_field(&mut fields, "keyType", jstr(self.key_type.as_str()));
        push_field(&mut fields, "key", jstr(self.key.as_str()));
        push_field(&mut fields, "algorithm", jstr(self.algorithm.as_str()));
        push_field(&mut fields, "timestamp", Json::UInt(self.timestamp));
        push_field(&mut fields, "sessionUuid", jstr(self.session_uuid.as_str()));
        let r = Json::Obj(fields);
        proof {
            assert(r@ matches JsonV::Obj(fs) && fs =~= self.jv()->Obj_0);
        }
        r
    }

    /// The compact record text.
    pub fn to_text(&self) -> (r: String)
        ensures
            r@ == json_text(self.jv()),
    {
        let j = self.to_json();
        write_json(&j)
    }

    /// Reads this record's fields out of a JSON value; extra members
    /// are ignored.
    pub fn from_json(v: &Json) -> (r: Option<Self>)
        ensures
            r matches Some(rec) ==> IdentityKey::shape(v@)
                && jv_get_str(v@, "keyType"@) == Some(rec.key_type@)
                && jv_get_str(v@, "key"@) == Some(rec.key@)
                && jv_get_str(v@, "algorithm"@) == Some(rec.algorithm@)
                && jv_get_u64(v@, "timestamp"@) == Some(rec.timestamp)
                && jv_get_str(v@, "sessionUuid"@) == Some(rec.session_uuid@),
            r is None ==> !IdentityKey::shape(v@),
    {
        let key_type = match json_get_str(v, "keyType") {
            Some(x) => x,
            None => { return None; },
        };
        let key = match json_get_str(v, "key") {
            Some(x) => x,
            None => { return None; },
        };
        let algorithm = match json_get_str(v, "algorithm") {
            Some(x) => x,
            None => { return None; },
        };
        let timestamp = match json_get_u64(v, "timestamp") {
            Some(x) => x,
            None => { return None; },
        };
        let session_uuid = match json_get_str(v, "sessionUuid") {
            Some(x) => x,
            None => { return None; },
        };
        Some(IdentityKey { key_type, key, algorithm, timestamp, session_uuid })
    }

    /// Parses a record from its text.
    pub fn from_text(s: &str) -> (r: Option<Self>)
        ensures
            r matches Some(rec) ==> (jparse(s@) matches Some(v) && IdentityKey::shape(v)
                && jv_get_str(v, "keyType"@) == Some(rec.key_type@)
                && jv_get_str(v, "key"@) == Some(rec.key@)
                && jv_get_str(v, "algorithm"@) == Some(rec.algorithm@)
                && jv_get_u64(v, "timestamp"@) == Some(rec.timestamp)
                && jv_get_str(v, "sessionUuid"@) == Some(rec.session_uuid@)
            ),
            r is None ==> (jparse(s@) is None || !IdentityKey::shape(jparse(s@).unwrap())),
    {
        match parse_json(s) {
            None => None,
            Some(j) => IdentityKey::from_json(&j),
        }
    }
}

#[derive(Clone, Debug)]
pub struct AccountKey {
    pub key_type: String,
    pub key: String,
    pub algorithm: String,
    pub timestamp: u64,
}

impl AccountKey {
    /// The JSON object this record serializes to.
    pub open spec fn jv(self) -> JsonV {
        JsonV::Obj(
            seq![("keyType"@, JsonV::Str(self.key_type@)), ("key"@, JsonV::Str(self.key@)), ("algorithm"@, JsonV::Str(self.algorithm@)), ("timestamp"@, JsonV::UInt(self.timestamp))],
        )
    }

    /// Whether a JSON value carries this record's fields with their types.
    pub open spec fn shape(v: JsonV) -> bool {
        jv_get_str(v, "keyType"@) is Some
            && jv_get_str(v, "key"@) is Some
            && jv_get_str(v, "algorithm"@) is Some
            && jv_get_u64(v, "timestamp"@) is Some
    }

    /// Builds the JSON object of this record.
    pub fn to_json(&self) -> (r: Json)
        ensures
            r@ == self.jv(),
    {
        let mut fields: Vec<(String, Json)> = Vec::new();
        proof {
            assert(view_of_obj(fields@) =~= Seq::<(Seq<char>, JsonV)>::empty());
        }
        push_field(&mut fields, "keyType", jstr(self.key_type.as_str()));
        push_field(&mut fields, "key", jstr(self.key.as_str()));
        push_field(&mut fields, "algorithm", jstr(self.algorithm.as_str()));
        push_field(&mut fields, "timestamp", Json::UInt(self.timestamp));
        let r = Json::Obj(fields);
        proof {
            assert(r@ matches JsonV::Obj(fs) && fs =~= self.jv()->Obj_0);
        }
        r
    }

    /// The compact record text.
    pub fn to_text(&self) -> (r: String)
        ensures
            r@ == json_text(self.jv()),
    {
        let j = self.to_json();
        write_json(&j)
    }

    /// Reads this record's fields out of a JSON value; extra members
    /// are ignored.
    pub fn from_json(v: &Json) -> (r: Option<Self>)
        ensures
            r matches Some(rec) ==> AccountKey::shape(v@)
                && jv_get_str(v@, "keyType"@) == Some(rec.key_type@)
                && jv_get_str(v@, "key"@) == Some(rec.key@)
                && jv_get_str(v@, "algorithm"@) == Some(rec.algorithm@)
                && jv_get_u64(v@, "timestamp"@) == Some(rec.timestamp),
            r is None ==> !AccountKey::shape(v@),
    {
        let key_type = match json_get_str(v, "keyType") {
            Some(x) => x,
            None => { return None; },
        };
        let key = match json_get_str(v, "key") {
            Some(x) => x,
            None => { return None; },
        };
        let algorithm = match json_get_str(v, "algorithm") {
            Some(x) => x,
            None => { return None; },
        };
        let timestamp = match json_get_u64(v, "timestamp") {
            Some(x) => x,
            None => { return None; },
        };
        Some(AccountKey { key_type, key, algorithm, timestamp })
    }

    /// Parses a record from its text.
    pub fn from_text(s: &str) -> (r: Option<Self>)
        ensures
            r matches Some(rec) ==> (jparse(s@) matches Some(v) && AccountKey::shape(v)
                && jv_get_str(v, "keyType"@) == Some(rec.key_type@)
                && jv_get_str(v, "key"@) == Some(rec.key@)
                && jv_get_str(v, "algorithm"@) == Some(rec.algorithm@)
                && jv_get_u64(v, "timestamp"@) == Some(rec.timestamp)
            ),
            r is None ==> (jparse(s@) is None || !AccountKey::shape(jparse(s@).unwrap())),
    {
        match parse_json(s) {
            None => None,
            Some(j) => AccountKey::from_json(&j),
        }
    }
}

#[derive(Clone, Debug)]
pub struct ServerKey {
    pub key_type: String,
    pub key: String,
    pub timestamp: u64,
}

impl ServerKey {
    /// The JSON object this record serializes to.
    pub open spec fn jv(self) -> JsonV {
        JsonV::Obj(
            seq![("keyType"@, JsonV::Str(self.key_type@)), ("key"@, JsonV::Str(self.key@)), ("timestamp"@, JsonV::UInt(self.timestamp))],
        )
    }

    /// Whether a JSON value carries this record's fields with their types.
    pub open spec fn shape(v: JsonV) -> bool {
        jv_get_str(v, "keyType"@) is Some
            && jv_get_str(v, "key"@) is Some
            && jv_get_u64(v, "timestamp"@) is Some
    }

    /// Builds the JSON object of this record.
    pub fn to_json(&self) -> (r: Json)
        ensures
            r@ == self.jv(),
    {
        let mut fields: Vec<(String, Json)> = Vec::new();
        proof {
            assert(view_of_obj(fields@) =~= Seq::<(Seq<char>, JsonV)>::empty());
        }
        push_field(&mut fields, "keyType", jstr(self.key_type.as_str()));
        push_field(&mut fields, "key", jstr(self.key.as_str()));
        push_field(&mut fields, "timestamp", Json::UInt(self.timestamp));
        let r = Json::Obj(fields);
        proof {
            assert(r@ matches JsonV::Obj(fs) && fs =~= self.jv()->Obj_0);
        }
        r
    }

    /// The compact record text.
    pub fn to_text(&self) -> (r: String)
        ensures
            r@ == json_text(self.jv()),
    {
        let j = self.to_json();
        write_json(&j)
    }

    /// Reads this record's fields out of a JSON value; extra members
    /// are ignored.
    pub fn from_json(v: &Json) -> (r: Option<Self>)
        ensures
            r matches Some(rec) ==> ServerKey::shape(v@)
                && jv_get_str(v@, "keyType"@) == Some(rec.key_type@)
                && jv_get_str(v@, "key"@) == Some(rec.key@)
                && jv_get_u64(v@, "timestamp"@) == Some(rec.timestamp),
            r is None ==> !ServerKey::shape(v@),
    {
        let key_type = match json_get_str(v, "keyType") {
            Some(x) => x,
            None => { return None; },
        };
        let key = match json_get_str(v, "key") {
            Some(x) => x,
            None => { return None; },
        };
        let timestamp = match json_get_u64(v, "timestamp") {
            Some(x) => x,
            None => { return None; },
        };
        Some(ServerKey { key_type, key, timestamp })
    }

    /// Parses a record from its text.
    pub fn from_text(s: &str) -> (r: Option<Self>)
        ensures
            r matches Some(rec) ==> (jparse(s@) matches Some(v) && ServerKey::shape(v)
                && jv_get_str(v, "keyType"@) == Some(rec.key_type@)
                && jv_get_str(v, "key"@) == Some(rec.key@)
                && jv_get_u64(v, "timestamp"@) == Some(rec.timestamp)
            ),
            r is None ==> (jparse(s@) is None || !ServerKey::shape(jparse(s@).unwrap())),
    {
        match parse_json(s) {
            None => None,
            Some(j) => ServerKey::from_json(&j),
        }
    }
}

#[derive(Clone, Debug)]
pub struct RoomKey {
    pub key_type: String,
    pub key: String,
    pub algorithm: String,
    pub timestamp: u64,
    pub session_uuid: String,
}

impl RoomKey {
    /// The JSON object this record serializes to.
    pub open spec fn jv(self) -> JsonV {
        JsonV::Obj(
            seq![("keyType"@, JsonV::Str(self.key_type@)), ("key"@, JsonV::Str(self.key@)), ("algorithm"@, JsonV::Str(self.algorithm@)), ("timestamp"@, JsonV::UInt(self.timestamp)), ("sessionUuid"@, JsonV::Str(self.session_uuid@))],
        )
    }

    /// Whether a JSON value carries this record's fields with their types.
    pub open spec fn shape(v: JsonV) -> bool {
        jv_get_str(v, "keyType"@) is Some
            && jv_get_str(v, "key"@) is Some
            && jv_get_str(v, "algorithm"@) is Some
            && jv_get_u64(v, "timestamp"@) is Some
            && jv_get_str(v, "sessionUuid"@) is Some
    }

    /// Builds the JSON object of this record.
    pub fn to_json(&self) -> (r: Json)
        ensures
            r@ == self.jv(),
    {
        let mut fields: Vec<(String, Json)> = Vec::new();
        proof {
            assert(view_of_obj(fields@) =~= Seq::<(Seq<char>, JsonV)>::empty());
        }
        push_field(&mut fields, "keyType", jstr(self.key_type.as_str()));
        push_field(&mut fields, "key", jstr(self.key.as_str()));
        push_field(&mut fields, "algorithm", jstr(self.algorithm.as_str()));
        push_field(&mut fields, "timestamp", Json::UInt(self.timestamp));
        push_field(&mut fields, "sessionUuid", jstr(self.session_uuid.as_str()));
        let r = Json::Obj(fields);
        proof {
            assert(r@ matches JsonV::Obj(fs) && fs =~= self.jv()->Obj_0);
        }
        r
    }

    /// The compact record text.
    pub fn to_text(&self) -> (r: String)
        ensures
            r@ == json_text(self.jv()),
    {
        let j = self.to_json();
        write_json(&j)
    }

    /// Reads this record's fields out of a JSON value; extra members
    /// are ignored.
    pub fn from_json(v: &Json) -> (r: Option<Self>)
        ensures
            r matches Some(rec) ==> RoomKey::shape(v@)
                && jv_get_str(v@, "keyType"@) == Some(rec.key_type@)
                && jv_get_str(v@, "key"@) == Some(rec.key@)
                && jv_get_str(v@, "algorithm"@) == Some(rec.algorithm@)
                && jv_get_u64(v@, "timestamp"@) == Some(rec.timestamp)
                && jv_get_str(v@, "sessionUuid"@) == Some(rec.session_uuid@),
            r is None ==> !RoomKey::shape(v@),
    {
        let key_type = match json_get_str(v, "keyType") {
            Some(x) => x,
            None => { return None; },
        };
        let key = match json_get_str(v, "key") {
            Some(x) => x,
            None => { return None; },
        };
        let algorithm = match json_get_str(v, "algorithm") {
            Some(x) => x,
            None => { return None; },
        };
        let timestamp = match json_get_u64(v, "timestamp") {
            Some(x) => x,
            None => { return None; },
        };
        let session_uuid = match json_get_str(v, "sessionUuid") {
            Some(x) => x,
            None => { return None; },
        };
        Some(RoomKey { key_type, key, algorithm, timestamp, session_uuid })
    }

    /// Parses a record from its text.
    pub fn from_text(s: &str) -> (r: Option<Self>)
        ensures
            r matches Some(rec) ==> (jparse(s@) matches Some(v) && RoomKey::shape(v)
                && jv_get_str(v, "keyType"@) == Some(rec.key_type@)
                && jv_get_str(v, "key"@) == Some(rec.key@)
                && jv_get_str(v, "algorithm"@) == Some(rec.algorithm@)
                && jv_get_u64(v, "timestamp"@) == Some(rec.timestamp)
                && jv_get_str(v, "sessionUuid"@) == Some(rec.session_uuid@)
            ),
            r is None ==> (jparse(s@) is None || !RoomKey::shape(jparse(s@).unwrap())),
    {
        match parse_json(s) {
            None => None,
            Some(j) => RoomKey::from_json(&j),
        }
    }
}

#[derive(Clone, Debug)]
pub struct ShareKey {
    pub key_type: String,
    pub key: String,
    pub algorithm: String,
    pub timestamp: u64,
    pub session_uuid: String,
}

impl ShareKey {
    /// The JSON object this record serializes to.
    pub open spec fn jv(self) -> JsonV {
        JsonV::Obj(
            seq![("keyType"@, JsonV::Str(self.key_type@)), ("key"@, JsonV::Str(self.key@)), ("algorithm"@, JsonV::Str(self.algorithm@)), ("timestamp"@, JsonV::UInt(self.timestamp)), ("sessionUuid"@, JsonV::Str(self.session_uuid@))],
        )
    }

    /// Whether a JSON value carries this record's fields with their types.
    pub open spec fn shape(v: JsonV) -> bool {
        jv_get_str(v, "keyType"@) is Some
            && jv_get_str(v, "key"@) is Some
            && jv_get_str(v, "algorithm"@) is Some
            && jv_get_u64(v, "timestamp"@) is Some
            && jv_get_str(v, "sessionUuid"@) is Some
    }

    /// Builds the JSON object of this record.
    pub fn to_json(&self) -> (r: Json)
        ensures
            r@ == self.jv(),
    {
        let mut fields: Vec<(String, Json)> = Vec::new();
        proof {
            assert(view_of_obj(fields@) =~= Seq::<(Seq<char>, JsonV)>::empty());
        }
        push_field(&mut fields, "keyType", jstr(self.key_type.as_str()));
        push_field(&mut fields, "key", jstr(self.key.as_str()));
        push_field(&mut fields, "algorithm", jstr(self.algorithm.as_str()));
        push_field(&mut fields, "timestamp", Json::UInt(self.timestamp));
        push_field(&mut fields, "sessionUuid", jstr(self.session_uuid.as_str()));
        let r = Json::Obj(fields);
        proof {
            assert(r@ matches JsonV::Obj(fs) && fs =~= self.jv()->Obj_0);
        }
        r
    }

    /// The compact record text.
    pub fn to_text(&self) -> (r: String)
        ensures
            r@ == json_text(self.jv()),
    {
        let j = self.to_json();
        write_json(&j)
    }

    /// Reads this record's fields out of a JSON value; extra members
    /// are ignored.
    pub fn from_json(v: &Json) -> (r: Option<Self>)
        ensures
            r matches Some(rec) ==> ShareKey::shape(v@)
                && jv_get_str(v@, "keyType"@) == Some(rec.key_type@)
                && jv_get_str(v@, "key"@) == Some(rec.key@)
                && jv_get_str(v@, "algorithm"@) == Some(rec.algorithm@)
                && jv_get_u64(v@, "timestamp"@) == Some(rec.timestamp)
                && jv_get_str(v@, "sessionUuid"@) == Some(rec.session_uuid@),
            r is None ==> !ShareKey::shape(v@),
    {
        let key_type = match json_get_str(v, "keyType") {
            Some(x) => x,
            None => { return None; },
        };
        let key = match json_get_str(v, "key") {
            Some(x) => x,
            None => { return None; },
        };
        let algorithm = match json_get_str(v, "algorithm") {
            Some(x) => x,
            None => { return None; },
        };
        let timestamp = match json_get_u64(v, "timestamp") {
            Some(x) => x,
            None => { return None; },
        };
        let session_uuid = match json_get_str(v, "sessionUuid") {
            Some(x) => x,
            None => { return None; },
        };
        Some(ShareKey { key_type, key, algorithm, timestamp, session_uuid })
    }

    /// Parses a record from its text.
    pub fn from_text(s: &str) -> (r: Option<Self>)
        ensures
            r matches Some(rec) ==> (jparse(s@) matches Some(v) && ShareKey::shape(v)
                && jv_get_str(v, "keyType"@) == Some(rec.key_type@)
                && jv_get_str(v, "key"@) == Some(rec.key@)
                && jv_get_str(v, "algorithm"@) == Some(rec.algorithm@)
                && jv_get_u64(v, "timestamp"@) == Some(rec.timestamp)
                && jv_get_str(v, "sessionUuid"@) == Some(rec.session_uuid@)
            ),
            r is None ==> (jparse(s@) is None || !ShareKey::shape(jparse(s@).unwrap())),
    {
        match parse_json(s) {
            None => None,
            Some(j) => ShareKey::from_json(&j),
        }
    }
}

#[derive(Clone, Debug)]
pub struct ShareSignKey {
    pub key_type: String,
    pub key: String,
    pub algorithm: String,
    pub timestamp: u64,
    pub session_uuid: String,
}

impl ShareSignKey {
    /// The JSON object this record serializes to.
    pub open spec fn jv(self) -> JsonV {
        JsonV::Obj(
            seq![("keyType"@, JsonV::Str(self.key_type@)), ("key"@, JsonV::Str(self.key@)), ("algorithm"@, JsonV::Str(self.algorithm@)), ("timestamp"@, JsonV::UInt(self.timestamp)), ("sessionUuid"@, JsonV::Str(self.session_uuid@))],
        )
    }

    /// Whether a JSON value carries this record's fields with their types.
    pub open spec fn shape(v: JsonV) -> bool {
        jv_get_str(v, "keyType"@) is Some
            && jv_get_str(v, "key"@) is Some
            && jv_get_str(v, "algorithm"@) is Some
            && jv_get_u64(v, "timestamp"@) is Some
            && jv_get_str(v, "sessionUuid"@) is Some
    }

    /// Builds the JSON object of this record.
    pub fn to_json(&self) -> (r: Json)
        ensures
            r@ == self.jv(),
    {
        let mut fields: Vec<(String, Json)> = Vec::new();
        proof {
            assert(view_of_obj(fields@) =~= Seq::<(Seq<char>, JsonV)>::empty());
        }
        push_field(&mut fields, "keyType", jstr(self.key_type.as_str()));
        push_field(&mut fields, "key", jstr(self.key.as_str()));
        push_field(&mut fields, "algorithm", jstr(self.algorithm.as_str()));
        push_field(&mut fields, "timestamp", Json::UInt(self.timestamp));
        push_field(&mut fields, "sessionUuid", jstr(self.session_uuid.as_str()));
        let r = Json::Obj(fields);
        proof {
            assert(r@ matches JsonV::Obj(fs) && fs =~= self.jv()->Obj_0);
        }
        r
    }

    /// The compact record text.
    pub fn to_text(&self) -> (r: String)
        ensures
            r@ == json_text(self.jv()),
    {
        let j = self.to_json();
        write_json(&j)
    }

    /// Reads this record's fields out of a JSON value; extra members
    /// are ignored.
    pub fn from_json(v: &Json) -> (r: Option<Self>)
        ensures
            r matches Some(rec) ==> ShareSignKey::shape(v@)
                && jv_get_str(v@, "keyType"@) == Some(rec.key_type@)
                && jv_get_str(v@, "key"@) == Some(rec.key@)
                && jv_get_str(v@, "algorithm"@) == Some(rec.algorithm@)
                && jv_get_u64(v@, "timestamp"@) == Some(rec.timestamp)
                && jv_get_str(v@, "sessionUuid"@) == Some(rec.session_uuid@),
            r is None ==> !ShareSignKey::shape(v@),
    {
        let key_type = match json_get_str(v, "keyType") {
            Some(x) => x,
            None => { return None; },
        };
        let key = match json_get_str(v, "key") {
            Some(x) => x,
            None => { return None; },
        };
        let algorithm = match json_get_str(v, "algorithm") {
            Some(x) => x,
            None => { return None; },
        };
        let timestamp = match json_get_u64(v, "timestamp") {
            Some(x) => x,
            None => { return None; },
        };
        let session_uuid = match json_get_str(v, "sessionUuid") {
            Some(x) => x,
            None => { return None; },
        };
        Some(ShareSignKey { key_type, key, algorithm, timestamp, session_uuid })
    }

    /// Parses a record from its text.
    pub fn from_text(s: &str) -> (r: Option<Self>)
        ensures
            r matches Some(rec) ==> (jparse(s@) matches Some(v) && ShareSignKey::shape(v)
                && jv_get_str(v, "keyType"@) == Some(rec.key_type@)
                && jv_get_str(v, "key"@) == Some(rec.key@)
                && jv_get_str(v, "algorithm"@) == Some(rec.algorithm@)
                && jv_get_u64(v, "timestamp"@) == Some(rec.timestamp)
                && jv_get_str(v, "sessionUuid"@) == Some(rec.session_uuid@)
            ),
            r is None ==> (jparse(s@) is None || !ShareSignKey::shape(jparse(s@).unwrap())),
    {
        match parse_json(s) {
            None => None,
            Some(j) => ShareSignKey::from_json(&j),
        }
    }
}

#[derive(Clone, Debug)]
pub struct MigrateKey {
    pub key_type: String,
    pub key: String,
    pub timestamp: Option<u64>,
}

impl MigrateKey {
    /// The JSON object this record serializes to.
    pub open spec fn jv(self) -> JsonV {
        JsonV::Obj(
            seq![("keyType"@, JsonV::Str(self.key_type@)), ("key"@, JsonV::Str(self.key@))] + (match self.timestamp {
                Some(x) => seq![("timestamp"@, JsonV::UInt(x))],
                None => Seq::empty(),
            }),
        )
    }

    /// Whether a JSON value carries this record's fields with their types.
    pub open spec fn shape(v: JsonV) -> bool {
        jv_get_str(v, "keyType"@) is Some
            && jv_get_str(v, "key"@) is Some
            && jv_opt_u64(v, "timestamp"@) is Some
    }

    /// Builds the JSON object of this record.
    pub fn to_json(&self) -> (r: Json)
        ensures
            r@ == self.jv(),
    {
        let mut fields: Vec<(String, Json)> = Vec::new();
        proof {
            assert(view_of_obj(fields@) =~= Seq::<(Seq<char>, JsonV)>::empty());
        }
        push_field(&mut fields, "keyType", jstr(self.key_type.as_str()));
        push_field(&mut fields, "key", jstr(self.key.as_str()));
        if let Some(x) = self.timestamp {
            push_field(&mut fields, "timestamp", Json::UInt(x));
        }
        let r = Json::Obj(fields);
        proof {
            assert(r@ matches JsonV::Obj(fs) && fs =~= self.jv()->Obj_0);
        }
        r
    }

    /// The compact record text.
    pub fn to_text(&self) -> (r: String)
        ensures
            r@ == json_text(self.jv()),
    {
        let j = self.to_json();
        write_json(&j)
    }

    /// Reads this record's fields out of a JSON value; extra members
    /// are ignored.
    pub fn from_json(v: &Json) -> (r: Option<Self>)
        ensures
            r matches Some(rec) ==> MigrateKey::shape(v@)
                && jv_get_str(v@, "keyType"@) == Some(rec.key_type@)
                && jv_get_str(v@, "key"@) == Some(rec.key@)
                && jv_opt_u64(v@, "timestamp"@) == Some(rec.timestamp),
            r is None ==> !MigrateKey::shape(v@),
    {
        let key_type = match json_get_str(v, "keyType") {
            Some(x) => x,
            None => { return None; },
        };
        let key = match json_get_str(v, "key") {
            Some(x) => x,
            None => { return None; },
        };
        let timestamp = match json_opt_u64(v, "timestamp") {
            Some(x) => x,
            None => { return None; },
        };
        Some(MigrateKey { key_type, key, timestamp })
    }

    /// Parses a record from its text.
    pub fn from_text(s: &str) -> (r: Option<Self>)
        ensures
            r matches Some(rec) ==> (jparse(s@) matches Some(v) && MigrateKey::shape(v)
                && jv_get_str(v, "keyType"@) == Some(rec.key_type@)
                && jv_get_str(v, "key"@) == Some(rec.key@)
                && jv_opt_u64(v, "timestamp"@) == Some(rec.timestamp)
            ),
            r is None ==> (jparse(s@) is None || !MigrateKey::shape(jparse(s@).unwrap())),
    {
        match parse_json(s) {
            None => None,
            Some(j) => MigrateKey::from_json(&j),
        }
    }
}

#[derive(Clone, Debug)]
pub struct MigrateSignKey {
    pub key_type: String,
    pub key: String,
    pub timestamp: Option<u64>,
}

impl MigrateSignKey {
    /// The JSON object this record serializes to.
    pub open spec fn jv(self) -> JsonV {
        JsonV::Obj(
            seq![("keyType"@, JsonV::Str(self.key_type@)), ("key"@, JsonV::Str(self.key@))] + (match self.timestamp {
                Some(x) => seq![("timestamp"@, JsonV::UInt(x))],
                None => Seq::empty(),
            }),
        )
    }

    /// Whether a JSON value carries this record's fields with their types.
    pub open spec fn shape(v: JsonV) -> bool {
        jv_get_str(v, "keyType"@) is Some
            && jv_get_str(v, "key"@) is Some
            && jv_opt_u64(v, "timestamp"@) is Some
    }

    /// Builds the JSON object of this record.
    pub fn to_json(&self) -> (r: Json)
        ensures
            r@ == self.jv(),
    {
        let mut fields: Vec<(String, Json)> = Vec::new();
        proof {
            assert(view_of_obj(fields@) =~= Seq::<(Seq<char>, JsonV)>::empty());
        }
        push_field(&mut fields, "keyType", jstr(self.key_type.as_str()));
        push_field(&mut fields, "key", jstr(self.key.as_str()));
        if let Some(x) = self.timestamp {
            push_field(&mut fields, "timestamp", Json::UInt(x));
        }
        let r = Json::Obj(fields);
        proof {
            assert(r@ matches JsonV::Obj(fs) && fs =~= self.jv()->Obj_0);
        }
        r
    }

    /// The compact record text.
    pub fn to_text(&self) -> (r: String)
        ensures
            r@ == json_text(self.jv()),
    {
        let j = self.to_json();
        write_json(&j)
    }

    /// Reads this record's fields out of a JSON value; extra members
    /// are ignored.
    pub fn from_json(v: &Json) -> (r: Option<Self>)
        ensures
            r matches Some(rec) ==> MigrateSignKey::shape(v@)
                && jv_get_str(v@, "keyType"@) == Some(rec.key_type@)
                && jv_get_str(v@, "key"@) == Some(rec.key@)
                && jv_opt_u64(v@, "timestamp"@) == Some(rec.timestamp),
            r is None ==> !MigrateSignKey::shape(v@),
    {
        let key_type = match json_get_str(v, "keyType") {
            Some(x) => x,
            None => { return None; },
        };
        let key = match json_get_str(v, "key") {
            Some(x) => x,
            None => { return None; },
        };
        let timestamp = match json_opt_u64(v, "timestamp") {
            Some(x) => x,
            None => { return None; },
        };
        Some(MigrateSignKey { key_type, key, timestamp })
    }

    /// Parses a record from its text.
    pub fn from_text(s: &str) -> (r: Option<Self>)
        ensures
            r matches Some(rec) ==> (jparse(s@) matches Some(v) && MigrateSignKey::shape(v)
                && jv_get_str(v, "keyType"@) == Some(rec.key_type@)
                && jv_get_str(v, "key"@) == Some(rec.key@)
                && jv_opt_u64(v, "timestamp"@) == Some(rec.timestamp)
            ),
            r is None ==> (jparse(s@) is None || !MigrateSignKey::shape(jparse(s@).unwrap())),
    {
        match parse_json(s) {
            None => None,
            Some(j) => MigrateSignKey::from_json(&j),
        }
    }
}

#[derive(Clone, Debug)]
pub struct DeviceKey {
    pub key_type: String,
    pub key: String,
}

impl DeviceKey {
    /// The JSON object this record serializes to.
    pub open spec fn jv(self) -> JsonV {
        JsonV::Obj(
            seq![("keyType"@, JsonV::Str(self.key_type@)), ("key"@, JsonV::Str(self.key@))],
        )
    }

    /// Whether a JSON value carries this record's fields with their types.
    pub open spec fn shape(v: JsonV) -> bool {
        jv_get_str(v, "keyType"@) is Some
            && jv_get_str(v, "key"@) is Some
    }

    /// Builds the JSON object of this record.
    pub fn to_json(&self) -> (r: Json)
        ensures
            r@ == self.jv(),
    {
        let mut fields: Vec<(String, Json)> = Vec::new();
        proof {
            assert(view_of_obj(fields@) =~= Seq::<(Seq<char>, JsonV)>::empty());
        }
        push_field(&mut fields, "keyType", jstr(self.key_type.as_str()));
        push_field(&mut fields, "key", jstr(self.key.as_str()));
        let r = Json::Obj(fields);
        proof {
            assert(r@ matches JsonV::Obj(fs) && fs =~= self.jv()->Obj_0);
        }
        r
    }

    /// The compact record text.
    pub fn to_text(&self) -> (r: String)
        ensures
            r@ == json_text(self.jv()),
    {
        let j = self.to_json();
        write_json(&j)
    }

    /// Reads this record's fields out of a JSON value; extra members
    /// are ignored.
    pub fn from_json(v: &Json) -> (r: Option<Self>)
        ensures
            r matches Some(rec) ==> DeviceKey::shape(v@)
                && jv_get_str(v@, "keyType"@) == Some(rec.key_type@)
                && jv_get_str(v@, "key"@) == Some(rec.key@),
            r is None ==> !DeviceKey::shape(v@),
    {
        let key_type = match json_get_str(v, "keyType") {
            Some(x) => x,
            None => { return None; },
        };
        let key = match json_get_str(v, "key") {
            Some(x) => x,
            None => { return None; },
        };
        Some(DeviceKey { key_type, key })
    }

    /// Parses a record from its text.
    pub fn from_text(s: &str) -> (r: Option<Self>)
        ensures
            r matches Some(rec) ==> (jparse(s@) matches Some(v) && DeviceKey::shape(v)
                && jv_get_str(v, "keyType"@) == Some(rec.key_type@)
                && jv_get_str(v, "key"@) == Some(rec.key@)
            ),
            r is None ==> (jparse(s@) is None || !DeviceKey::shape(jparse(s@).unwrap())),
    {
        match parse_json(s) {
            None => None,
            Some(j) => DeviceKey::from_json(&j),
        }
    }
}

#[derive(Clone, Debug)]
pub struct Sign {
    pub key_hash: String,
    pub signature: String,
    pub key_type: String,
    pub algorithm: Option<String>,
}

impl Sign {
    /// The JSON object this record serializes to.
    pub open spec fn jv(self) -> JsonV {
        JsonV::Obj(
            seq![("keyHash"@, JsonV::Str(self.key_hash@)), ("signature"@, JsonV::Str(self.signature@)), ("keyType"@, JsonV::Str(self.key_type@))] + (match self.algorithm {
                Some(x) => seq![("algorithm"@, JsonV::Str(x@))],
                None => Seq::empty(),
            }),
        )
    }

    /// Whether a JSON value carries this record's fields with their types.
    pub open spec fn shape(v: JsonV) -> bool {
        jv_get_str(v, "keyHash"@) is Some
            && jv_get_str(v, "signature"@) is Some
            && jv_get_str(v, "keyType"@) is Some
            && jv_opt_str(v, "algorithm"@) is Some
    }

    /// Builds the JSON object of this record.
    pub fn to_json(&self) -> (r: Json)
        ensures
            r@ == self.jv(),
    {
        let mut fields: Vec<(String, Json)> = Vec::new();
        proof {
            assert(view_of_obj(fields@) =~= Seq::<(Seq<char>, JsonV)>::empty());
        }
        push_field(&mut fields, "keyHash", jstr(self.key_hash.as_str()));
        push_field(&mut fields, "signature", jstr(self.signature.as_str()));
        push_field(&mut fields, "keyType", jstr(self.key_type.as_str()));
        if let Some(x) = &self.algorithm {
            push_field(&mut fields, "algorithm", jstr(x.as_str()));
        }
        let r = Json::Obj(fields);
        proof {
            assert(r@ matches JsonV::Obj(fs) && fs =~= self.jv()->Obj_0);
        }
        r
    }

    /// The compact record text.
    pub fn to_text(&self) -> (r: String)
        ensures
            r@ == json_text(self.jv()),
    {
        let j = self.to_json();
        write_json(&j)
    }

    /// Reads this record's fields out of a JSON value; extra members
    /// are ignored.
    pub fn from_json(v: &Json) -> (r: Option<Self>)
        ensures
            r matches Some(rec) ==> Sign::shape(v@)
                && jv_get_str(v@, "keyHash"@) == Some(rec.key_hash@)
                && jv_get_str(v@, "signature"@) == Some(rec.signature@)
                && jv_get_str(v@, "keyType"@) == Some(rec.key_type@)
                && jv_opt_str(v@, "algorithm"@) == Some(view_opt_str(rec.algorithm)),
            r is None ==> !Sign::shape(v@),
    {
        let key_hash = match json_get_str(v, "keyHash") {
            Some(x) => x,
            None => { return None; },
        };
        let signature = match json_get_str(v, "signature") {
            Some(x) => x,
            None => { return None; },
        };
        let key_type = match json_get_str(v, "keyType") {
            Some(x) => x,
            None => { return None; },
        };
        let algorithm = match json_opt_str(v, "algorithm") {
            Some(x) => x,
            None => { return None; },
        };
        Some(Sign { key_hash, signature, key_type, algorithm })
    }

    /// Parses a record from its text.
    pub fn from_text(s: &str) -> (r: Option<Self>)
        ensures
            r matches Some(rec) ==> (jparse(s@) matches Some(v) && Sign::shape(v)
                && jv_get_str(v, "keyHash"@) == Some(rec.key_hash@)
                && jv_get_str(v, "signature"@) == Some(rec.signature@)
                && jv_get_str(v, "keyType"@) == Some(rec.key_type@)
                && jv_opt_str(v, "algorithm"@) == Some(view_opt_str(rec.algorithm))
            ),
            r is None ==> (jparse(s@) is None || !Sign::shape(jparse(s@).unwrap())),
    {
        match parse_json(s) {
            None => None,
            Some(j) => Sign::from_json(&j),
        }
    }
}

#[derive(Clone, Debug)]
pub struct EncryptedData {
    pub key_type: String,
    pub key_hash: String,
    pub encrypted_data: String,
    pub iv: String,
    pub algorithm: Option<String>,
    pub cipher_text: Option<String>,
}

impl EncryptedData {
    /// The JSON object this record serializes to.
    pub open spec fn jv(self) -> JsonV {
        JsonV::Obj(
            seq![("keyType"@, JsonV::Str(self.key_type@)), ("keyHash"@, JsonV::Str(self.key_hash@)), ("encryptedData"@, JsonV::Str(self.encrypted_data@)), ("iv"@, JsonV::Str(self.iv@))] + (match self.algorithm {
                Some(x) => seq![("algorithm"@, JsonV::Str(x@))],
                None => Seq::empty(),
            }) + (match self.cipher_text {
                Some(x) => seq![("cipherText"@, JsonV::Str(x@))],
                None => Seq::empty(),
            }),
        )
    }

    /// Whether a JSON value carries this record's fields with their types.
    pub open spec fn shape(v: JsonV) -> bool {
        jv_get_str(v, "keyType"@) is Some
            && jv_get_str(v, "keyHash"@) is Some
            && jv_get_str(v, "encryptedData"@) is Some
            && jv_get_str(v, "iv"@) is Some
            && jv_opt_str(v, "algorithm"@) is Some
            && jv_opt_str(v, "cipherText"@) is Some
    }

    /// Builds the JSON object of this record.
    pub fn to_json(&self) -> (r: Json)
        ensures
            r@ == self.jv(),
    {
        let mut fields: Vec<(String, Json)> = Vec::new();
        proof {
            assert(view_of_obj(fields@) =~= Seq::<(Seq<char>, JsonV)>::empty());
        }
        push_field(&mut fields, "keyType", jstr(self.key_type.as_str()));
        push_field(&mut fields, "keyHash", jstr(self.key_hash.as_str()));
        push_field(&mut fields, "encryptedData", jstr(self.encrypted_data.as_str()));
        push_field(&mut fields, "iv", jstr(self.iv.as_str()));
        if let Some(x) = &self.algorithm {
            push_field(&mut fields, "algorithm", jstr(x.as_str()));
        }
        if let Some(x) = &self.cipher_text {
            push_field(&mut fields, "cipherText", jstr(x.as_str()));
        }
        let r = Json::Obj(fields);
        proof {
            assert(r@ matches JsonV::Obj(fs) && fs =~= self.jv()->Obj_0);
        }
        r
    }

    /// The compact record text.
    pub fn to_text(&self) -> (r: String)
        ensures
            r@ == json_text(self.jv()),
    {
        let j = self.to_json();
        write_json(&j)
    }

    /// Reads this record's fields out of a JSON value; extra members
    /// are ignored.
    pub fn from_json(v: &Json) -> (r: Option<Self>)
        ensures
            r matches Some(rec) ==> EncryptedData::shape(v@)
                && jv_get_str(v@, "keyType"@) == Some(rec.key_type@)
                && jv_get_str(v@, "keyHash"@) == Some(rec.key_hash@)
                && jv_get_str(v@, "encryptedData"@) == Some(rec.encrypted_data@)
                && jv_get_str(v@, "iv"@) == Some(rec.iv@)
                && jv_opt_str(v@, "algorithm"@) == Some(view_opt_str(rec.algorithm))
                && jv_opt_str(v@, "cipherText"@) == Some(view_opt_str(rec.cipher_text)),
            r is None ==> !EncryptedData::shape(v@),
    {
        let key_type = match json_get_str(v, "keyType") {
            Some(x) => x,
            None => { return None; },
        };
        let key_hash = match json_get_str(v, "keyHash") {
            Some(x) => x,
            None => { return None; },
        };
        let encrypted_data = match json_get_str(v, "encryptedData") {
            Some(x) => x,
            None => { return None; },
        };
        let iv = match json_get_str(v, "iv") {
            Some(x) => x,
            None => { return None; },
        };
        let algorithm = match json_opt_str(v, "algorithm") {
            Some(x) => x,
            None => { return None; },
        };
        let cipher_text = match json_opt_str(v, "cipherText") {
            Some(x) => x,
            None => { return None; },
        };
        Some(EncryptedData { key_type, key_hash, encrypted_data, iv, algorithm, cipher_text })
    }

    /// Parses a record from its text.
    pub fn from_text(s: &str) -> (r: Option<Self>)
        ensures
            r matches Some(rec) ==> (jparse(s@) matches Some(v) && EncryptedData::shape(v)
                && jv_get_str(v, "keyType"@) == Some(rec.key_type@)
                && jv_get_str(v, "keyHash"@) == Some(rec.key_hash@)
                && jv_get_str(v, "encryptedData"@) == Some(rec.encrypted_data@)
                && jv_get_str(v, "iv"@) == Some(rec.iv@)
                && jv_opt_str(v, "algorithm"@) == Some(view_opt_str(rec.algorithm))
                && jv_opt_str(v, "cipherText"@) == Some(view_opt_str(rec.cipher_text))
            ),
            r is None ==> (jparse(s@) is None || !EncryptedData::shape(jparse(s@).unwrap())),
    {
        match parse_json(s) {
            None => None,
            Some(j) => EncryptedData::from_json(&j),
        }
    }
}

/// The JSON object of a two-field key record.
pub open spec fn kv2_jv(kt: Seq<char>, k: Seq<char>) -> JsonV {
    JsonV::Obj(seq![("keyType"@, JsonV::Str(kt)), ("key"@, JsonV::Str(k))])
}

/// The JSON object of a key record with a timestamp.
pub open spec fn kv3_jv(kt: Seq<char>, k: Seq<char>, ts: u64) -> JsonV {
    JsonV::Obj(
        seq![("keyType"@, JsonV::Str(kt)), ("key"@, JsonV::Str(k)), ("timestamp"@, JsonV::UInt(ts))],
    )
}

/// The JSON object of a key record with an algorithm and a timestamp.
pub open spec fn kv4_jv(kt: Seq<char>, k: Seq<char>, alg: Seq<char>, ts: u64) -> JsonV {
    JsonV::Obj(
        seq![
            ("keyType"@, JsonV::Str(kt)),
            ("key"@, JsonV::Str(k)),
            ("algorithm"@, JsonV::Str(alg)),
            ("timestamp"@, JsonV::UInt(ts)),
        ],
    )
}

/// The JSON object of a key record with algorithm, timestamp and session.
pub open spec fn kv5_jv(
    kt: Seq<char>,
    k: Seq<char>,
    alg: Seq<char>,
    ts: u64,
    uuid: Seq<char>,
) -> JsonV {
    JsonV::Obj(
        seq![
            ("keyType"@, JsonV::Str(kt)),
            ("key"@, JsonV::Str(k)),
            ("algorithm"@, JsonV::Str(alg)),
            ("timestamp"@, JsonV::UInt(ts)),
            ("sessionUuid"@, JsonV::Str(uuid)),
        ],
    )
}

/// The JSON object of a key record whose timestamp is optional.
pub open spec fn kv_opt_ts_jv(kt: Seq<char>, k: Seq<char>, ts: Option<u64>) -> JsonV {
    JsonV::Obj(
        seq![("keyType"@, JsonV::Str(kt)), ("key"@, JsonV::Str(k))] + (match ts {
            Some(t) => seq![("timestamp"@, JsonV::UInt(t))],
            None => Seq::empty(),
        }),
    )
}

/// The JSON object of an encrypted envelope.
pub open spec fn enc_data_jv(
    kt: Seq<char>,
    kh: Seq<char>,
    enc: Seq<char>,
    iv: Seq<char>,
    alg: Option<Seq<char>>,
    ct: Option<Seq<char>>,
) -> JsonV {
    JsonV::Obj(
        seq![
            ("keyType"@, JsonV::Str(kt)),
            ("keyHash"@, JsonV::Str(kh)),
            ("encryptedData"@, JsonV::Str(enc)),
            ("iv"@, JsonV::Str(iv)),
        ] + (match alg {
            Some(a) => seq![("algorithm"@, JsonV::Str(a))],
            None => Seq::empty(),
        }) + (match ct {
            Some(c) => seq![("cipherText"@, JsonV::Str(c))],
            None => Seq::empty(),
        }),
    )
}

/// The `key` member of a parsed record text.
pub open spec fn key_field_of(s: Seq<char>) -> Seq<char> {
    jv_get_str(jparse(s).unwrap(), "key"@).unwrap()
}

/// The member names of the record formats are pairwise distinct texts.
#[verifier::rlimit(100)]
pub proof fn lemma_record_names_distinct()
    ensures
        "keyType"@ != "key"@,
        "keyType"@ != "algorithm"@,
        "keyType"@ != "timestamp"@,
        "keyType"@ != "sessionUuid"@,
        "keyType"@ != "keyHash"@,
        "keyType"@ != "signature"@,
        "keyType"@ != "encryptedData"@,
        "keyType"@ != "iv"@,
        "keyType"@ != "cipherText"@,
        "keyType"@ != "encrypted"@,
        "keyType"@ != "value"@,
        "keyType"@ != "channel"@,
        "keyType"@ != "original"@,
        "keyType"@ != "isLarge"@,
        "keyType"@ != "roomid"@,
        "keyType"@ != "type"@,
        "keyType"@ != "content"@,
        "keyType"@ != "reply"@,
        "keyType"@ != "mention"@,
        "keyType"@ != "userId"@,
        "keyType"@ != "accountKey"@,
        "keyType"@ != "message"@,
        "keyType"@ != "sign"@,
        "key"@ != "algorithm"@,
        "key"@ != "timestamp"@,
        "key"@ != "sessionUuid"@,
        "key"@ != "keyHash"@,
        "key"@ != "signature"@,
        "key"@ != "encryptedData"@,
        "key"@ != "iv"@,
        "key"@ != "cipherText"@,
        "key"@ != "encrypted"@,
        "key"@ != "value"@,
        "key"@ != "channel"@,
        "key"@ != "original"@,
        "key"@ != "isLarge"@,
        "key"@ != "roomid"@,
        "key"@ != "type"@,
        "key"@ != "content"@,
        "key"@ != "reply"@,
        "key"@ != "mention"@,
        "key"@ != "userId"@,
        "key"@ != "accountKey"@,
        "key"@ != "message"@,
        "key"@ != "sign"@,
        "algorithm"@ != "timestamp"@,
        "algorithm"@ != "sessionUuid"@,
        "algorithm"@ != "keyHash"@,
        "algorithm"@ != "signature"@,
        "algorithm"@ != "encryptedData"@,
        "algorithm"@ != "iv"@,
        "algorithm"@ != "cipherText"@,
        "algorithm"@ != "encrypted"@,
        "algorithm"@ != "value"@,
        "algorithm"@ != "channel"@,
        "algorithm"@ != "original"@,
        "algorithm"@ != "isLarge"@,
        "algorithm"@ != "roomid"@,
        "algorithm"@ != "type"@,
        "algorithm"@ != "content"@,
        "algorithm"@ != "reply"@,
        "algorithm"@ != "mention"@,
        "algorithm"@ != "userId"@,
        "algorithm"@ != "accountKey"@,
        "algorithm"@ != "message"@,
        "algorithm"@ != "sign"@,
        "timestamp"@ != "sessionUuid"@,
        "timestamp"@ != "keyHash"@,
        "timestamp"@ != "signature"@,
        "timestamp"@ != "encryptedData"@,
        "timestamp"@ != "iv"@,
        "timestamp"@ != "cipherText"@,
        "timestamp"@ != "encrypted"@,
        "timestamp"@ != "value"@,
        "timestamp"@ != "channel"@,
        "timestamp"@ != "original"@,
        "timestamp"@ != "isLarge"@,
        "timestamp"@ != "roomid"@,
        "timestamp"@ != "type"@,
        "timestamp"@ != "content"@,
        "timestamp"@ != "reply"@,
        "timestamp"@ != "mention"@,
        "timestamp"@ != "userId"@,
        "timestamp"@ != "accountKey"@,
        "timestamp"@ != "message"@,
        "timestamp"@ != "sign"@,
        "sessionUuid"@ != "keyHash"@,
        "sessionUuid"@ != "signature"@,
        "sessionUuid"@ != "encryptedData"@,
        "sessionUuid"@ != "iv"@,
        "sessionUuid"@ != "cipherText"@,
        "sessionUuid"@ != "encrypted"@,
        "sessionUuid"@ != "value"@,
        "sessionUuid"@ != "channel"@,
        "sessionUuid"@ != "original"@,
        "sessionUuid"@ != "isLarge"@,
        "sessionUuid"@ != "roomid"@,
        "sessionUuid"@ != "type"@,
        "sessionUuid"@ != "content"@,
        "sessionUuid"@ != "reply"@,
        "sessionUuid"@ != "mention"@,
        "sessionUuid"@ != "userId"@,
        "sessionUuid"@ != "accountKey"@,
        "sessionUuid"@ != "message"@,
        "sessionUuid"@ != "sign"@,
        "keyHash"@ != "signature"@,
        "keyHash"@ != "encryptedData"@,
        "keyHash"@ != "iv"@,
        "keyHash"@ != "cipherText"@,
        "keyHash"@ != "encrypted"@,
        "keyHash"@ != "value"@,
        "keyHash"@ != "channel"@,
        "keyHash"@ != "original"@,
        "keyHash"@ != "isLarge"@,
        "keyHash"@ != "roomid"@,
        "keyHash"@ != "type"@,
        "keyHash"@ != "content"@,
        "keyHash"@ != "reply"@,
        "keyHash"@ != "mention"@,
        "keyHash"@ != "userId"@,
        "keyHash"@ != "accountKey"@,
        "keyHash"@ != "message"@,
        "keyHash"@ != "sign"@,
        "signature"@ != "encryptedData"@,
        "signature"@ != "iv"@,
        "signature"@ != "cipherText"@,
        "signature"@ != "encrypted"@,
        "signature"@ != "value"@,
        "signature"@ != "channel"@,
        "signature"@ != "original"@,
        "signature"@ != "isLarge"@,
        "signature"@ != "roomid"@,
        "signature"@ != "type"@,
        "signature"@ != "content"@,
        "signature"@ != "reply"@,
        "signature"@ != "mention"@,
        "signature"@ != "userId"@,
        "signature"@ != "accountKey"@,
        "signature"@ != "message"@,
        "signature"@ != "sign"@,
        "encryptedData"@ != "iv"@,
        "encryptedData"@ != "cipherText"@,
        "encryptedData"@ != "encrypted"@,
        "encryptedData"@ != "value"@,
        "encryptedData"@ != "channel"@,
        "encryptedData"@ != "original"@,
        "encryptedData"@ != "isLarge"@,
        "encryptedData"@ != "roomid"@,
        "encryptedData"@ != "type"@,
        "encryptedData"@ != "content"@,
        "encryptedData"@ != "reply"@,
        "encryptedData"@ != "mention"@,
        "encryptedData"@ != "userId"@,
        "encryptedData"@ != "accountKey"@,
        "encryptedData"@ != "message"@,
        "encryptedData"@ != "sign"@,
        "iv"@ != "cipherText"@,
        "iv"@ != "encrypted"@,
        "iv"@ != "value"@,
        "iv"@ != "channel"@,
        "iv"@ != "original"@,
        "iv"@ != "isLarge"@,
        "iv"@ != "roomid"@,
        "iv"@ != "type"@,
        "iv"@ != "content"@,
        "iv"@ != "reply"@,
        "iv"@ != "mention"@,
        "iv"@ != "userId"@,
        "iv"@ != "accountKey"@,
        "iv"@ != "message"@,
        "iv"@ != "sign"@,
        "cipherText"@ != "encrypted"@,
        "cipherText"@ != "value"@,
        "cipherText"@ != "channel"@,
        "cipherText"@ != "original"@,
        "cipherText"@ != "isLarge"@,
        "cipherText"@ != "roomid"@,
        "cipherText"@ != "type"@,
        "cipherText"@ != "content"@,
        "cipherText"@ != "reply"@,
        "cipherText"@ != "mention"@,
        "cipherText"@ != "userId"@,
        "cipherText"@ != "accountKey"@,
        "cipherText"@ != "message"@,
        "cipherText"@ != "sign"@,
        "encrypted"@ != "value"@,
        "encrypted"@ != "channel"@,
        "encrypted"@ != "original"@,
        "encrypted"@ != "isLarge"@,
        "encrypted"@ != "roomid"@,
        "encrypted"@ != "type"@,
        "encrypted"@ != "content"@,
        "encrypted"@ != "reply"@,
        "encrypted"@ != "mention"@,
        "encrypted"@ != "userId"@,
        "encrypted"@ != "accountKey"@,
        "encrypted"@ != "message"@,
        "encrypted"@ != "sign"@,
        "value"@ != "channel"@,
        "value"@ != "original"@,
        "value"@ != "isLarge"@,
        "value"@ != "roomid"@,
        "value"@ != "type"@,
        "value"@ != "content"@,
        "value"@ != "reply"@,
        "value"@ != "mention"@,
        "value"@ != "userId"@,
        "value"@ != "accountKey"@,
        "value"@ != "message"@,
        "value"@ != "sign"@,
        "channel"@ != "original"@,
        "channel"@ != "isLarge"@,
        "channel"@ != "roomid"@,
        "channel"@ != "type"@,
        "channel"@ != "content"@,
        "channel"@ != "reply"@,
        "channel"@ != "mention"@,
        "channel"@ != "userId"@,
        "channel"@ != "accountKey"@,
        "channel"@ != "message"@,
        "channel"@ != "sign"@,
        "original"@ != "isLarge"@,
        "original"@ != "roomid"@,
        "original"@ != "type"@,
        "original"@ != "content"@,
        "original"@ != "reply"@,
        "original"@ != "mention"@,
        "original"@ != "userId"@,
        "original"@ != "accountKey"@,
        "original"@ != "message"@,
        "original"@ != "sign"@,
        "isLarge"@ != "roomid"@,
        "isLarge"@ != "type"@,
        "isLarge"@ != "content"@,
        "isLarge"@ != "reply"@,
        "isLarge"@ != "mention"@,
        "isLarge"@ != "userId"@,
        "isLarge"@ != "accountKey"@,
        "isLarge"@ != "message"@,
        "isLarge"@ != "sign"@,
        "roomid"@ != "type"@,
        "roomid"@ != "content"@,
        "roomid"@ != "reply"@,
        "roomid"@ != "mention"@,
        "roomid"@ != "userId"@,
        "roomid"@ != "accountKey"@,
        "roomid"@ != "message"@,
        "roomid"@ != "sign"@,
        "type"@ != "content"@,
        "type"@ != "reply"@,
        "type"@ != "mention"@,
        "type"@ != "userId"@,
        "type"@ != "accountKey"@,
        "type"@ != "message"@,
        "type"@ != "sign"@,
        "content"@ != "reply"@,
        "content"@ != "mention"@,
        "content"@ != "userId"@,
        "content"@ != "accountKey"@,
        "content"@ != "message"@,
        "content"@ != "sign"@,
        "reply"@ != "mention"@,
        "reply"@ != "userId"@,
        "reply"@ != "accountKey"@,
        "reply"@ != "message"@,
        "reply"@ != "sign"@,
        "mention"@ != "userId"@,
        "mention"@ != "accountKey"@,
        "mention"@ != "message"@,
        "mention"@ != "sign"@,
        "userId"@ != "accountKey"@,
        "userId"@ != "message"@,
        "userId"@ != "sign"@,
        "accountKey"@ != "message"@,
        "accountKey"@ != "sign"@,
        "message"@ != "sign"@,
{
    reveal_strlit("keyType");
    reveal_strlit("key");
    reveal_strlit("algorithm");
    reveal_strlit("timestamp");
    reveal_strlit("sessionUuid");
    reveal_strlit("keyHash");
    reveal_strlit("signature");
    reveal_strlit("encryptedData");
    reveal_strlit("iv");
    reveal_strlit("cipherText");
    reveal_strlit("encrypted");
    reveal_strlit("value");
    reveal_strlit("channel");
    reveal_strlit("original");
    reveal_strlit("isLarge");
    reveal_strlit("roomid");
    reveal_strlit("type");
    reveal_strlit("content");
    reveal_strlit("reply");
    reveal_strlit("mention");
    reveal_strlit("userId");
    reveal_strlit("accountKey");
    reveal_strlit("message");
    reveal_strlit("sign");
    assert("keyType"@.len() == 7);
    assert("key"@.len() == 3);
    assert("algorithm"@.len() == 9);
    assert("timestamp"@.len() == 9);
    assert("sessionUuid"@.len() == 11);
    assert("keyHash"@.len() == 7);
    assert("signature"@.len() == 9);
    assert("encryptedData"@.len() == 13);
    assert("iv"@.len() == 2);
    assert("cipherText"@.len() == 10);
    assert("encrypted"@.len() == 9);
    assert("value"@.len() == 5);
    assert("channel"@.len() == 7);
    assert("original"@.len() == 8);
    assert("isLarge"@.len() == 7);
    assert("roomid"@.len() == 6);
    assert("type"@.len() == 4);
    assert("content"@.len() == 7);
    assert("reply"@.len() == 5);
    assert("mention"@.len() == 7);
    assert("userId"@.len() == 6);
    assert("accountKey"@.len() == 10);
    assert("message"@.len() == 7);
    assert("sign"@.len() == 4);
    assert("keyType"@[3] == 'T');
    assert("keyHash"@[3] == 'H');
    assert("keyType"@[0] == 'k');
    assert("channel"@[0] == 'c');
    assert("keyType"@[0] == 'k');
    assert("isLarge"@[0] == 'i');
    assert("keyType"@[0] == 'k');
    assert("content"@[0] == 'c');
    assert("keyType"@[0] == 'k');
    assert("mention"@[0] == 'm');
    assert("keyType"@[0] == 'k');
    assert("message"@[0] == 'm');
    assert("algorithm"@[0] == 'a');
    assert("timestamp"@[0] == 't');
    assert("algorithm"@[0] == 'a');
    assert("signature"@[0] == 's');
    assert("algorithm"@[0] == 'a');
    assert("encrypted"@[0] == 'e');
    assert("timestamp"@[0] == 't');
    assert("signature"@[0] == 's');
    assert("timestamp"@[0] == 't');
    assert("encrypted"@[0] == 'e');
    assert("keyHash"@[0] == 'k');
    assert("channel"@[0] == 'c');
    assert("keyHash"@[0] == 'k');
    assert("isLarge"@[0] == 'i');
    assert("keyHash"@[0] == 'k');
    assert("content"@[0] == 'c');
    assert("keyHash"@[0] == 'k');
    assert("mention"@[0] == 'm');
    assert("keyHash"@[0] == 'k');
    assert("message"@[0] == 'm');
    assert("signature"@[0] == 's');
    assert("encrypted"@[0] == 'e');
    assert("cipherText"@[0] == 'c');
    assert("accountKey"@[0] == 'a');
    assert("value"@[0] == 'v');
    assert("reply"@[0] == 'r');
    assert("channel"@[0] == 'c');
    assert("isLarge"@[0] == 'i');
    assert("channel"@[1] == 'h');
    assert("content"@[1] == 'o');
    assert("channel"@[0] == 'c');
    assert("mention"@[0] == 'm');
    assert("channel"@[0] == 'c');
    assert("message"@[0] == 'm');
    assert("isLarge"@[0] == 'i');
    assert("content"@[0] == 'c');
    assert("isLarge"@[0] == 'i');
    assert("mention"@[0] == 'm');
    assert("isLarge"@[0] == 'i');
    assert("message"@[0] == 'm');
    assert("roomid"@[0] == 'r');
    assert("userId"@[0] == 'u');
    assert("type"@[0] == 't');
    assert("sign"@[0] == 's');
    assert("content"@[0] == 'c');
    assert("mention"@[0] == 'm');
    assert("content"@[0] == 'c');
    assert("message"@[0] == 'm');
    assert("mention"@[2] == 'n');
    assert("message"@[2] == 's');
}

/// The members of a two-field key record.
pub proof fn lemma_kv2_fields(kt: Seq<char>, k: Seq<char>)
    ensures
        jv_get_str(kv2_jv(kt, k), "keyType"@) == Some(kt),
        jv_get_str(kv2_jv(kt, k), "key"@) == Some(k),
        MasterKey::shape(kv2_jv(kt, k)),
        DeviceKey::shape(kv2_jv(kt, k)),
{
    lemma_record_names_distinct();
    let fs = kv2_jv(kt, k)->Obj_0;
    crate::json::lemma_jv_lookup_at(fs, "keyType"@, 0);
    crate::json::lemma_jv_lookup_at(fs, "key"@, 1);
}

/// The members of a key record with a timestamp.
pub proof fn lemma_kv3_fields(kt: Seq<char>, k: Seq<char>, ts: u64)
    ensures
        jv_get_str(kv3_jv(kt, k, ts), "keyType"@) == Some(kt),
        jv_get_str(kv3_jv(kt, k, ts), "key"@) == Some(k),
        jv_get_u64(kv3_jv(kt, k, ts), "timestamp"@) == Some(ts),
        ServerKey::shape(kv3_jv(kt, k, ts)),
{
    lemma_record_names_distinct();
    let fs = kv3_jv(kt, k, ts)->Obj_0;
    crate::json::lemma_jv_lookup_at(fs, "keyType"@, 0);
    crate::json::lemma_jv_lookup_at(fs, "key"@, 1);
    crate::json::lemma_jv_lookup_at(fs, "timestamp"@, 2);
}

/// The members of a key record with an algorithm and a timestamp.
pub proof fn lemma_kv4_fields(kt: Seq<char>, k: Seq<char>, alg: Seq<char>, ts: u64)
    ensures
        jv_get_str(kv4_jv(kt, k, alg, ts), "keyType"@) == Some(kt),
        jv_get_str(kv4_jv(kt, k, alg, ts), "key"@) == Some(k),
        jv_get_str(kv4_jv(kt, k, alg, ts), "algorithm"@) == Some(alg),
        jv_get_u64(kv4_jv(kt, k, alg, ts), "timestamp"@) == Some(ts),
        AccountKey::shape(kv4_jv(kt, k, alg, ts)),
{
    lemma_record_names_distinct();
    let fs = kv4_jv(kt, k, alg, ts)->Obj_0;
    crate::json::lemma_jv_lookup_at(fs, "keyType"@, 0);
    crate::json::lemma_jv_lookup_at(fs, "key"@, 1);
    crate::json::lemma_jv_lookup_at(fs, "algorithm"@, 2);
    crate::json::lemma_jv_lookup_at(fs, "timestamp"@, 3);
}

/// The members of a key record with algorithm, timestamp and session.
pub proof fn lemma_kv5_fields(kt: Seq<char>, k: Seq<char>, alg: Seq<char>, ts: u64, uuid: Seq<char>)
    ensures
        jv_get_str(kv5_jv(kt, k, alg, ts, uuid), "keyType"@) == Some(kt),
        jv_get_str(kv5_jv(kt, k, alg, ts, uuid), "key"@) == Some(k),
        jv_get_str(kv5_jv(kt, k, alg, ts, uuid), "algorithm"@) == Some(alg),
        jv_get_u64(kv5_jv(kt, k, alg, ts, uuid), "timestamp"@) == Some(ts),
        jv_get_str(kv5_jv(kt, k, alg, ts, uuid), "sessionUuid"@) == Some(uuid),
        IdentityKey::shape(kv5_jv(kt, k, alg, ts, uuid)),
        RoomKey::shape(kv5_jv(kt, k, alg, ts, uuid)),
        ShareKey::shape(kv5_jv(kt, k, alg, ts, uuid)),
        ShareSignKey::shape(kv5_jv(kt, k, alg, ts, uuid)),
{
    lemma_record_names_distinct();
    let fs = kv5_jv(kt, k, alg, ts, uuid)->Obj_0;
    crate::json::lemma_jv_lookup_at(fs, "keyType"@, 0);
    crate::json::lemma_jv_lookup_at(fs, "key"@, 1);
    crate::json::lemma_jv_lookup_at(fs, "algorithm"@, 2);
    crate::json::lemma_jv_lookup_at(fs, "timestamp"@, 3);
    crate::json::lemma_jv_lookup_at(fs, "sessionUuid"@, 4);
}

/// The members of a key record whose timestamp is optional.
pub proof fn lemma_kv_opt_ts_fields(kt: Seq<char>, k: Seq<char>, ts: Option<u64>)
    ensures
        jv_get_str(kv_opt_ts_jv(kt, k, ts), "keyType"@) == Some(kt),
        jv_get_str(kv_opt_ts_jv(kt, k, ts), "key"@) == Some(k),
        jv_opt_u64(kv_opt_ts_jv(kt, k, ts), "timestamp"@) == Some(ts),
        MigrateKey::shape(kv_opt_ts_jv(kt, k, ts)),
        MigrateSignKey::shape(kv_opt_ts_jv(kt, k, ts)),
{
    lemma_record_names_distinct();
    let fs = kv_opt_ts_jv(kt, k, ts)->Obj_0;
    crate::json::lemma_jv_lookup_at(fs, "keyType"@, 0);
    crate::json::lemma_jv_lookup_at(fs, "key"@, 1);
    match ts {
        Some(t) => {
            crate::json::lemma_jv_lookup_at(fs, "timestamp"@, 2);
        },
        None => {
            crate::json::lemma_jv_lookup_none(fs, "timestamp"@);
        },
    }
}

/// The members of an encrypted envelope.
pub proof fn lemma_enc_data_fields(
    kt: Seq<char>,
    kh: Seq<char>,
    enc: Seq<char>,
    iv: Seq<char>,
    alg: Option<Seq<char>>,
    ct: Option<Seq<char>>,
)
    ensures
        jv_get_str(enc_data_jv(kt, kh, enc, iv, alg, ct), "keyType"@) == Some(kt),
        jv_get_str(enc_data_jv(kt, kh, enc, iv, alg, ct), "keyHash"@) == Some(kh),
        jv_get_str(enc_data_jv(kt, kh, enc, iv, alg, ct), "encryptedData"@) == Some(enc),
        jv_get_str(enc_data_jv(kt, kh, enc, iv, alg, ct), "iv"@) == Some(iv),
        jv_opt_str(enc_data_jv(kt, kh, enc, iv, alg, ct), "algorithm"@) == Some(alg),
        jv_opt_str(enc_data_jv(kt, kh, enc, iv, alg, ct), "cipherText"@) == Some(ct),
        EncryptedData::shape(enc_data_jv(kt, kh, enc, iv, alg, ct)),
{
    lemma_record_names_distinct();
    let fs = enc_data_jv(kt, kh, enc, iv, alg, ct)->Obj_0;
    crate::json::lemma_jv_lookup_at(fs, "keyType"@, 0);
    crate::json::lemma_jv_lookup_at(fs, "keyHash"@, 1);
    crate::json::lemma_jv_lookup_at(fs, "encryptedData"@, 2);
    crate::json::lemma_jv_lookup_at(fs, "iv"@, 3);
    match alg {
        Some(a) => {
            crate::json::lemma_jv_lookup_at(fs, "algorithm"@, 4);
        },
        None => {
            crate::json::lemma_jv_lookup_none(fs, "algorithm"@);
        },
    }
    match ct {
        Some(c) => {
            crate::json::lemma_jv_lookup_at(
                fs,
                "cipherText"@,
                if alg is Some {
                    5
                } else {
                    4
                },
            );
        },
        None => {
            crate::json::lemma_jv_lookup_none(fs, "cipherText"@);
        },
    }
}


/// The `isThumbnail` member of a payload object, when the flag is set.
pub open spec fn is_thumbnail_piece(o: Option<bool>) -> Seq<(Seq<char>, JsonV)> {
    match o {
        Some(b) => seq![("isThumbnail"@, JsonV::Bool(b))],
        None => Seq::empty(),
    }
}

/// A reply reference inside a cleartext message value.
#[derive(Clone, Debug)]
pub struct ReplyInfo {
    pub id: String,
}

impl ReplyInfo {
    /// The JSON object this record serializes to.
    pub open spec fn jv(self) -> JsonV {
        JsonV::Obj(seq![("id"@, JsonV::Str(self.id@))])
    }

    /// Builds the JSON object of this record.
    pub fn to_json(&self) -> (r: Json)
        ensures
            r@ == self.jv(),
    {
        let mut fields: Vec<(String, Json)> = Vec::new();
        proof {
            assert(view_of_obj(fields@) =~= Seq::<(Seq<char>, JsonV)>::empty());
        }
        push_field(&mut fields, "id", jstr(self.id.as_str()));
        let r = Json::Obj(fields);
        proof {
            assert(r@ matches JsonV::Obj(fs) && fs =~= self.jv()->Obj_0);
        }
        r
    }
}

/// A text payload.
#[derive(Clone, Debug)]
pub struct TextContent {
    pub text: String,
    pub format: Option<String>,
    pub is_thumbnail: Option<bool>,
    pub thumbnail_of: Option<String>,
    pub original_size: Option<u64>,
}

impl TextContent {
    /// The JSON object this record serializes to.
    pub open spec fn jv(self) -> JsonV {
        JsonV::Obj(
            seq![("text"@, JsonV::Str(self.text@))] + (match self.format {
                Some(f) => seq![("format"@, JsonV::Str(f@))],
                None => Seq::empty(),
            }) + is_thumbnail_piece(self.is_thumbnail) + (match self.thumbnail_of {
                Some(t) => seq![("thumbnailOf"@, JsonV::Str(t@))],
                None => Seq::empty(),
            }) + (match self.original_size {
                Some(n) => seq![("originalSize"@, JsonV::UInt(n))],
                None => Seq::empty(),
            }),
        )
    }

    /// Builds the JSON object of this record.
    pub fn to_json(&self) -> (r: Json)
        ensures
            r@ == self.jv(),
    {
        let mut fields: Vec<(String, Json)> = Vec::new();
        proof {
            assert(view_of_obj(fields@) =~= Seq::<(Seq<char>, JsonV)>::empty());
        }
        push_field(&mut fields, "text", jstr(self.text.as_str()));
        if let Some(f) = &self.format {
            push_field(&mut fields, "format", jstr(f.as_str()));
        }
        if let Some(b) = self.is_thumbnail {
            push_field(&mut fields, "isThumbnail", Json::Bool(b));
        }
        if let Some(t) = &self.thumbnail_of {
            push_field(&mut fields, "thumbnailOf", jstr(t.as_str()));
        }
        if let Some(n) = self.original_size {
            push_field(&mut fields, "originalSize", Json::UInt(n));
        }
        let r = Json::Obj(fields);
        proof {
            assert(r@ matches JsonV::Obj(fs) && fs =~= self.jv()->Obj_0);
        }
        r
    }

    /// The compact record text.
    pub fn to_text(&self) -> (r: String)
        ensures
            r@ == json_text(self.jv()),
    {
        let j = self.to_json();
        write_json(&j)
    }
}

/// The file name and media type of a media payload.
#[derive(Clone, Debug)]
pub struct MediaMetadata {
    pub filename: String,
    pub mime_type: String,
}

impl MediaMetadata {
    /// The JSON object this record serializes to.
    pub open spec fn jv(self) -> JsonV {
        JsonV::Obj(
            seq![("filename"@, JsonV::Str(self.filename@)), ("mimeType"@, JsonV::Str(self.mime_type@))],
        )
    }

    /// Builds the JSON object of this record.
    pub fn to_json(&self) -> (r: Json)
        ensures
            r@ == self.jv(),
    {
        let mut fields: Vec<(String, Json)> = Vec::new();
        proof {
            assert(view_of_obj(fields@) =~= Seq::<(Seq<char>, JsonV)>::empty());
        }
        push_field(&mut fields, "filename", jstr(self.filename.as_str()));
        push_field(&mut fields, "mimeType", jstr(self.mime_type.as_str()));
        let r = Json::Obj(fields);
        proof {
            assert(r@ matches JsonV::Obj(fs) && fs =~= self.jv()->Obj_0);
        }
        r
    }
}

/// A media payload: an image, and by alias video, audio and file payloads.
#[derive(Clone, Debug)]
pub struct ImageContent {
    pub uri: String,
    pub metadata: MediaMetadata,
    pub is_thumbnail: Option<bool>,
    pub thumbnail_of: Option<String>,
    pub original_size: Option<u64>,
}

impl ImageContent {
    /// The JSON object this record serializes to.
    pub open spec fn jv(self) -> JsonV {
        JsonV::Obj(
            seq![("uri"@, JsonV::Str(self.uri@)), ("metadata"@, self.metadata.jv())]
                + is_thumbnail_piece(self.is_thumbnail) + (match self.thumbnail_of {
                Some(t) => seq![("thumbnailOf"@, JsonV::Str(t@))],
                None => Seq::empty(),
            }) + (match self.original_size {
                Some(n) => seq![("originalSize"@, JsonV::UInt(n))],
                None => Seq::empty(),
            }),
        )
    }

    /// Builds the JSON object of this record.
    pub fn to_json(&self) -> (r: Json)
        ensures
            r@ == self.jv(),
    {
        let mut fields: Vec<(String, Json)> = Vec::new();
        proof {
            assert(view_of_obj(fields@) =~= Seq::<(Seq<char>, JsonV)>::empty());
        }
        push_field(&mut fields, "uri", jstr(self.uri.as_str()));
        push_field(&mut fields, "metadata", self.metadata.to_json());
        if let Some(b) = self.is_thumbnail {
            push_field(&mut fields, "isThumbnail", Json::Bool(b));
        }
        if let Some(t) = &self.thumbnail_of {
            push_field(&mut fields, "thumbnailOf", jstr(t.as_str()));
        }
        if let Some(n) = self.original_size {
            push_field(&mut fields, "originalSize", Json::UInt(n));
        }
        let r = Json::Obj(fields);
        proof {
            assert(r@ matches JsonV::Obj(fs) && fs =~= self.jv()->Obj_0);
        }
        r
    }

    /// The compact record text.
    pub fn to_text(&self) -> (r: String)
        ensures
            r@ == json_text(self.jv()),
    {
        let j = self.to_json();
        write_json(&j)
    }
}

/// A video payload has the shape of an image payload.
pub type VideoContent = ImageContent;

/// An audio payload has the shape of an image payload.
pub type AudioContent = ImageContent;

/// A file payload has the shape of an image payload.
pub type FileContent = ImageContent;

/// A thumbnail payload, by the kind of content it previews.
#[derive(Clone, Debug)]
pub enum ThumbnailContent {
    Text { thumbnail_text: String, size: Option<u64> },
    Image { thumbnail_uri: String, thumbnail_mime_type: String, size: Option<u64> },
    Video { thumbnail_uri: String, thumbnail_mime_type: String, size: Option<u64> },
    File { thumbnail_text: String, size: Option<u64> },
    Audio { thumbnail_text: String, size: Option<u64> },
}

/// Any message payload.
#[derive(Clone, Debug)]
pub enum MessageContent {
    Text(TextContent),
    Image(ImageContent),
    Video(VideoContent),
    Audio(AudioContent),
    File(FileContent),
    Thumbnail(ThumbnailContent),
}

/// The typed value of a cleartext message.
#[derive(Clone, Debug)]
pub struct NotEncryptMessageValue {
    pub _type: String,
    pub content: String,
    pub reply: Option<ReplyInfo>,
    pub mention: Option<Vec<String>>,
}

impl NotEncryptMessageValue {
    /// The JSON object this record serializes to.
    pub open spec fn jv(self) -> JsonV {
        JsonV::Obj(
            seq![("type"@, JsonV::Str(self._type@)), ("content"@, JsonV::Str(self.content@))] + (
            match self.reply {
                Some(rp) => seq![("reply"@, rp.jv())],
                None => Seq::empty(),
            }) + (match self.mention {
                Some(m) => seq![
                    ("mention"@, JsonV::Arr(m@.map_values(|t: String| JsonV::Str(t@)))),
                ],
                None => Seq::empty(),
            }),
        )
    }

    /// Builds the JSON object of this record.
    pub fn to_json(&self) -> (r: Json)
        ensures
            r@ == self.jv(),
    {
        let mut fields: Vec<(String, Json)> = Vec::new();
        proof {
            assert(view_of_obj(fields@) =~= Seq::<(Seq<char>, JsonV)>::empty());
        }
        push_field(&mut fields, "type", jstr(self._type.as_str()));
        push_field(&mut fields, "content", jstr(self.content.as_str()));
        if let Some(rp) = &self.reply {
            push_field(&mut fields, "reply", rp.to_json());
        }
        if let Some(m) = &self.mention {
            let mut items: Vec<Json> = Vec::new();
            proof {
                assert(view_of_arr(items@) =~= Seq::<JsonV>::empty());
                assert(m@.take(0).map_values(|t: String| JsonV::Str(t@)) =~= Seq::<
                    JsonV,
                >::empty());
            }
            let n = m.len();
            let mut i: usize = 0;
            while i < n
                invariant
                    n == m@.len(),
                    i <= n,
                    view_of_arr(items@) == m@.take(i as int).map_values(
                        |t: String| JsonV::Str(t@),
                    ),
                decreases n - i,
            {
                push_item(&mut items, jstr(m[i].as_str()));
                proof {
                    assert(m@.take(i + 1).map_values(|t: String| JsonV::Str(t@)) =~= m@.take(
                        i as int,
                    ).map_values(|t: String| JsonV::Str(t@)).push(JsonV::Str(m@[i as int]@)));
                }
                i = i + 1;
            }
            proof {
                assert(m@.take(n as int) =~= m@);
            }
            push_field(&mut fields, "mention", Json::Arr(items));
        }
        let r = Json::Obj(fields);
        proof {
            assert(r@ matches JsonV::Obj(fs) && fs =~= self.jv()->Obj_0);
        }
        r
    }
}

/// The JSON object of an encrypted message: the header fields around an
/// opaque value.
pub open spec fn enc_msg_jv(
    value: Seq<char>,
    channel: Seq<char>,
    original: Option<Seq<char>>,
    timestamp: u64,
    is_large: bool,
    roomid: Seq<char>,
) -> JsonV {
    JsonV::Obj(
        seq![
            ("encrypted"@, JsonV::Bool(true)),
            ("value"@, JsonV::Str(value)),
            ("channel"@, JsonV::Str(channel)),
        ] + (match original {
            Some(o) => seq![("original"@, JsonV::Str(o))],
            None => Seq::empty(),
        }) + seq![
            ("timestamp"@, JsonV::UInt(timestamp)),
            ("isLarge"@, JsonV::Bool(is_large)),
            ("roomid"@, JsonV::Str(roomid)),
        ],
    )
}

/// A cleartext message.
#[derive(Clone, Debug)]
pub struct NotEncryptMessage {
    pub encrypted: bool,
    pub value: NotEncryptMessageValue,
    pub channel: String,
    pub original: Option<String>,
    pub timestamp: u64,
    pub is_large: bool,
    pub roomid: String,
}

/// An encrypted message: the value is an envelope text.
#[derive(Clone, Debug)]
pub struct EncryptedMessage {
    pub encrypted: bool,
    pub value: String,
    pub channel: String,
    pub original: Option<String>,
    pub timestamp: u64,
    pub is_large: bool,
    pub roomid: String,
}

impl EncryptedMessage {
    /// The JSON object this record serializes to.
    pub open spec fn jv(self) -> JsonV {
        JsonV::Obj(
            seq![
                ("encrypted"@, JsonV::Bool(self.encrypted)),
                ("value"@, JsonV::Str(self.value@)),
                ("channel"@, JsonV::Str(self.channel@)),
            ] + (match self.original {
                Some(o) => seq![("original"@, JsonV::Str(o@))],
                None => Seq::empty(),
            }) + seq![
                ("timestamp"@, JsonV::UInt(self.timestamp)),
                ("isLarge"@, JsonV::Bool(self.is_large)),
                ("roomid"@, JsonV::Str(self.roomid@)),
            ],
        )
    }

    /// Builds the JSON object of this record.
    pub fn to_json(&self) -> (r: Json)
        ensures
            r@ == self.jv(),
    {
        let mut fields: Vec<(String, Json)> = Vec::new();
        proof {
            assert(view_of_obj(fields@) =~= Seq::<(Seq<char>, JsonV)>::empty());
        }
        push_field(&mut fields, "encrypted", Json::Bool(self.encrypted));
        push_field(&mut fields, "value", jstr(self.value.as_str()));
        push_field(&mut fields, "channel", jstr(self.channel.as_str()));
        if let Some(o) = &self.original {
            push_field(&mut fields, "original", jstr(o.as_str()));
        }
        push_field(&mut fields, "timestamp", Json::UInt(self.timestamp));
        push_field(&mut fields, "isLarge", Json::Bool(self.is_large));
        push_field(&mut fields, "roomid", jstr(self.roomid.as_str()));
        let r = Json::Obj(fields);
        proof {
            assert(r@ matches JsonV::Obj(fs) && fs =~= self.jv()->Obj_0);
        }
        r
    }

    /// The compact record text.
    pub fn to_text(&self) -> (r: String)
        ensures
            r@ == json_text(self.jv()),
    {
        let j = self.to_json();
        write_json(&j)
    }
}

/// Either shape of message.
#[derive(Clone, Debug)]
pub enum Message {
    NotEncrypted(NotEncryptMessage),
    Encrypted(EncryptedMessage),
}

/// A user's identifier in the fan-out list.
pub type UserIdentifier = String;

} // verus!
