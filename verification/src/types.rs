//! Small wrapped value types: identifiers, device ids, push tokens, and
//! the rows and contexts that cross the library boundary as plain values.

use vstd::prelude::*;

verus! {

use crate::enums::DeviceType;
use crate::numbers::{dec_string, i32_to_string, is_i32_string, i32_string_val, parse_i32};

/// A numeric entity identifier.
#[derive(Clone, Copy, Debug, PartialEq, Eq, Structural)]
pub struct Identifier(pub i32);

impl Identifier {
    /// Parses a decimal identifier, rejecting anything a 32-bit parse
    /// rejects.
    pub fn from_str(s: &str) -> (r: Result<Identifier, ()>)
        ensures
            match r {
                Ok(id) => is_i32_string(s@) && id.0 == i32_string_val(s@),
                Err(_) => !is_i32_string(s@),
            },
    {
        match parse_i32(s) {
            Some(v) => Ok(Identifier(v)),
            None => Err(()),
        }
    }

    /// The wrapped numeric value.
    pub fn value(&self) -> (r: i32)
        ensures
            r == self.0,
    {
        self.0
    }

    /// The decimal text of the identifier.
    pub fn text(&self) -> (r: String)
        ensures
            r@ == dec_string(self.0 as int),
    {
        i32_to_string(self.0)
    }
}

impl From<i32> for Identifier {
    fn from(value: i32) -> (r: Self) {
        Identifier(value)
    }
}

impl vstd::std_specs::convert::FromSpecImpl<i32> for Identifier {
    open spec fn obeys_from_spec() -> bool {
        true
    }

    open spec fn from_spec(t: i32) -> Self {
        Identifier(t)
    }
}

/// A device push token handed out by the push provider.
#[derive(Debug)]
pub struct FirebaseToken(pub String);

impl FirebaseToken {
    /// The wrapped token text.
    pub fn text(&self) -> (r: String)
        ensures
            r@ == self.0@,
    {
        self.0.clone()
    }
}

impl Clone for FirebaseToken {
    fn clone(&self) -> (r: Self)
        ensures
            r == *self,
    {
        FirebaseToken(self.0.clone())
    }
}

impl From<String> for FirebaseToken {
    fn from(value: String) -> (r: Self) {
        FirebaseToken(value)
    }
}

impl vstd::std_specs::convert::FromSpecImpl<String> for FirebaseToken {
    open spec fn obeys_from_spec() -> bool {
        true
    }

    open spec fn from_spec(t: String) -> Self {
        FirebaseToken(t)
    }
}

/// The caller-supplied identity of a device.
#[derive(Debug)]
pub struct DeviceId(pub String);

impl DeviceId {
    /// The wrapped device id text.
    pub fn text(&self) -> (r: String)
        ensures
            r@ == self.0@,
    {
        self.0.clone()
    }
}

impl Clone for DeviceId {
    fn clone(&self) -> (r: Self)
        ensures
            r == *self,
    {
        DeviceId(self.0.clone())
    }
}

/// The device identity and platform taken from request headers.
#[derive(Debug)]
pub struct UserContext {
    pub device_id: DeviceId,
    pub device_type: DeviceType,
}

impl Clone for UserContext {
    fn clone(&self) -> (r: Self)
        ensures
            r == *self,
    {
        UserContext { device_id: self.device_id.clone(), device_type: self.device_type }
    }
}

/// A user as the directory stores it: identity, device, and an optional
/// push token.
#[derive(Debug)]
pub struct UserFromRow {
    pub id: i32,
    pub device_id: String,
    pub device_type: String,
    pub token: Option<String>,
}

impl Clone for UserFromRow {
    fn clone(&self) -> (r: Self)
        ensures
            r.id == self.id,
            r.device_id@ == self.device_id@,
            r.device_type@ == self.device_type@,
            r.token.deep_view() == self.token.deep_view(),
    {
        let token = match &self.token {
            Some(t) => Some(t.clone()),
            None => None,
        };
        UserFromRow {
            id: self.id,
            device_id: self.device_id.clone(),
            device_type: self.device_type.clone(),
            token,
        }
    }
}

/// The single-column shape of a user count query.
#[derive(Clone, Copy, Debug, PartialEq, Eq, Structural)]
pub struct CountUserFromRow {
    pub total_count: i32,
}

/// A target user together with the per-user data of a bulk send.
#[derive(Debug)]
pub struct UsersWithExtraDataDto {
    pub id: i32,
    pub extra_data: Option<Vec<(String, String)>>,
    pub template_data: Option<Vec<(String, String)>>,
}

/// Copies a list of key/value pairs.
pub fn clone_pairs(v: &Vec<(String, String)>) -> (r: Vec<(String, String)>)
    ensures
        r@ == v@,
{
    let mut out: Vec<(String, String)> = Vec::new();
    let mut i: usize = 0;
    while i < v.len()
        invariant
            i <= v@.len(),
            out@ == v@.subrange(0, i as int),
        decreases v@.len() - i,
    {
        out.push((v[i].0.clone(), v[i].1.clone()));
        i = i + 1;
        proof {
            assert(out@ =~= v@.subrange(0, i as int));
        }
    }
    proof {
        assert(out@ =~= v@);
    }
    out
}

/// Copies an optional list of key/value pairs.
pub fn clone_opt_pairs(v: &Option<Vec<(String, String)>>) -> (r: Option<Vec<(String, String)>>)
    ensures
        r.deep_view() == v.deep_view(),
        r is Some <==> v is Some,
{
    match v {
        Some(pairs) => {
            let c = clone_pairs(pairs);
            proof {
                assert(c.deep_view() =~= pairs.deep_view());
            }
            Some(c)
        },
        None => None,
    }
}

} // verus!
