use crate::domain::types::string::{check_length, length_error, length_ok, FromUnchecked};
use crate::domain::user;
use vstd::prelude::*;

verus! {

/// The key of an object in storage, from 1 to 255 characters.
#[derive(Debug)]
pub struct AssetKey(String);

pub const ASSET_KEY_MIN: u64 = 1;

pub const ASSET_KEY_MAX: u64 = 255;

impl View for AssetKey {
    type V = Seq<char>;

    closed spec fn view(&self) -> Seq<char> {
        self.0@
    }
}

impl FromUnchecked<String> for AssetKey {
    fn from_unchecked(value: String) -> (r: AssetKey)
        ensures
            r@ == value@,
    {
        AssetKey(value)
    }
}

impl AssetKey {
    /// The key when its length is from 1 to 255 characters.
    pub fn try_from_string(value: String) -> (r: Result<AssetKey, String>)
        ensures
            match r {
                Ok(k) => k@ == value@ && length_ok(value@, 1, 255),
                Err(e) => !length_ok(value@, 1, 255) && e@ == length_error("S3キー"@, 1, 255),
            },
    {
        match check_length(value, "S3キー", ASSET_KEY_MIN, ASSET_KEY_MAX) {
            Ok(v) => Ok(AssetKey(v)),
            Err(e) => Err(e),
        }
    }

    /// The key of a user's asset: `asset/{user id}/{file name}`.
    pub fn asset_key(user_id: user::Id, file_name: String) -> (r: AssetKey)
        ensures
            r@ == "asset/"@ + user_id@ + "/"@ + file_name@,
    {
        let s = String::from_str("asset/");
        let s = s.concat(user_id.as_str());
        let s = s.concat("/");
        AssetKey(s.concat(file_name.as_str()))
    }

    /// The key of a user's temporary file: `tmp/{user id}/{file name}`.
    pub fn temp_key(user_id: user::Id, file_name: String) -> (r: AssetKey)
        ensures
            r@ == "tmp/"@ + user_id@ + "/"@ + file_name@,
    {
        let s = String::from_str("tmp/");
        let s = s.concat(user_id.as_str());
        let s = s.concat("/");
        AssetKey(s.concat(file_name.as_str()))
    }

    pub fn as_str(&self) -> (r: &str)
        ensures
            r@ == self@,
    {
        self.0.as_str()
    }

    pub fn into_string(self) -> (r: String)
        ensures
            r@ == self@,
    {
        self.0
    }
}

} // verus!
