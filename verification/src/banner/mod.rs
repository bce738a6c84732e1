//! Banner (Oracle) connection settings, and the check of the user ID that updates run as.

use vstd::prelude::*;
use vstd::utf8::encode_utf8;

verus! {

/// How many connections the Banner pool opens at most.
pub const POOL_MAX_SIZE: u32 = 2;

/// Connection settings for Banner.
#[derive(Debug)]
pub struct Settings {
    pub conn: String,
    pub username: String,
    pub password: String,
    pub concurrent_connections: u32,
    pub update_user_id: Option<String>,
}

/// Why the Banner settings are refused.
#[derive(Debug, PartialEq, Eq, Structural)]
pub enum BannerError {
    /// The update user ID is given but empty.
    EmptyUpdateUserId,
    /// The update user ID holds a byte that is not an ASCII letter or digit.
    UpdateUserIdNotAlphanumeric,
}

/// An ASCII letter or digit.
pub open spec fn is_ascii_alphanumeric(b: u8) -> bool {
    (48 <= b <= 57) || (65 <= b <= 90) || (97 <= b <= 122)
}

/// Every byte is an ASCII letter or digit.
pub open spec fn all_ascii_alphanumeric(b: Seq<u8>) -> bool {
    forall|i: int| 0 <= i < b.len() ==> is_ascii_alphanumeric(#[trigger] b[i])
}

/// What the check of the update user ID answers.
pub open spec fn spec_check_update_user_id(id: Option<Seq<char>>) -> Result<(), BannerError> {
    match id {
        None => Ok(()),
        Some(s) => if s.len() == 0 {
            Err(BannerError::EmptyUpdateUserId)
        } else if all_ascii_alphanumeric(encode_utf8(s)) {
            Ok(())
        } else {
            Err(BannerError::UpdateUserIdNotAlphanumeric)
        },
    }
}

impl Default for Settings {
    fn default() -> (s: Settings)
        ensures
            s.conn@ == "//localhost:1521/orcl"@,
            s.username@ == "banner"@,
            s.password@ == "no-password-set"@,
            s.concurrent_connections == 2,
            s.update_user_id is None,
    {
        Settings {
            conn: "//localhost:1521/orcl".to_owned(),
            username: "banner".to_owned(),
            password: "no-password-set".to_owned(),
            concurrent_connections: 2,
            update_user_id: None,
        }
    }
}

impl Settings {
    /// The update user ID, when set, must be non-empty and ASCII alphanumeric.
    pub fn check_update_user_id(&self) -> (r: Result<(), BannerError>)
        ensures
            r == spec_check_update_user_id(match self.update_user_id {
                Some(s) => Some(s@),
                None => None,
            }),
    {
        match &self.update_user_id {
            None => Ok(()),
            Some(id) => {
                let b = id.as_str().as_bytes();
                if id.as_str().is_empty() {
                    return Err(BannerError::EmptyUpdateUserId);
                }
                let mut i: usize = 0;
                while i < b.len()
                    invariant
                        b@ == encode_utf8(id@),
                        id@.len() > 0,
                        self.update_user_id matches Some(x) && x@ == id@,
                        i <= b@.len(),
                        forall|j: int| 0 <= j < i ==> is_ascii_alphanumeric(#[trigger] b@[j]),
                    decreases b.len() - i,
                {
                    let c = b[i];
                    if !((48 <= c && c <= 57) || (65 <= c && c <= 90) || (97 <= c && c <= 122)) {
                        assert(!is_ascii_alphanumeric(b@[i as int]));
                        assert(!all_ascii_alphanumeric(encode_utf8(id@)));
                        return Err(BannerError::UpdateUserIdNotAlphanumeric);
                    }
                    i = i + 1;
                }
                Ok(())
            },
        }
    }
}

} // verus!
