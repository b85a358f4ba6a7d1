//! What the service tells about the account that is logged in.

use vstd::prelude::*;

verus! {

#[derive(Clone, Debug)]
pub struct UserInfo {
    pub sub: String,
    pub name: String,
    pub preferred_username: String,
    pub given_name: String,
    pub family_name: String,
    pub email: String,
}

} // verus!
