//! What a notification needs to know of the records it is about.

use crate::datetime::CivilDateTime;
use vstd::prelude::*;

verus! {

/// An account.
#[derive(Debug)]
pub struct User {
    pub uuid: String,
    pub updated_at: CivilDateTime,
}

/// A folder of an account.
#[derive(Debug)]
pub struct Folder {
    pub uuid: String,
    pub user_uuid: String,
    pub updated_at: CivilDateTime,
}

/// A vault item of an account or of an organization.
#[derive(Debug)]
pub struct Cipher {
    pub uuid: String,
    pub user_uuid: Option<String>,
    pub organization_uuid: Option<String>,
    pub updated_at: CivilDateTime,
}

/// Something that an account sends to somebody.
#[derive(Debug)]
pub struct DbSend {
    pub uuid: String,
    pub user_uuid: Option<String>,
    pub revision_date: CivilDateTime,
}

/// A client device of an account.
#[derive(Debug)]
pub struct Device {
    pub uuid: String,
}

}
