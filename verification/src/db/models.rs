use vstd::prelude::*;

verus! {

/// A universally unique identifier, as its sixteen raw bytes.
#[derive(Debug, Clone, Copy, PartialEq, Eq)]
pub struct Uuid {
    pub bytes: [u8; 16],
}

/// A point in time, in milliseconds since the Unix epoch.
#[derive(Debug, Clone, Copy, PartialEq, Eq)]
pub struct DateTime {
    pub millis_since_epoch: i64,
}

/// An opaque binary payload.
#[derive(Debug, Clone, PartialEq, Eq)]
pub struct Binary {
    pub bytes: Vec<u8>,
}

/// A stored binary asset with its identifier.
#[derive(Debug, Clone, PartialEq, Eq)]
pub struct Asset {
    pub id: Uuid,
    pub mime_type: String,
    pub data: Vec<u8>,
}

/// The kind of device a user connects with.
#[derive(Debug, Clone, Copy, PartialEq, Eq, Structural)]
pub enum DeviceType {
    Unknown,
    Mobile,
    Desktop,
    Cli,
    Web,
}

impl DeviceType {
    /// The numeric code a device type is stored under.
    pub open spec fn spec_code(self) -> u8 {
        match self {
            DeviceType::Unknown => 0,
            DeviceType::Mobile => 1,
            DeviceType::Desktop => 2,
            DeviceType::Cli => 3,
            DeviceType::Web => 4,
        }
    }

    pub fn code(&self) -> (r: u8)
        ensures
            r == self.spec_code(),
    {
        match self {
            DeviceType::Unknown => 0,
            DeviceType::Mobile => 1,
            DeviceType::Desktop => 2,
            DeviceType::Cli => 3,
            DeviceType::Web => 4,
        }
    }

    /// The device type stored under a numeric code, if the code is known.
    pub fn from_code(code: u8) -> (r: Option<DeviceType>)
        ensures
            match r {
                Some(t) => t.spec_code() == code,
                None => code > 4,
            },
    {
        match code {
            0 => Some(DeviceType::Unknown),
            1 => Some(DeviceType::Mobile),
            2 => Some(DeviceType::Desktop),
            3 => Some(DeviceType::Cli),
            4 => Some(DeviceType::Web),
            _ => None,
        }
    }
}

/// A device registered to a user.
#[derive(Debug, Clone, PartialEq, Eq)]
pub struct Device {
    pub id: Uuid,
    pub name: String,
    pub device_type: DeviceType,
    pub user: Uuid,
    pub last_activity: DateTime,
    pub signature_public_key: Binary,
    pub encryption_public_key: Binary,
}

/// One recipient of a message: a device and the key material addressed to it.
#[derive(Debug, Clone, PartialEq, Eq)]
pub struct MessageRecipient {
    pub device: Uuid,
    pub key: Binary,
}

/// A stored message between users.
#[derive(Debug, Clone, PartialEq, Eq)]
pub struct Message {
    pub id: Uuid,
    pub from_user: Uuid,
    pub to_user: Uuid,
    pub recipients: Vec<MessageRecipient>,
    pub iv: Binary,
    pub sent_at: DateTime,
    pub content_type: String,
    pub body: Binary,
}

/// A user account.
#[derive(Debug, Clone, PartialEq, Eq)]
pub struct User {
    pub id: Uuid,
    pub username: String,
    pub display: String,
    pub password_hash: String,
    pub status: String,
    pub profile_picture: Uuid,
    pub created_at: DateTime,
    pub updated_at: DateTime,
}

} // verus!
