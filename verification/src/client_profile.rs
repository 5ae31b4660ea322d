//! Handling of fetched profiles: when to fetch, what a fetched profile is
//! stored as, and what happens to the avatar.

use vstd::prelude::*;
use crate::codec::{uuid_text, uuid_to_string};

verus! {

/// How a recipient accepts sealed-sender messages.
#[derive(Clone, Copy, PartialEq, Eq, Debug)]
pub enum UnidentifiedAccessMode {
    Unknown,
    Disabled,
    Enabled,
    Unrestricted,
}

/// What to do about a profile reported as outdated.
#[derive(Clone, Copy, PartialEq, Eq, Debug)]
pub enum OutdatedProfileAction {
    /// Not connected: ignore it until reconnected.
    IgnoreUntilReconnected,
    /// It is the user's own profile: schedule a refresh of it.
    RefreshOwnProfile,
    /// Fetch it from the service.
    Fetch,
}

/// The action for an outdated profile of `uuid`.
pub fn outdated_profile_action(connected: bool, own_aci: Option<u128>, uuid: u128) -> (r: OutdatedProfileAction)
    ensures
        r == if !connected {
            OutdatedProfileAction::IgnoreUntilReconnected
        } else if own_aci == Some(uuid) {
            OutdatedProfileAction::RefreshOwnProfile
        } else {
            OutdatedProfileAction::Fetch
        },
{
    if !connected {
        OutdatedProfileAction::IgnoreUntilReconnected
    } else if own_aci == Some(uuid) {
        OutdatedProfileAction::RefreshOwnProfile
    } else {
        OutdatedProfileAction::Fetch
    }
}

/// How a profile request ended.
#[derive(Clone, Copy, PartialEq, Eq, Debug)]
pub enum FetchResult {
    Fetched,
    NotFound,
    Failed,
}

/// What is reported after a profile request: `Some(true)` a fetched
/// profile, `Some(false)` that the service has none, `None` nothing (the
/// error is only logged).
pub fn fetched_report(result: FetchResult) -> (r: Option<bool>)
    ensures
        r == match result {
            FetchResult::Fetched => Some(true),
            FetchResult::NotFound => Some(false),
            FetchResult::Failed => None::<bool>,
        },
{
    match result {
        FetchResult::Fetched => Some(true),
        FetchResult::NotFound => Some(false),
        FetchResult::Failed => None,
    }
}

/// What handling a fetched profile reads of the stored recipient.
pub struct FetchedRecipient {
    pub id: i32,
    pub uuid: Option<u128>,
    pub profile_key: Option<Vec<u8>>,
    pub unidentified_access_mode: UnidentifiedAccessMode,
}

/// Why a fetched profile cannot be used.
#[derive(Clone, Copy, PartialEq, Eq, Debug)]
pub enum ProfileFetchedError {
    /// No recipient is stored for the UUID of the profile.
    RecipientNotFound,
    /// The recipient did not share its profile key.
    NoProfileKey,
}

/// What to do with the outcome of a profile request.
pub enum ProfileFetchedPlan {
    /// Decrypt the profile with this 32-byte key.
    Decrypt(Vec<u8>),
    /// The service has no profile: record the fetch time, and drop the
    /// cached own recipient when it is the user's own.
    MarkFetched { invalidate_self: bool },
}

/// The plan for a profile request about `uuid` that found a profile
/// (`has_profile`) or not, given the stored recipient.
pub fn plan_profile_fetched(
    recipient: &Option<FetchedRecipient>,
    has_profile: bool,
    own_aci: Option<u128>,
    uuid: u128,
) -> (r: Result<ProfileFetchedPlan, ProfileFetchedError>)
    requires
        has_profile ==> (recipient matches Some(rec) ==> (rec.profile_key matches Some(k) ==> k@.len() == 32)),
    ensures
        match recipient {
            None => r == Err::<ProfileFetchedPlan, ProfileFetchedError>(ProfileFetchedError::RecipientNotFound),
            Some(rec) => if has_profile {
                match rec.profile_key {
                    Some(k) => r matches Ok(ProfileFetchedPlan::Decrypt(key)) && key@ == k@,
                    None => r == Err::<ProfileFetchedPlan, ProfileFetchedError>(ProfileFetchedError::NoProfileKey),
                }
            } else {
                r matches Ok(ProfileFetchedPlan::MarkFetched { invalidate_self }) && invalidate_self == (own_aci == Some(uuid))
            },
        },
{
    match recipient {
        None => Err(ProfileFetchedError::RecipientNotFound),
        Some(rec) => {
            if has_profile {
                match &rec.profile_key {
                    Some(k) => {
                        let key = k.clone();
                        proof {
                            assert(key@ == k@);
                        }
                        Ok(ProfileFetchedPlan::Decrypt(key))
                    },
                    None => Err(ProfileFetchedError::NoProfileKey),
                }
            } else {
                Ok(ProfileFetchedPlan::MarkFetched { invalidate_self: own_aci == Some(uuid) })
            }
        },
    }
}

/// A profile name after decryption; `joined` is the full name as the
/// service library writes it.
pub struct DecryptedName {
    pub given_name: String,
    pub family_name: Option<String>,
    pub joined: String,
}

/// The fields of a profile after decryption.
pub struct DecryptedProfile {
    pub name: Option<DecryptedName>,
    pub about: Option<String>,
    pub about_emoji: Option<String>,
}

/// A profile as it is saved for a recipient. Times are milliseconds since
/// the Unix epoch.
pub struct StoreProfile {
    pub given_name: Option<String>,
    pub family_name: Option<String>,
    pub joined_name: Option<String>,
    pub about_text: Option<String>,
    pub emoji: Option<String>,
    pub unidentified: UnidentifiedAccessMode,
    pub avatar: Option<String>,
    pub last_fetch: i64,
    pub r_uuid: u128,
    pub r_id: i32,
    pub r_key: Option<Vec<u8>>,
}

/// The text of an optional text.
pub open spec fn opt_text(o: Option<String>) -> Option<Seq<char>> {
    match o {
        Some(s) => Some(s@),
        None => None,
    }
}

/// The profile to save from a decrypted profile: the name parts and texts
/// as decrypted, unrestricted sealed-sender access when the service grants
/// it (else the recipient's mode), the avatar path, `now` as fetch time,
/// and the recipient's UUID, id and key.
pub fn store_profile(
    decrypted: DecryptedProfile,
    unrestricted_unidentified_access: bool,
    avatar: Option<String>,
    recipient: &FetchedRecipient,
    now: i64,
) -> (r: StoreProfile)
    requires
        recipient.uuid is Some,
    ensures
        opt_text(r.given_name) == match decrypted.name {
            Some(n) => Some(n.given_name@),
            None => None,
        },
        opt_text(r.family_name) == match decrypted.name {
            Some(n) => opt_text(n.family_name),
            None => None,
        },
        opt_text(r.joined_name) == match decrypted.name {
            Some(n) => Some(n.joined@),
            None => None,
        },
        opt_text(r.about_text) == opt_text(decrypted.about),
        opt_text(r.emoji) == opt_text(decrypted.about_emoji),
        r.unidentified == if unrestricted_unidentified_access {
            UnidentifiedAccessMode::Unrestricted
        } else {
            recipient.unidentified_access_mode
        },
        opt_text(r.avatar) == opt_text(avatar),
        r.last_fetch == now,
        Some(r.r_uuid) == recipient.uuid,
        r.r_id == recipient.id,
        match recipient.profile_key {
            Some(k) => r.r_key matches Some(rk) && rk@ == k@,
            None => r.r_key is None,
        },
{
    let (given_name, family_name, joined_name) = match decrypted.name {
        Some(n) => (Some(n.given_name), n.family_name, Some(n.joined)),
        None => (None, None, None),
    };
    let r_key = match &recipient.profile_key {
        Some(k) => {
            let c = k.clone();
            proof {
                assert(c@ == k@);
            }
            Some(c)
        },
        None => None,
    };
    StoreProfile {
        given_name,
        family_name,
        joined_name,
        about_text: decrypted.about,
        emoji: decrypted.about_emoji,
        unidentified: if unrestricted_unidentified_access {
            UnidentifiedAccessMode::Unrestricted
        } else {
            recipient.unidentified_access_mode
        },
        avatar,
        last_fetch: now,
        r_uuid: recipient.uuid.unwrap(),
        r_id: recipient.id,
        r_key,
    }
}

/// What happens to the avatar file when a profile is saved.
#[derive(Clone, Copy, PartialEq, Eq, Debug)]
pub enum AvatarAction {
    /// Download, decrypt and write the avatar.
    Download,
    /// The profile has no avatar: remove the old file.
    Remove,
    /// Neither an avatar nor an old file.
    Nothing,
}

/// The avatar action for a profile with or without an avatar, given whether
/// an avatar file exists.
pub fn avatar_action(has_avatar: bool, file_exists: bool) -> (r: AvatarAction)
    ensures
        r == if has_avatar {
            AvatarAction::Download
        } else if file_exists {
            AvatarAction::Remove
        } else {
            AvatarAction::Nothing
        },
{
    if has_avatar {
        AvatarAction::Download
    } else if file_exists {
        AvatarAction::Remove
    } else {
        AvatarAction::Nothing
    }
}

/// The file name of a recipient's avatar: its UUID in hyphenated form.
pub fn avatar_file_name(uuid: u128) -> (r: String)
    ensures
        r@ == uuid_text(uuid),
{
    uuid_to_string(uuid)
}

} // verus!
