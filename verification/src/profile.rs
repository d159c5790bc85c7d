//! Typed records for the profile endpoints, and the decision halves of the
//! profile-list and profile-select calls: each gates, decodes and resolves a
//! raw response through the shared pipeline, leaving transport to a driver.

use vstd::prelude::*;

verus! {

use crate::codec;
use crate::taxonomy;
use crate::{response_payload_spec, Error, Result, Tarkov};

#[derive(Debug, PartialEq)]
pub struct ProfileInfoSettings {
    pub role: Option<String>,
    pub bot_difficulty: Option<String>,
    pub experience: Option<i64>,
}

#[derive(Debug, PartialEq)]
pub struct ProfileInfo {
    pub nickname: String,
    pub lower_nickname: Option<String>,
    pub lowercase_nickname: Option<String>,
    pub side: String,
    pub voice: String,
    pub level: u64,
    pub experience: u64,
    pub registration_date: u64,
    pub game_version: String,
    pub account_type: u64,
    pub locked_move_commands: bool,
    pub savage_lock_time: u64,
    pub last_time_played_as_savage: u64,
    pub settings: ProfileInfoSettings,
    pub need_wipe: bool,
    pub global_wipe: bool,
    pub nickname_change_date: u64,
}

#[derive(Debug, PartialEq)]
pub struct ProfileCustomization {
    pub head: String,
    pub body: String,
    pub feet: String,
    pub hands: String,
}

#[derive(Debug, PartialEq, Eq, Clone, Copy, Structural)]
pub struct Health {
    pub current: u64,
    pub maximum: u64,
}

#[derive(Debug, PartialEq, Eq, Clone, Copy, Structural)]
pub struct Head {
    pub health: Health,
}

#[derive(Debug, PartialEq, Eq, Clone, Copy, Structural)]
pub struct Chest {
    pub health: Health,
}

#[derive(Debug, PartialEq, Eq, Clone, Copy, Structural)]
pub struct Stomach {
    pub health: Health,
}

#[derive(Debug, PartialEq, Eq, Clone, Copy, Structural)]
pub struct LeftArm {
    pub health: Health,
}

#[derive(Debug, PartialEq, Eq, Clone, Copy, Structural)]
pub struct RightArm {
    pub health: Health,
}

#[derive(Debug, PartialEq, Eq, Clone, Copy, Structural)]
pub struct LeftLeg {
    pub health: Health,
}

#[derive(Debug, PartialEq, Eq, Clone, Copy, Structural)]
pub struct RightLeg {
    pub health: Health,
}

#[derive(Debug, PartialEq, Eq, Clone, Copy, Structural)]
pub struct BodyParts {
    pub head: Head,
    pub chest: Chest,
    pub stomach: Stomach,
    pub left_arm: LeftArm,
    pub right_arm: RightArm,
    pub left_leg: LeftLeg,
    pub right_leg: RightLeg,
}

#[derive(Debug, PartialEq, Eq, Clone, Copy, Structural)]
pub struct ProfileHealth {
    pub hydration: Health,
    pub energy: Health,
    pub body_parts: BodyParts,
    pub update_time: u64,
}

#[derive(Debug, PartialEq, Eq, Clone, Copy, Structural)]
pub struct UpdMedkit {
    pub hp_resource: u64,
}

#[derive(Debug, PartialEq, Eq, Clone, Copy, Structural)]
pub struct UpdLight {
    pub is_active: bool,
    pub selected_mode: u64,
}

/// A grid position inside a container. The remote service is known to send
/// this field with inconsistent JSON types across call sites, so item decode
/// treats it as opaque; the record itself is plain.
#[derive(Debug, PartialEq, Eq, Clone, Copy, Structural)]
pub struct Location {
    pub x: u64,
    pub y: u64,
    pub r: u64,
    pub is_searched: Option<bool>,
}

#[derive(Debug, PartialEq)]
pub struct Item {
    pub id: String,
    pub tpl: String,
    pub parent_id: Option<String>,
    pub slot_id: Option<String>,
}

#[derive(Debug, PartialEq)]
pub struct ProfileInventory {
    pub items: Vec<Item>,
    pub equipment: String,
    pub stash: Option<String>,
    pub quest_raid_items: String,
    pub quest_stash_items: String,
}

#[derive(Debug, PartialEq)]
pub struct ProfileData {
    pub id: String,
    pub aid: u64,
    pub savage: Option<String>,
    pub info: ProfileInfo,
    pub customization: ProfileCustomization,
    pub health: ProfileHealth,
    pub inventory: ProfileInventory,
}

/// Profile API error.
#[derive(Debug, Clone, Copy, PartialEq, Eq, Structural)]
pub enum ProfileError {
    /// Not authorized to API or game profile not selected.
    NotAuthorized,
}

/// Profile-selection API error.
#[derive(Debug, Clone, Copy, PartialEq, Eq, Structural)]
pub enum SelectError {
    /// An invalid user id was selected.
    InvalidUserID,
}

/// What the profile-list call yields on a raw response: the shared pipeline
/// with the selection code not meaningful, a missing authorization surfacing
/// under the profile-specific error kind.
pub open spec fn profiles_outcome_spec(status: u16, body: Seq<u8>) -> Result<Seq<char>> {
    match response_payload_spec(status, body, false) {
        Ok(p) => Ok(p),
        Err(e) => if e == Error::NotAuthorized {
            Err(Error::ProfileError(ProfileError::NotAuthorized))
        } else {
            Err(e)
        },
    }
}

/// What the profile-select call yields on a raw response: success needs no
/// payload, and the selection code is meaningful here.
pub open spec fn select_outcome_spec(status: u16, body: Seq<u8>) -> Result<()> {
    match codec::decode_spec(status, body) {
        Err(e) => Err(e),
        Ok(env) => if env.code == taxonomy::CODE_SUCCESS {
            Ok(())
        } else {
            Err(taxonomy::taxonomy_error(env.code, true))
        },
    }
}

impl Tarkov {
    /// The decision half of the profile-list call: decodes and resolves a raw
    /// response into the raw JSON text of the profile array. The transport
    /// driver parses that text into `ProfileData` records.
    pub fn get_profiles_outcome(&self, status: u16, body: &Vec<u8>) -> (r: Result<String>)
        ensures
            r matches Ok(p) ==> profiles_outcome_spec(status, body@) == Ok::<Seq<char>, Error>(p@),
            r matches Err(e) ==> profiles_outcome_spec(status, body@) == Err::<Seq<char>, Error>(
                e,
            ),
    {
        match self.response_payload(status, body, false) {
            Ok(p) => Ok(p),
            Err(e) => if e == Error::NotAuthorized {
                Err(Error::ProfileError(ProfileError::NotAuthorized))
            } else {
                Err(e)
            },
        }
    }

    /// The decision half of the profile-select call: decodes and resolves a
    /// raw response; code 205 is meaningful here and reports the selected
    /// user id as invalid.
    pub fn select_profile_outcome(&self, status: u16, body: &Vec<u8>) -> (r: Result<()>)
        ensures
            r == select_outcome_spec(status, body@),
    {
        let env = match codec::decode_response(status, body) {
            Ok(env) => env,
            Err(e) => {
                return Err(e);
            },
        };
        self.handle_error(env.code, true, ())
    }
}

} // verus!
