//! Profile pictures, from the avatar service.

use vstd::prelude::*;

use crate::matches::match_info::{
    censored, display_name_of, has_separator, second_field, second_field_of, MatchPlayer,
};
use crate::rocket_league::Platform;
use crate::text::push_str;

verus! {

/// The avatar service's reply.
#[derive(Debug)]
pub struct AvatarResponse {
    pub url: Option<String>,
}

impl AvatarResponse {
    /// The picture address a reply gives, if any.
    pub fn into_url(self) -> (r: Option<String>)
        ensures
            r == self.url,
    {
        self.url
    }
}

/// The platforms the avatar service knows.
#[derive(Debug, Clone, Copy, PartialEq, Eq, Hash, Structural)]
pub enum AvatarPlatform {
    Steam,
    Playstation,
    Xbox,
}

/// The avatar service's name for a platform.
pub open spec fn service_name_of(p: AvatarPlatform) -> Seq<char> {
    match p {
        AvatarPlatform::Steam => "steam"@,
        AvatarPlatform::Playstation => "psn"@,
        AvatarPlatform::Xbox => "xbox"@,
    }
}

/// The name of the query parameter that carries a platform's player id.
pub open spec fn id_tag_of(p: AvatarPlatform) -> Seq<char> {
    match p {
        AvatarPlatform::Steam => "steamid"@,
        AvatarPlatform::Playstation => "psnid"@,
        AvatarPlatform::Xbox => "gamertag"@,
    }
}

/// The avatar platform of a game platform, if the service knows it.
pub open spec fn avatar_platform_of(p: Platform) -> Option<AvatarPlatform> {
    match p {
        Platform::Steam => Some(AvatarPlatform::Steam),
        Platform::PlayStation => Some(AvatarPlatform::Playstation),
        Platform::Xbox => Some(AvatarPlatform::Xbox),
        _ => None,
    }
}

impl AvatarPlatform {
    pub fn service_name(&self) -> (r: &'static str)
        ensures
            r@ == service_name_of(*self),
    {
        match self {
            AvatarPlatform::Steam => "steam",
            AvatarPlatform::Playstation => "psn",
            AvatarPlatform::Xbox => "xbox",
        }
    }

    pub fn id_tag_name(&self) -> (r: &'static str)
        ensures
            r@ == id_tag_of(*self),
    {
        match self {
            AvatarPlatform::Steam => "steamid",
            AvatarPlatform::Playstation => "psnid",
            AvatarPlatform::Xbox => "gamertag",
        }
    }

    /// The avatar platform of a game platform; Epic, Switch and bots have none.
    pub fn try_from(value: Platform) -> (r: Result<AvatarPlatform, ()>)
        ensures
            match avatar_platform_of(value) {
                Some(p) => r == Ok::<AvatarPlatform, ()>(p),
                None => r is Err,
            },
    {
        match value {
            Platform::Steam => Ok(AvatarPlatform::Steam),
            Platform::PlayStation => Ok(AvatarPlatform::Playstation),
            Platform::Xbox => Ok(AvatarPlatform::Xbox),
            _ => Err(()),
        }
    }
}

/// What a picture is looked up by: the platform and the player's id there.
#[derive(Debug, Clone)]
pub struct AvatarKey {
    pub platform: AvatarPlatform,
    pub id: String,
}

/// The key of a player, if their picture can be looked up: on Xbox the shown name, unless
/// the profanity filter hid it; on Steam and PlayStation the id field after the platform tag.
pub open spec fn avatar_key_of(p: MatchPlayer) -> Option<(AvatarPlatform, Seq<char>)> {
    match avatar_platform_of(p.data.platform) {
        Some(AvatarPlatform::Xbox) => if censored(display_name_of(p)) {
            None
        } else {
            Some((AvatarPlatform::Xbox, display_name_of(p)))
        },
        Some(ap) => Some((ap, second_field(p.data.platform_id@))),
        None => None,
    }
}

impl AvatarKey {
    /// The key of a player. A Steam or PlayStation id must hold a `|`.
    pub fn try_from(value: &MatchPlayer) -> (r: Result<AvatarKey, ()>)
        requires
            (value.data.platform == Platform::Steam || value.data.platform == Platform::PlayStation)
                ==> has_separator(value.data.platform_id@),
        ensures
            match (r, avatar_key_of(*value)) {
                (Ok(k), Some((p, id))) => k.platform == p && k.id@ == id,
                (Err(_), None) => true,
                _ => false,
            },
    {
        let platform = match AvatarPlatform::try_from(value.data.platform) {
            Ok(p) => p,
            Err(_) => return Err(()),
        };
        let id = match platform {
            AvatarPlatform::Xbox => {
                if !value.display_name_is_censored() {
                    value.display_name().to_owned()
                } else {
                    return Err(());
                }
            },
            _ => second_field_of(&value.data.platform_id),
        };
        Ok(AvatarKey { platform, id })
    }
}

/// The avatar service's address for a key (the id goes in as it is).
pub open spec fn avatar_api_url_text(platform: AvatarPlatform, id: Seq<char>) -> Seq<char> {
    "https://rl-avatars-api.kmdw.dev/avatar?service="@ + service_name_of(platform) + seq!['&']
        + id_tag_of(platform) + seq!['='] + id
}

/// The address the avatar service is asked at for a key.
pub fn avatar_api_url(key: &AvatarKey) -> (r: String)
    ensures
        r@ == avatar_api_url_text(key.platform, key.id@),
{
    let mut url = "https://rl-avatars-api.kmdw.dev/avatar?service=".to_owned();
    push_str(&mut url, key.platform.service_name());
    push_str(&mut url, "&");
    push_str(&mut url, key.platform.id_tag_name());
    push_str(&mut url, "=");
    push_str(&mut url, key.id.as_str());
    proof {
        reveal_strlit("&");
        reveal_strlit("=");
    }
    url
}

} // verus!
