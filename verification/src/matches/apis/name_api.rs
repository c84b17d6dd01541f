//! Uncensored player names from the profile service.

use vstd::prelude::*;

use crate::common::url::{percent_encode, url_encode};
use crate::text::push_str;
use vstd::utf8::encode_utf8;

verus! {

/// The profile service's reply.
#[derive(Debug)]
pub struct GetProfileResponse {
    pub name: String,
}

impl GetProfileResponse {
    /// The name a reply gives.
    pub fn into_name(self) -> (r: Option<String>)
        ensures
            r matches Some(n) && n@ == self.name@,
    {
        Some(self.name)
    }
}

/// The profile service's address for a player id.
pub open spec fn name_api_url_text(player_id: Seq<char>) -> Seq<char> {
    "https://mmr.kmdw.dev/get-profile?playerId="@ + percent_encode(encode_utf8(player_id))
}

/// The address the profile service is asked at for a player.
pub fn name_api_url(player_id: &str) -> (r: String)
    ensures
        r@ == name_api_url_text(player_id@),
{
    let mut url = "https://mmr.kmdw.dev/get-profile?playerId=".to_owned();
    let encoded = url_encode(player_id);
    push_str(&mut url, encoded.as_str());
    url
}

} // verus!
