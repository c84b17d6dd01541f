//! Epic account names for console players, from the id service.

use vstd::prelude::*;

use crate::common::url::{percent_encode, url_encode};
use crate::text::push_str;
use vstd::utf8::encode_utf8;

verus! {

/// The id service's reply.
#[derive(Debug)]
pub struct EpicIdResponse {
    pub name: Option<String>,
}

impl EpicIdResponse {
    /// The name a reply gives, if any.
    pub fn into_name(self) -> (r: Option<String>)
        ensures
            r == self.name,
    {
        self.name
    }
}

/// The id service's address for a player id.
pub open spec fn epic_id_api_url_text(player_id: Seq<char>) -> Seq<char> {
    "https://mmr.kmdw.dev/player-id-to-epic-name?playerId="@ + percent_encode(encode_utf8(player_id))
}

/// The address the id service is asked at for a player.
pub fn epic_id_api_url(player_id: &str) -> (r: String)
    ensures
        r@ == epic_id_api_url_text(player_id@),
{
    let mut url = "https://mmr.kmdw.dev/player-id-to-epic-name?playerId=".to_owned();
    let encoded = url_encode(player_id);
    push_str(&mut url, encoded.as_str());
    url
}

} // verus!
