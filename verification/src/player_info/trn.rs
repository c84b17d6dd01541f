//! The tracker's profile records, what they mean and where they are asked for.

use vstd::prelude::*;
use vstd::utf8::encode_utf8;

use crate::common::url::{percent_encode, url_encode};
use crate::game::rank::{lemma_rank_names_distinct, lemma_tier_round_trip, rank_for_mmr, rank_name, rank_of_tier, tier_of, Rank};
use crate::map_loader::downloader::{all_digits, digits_value};
use crate::rocket_league::Platform;
use crate::stats_api::PlayerData;
use crate::seqs::{first_where, lemma_first_where_char, lemma_first_where_none};
use crate::text::{chars_of, push_str, str_eq};

verus! {

#[derive(Debug)]
pub struct RankIconMetadata {
    pub rank_name: String,
}

#[derive(Debug)]
pub struct DefaultMetadata {
    pub name: String,
}

/// A statistic: its label and its value as the tracker shows it, if it has one.
#[derive(Debug)]
pub struct SegmentStat {
    pub display_name: String,
    pub display_value: Option<String>,
}

impl SegmentStat {
    /// The value shown, or `-` when there is none.
    pub fn value(&self) -> (r: &str)
        ensures
            r@ == match self.display_value {
                Some(v) => v@,
                None => "-"@,
            },
    {
        match &self.display_value {
            Some(v) => v.as_str(),
            None => "-",
        }
    }
}

#[derive(Debug)]
pub struct OverviewSegmentStatsStatWithMetadata {
    pub display_name: String,
    pub metadata: RankIconMetadata,
}

#[derive(Debug)]
pub struct OverviewSegmentStats {
    pub wins: SegmentStat,
    pub goals: SegmentStat,
    pub season_reward_level: OverviewSegmentStatsStatWithMetadata,
}

#[derive(Debug)]
pub struct OverviewSegment {
    pub stats: OverviewSegmentStats,
}

#[derive(Debug)]
pub struct PlaylistSegmentStatsStatWithMetadata {
    pub metadata: DefaultMetadata,
}

#[derive(Debug)]
pub struct PlaylistSegmentStats {
    pub tier: PlaylistSegmentStatsStatWithMetadata,
    pub win_streak: SegmentStat,
    pub rating: SegmentStat,
    pub peak_rating: SegmentStat,
}

/// Which playlist a segment is about.
#[derive(Debug)]
pub struct SegmentAttributes {
    pub playlist_id: i8,
}

#[derive(Debug)]
pub struct PlaylistSegment {
    pub attributes: SegmentAttributes,
    pub metadata: DefaultMetadata,
    pub stats: PlaylistSegmentStats,
}

/// The rank name and season of a playlist's best rating.
#[derive(Debug)]
pub struct PeakRatingMetadata {
    pub name: String,
    pub season: String,
}

/// A playlist's best rating.
#[derive(Debug)]
pub struct PeakRatingStat {
    pub metadata: PeakRatingMetadata,
    pub rating: i16,
}

#[derive(Debug)]
pub struct PeakRatingStats {
    pub peak_rating: PeakRatingStat,
}

/// The best rating of a playlist over the seasons.
#[derive(Debug)]
pub struct PeakRatingSegment {
    pub attributes: SegmentAttributes,
    pub stats: PeakRatingStats,
}

/// A part of a profile.
#[derive(Debug)]
pub enum Segment {
    Overview(OverviewSegment),
    Playlist(PlaylistSegment),
    PlaylistAverage,
    PeakRating(PeakRatingSegment),
}

#[derive(Debug)]
pub struct PlatformInfo {
    pub platform_user_handle: String,
}

/// A player's profile.
#[derive(Debug)]
pub struct ProfileData {
    pub platform_info: PlatformInfo,
    pub segments: Vec<Segment>,
}

/// Why a profile could not be had.
#[derive(Debug)]
pub enum TRNError {
    NotFound,
    Other(String),
}

/// An error the tracker reported.
#[derive(Debug)]
pub struct ErrorResponseData {
    pub code: String,
}

/// The error a reported code means: the tracker's not-found code is a missing profile; any
/// other code is kept as it is.
pub open spec fn trn_error_of(v: ErrorResponseData) -> TRNError {
    if v.code@ == "CollectorResultStatus::NotFound"@ {
        TRNError::NotFound
    } else {
        TRNError::Other(v.code)
    }
}

impl From<ErrorResponseData> for TRNError {
    /// The tracker's not-found code is a missing profile; any other code is kept as it is.
    fn from(value: ErrorResponseData) -> (r: Self) {
        if str_eq(value.code.as_str(), "CollectorResultStatus::NotFound") {
            TRNError::NotFound
        } else {
            TRNError::Other(value.code)
        }
    }
}

impl vstd::std_specs::convert::FromSpecImpl<ErrorResponseData> for TRNError {
    open spec fn obeys_from_spec() -> bool {
        true
    }

    open spec fn from_spec(v: ErrorResponseData) -> TRNError {
        trn_error_of(v)
    }
}

/// The tracker's reply: a profile, or the errors it reported.
#[derive(Debug)]
pub enum ProfileResponse {
    Data(ProfileData),
    Errors(Vec<ErrorResponseData>),
}

/// What a reply means: the profile, or the first reported error.
pub fn profile_result(r: ProfileResponse) -> (out: Result<ProfileData, TRNError>)
    requires
        r matches ProfileResponse::Errors(e) ==> e@.len() > 0,
    ensures
        match r {
            ProfileResponse::Data(d) => out == Ok::<ProfileData, TRNError>(d),
            ProfileResponse::Errors(e) => out == Err::<ProfileData, TRNError>(trn_error_of(e@[0])),
        },
{
    match r {
        ProfileResponse::Data(d) => Ok(d),
        ProfileResponse::Errors(e) => {
            let mut e = e;
            let first = e.swap_remove(0);
            Err(TRNError::from(first))
        },
    }
}

/// Who a profile is looked up for.
#[derive(Debug, Clone)]
pub struct PlayerKey {
    pub platform: Platform,
    pub platform_id: String,
}

/// The tracker's name for a platform; bots have none.
pub open spec fn tracker_platform(p: Platform) -> Option<Seq<char>> {
    match p {
        Platform::Xbox => Some("xbl"@),
        Platform::Epic => Some("epic"@),
        Platform::PlayStation => Some("psn"@),
        Platform::Steam => Some("steam"@),
        Platform::Switch => Some("switch"@),
        Platform::Bot => None,
    }
}

/// The tracker's name for a platform other than a bot's.
pub fn tracker_platform_name(p: Platform) -> (r: &'static str)
    requires
        p != Platform::Bot,
    ensures
        tracker_platform(p) == Some(r@),
{
    match p {
        Platform::Xbox => "xbl",
        Platform::Epic => "epic",
        Platform::PlayStation => "psn",
        Platform::Steam => "steam",
        _ => "switch",
    }
}

/// The tracker's profile address for a key.
pub open spec fn api_url_text(platform: Seq<char>, id: Seq<char>) -> Seq<char> {
    "https://api.tracker.gg/api/v2/rocket-league/standard/profile/"@ + platform + seq!['/']
        + percent_encode(encode_utf8(id))
}

impl PlayerKey {
    /// The address the tracker is asked at for this player; there is none for a bot.
    pub fn to_api_url(&self) -> (r: String)
        requires
            self.platform != Platform::Bot,
        ensures
            r@ == api_url_text(tracker_platform(self.platform)->0, self.platform_id@),
    {
        let prefix = tracker_platform_name(self.platform);
        let mut url = "https://api.tracker.gg/api/v2/rocket-league/standard/profile/".to_owned();
        push_str(&mut url, prefix);
        push_str(&mut url, "/");
        let encoded = url_encode(self.platform_id.as_str());
        push_str(&mut url, encoded.as_str());
        proof {
            reveal_strlit("/");
        }
        url
    }
}

impl From<PlayerData> for PlayerKey {
    /// A Steam player is looked up by id, any other by name.
    fn from(value: PlayerData) -> (r: Self) {
        let platform_id = match value.platform {
            Platform::Steam => value.platform_id,
            _ => value.name,
        };
        PlayerKey { platform: value.platform, platform_id }
    }
}

impl vstd::std_specs::convert::FromSpecImpl<PlayerData> for PlayerKey {
    open spec fn obeys_from_spec() -> bool {
        true
    }

    open spec fn from_spec(v: PlayerData) -> PlayerKey {
        PlayerKey {
            platform: v.platform,
            platform_id: if v.platform == Platform::Steam {
                v.platform_id
            } else {
                v.name
            },
        }
    }
}

/// The rank with the given display name.
pub open spec fn rank_named(s: Seq<char>) -> Option<Rank> {
    if exists|t: int| 0 <= t <= 22 && rank_name(#[trigger] rank_of_tier(t)->0) == s {
        Some(rank_of_tier(choose|t: int| 0 <= t <= 22 && rank_name(#[trigger] rank_of_tier(t)->0) == s)->0)
    } else {
        None
    }
}

/// The rank with the given display name, if there is one.
pub fn rank_from_name(name: &str) -> (r: Option<Rank>)
    ensures
        r matches Some(k) ==> rank_name(k) == name@,
        r is None ==> rank_named(name@) is None,
{
    let mut t: u8 = 0;
    while t <= 22
        invariant
            t <= 23,
            forall|j: int| 0 <= j < t ==> rank_name(#[trigger] rank_of_tier(j)->0) != name@,
        decreases 23 - t,
    {
        let k = Rank::from_tier(t);
        if str_eq(k.as_str(), name) {
            return Some(k);
        }
        t = t + 1;
    }
    None
}

/// An `i16` written in decimal, with an optional sign.
pub open spec fn parsed_i16(s: Seq<char>) -> Option<i16> {
    let neg = s.len() > 0 && s[0] == '-';
    let d = unsigned_part(s);
    let v: int = if neg {
        -digits_value(d)
    } else {
        digits_value(d) as int
    };
    if d.len() > 0 && all_digits(d) && i16::MIN <= v <= i16::MAX {
        Some(v as i16)
    } else {
        None
    }
}

/// The text after an optional sign.
pub open spec fn unsigned_part(s: Seq<char>) -> Seq<char> {
    if s.len() > 0 && (s[0] == '+' || s[0] == '-') {
        s.drop_first()
    } else {
        s
    }
}

/// One row of the playlist table: the playlist, the current rank if its tier name is a
/// known rank, the streak and rating texts, and the peak rating with its rank (see
/// `peak_cell`), with the season it was reached in when it comes from a peak-rating segment.
#[derive(Debug)]
pub struct PlaylistRow {
    pub name: String,
    pub rank: Option<Rank>,
    pub streak: String,
    pub rating: String,
    pub peak: Option<(i16, Rank)>,
    pub peak_season: Option<String>,
}

/// The peak-rating segments of a playlist.
pub open spec fn peak_for(id: i8) -> spec_fn(Segment) -> bool {
    |s: Segment| s matches Segment::PeakRating(p) && p.attributes.playlist_id == id
}

/// The peak shown for a playlist segment among a profile's segments: the peak statistic when
/// it reads as a number, with the rank estimated from it; otherwise the first peak-rating
/// segment of the same playlist, when its rank name is a known rank, with that rank (estimated
/// from the rating when it is `Unranked`) and its season; otherwise none.
pub open spec fn peak_cell(seg: PlaylistSegment, segs: Seq<Segment>) -> (Option<(i16, Rank)>, Option<Seq<char>>) {
    match parsed_i16(stat_text(seg.stats.peak_rating)) {
        Some(v) => (Some((v, rank_for_mmr(v as int))), None),
        None => match first_where(segs, peak_for(seg.attributes.playlist_id)) {
            Some(k) => match segs[k] {
                Segment::PeakRating(p) => match rank_named(p.stats.peak_rating.metadata.name@) {
                    Some(b) => (
                        Some(
                            (
                                p.stats.peak_rating.rating,
                                if b == Rank::Unranked {
                                    rank_for_mmr(p.stats.peak_rating.rating as int)
                                } else {
                                    b
                                },
                            ),
                        ),
                        Some(p.stats.peak_rating.metadata.season@),
                    ),
                    None => (None, None),
                },
                _ => (None, None),
            },
            None => (None, None),
        },
    }
}

/// The name of a rank names that rank.
proof fn lemma_rank_named_exact(k: Rank)
    ensures
        rank_named(rank_name(k)) == Some(k),
{
    lemma_tier_round_trip(k);
    let t = tier_of(k) as int;
    assert(rank_name(rank_of_tier(t)->0) == rank_name(k));
    let c = choose|t: int| 0 <= t <= 22 && rank_name(#[trigger] rank_of_tier(t)->0) == rank_name(k);
    lemma_rank_names_distinct(rank_of_tier(c)->0, k);
}

/// The model of a playlist row of a segment, among a profile's segments.
pub open spec fn row_fits(row: PlaylistRow, seg: PlaylistSegment, segs: Seq<Segment>) -> bool {
    &&& row.name@ == seg.metadata.name@
    &&& (row.rank matches Some(k) ==> rank_name(k) == seg.stats.tier.metadata.name@)
    &&& (row.rank is None ==> rank_named(seg.stats.tier.metadata.name@) is None)
    &&& row.streak@ == stat_text(seg.stats.win_streak)
    &&& row.rating@ == stat_text(seg.stats.rating)
    &&& (
    row.peak,
    match row.peak_season {
        Some(s) => Some(s@),
        None => None,
    },
) == peak_cell(seg, segs)
}

/// The text a statistic shows.
pub open spec fn stat_text(s: SegmentStat) -> Seq<char> {
    match s.display_value {
        Some(v) => v@,
        None => "-"@,
    }
}

/// The playlist segments of a profile, in order.
pub open spec fn playlist_segments(s: Seq<Segment>) -> Seq<PlaylistSegment>
    decreases s.len(),
{
    if s.len() == 0 {
        seq![]
    } else {
        let rest = playlist_segments(s.drop_last());
        match s.last() {
            Segment::Playlist(p) => rest.push(p),
            _ => rest,
        }
    }
}

/// The overview of a profile: its first overview segment.
pub open spec fn overview_of(s: Seq<Segment>) -> Option<int> {
    crate::seqs::first_where(s, |g: Segment| g is Overview)
}

/// Reads a signed 16-bit number.
pub fn parse_i16(text: &str) -> (r: Option<i16>)
    ensures
        r == parsed_i16(text@),
{
    let v = chars_of(text);
    let ghost s = text@;
    let neg = v.len() > 0 && v[0] == '-';
    let start: usize = if v.len() > 0 && (v[0] == '+' || v[0] == '-') {
        1
    } else {
        0
    };
    let ghost d = s.skip(start as int);
    assert(start == 1 ==> d =~= s.drop_first());
    assert(start == 0 ==> d =~= s);
    assert(d == unsigned_part(s));
    if v.len() == start {
        return None;
    }
    let limit: u32 = if neg {
        32768
    } else {
        32767
    };
    let mut value: u32 = 0;
    let mut i: usize = start;
    while i < v.len()
        invariant
            s == text@,
            v@ == s,
            d == s.skip(start as int),
            start == 1 ==> d == s.drop_first(),
            start == 0 ==> d == s,
            start <= i <= v@.len(),
            all_digits(d.take(i - start)),
            value == digits_value(d.take(i - start)),
            value <= limit,
            limit == if neg { 32768u32 } else { 32767u32 },
            neg == (s.len() > 0 && s[0] == '-'),
            start == 1 <==> (s.len() > 0 && (s[0] == '+' || s[0] == '-')),
            d == unsigned_part(s),
        decreases v@.len() - i,
    {
        let c = v[i];
        let ghost pre = d.take(i + 1 - start);
        assert(pre.drop_last() =~= d.take(i - start));
        assert(pre.last() == c);
        if c < '0' || c > '9' {
            assert(!all_digits(d)) by {
                assert(d[i - start] == c);
            }
            return None;
        }
        let digit: u32 = (c as u32) - 48;
        let next: u32 = value * 10 + digit;
        assert(all_digits(pre)) by {
            assert forall|j: int| 0 <= j < pre.len() implies '0' <= #[trigger] pre[j] <= '9' by {
                if j < pre.len() - 1 {
                    assert(pre[j] == d.take(i - start)[j]);
                }
            }
        }
        if next > limit {
            proof {
                if all_digits(d) {
                    crate::map_loader::downloader::lemma_digits_grow(d, i + 1 - start);
                    assert(digits_value(pre) == next);
                    assert(digits_value(d) > limit);
                }
            }
            assert(parsed_i16(s) is None);
            return None;
        }
        value = next;
        i = i + 1;
    }
    assert(d.take(i - start) =~= d);
    if neg {
        Some((0i32 - value as i32) as i16)
    } else {
        Some(value as i16)
    }
}

/// What the tracker view shows of a profile.
pub struct TrackerWidget<'a> {
    profile: &'a ProfileData,
    player: &'a PlayerKey,
}

impl<'a> TrackerWidget<'a> {
    pub fn new(profile: &'a ProfileData, player: &'a PlayerKey) -> (r: Self)
        ensures
            r.profile() == profile,
            r.player() == player,
    {
        TrackerWidget { profile, player }
    }

    pub closed spec fn profile(&self) -> &'a ProfileData {
        self.profile
    }

    pub closed spec fn player(&self) -> &'a PlayerKey {
        self.player
    }

    /// The profile's overview segment, if it has one.
    pub fn overview(&self) -> (r: Option<&'a OverviewSegment>)
        ensures
            match overview_of(self.profile().segments@) {
                Some(k) => r matches Some(o) && self.profile().segments@[k] == Segment::Overview(*o),
                None => r is None,
            },
    {
        let segs = &self.profile.segments;
        let ghost p = |g: Segment| g is Overview;
        let mut i: usize = 0;
        while i < segs.len()
            invariant
                segs == &self.profile.segments,
                i <= segs@.len(),
                p == (|g: Segment| g is Overview),
                forall|j: int| 0 <= j < i ==> !p(segs@[j]),
            decreases segs@.len() - i,
        {
            if let Segment::Overview(o) = &segs[i] {
                proof {
                    crate::seqs::lemma_first_where_char(segs@, p, i as int);
                }
                return Some(o);
            }
            i = i + 1;
        }
        proof {
            crate::seqs::lemma_first_where_none(segs@, p);
        }
        None
    }

    /// The rows of the playlist table, one per playlist segment, in order.
    pub fn playlist_rows(&self) -> (r: Vec<PlaylistRow>)
        ensures
            r@.len() == playlist_segments(self.profile().segments@).len(),
            forall|i: int|
                0 <= i < r@.len() ==> row_fits(
                    #[trigger] r@[i],
                    playlist_segments(self.profile().segments@)[i],
                    self.profile().segments@,
                ),
    {
        let segs = &self.profile.segments;
        let mut rows: Vec<PlaylistRow> = Vec::new();
        let mut i: usize = 0;
        while i < segs.len()
            invariant
                segs == &self.profile.segments,
                i <= segs@.len(),
                rows@.len() == playlist_segments(segs@.take(i as int)).len(),
                forall|j: int|
                    0 <= j < rows@.len() ==> row_fits(
                        #[trigger] rows@[j],
                        playlist_segments(segs@.take(i as int))[j],
                        segs@,
                    ),
            decreases segs@.len() - i,
        {
            let ghost pre = segs@.take(i + 1);
            assert(pre.drop_last() =~= segs@.take(i as int));
            assert(pre.last() == segs@[i as int]);
            if let Segment::Playlist(seg) = &segs[i] {
                let (peak, peak_season) = peak_of(seg, segs);
                let row = PlaylistRow {
                    name: seg.metadata.name.clone(),
                    rank: rank_from_name(seg.stats.tier.metadata.name.as_str()),
                    streak: seg.stats.win_streak.value().to_owned(),
                    rating: seg.stats.rating.value().to_owned(),
                    peak,
                    peak_season,
                };
                rows.push(row);
            }
            i = i + 1;
        }
        assert(segs@.take(i as int) =~= segs@);
        rows
    }
}

/// The first peak-rating segment of a playlist, as an index into the segments.
fn find_peak(segs: &Vec<Segment>, id: i8) -> (r: Option<usize>)
    ensures
        match r {
            Some(k) => k < segs@.len() && first_where(segs@, peak_for(id)) == Some(k as int),
            None => first_where(segs@, peak_for(id)) is None,
        },
{
    let ghost p = peak_for(id);
    let mut k: usize = 0;
    while k < segs.len()
        invariant
            k <= segs@.len(),
            p == peak_for(id),
            forall|j: int| 0 <= j < k ==> !p(segs@[j]),
        decreases segs@.len() - k,
    {
        if let Segment::PeakRating(s) = &segs[k] {
            if s.attributes.playlist_id == id {
                proof {
                    lemma_first_where_char(segs@, p, k as int);
                }
                return Some(k);
            }
        }
        k = k + 1;
    }
    proof {
        lemma_first_where_none(segs@, p);
    }
    None
}

/// The peak shown for a playlist segment (see `peak_cell`).
fn peak_of(seg: &PlaylistSegment, segs: &Vec<Segment>) -> (r: (Option<(i16, Rank)>, Option<String>))
    ensures
        (
            r.0,
            match r.1 {
                Some(s) => Some(s@),
                None => None,
            },
        ) == peak_cell(*seg, segs@),
{
    match parse_i16(seg.stats.peak_rating.value()) {
        Some(v) => (Some((v, Rank::estimate_from_mmr(v))), None),
        None => match find_peak(segs, seg.attributes.playlist_id) {
            None => (None, None),
            Some(k) => match &segs[k] {
                Segment::PeakRating(p) => {
                    let stat = &p.stats.peak_rating;
                    match rank_from_name(stat.metadata.name.as_str()) {
                        Some(b) => {
                            proof {
                                lemma_rank_named_exact(b);
                            }
                            let rank = match b {
                                Rank::Unranked => Rank::estimate_from_mmr(stat.rating),
                                _ => b,
                            };
                            (Some((stat.rating, rank)), Some(stat.metadata.season.clone()))
                        },
                        None => (None, None),
                    }
                },
                _ => (None, None),
            },
        },
    }
}

} // verus!
