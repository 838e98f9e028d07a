//! A page of live rooms of a partition, turned into what the frontend shows.
use vstd::prelude::*;
use vstd::string::StringExecFns;
use crate::decimal::{push_decimal, signed_decimal, decimal};

verus! {

/// Rooms asked for per page.
pub const PAGE_SIZE: i32 = 15;

/// The partition listing endpoint, up to its `count` parameter.
pub const PARTITION_ROOMS_ENDPOINT: &'static str = "https://live.douyin.com/webcast/web/partition/detail/room/?aid=6383&app_name=douyin_web&live_id=1&device_platform=web&language=zh-CN&enter_from=web_homepage_hot&cookie_enabled=true&screen_width=1920&screen_height=1080&browser_language=zh-CN&browser_platform=MacIntel&browser_name=Chrome&browser_version=120.0.0.0&count=";

pub struct DouyinRoomCover {
    pub url_list: Vec<String>,
}

pub struct DouyinRoomOwner {
    pub nickname: String,
    pub avatar_thumb: Option<DouyinRoomCover>,
}

pub struct DouyinRoomStats {
    pub total_user_str: String,
    pub user_count_str: Option<String>,
}

pub struct DouyinRoom {
    pub web_rid: String,
    pub title: String,
    pub cover: DouyinRoomCover,
    pub owner: DouyinRoomOwner,
    pub stats: DouyinRoomStats,
}

pub struct DouyinPartitionRoomData {
    /// The room id the frontend opens.
    pub actual_web_rid_for_frontend: String,
    pub room: DouyinRoom,
}

pub struct DouyinPartitionDataWrapper {
    pub data: Vec<DouyinPartitionRoomData>,
    pub count: i32,
    pub offset: i32,
    pub has_more: Option<bool>,
}

pub struct DouyinPartitionApiResponse {
    pub data: DouyinPartitionDataWrapper,
    pub status_code: i32,
}

/// A room as the frontend shows it.
pub struct LiveRoomFrontend {
    pub web_rid: String,
    pub title: String,
    pub cover_url: String,
    pub owner_nickname: String,
    pub user_count_str: String,
    pub avatar_url: String,
}

/// A page of rooms for the frontend, with where the next page starts.
pub struct DouyinLiveListResponse {
    pub rooms: Vec<LiveRoomFrontend>,
    pub has_more: bool,
    pub next_offset: i32,
}

/// The first URL of a list, or the empty string.
pub open spec fn first_url(urls: Seq<String>) -> Seq<char> {
    if urls.len() > 0 {
        urls[0]@
    } else {
        Seq::empty()
    }
}

/// The avatar URL of an owner: the first of its thumbnail's list, if any.
pub open spec fn avatar_of(owner: DouyinRoomOwner) -> Seq<char> {
    match owner.avatar_thumb {
        Some(t) => first_url(t.url_list@),
        None => Seq::empty(),
    }
}

/// The viewer count shown: the current count if given, else the total.
pub open spec fn user_count_of(stats: DouyinRoomStats) -> Seq<char> {
    match stats.user_count_str {
        Some(s) => s@,
        None => stats.total_user_str@,
    }
}

/// `f` is the frontend form of `d`.
pub open spec fn room_from(f: LiveRoomFrontend, d: DouyinPartitionRoomData) -> bool {
    &&& f.web_rid@ == d.actual_web_rid_for_frontend@
    &&& f.title@ == d.room.title@
    &&& f.cover_url@ == first_url(d.room.cover.url_list@)
    &&& f.owner_nickname@ == d.room.owner.nickname@
    &&& f.user_count_str@ == user_count_of(d.room.stats)
    &&& f.avatar_url@ == avatar_of(d.room.owner)
}

fn first_url_of(urls: &Vec<String>) -> (r: String)
    ensures
        r@ == first_url(urls@),
{
    if urls.len() > 0 {
        urls[0].clone()
    } else {
        String::new()
    }
}

/// The frontend form of one listed room.
pub fn to_frontend_room(d: &DouyinPartitionRoomData) -> (f: LiveRoomFrontend)
    ensures
        room_from(f, *d),
{
    let avatar_url = match &d.room.owner.avatar_thumb {
        Some(t) => first_url_of(&t.url_list),
        None => String::new(),
    };
    let user_count_str = match &d.room.stats.user_count_str {
        Some(s) => s.clone(),
        None => d.room.stats.total_user_str.clone(),
    };
    LiveRoomFrontend {
        web_rid: d.actual_web_rid_for_frontend.clone(),
        title: d.room.title.clone(),
        cover_url: first_url_of(&d.room.cover.url_list),
        owner_nickname: d.room.owner.nickname.clone(),
        user_count_str,
        avatar_url,
    }
}

/// The page for the frontend: an error carrying the status code when it is
/// nonzero; otherwise each listed room in order, `has_more` when a full page
/// came back, and the next page's offset one page further on.
pub fn live_list_from_listing(resp: &DouyinPartitionApiResponse, offset: i32) -> (r: Result<DouyinLiveListResponse, i32>)
    requires
        offset + PAGE_SIZE <= i32::MAX,
    ensures
        resp.status_code != 0 ==> r == Err::<DouyinLiveListResponse, i32>(resp.status_code),
        resp.status_code == 0 ==> r is Ok && ({
            let page = r->Ok_0;
            &&& page.rooms@.len() == resp.data.data@.len()
            &&& forall|i: int|
                0 <= i < page.rooms@.len() ==> #[trigger] room_from(page.rooms@[i], resp.data.data@[i])
            &&& page.has_more == (resp.data.data@.len() == PAGE_SIZE)
            &&& page.next_offset == offset + PAGE_SIZE
        }),
{
    if resp.status_code != 0 {
        return Err(resp.status_code);
    }
    let listed = &resp.data.data;
    let mut rooms: Vec<LiveRoomFrontend> = Vec::new();
    let mut i: usize = 0;
    while i < listed.len()
        invariant
            i <= listed@.len(),
            rooms@.len() == i,
            forall|k: int| 0 <= k < i ==> #[trigger] room_from(rooms@[k], listed@[k]),
        decreases listed@.len() - i,
    {
        rooms.push(to_frontend_room(&listed[i]));
        i = i + 1;
    }
    let has_more = listed.len() == PAGE_SIZE as usize;
    Ok(DouyinLiveListResponse { rooms, has_more, next_offset: offset + PAGE_SIZE })
}

/// The listing URL for one page of a partition.
pub open spec fn partition_rooms_url_text(
    partition: Seq<char>,
    partition_type: Seq<char>,
    offset: i32,
    ms_token: Seq<char>,
) -> Seq<char> {
    PARTITION_ROOMS_ENDPOINT@ + decimal(PAGE_SIZE as nat) + "&offset="@ + signed_decimal(offset as int)
        + "&partition="@ + partition + "&partition_type="@ + partition_type + "&req_from=2&msToken="@
        + ms_token
}

/// The listing URL for one page of a partition.
pub fn partition_rooms_url(partition: &str, partition_type: &str, offset: i32, ms_token: &str) -> (r: String)
    ensures
        r@ == partition_rooms_url_text(partition@, partition_type@, offset, ms_token@),
{
    let mut s = String::from_str(PARTITION_ROOMS_ENDPOINT);
    push_decimal(&mut s, PAGE_SIZE as u64);
    s.append("&offset=");
    if offset < 0 {
        s.append("-");
        push_decimal(&mut s, (0i64 - offset as i64) as u64);
        proof {
            reveal_strlit("-");
        }
    } else {
        push_decimal(&mut s, offset as u64);
    }
    s.append("&partition=");
    s.append(partition);
    s.append("&partition_type=");
    s.append(partition_type);
    s.append("&req_from=2&msToken=");
    s.append(ms_token);
    assert(s@ =~= partition_rooms_url_text(partition@, partition_type@, offset, ms_token@));
    s
}

} // verus!
