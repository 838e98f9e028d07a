use stream_relay::rooms::{
    live_list_from_listing, partition_rooms_url, to_frontend_room, DouyinPartitionApiResponse, DouyinPartitionDataWrapper,
    DouyinPartitionRoomData, DouyinRoom, DouyinRoomCover, DouyinRoomOwner, DouyinRoomStats, PAGE_SIZE,
};

fn room(rid: &str, covers: &[&str], avatar: Option<&[&str]>, user_count: Option<&str>) -> DouyinPartitionRoomData {
    DouyinPartitionRoomData {
        actual_web_rid_for_frontend: rid.to_string(),
        room: DouyinRoom {
            web_rid: format!("inner-{}", rid),
            title: format!("Room {}", rid),
            cover: DouyinRoomCover { url_list: covers.iter().map(|s| s.to_string()).collect() },
            owner: DouyinRoomOwner {
                nickname: format!("owner-{}", rid),
                avatar_thumb: avatar.map(|l| DouyinRoomCover { url_list: l.iter().map(|s| s.to_string()).collect() }),
            },
            stats: DouyinRoomStats { total_user_str: "1万".to_string(), user_count_str: user_count.map(|s| s.to_string()) },
        },
    }
}

fn response(status_code: i32, rooms: Vec<DouyinPartitionRoomData>) -> DouyinPartitionApiResponse {
    let n = rooms.len() as i32;
    DouyinPartitionApiResponse {
        data: DouyinPartitionDataWrapper { data: rooms, count: n, offset: 0, has_more: None },
        status_code,
    }
}

#[test]
fn room_fields_and_fallbacks() {
    let f = to_frontend_room(&room("77", &["c1", "c2"], Some(&["a1", "a2"]), Some("321")));
    assert_eq!(f.web_rid, "77");
    assert_eq!(f.title, "Room 77");
    assert_eq!(f.cover_url, "c1");
    assert_eq!(f.owner_nickname, "owner-77");
    assert_eq!(f.user_count_str, "321");
    assert_eq!(f.avatar_url, "a1");
    let f = to_frontend_room(&room("78", &[], None, None));
    assert_eq!(f.cover_url, "");
    assert_eq!(f.avatar_url, "");
    assert_eq!(f.user_count_str, "1万");
    let f = to_frontend_room(&room("79", &["c"], Some(&[]), None));
    assert_eq!(f.avatar_url, "");
}

#[test]
fn page_of_rooms() {
    let rooms: Vec<_> = (0..PAGE_SIZE).map(|i| room(&i.to_string(), &["c"], None, None)).collect();
    let page = live_list_from_listing(&response(0, rooms), 30).unwrap();
    assert_eq!(page.rooms.len(), 15);
    assert_eq!(page.rooms[3].web_rid, "3");
    assert!(page.has_more);
    assert_eq!(page.next_offset, 45);
    let page = live_list_from_listing(&response(0, vec![room("1", &[], None, None)]), 0).unwrap();
    assert!(!page.has_more);
    assert_eq!(page.next_offset, 15);
    let page = live_list_from_listing(&response(0, vec![]), 0).unwrap();
    assert!(page.rooms.is_empty());
    assert!(!page.has_more);
}

#[test]
fn nonzero_status_is_an_error() {
    assert!(matches!(live_list_from_listing(&response(10011, vec![]), 0), Err(10011)));
}

#[test]
fn partition_url() {
    let u = partition_rooms_url("720", "1", 30, "tok");
    assert!(u.starts_with("https://live.douyin.com/webcast/web/partition/detail/room/?aid=6383&"));
    assert!(u.ends_with("&count=15&offset=30&partition=720&partition_type=1&req_from=2&msToken=tok"));
    let u = partition_rooms_url("p", "t", -15, "");
    assert!(u.ends_with("&count=15&offset=-15&partition=p&partition_type=t&req_from=2&msToken="));
}
