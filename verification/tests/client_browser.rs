use ashfall::client::server_browser::{decode_response, query_frame, server_list, ServerBrowser, ServerInfo};

fn info(name: &str, addr: (u128, u16)) -> ServerInfo {
    ServerInfo {
        name: name.to_string(),
        addr,
        map: "Wasteland".to_string(),
        players: 1,
        max_players: 4,
        game_type: "fo3".to_string(),
    }
}

const V4_LOCAL: u128 = 0xFFFF_7F00_0001;

#[test]
fn server_list_keeps_first_reply_per_address_in_address_order() {
    let replies = vec![
        info("B", (V4_LOCAL, 1771)),
        info("A", (V4_LOCAL, 1770)),
        info("B again", (V4_LOCAL, 1771)),
        info("C", (V4_LOCAL - 1, 9000)),
    ];
    let list = server_list(replies);
    let names: Vec<&str> = list.iter().map(|s| s.name.as_str()).collect();
    assert_eq!(names, vec!["C", "A", "B"]);
    assert_eq!(list[2].addr, (V4_LOCAL, 1771));
}

#[test]
fn server_list_of_nothing_is_empty() {
    assert!(server_list(Vec::new()).is_empty());
}

#[test]
fn decode_response_strips_the_header() {
    assert_eq!(decode_response(&[1, 0]), None);
    assert_eq!(decode_response(&[1, 0, 0]), Some(&[][..]));
    assert_eq!(decode_response(&[2, 0, 0, 7, 9]), Some(&[7u8, 9][..]));
}

#[test]
fn query_frame_prefixes_length_and_channel() {
    assert_eq!(query_frame(&[0x42]), vec![1, 0, 0, 0x42]);
    assert_eq!(query_frame(&[]), vec![0, 0, 0]);
    let big = vec![5u8; 0x1_0002];
    let f = query_frame(&big);
    assert_eq!(&f[..3], &[2, 0, 0]);
    assert_eq!(f.len(), 3 + big.len());
}

#[test]
fn browser_refresh_cycle() {
    let mut b = ServerBrowser::new("127.0.0.1:1660".to_string());
    assert_eq!(b.master_addr(), "127.0.0.1:1660");
    assert_eq!(b.direct_addr(), "127.0.0.1:1770");
    assert_eq!(b.refresh_label(), "Refresh");
    assert_eq!(b.empty_list_text(), "No servers found. Click Refresh to search.");
    assert!(b.refresh());
    assert!(!b.refresh(), "no second query while one is under way");
    assert_eq!(b.refresh_label(), "Searching...");
    assert_eq!(b.empty_list_text(), "Querying master server...");
    b.poll_results(None);
    assert!(b.is_refreshing());
    b.poll_results(Some(vec![info("A", (V4_LOCAL, 1770))]));
    assert!(!b.is_refreshing());
    assert_eq!(b.servers().len(), 1);
    assert_eq!(b.selected_addr(), None);
    b.select((V4_LOCAL, 1770));
    assert_eq!(b.selected_addr(), Some((V4_LOCAL, 1770)));
    b.set_direct_addr("10.0.0.2:1770".to_string());
    assert_eq!(b.direct_addr(), "10.0.0.2:1770");
}
