use quantframe::conversation::{conversation_player, OnConversationEvent, OnMissionEvent};
use quantframe::http::{
    parse_request, respond_cors_preflight, respond_json, respond_text, route_request, HttpClient, HttpServer, Route,
    StockEndpoint, StockRivenRoute, WishListRoute,
};

#[test]
fn conversation_player_name() {
    let line = "12.3 Script [Info]: ChatRedux.lua: ChatRedux::AddTab: Adding tab with channel name: FPlayerOne to index 4";
    assert_eq!(conversation_player(line), Some("PlayerOne".to_string()));
    let other = "ChatRedux::AddTab: Adding tab with channel name: Clan to index 2";
    assert_eq!(conversation_player(other), None);
    assert_eq!(conversation_player("nothing here"), None);
    let wide = "ChatRedux::AddTab: Adding tab with channel name: FName\u{e000} to index 1";
    assert_eq!(conversation_player(wide), Some("Name".to_string()));
    let mut ev = OnConversationEvent::new();
    let (flags, name) = ev.process_line(line);
    assert_eq!(flags, (false, false));
    assert_eq!(name, Some("PlayerOne".to_string()));
}

#[test]
fn mission_lines_are_left_alone() {
    let mut m = OnMissionEvent::new();
    assert!(!m.process_line("Client loaded X with MissionInfo:", 0));
    assert!(m.logs.is_empty());
}

#[test]
fn responses_have_headers_and_length() {
    let r = respond_json(200, "{\"a\":1}");
    assert!(r.starts_with("HTTP/1.1 200 OK\r\nContent-Type: application/json\r\nContent-Length: 7\r\n"));
    assert!(r.ends_with("\r\n\r\n{\"a\":1}"));
    let t = respond_text(404, "é");
    assert!(t.starts_with("HTTP/1.1 404 OK\r\nContent-Type: text/plain\r\nContent-Length: 2\r\n"));
    assert!(respond_cors_preflight().contains("Access-Control-Max-Age: 86400"));
}

#[test]
fn requests_are_parsed_and_routed() {
    let req = "POST /stock_riven HTTP/1.1\r\nHost: x\r\n\r\n{\"by\":1}";
    let (m, p, b) = parse_request(req).unwrap();
    assert_eq!(m, "POST");
    assert_eq!(p, "/stock_riven");
    assert_eq!(b, "{\"by\":1}");
    assert_eq!(route_request(&m, &p), Route::StockRiven);
    assert_eq!(route_request("OPTIONS", "/x"), Route::Preflight);
    assert_eq!(route_request("GET", "/wish_list"), Route::Unhandled);
    assert_eq!(parse_request("GET\r\n"), None);
    assert!(StockRivenRoute::new().accepts("POST", "/stock_riven"));
    assert!(WishListRoute::new().accepts("POST", "/wish_list"));
    assert!(!WishListRoute::new().accepts("GET", "/wish_list"));
}

#[test]
fn server_host_changes() {
    let mut s = HttpServer::new("127.0.0.1", 8080);
    assert_eq!(s.host, "127.0.0.1:8080");
    assert_eq!(s.set_host("127.0.0.1", 8080), "NO_CHANGE");
    assert_eq!(s.set_host("0.0.0.0", 9000), "CHANGED");
    assert_eq!(s.host, "0.0.0.0:9000");
    assert!(s.start());
    assert!(!s.start());
    assert!(s.is_running());
    assert!(s.stop());
    assert!(!s.stop());
}

#[test]
fn stock_client_endpoints() {
    let c = HttpClient::new();
    assert_eq!(c.endpoint("POST", "/stock/add_riven"), Some(StockEndpoint::AddRiven));
    assert_eq!(c.endpoint("POST", "/stock/add_item"), Some(StockEndpoint::AddItem));
    assert_eq!(c.endpoint("GET", "/stock/add_item"), None);
    assert_eq!(c.endpoint("POST", "/stock_riven"), None);
}
