use telegram::bot::{cycles_to_accept, dispatch, handle_message, handle_update};
use telegram::http::{HttpRequest, HttpResponse};
use telegram::info::{get_info, HostInfo};
use telegram::jokes::JokeStore;
use telegram::messages::{add_method, Incoming};

fn host(time: u64) -> HostInfo {
    HostInfo { id: "rrkah-fqaaa-aaaaa-aaaaq-cai".to_string(), time, balance: 4000000 }
}

fn request(url: &str, body: &[u8]) -> HttpRequest {
    HttpRequest { method: "POST".to_string(), url: url.to_string(), headers: vec![], body: body.to_vec() }
}

fn update_with_text(text: &str) -> Vec<u8> {
    let v = serde_json::Value::Object({
        let mut chat = serde_json::Map::new();
        chat.insert("id".to_string(), serde_json::Value::from(42));
        chat.insert("type".to_string(), serde_json::Value::from("private"));
        chat.insert("first_name".to_string(), serde_json::Value::from("Ann"));
        let mut from = serde_json::Map::new();
        from.insert("id".to_string(), serde_json::Value::from(42));
        from.insert("is_bot".to_string(), serde_json::Value::from(false));
        from.insert("first_name".to_string(), serde_json::Value::from("Ann"));
        let mut msg = serde_json::Map::new();
        msg.insert("message_id".to_string(), serde_json::Value::from(7));
        msg.insert("date".to_string(), serde_json::Value::from(1600000000));
        msg.insert("chat".to_string(), serde_json::Value::Object(chat));
        msg.insert("from".to_string(), serde_json::Value::Object(from));
        msg.insert("text".to_string(), serde_json::Value::from(text));
        let mut update = serde_json::Map::new();
        update.insert("update_id".to_string(), serde_json::Value::from(1));
        update.insert("message".to_string(), serde_json::Value::Object(msg));
        update
    });
    serde_json::to_vec(&v).unwrap()
}

fn header(resp: &HttpResponse, key: &str) -> Option<String> {
    resp.headers.iter().find(|h| h.0 == key).map(|h| h.1.clone())
}

fn sent(resp: &HttpResponse) -> serde_json::Value {
    serde_json::from_slice(&resp.body).unwrap()
}

fn sent_text(resp: &HttpResponse) -> String {
    sent(resp)["text"].as_str().unwrap().to_string()
}

fn say(store: &mut JokeStore, time: u64, text: &str) -> HttpResponse {
    dispatch(store, &host(time), request("/webhook/SECRET-REDACTED", &update_with_text(text)))
}

#[test]
fn unknown_path_is_not_found() {
    let mut store = JokeStore::new();
    for url in ["/foo", "/webhook", "/index.html", "", "//"] {
        let r = dispatch(&mut store, &host(5), request(url, b""));
        assert_eq!(r.status_code, 404);
        assert!(r.headers.is_empty());
        let body = String::from_utf8(r.body).unwrap();
        assert_eq!(
            body,
            format!("Nothing found at {}\n(but still, you reached the internet computer!)", url)
        );
        assert_eq!(r.upgrade, Some(false));
    }
    assert_eq!(store.len(), 1);
}

#[test]
fn home_page_names_host_and_homepages() {
    let mut store = JokeStore::new();
    let r = dispatch(&mut store, &host(1234567), request("/", b""));
    assert_eq!(r.status_code, 200);
    assert_eq!(header(&r, "content-type").as_deref(), Some("text/plain"));
    let body = String::from_utf8(r.body).unwrap();
    assert!(body.contains("rrkah-fqaaa-aaaaa-aaaaq-cai"));
    assert!(body.contains("https://t.me/InternetComputerBot"));
    assert!(body.contains("https://rrkah-fqaaa-aaaaa-aaaaq-cai.raw.ic0.app/"));
    assert!(body.contains("Local time is 1234567ns."));
    assert!(body.contains("My cycle balance is 4000000\n"));
}

#[test]
fn info_text_exact() {
    let h = HostInfo { id: "abc".to_string(), time: 0, balance: 18446744073709551615 };
    assert_eq!(
        get_info(&h),
        "This is a Telegram bot on the Internet Computer!\nMy canister id: abc\nLocal time is 0ns.\nMy cycle balance is 18446744073709551615\nVisit my homepages:\nhttps://t.me/InternetComputerBot\nhttps://abc.raw.ic0.app/\nhttps://github.com/nomeata/ic-telegram-bot"
    );
}

#[test]
fn start_greets() {
    let mut store = JokeStore::new();
    let r = say(&mut store, 3, "/start");
    assert_eq!(r.status_code, 200);
    assert_eq!(header(&r, "content-type").as_deref(), Some("application/json"));
    let body = String::from_utf8(r.body.clone()).unwrap();
    assert!(body.contains("\"method\":\"sendMessage\""));
    let v = sent(&r);
    assert_eq!(v["chat_id"].as_i64(), Some(42));
    assert!(v["text"].as_str().unwrap().starts_with("Hello!"));
    assert_eq!(v["text"].as_str(), Some("Hello! I am a Telegram Bot in a canister. Try /joke, /info"));
    assert_eq!(r.upgrade, Some(false));
}

#[test]
fn telljoke_learns_a_joke() {
    let mut store = JokeStore::new();
    let before = store.len();
    let r = say(&mut store, 3, "/telljoke Why did the chicken cross the road?");
    assert_eq!(r.upgrade, Some(true));
    assert_eq!(sent_text(&r), "Ha! Ha! Duly noted.");
    assert_eq!(store.len(), before + 1);
    let r = say(&mut store, 1, "/joke");
    assert_eq!(
        sent_text(&r),
        "Why did the chicken cross the road?\n(This was joke 2 of 2. Got a better one? Tell me about it, with /telljoke …!)"
    );
    assert_eq!(r.upgrade, Some(false));
}

#[test]
fn learned_joke_comes_up_for_some_time() {
    let mut store = JokeStore::new();
    say(&mut store, 0, "/telljoke A second one");
    say(&mut store, 0, "/telljoke A third one");
    let seen = (0..30u64).any(|t| sent_text(&say(&mut store, t, "/joke")).starts_with("A third one\n"));
    assert!(seen);
    assert_eq!(store.len(), 3);
}

#[test]
fn telljoke_without_joke_prompts() {
    let mut store = JokeStore::new();
    let r = say(&mut store, 3, "/telljoke");
    assert_eq!(sent_text(&r), "Put the joke after /telljoke!");
    assert_eq!(r.upgrade, Some(false));
    assert_eq!(store.len(), 1);
}

#[test]
fn telljoke_with_empty_joke_is_not_learned() {
    let mut store = JokeStore::new();
    let r = say(&mut store, 3, "/telljoke ");
    assert_eq!(sent_text(&r), "What do you mean, /telljoke ?");
    assert_eq!(r.upgrade, Some(false));
    assert_eq!(store.len(), 1);
}

#[test]
fn unknown_text_is_echoed() {
    let mut store = JokeStore::new();
    let r = say(&mut store, 3, "banana");
    assert_eq!(sent_text(&r), "What do you mean, banana?");
    assert_eq!(r.upgrade, Some(false));
}

#[test]
fn malformed_body_is_reported() {
    let mut store = JokeStore::new();
    let r = dispatch(&mut store, &host(3), request("/webhook/tok", b"this is not json"));
    assert_eq!(r.status_code, 500);
    assert!(r.headers.is_empty());
    let expected = serde_json::from_slice::<telegram_bot_raw::Update>(b"this is not json")
        .unwrap_err()
        .to_string();
    assert_eq!(String::from_utf8(r.body).unwrap(), expected);
    assert_eq!(r.upgrade, Some(false));
}

#[test]
fn other_update_needs_nothing() {
    let mut store = JokeStore::new();
    let r = dispatch(&mut store, &host(3), request("/webhook/tok", b"{\"update_id\":5,\"poll_answer\":{\"poll_id\":\"1\",\"user\":{\"id\":1,\"is_bot\":false,\"first_name\":\"B\"},\"option_ids\":[]}}"));
    assert_eq!(r.status_code, 200);
    assert_eq!(header(&r, "content-type").as_deref(), Some("text/html"));
    assert_eq!(r.body, b"Nothing to do".to_vec());
    let r = handle_update(&mut store, &host(3), Ok(Incoming::Other));
    assert_eq!(r.body, b"Nothing to do".to_vec());
    let r = handle_update(&mut store, &host(3), Err("bad".to_string()));
    assert_eq!(r.status_code, 500);
    assert_eq!(r.body, b"bad".to_vec());
}

#[test]
fn info_twice_differs_only_in_time() {
    let mut store = JokeStore::new();
    let a = sent_text(&say(&mut store, 100, "/info"));
    let b = sent_text(&say(&mut store, 100, "/info"));
    assert_eq!(a, b);
    let c = sent_text(&say(&mut store, 987, "/info"));
    assert_eq!(a.replace("Local time is 100ns", "Local time is 987ns"), c);
    assert_eq!(a, get_info(&host(100)));
}

#[test]
fn first_joke_is_the_seed() {
    let mut store = JokeStore::new();
    let r = handle_message(&mut store, &host(77), -5, "/joke".to_string());
    let v = sent(&r);
    assert_eq!(v["chat_id"].as_i64(), Some(-5));
    assert_eq!(
        v["text"].as_str(),
        Some("What does Mr. Williams reign over? His dom-minions!\n(This was joke 1 of 1. Got a better one? Tell me about it, with /telljoke …!)")
    );
}

#[test]
fn picked_index_stays_in_bounds() {
    let mut store = JokeStore::new();
    for k in 0..5u64 {
        for t in [0u64, 1, 2, 3, 7, 1000, u64::MAX] {
            let i = store.random_index(t);
            assert!(i < store.len());
            assert_eq!(i as u64, t % store.len() as u64);
            let (_, pos, n) = store.get_random_joke(t);
            assert_eq!(pos, i + 1);
            assert_eq!(n, store.len());
        }
        store.add_joke(format!("joke {}", k));
    }
    assert_eq!(store.len(), 6);
}

#[test]
fn method_member_is_added() {
    assert_eq!(add_method(b"{}".to_vec()), b"{\"method\":\"sendMessage\"}".to_vec());
    assert_eq!(
        add_method(b"{\"chat_id\":1,\"text\":\"x\"}".to_vec()),
        b"{\"method\":\"sendMessage\",\"chat_id\":1,\"text\":\"x\"}".to_vec()
    );
    assert_eq!(add_method(b"[1]".to_vec()), b"[1]".to_vec());
    assert_eq!(add_method(b"".to_vec()), b"".to_vec());
}

#[test]
fn text_with_quotes_is_escaped() {
    let mut store = JokeStore::new();
    let r = say(&mut store, 0, "say \"hi\" ünïcode");
    assert_eq!(sent_text(&r), "What do you mean, say \"hi\" ünïcode?");
}

#[test]
fn donations_are_taken_whole() {
    assert_eq!(cycles_to_accept(0), None);
    assert_eq!(cycles_to_accept(1), Some(1));
    assert_eq!(cycles_to_accept(u64::MAX), Some(u64::MAX));
}
