//! Routing of requests and the bot's commands.
use vstd::prelude::*;
use vstd::arithmetic::div_mod::lemma_small_mod;
use vstd::utf8::encode_utf8;
use crate::http::{
    content_type, content_type_header, err404, not_found_text, ok200, plain_response,
    text_response, HttpRequest, HttpResponse, ResponseModel,
};
use crate::info::{get_info, host_info_text, info_head, info_tail, HostInfo};
use crate::jokes::{pick_index, JokeStore};
use crate::messages::{
    add_method, decode_update, encode_send_message, send_message_json, with_method,
    DecodedModel, Incoming, decoded_update, decoded_view,
};
use crate::text::{decimal, decimal_string, starts_with, strip_prefix};

verus! {

/// The path prefix under which the platform delivers updates.
pub const WEBHOOK_PREFIX: &'static str = "/webhook/";

/// The greeting for `/start`.
pub const GREETING: &'static str = "Hello! I am a Telegram Bot in a canister. Try /joke, /info";

/// The usage prompt for `/telljoke` without a joke.
pub const USAGE: &'static str = "Put the joke after /telljoke!";

/// The acknowledgment of a learned joke.
pub const NOTED: &'static str = "Ha! Ha! Duly noted.";

/// The command that teaches a joke, with the space that ends it.
pub const TELLJOKE_SPACE: &'static str = "/telljoke ";

/// The reply to `/joke` among `jokes` at clock reading `time`.
pub open spec fn joke_reply(jokes: Seq<Seq<char>>, time: u64) -> Seq<char> {
    let i = pick_index(time, jokes.len());
    jokes[i as int] + "\n(This was joke "@ + decimal(i + 1) + " of "@ + decimal(jokes.len())
        + ". Got a better one? Tell me about it, with /telljoke \u{2026}!)"@
}

/// `text` is one of the commands matched exactly.
pub open spec fn is_exact_command(text: Seq<char>) -> bool {
    text == "/start"@ || text == "/joke"@ || text == "/telljoke"@ || text == "/info"@
}

/// The joke that the message `text` teaches, if it teaches one.
pub open spec fn learned_joke(text: Seq<char>) -> Option<Seq<char>> {
    if !is_exact_command(text) && starts_with(text, TELLJOKE_SPACE@)
        && text.len() > TELLJOKE_SPACE@.len() {
        Some(text.subrange(TELLJOKE_SPACE@.len() as int, text.len() as int))
    } else {
        None
    }
}

/// The reply text to the message `text`, with `jokes` in the store and the
/// host facts `host`.
pub open spec fn reply_text(text: Seq<char>, jokes: Seq<Seq<char>>, host: &HostInfo) -> Seq<char> {
    if text == "/start"@ {
        GREETING@
    } else if text == "/joke"@ {
        joke_reply(jokes, host.time)
    } else if text == "/telljoke"@ {
        USAGE@
    } else if text == "/info"@ {
        host_info_text(host)
    } else if learned_joke(text) is Some {
        NOTED@
    } else {
        "What do you mean, "@ + text + "?"@
    }
}

/// The store after the message `text`.
pub open spec fn jokes_after(text: Seq<char>, jokes: Seq<Seq<char>>) -> Seq<Seq<char>> {
    match learned_joke(text) {
        Some(j) => jokes.push(j),
        None => jokes,
    }
}

/// The response carrying a send-message request of `text` to chat `chat`;
/// `upgrade` tells whether the store changed.
pub open spec fn message_response(chat: i64, text: Seq<char>, upgrade: bool) -> ResponseModel {
    match send_message_json(chat, text) {
        Ok(json) => (200, content_type("application/json"@), with_method(json), Some(upgrade)),
        Err(e) => (500, Seq::empty(), encode_utf8(e), Some(upgrade)),
    }
}

/// The response to the message `text` in chat `chat`.
pub open spec fn message_reply(chat: i64, text: Seq<char>, jokes: Seq<Seq<char>>, host: &HostInfo) -> ResponseModel {
    message_response(chat, reply_text(text, jokes, host), learned_joke(text) is Some)
}

/// The response to the decoded update `d`.
pub open spec fn update_reply(d: DecodedModel, jokes: Seq<Seq<char>>, host: &HostInfo) -> ResponseModel {
    match d {
        Err(e) => plain_response(500, Seq::empty(), e),
        Ok(None) => plain_response(200, content_type("text/html"@), "Nothing to do"@),
        Ok(Some((chat, text))) => message_reply(chat, text, jokes, host),
    }
}

/// The store after the decoded update `d`.
pub open spec fn jokes_after_update(d: DecodedModel, jokes: Seq<Seq<char>>) -> Seq<Seq<char>> {
    match d {
        Ok(Some((_chat, text))) => jokes_after(text, jokes),
        _ => jokes,
    }
}

/// The response carrying a send-message request of `text` to chat `chat`.
pub fn send_message(chat: i64, text: &str) -> (r: HttpResponse)
    ensures
        r@ == message_response(chat, text@, false),
{
    match encode_send_message(chat, text) {
        Ok(json) => HttpResponse {
            status_code: 200,
            headers: content_type_header("application/json"),
            body: add_method(json),
            upgrade: Some(false),
        },
        Err(e) => {
            let r = text_response(500, Vec::new(), e.as_str());
            assert(r@.1 =~= Seq::<(Seq<char>, Seq<char>)>::empty());
            r
        },
    }
}

/// The reply to `/joke`: a joke picked by the host's clock, its position and
/// the number of jokes.
pub fn joke_text(store: &JokeStore, time: u64) -> (r: String)
    requires
        store.wf(),
    ensures
        r@ == joke_reply(store@, time),
{
    let (joke, idx, n) = store.get_random_joke(time);
    let mut s = joke;
    s.append("\n(This was joke ");
    s.append(decimal_string(idx as u64).as_str());
    s.append(" of ");
    s.append(decimal_string(n as u64).as_str());
    s.append(". Got a better one? Tell me about it, with /telljoke \u{2026}!)");
    s
}

/// Answers the message `text` in chat `chat`, learning a joke where the
/// message teaches one.
pub fn handle_message(store: &mut JokeStore, host: &HostInfo, chat: i64, text: String) -> (r: HttpResponse)
    requires
        old(store).wf(),
    ensures
        final(store).wf(),
        final(store)@ == jokes_after(text@, old(store)@),
        r@ == message_reply(chat, text@, old(store)@, host),
{
    if text == String::from_str("/start") {
        send_message(chat, GREETING)
    } else if text == String::from_str("/joke") {
        let reply = joke_text(store, host.time);
        send_message(chat, reply.as_str())
    } else if text == String::from_str("/telljoke") {
        send_message(chat, USAGE)
    } else if text == String::from_str("/info") {
        let info = get_info(host);
        send_message(chat, info.as_str())
    } else {
        let learned = strip_prefix(text.as_str(), TELLJOKE_SPACE);
        match learned {
            Some(joke) => {
                if !joke.as_str().is_empty() {
                    assert(joke@ =~= text@.subrange(TELLJOKE_SPACE@.len() as int, text@.len() as int));
                    store.add_joke(joke);
                    let mut resp = send_message(chat, NOTED);
                    resp.upgrade = Some(true);
                    return resp;
                }
            },
            None => {},
        }
        let mut s = String::from_str("What do you mean, ");
        s.append(text.as_str());
        s.append("?");
        send_message(chat, s.as_str())
    }
}

/// Answers the decoded update `update`: the decoder's error, a text message,
/// or any other update.
pub fn handle_update(store: &mut JokeStore, host: &HostInfo, update: Result<Incoming, String>) -> (r: HttpResponse)
    requires
        old(store).wf(),
    ensures
        final(store).wf(),
        final(store)@ == jokes_after_update(decoded_view(update), old(store)@),
        r@ == update_reply(decoded_view(update), old(store)@, host),
{
    match update {
        Err(e) => {
            let r = text_response(500, Vec::new(), e.as_str());
            assert(r@.1 =~= Seq::<(Seq<char>, Seq<char>)>::empty());
            r
        },
        Ok(Incoming::TextMessage { chat, text }) => handle_message(store, host, chat, text),
        Ok(Incoming::Other) => ok200(),
    }
}

/// Handles a webhook call: decodes its body as an update and answers it. The
/// token is not checked.
pub fn handle_telegram(store: &mut JokeStore, host: &HostInfo, _token: &str, req: &HttpRequest) -> (r: HttpResponse)
    requires
        old(store).wf(),
    ensures
        final(store).wf(),
        final(store)@ == jokes_after_update(decoded_update(req.body@), old(store)@),
        r@ == update_reply(decoded_update(req.body@), old(store)@, host),
{
    let update = decode_update(req.body.as_slice());
    handle_update(store, host, update)
}

/// The home page: the informational text.
pub fn index(host: &HostInfo, _req: &HttpRequest) -> (r: HttpResponse)
    ensures
        r@ == plain_response(200, content_type("text/plain"@), host_info_text(host)),
{
    let info = get_info(host);
    text_response(200, content_type_header("text/plain"), info.as_str())
}

/// Routes a request: webhook calls, the home page, and not-found for the rest.
pub fn dispatch(store: &mut JokeStore, host: &HostInfo, req: HttpRequest) -> (r: HttpResponse)
    requires
        old(store).wf(),
    ensures
        final(store).wf(),
        starts_with(req.url@, WEBHOOK_PREFIX@) ==> {
            &&& final(store)@ == jokes_after_update(decoded_update(req.body@), old(store)@)
            &&& r@ == update_reply(decoded_update(req.body@), old(store)@, host)
        },
        !starts_with(req.url@, WEBHOOK_PREFIX@) ==> final(store)@ == old(store)@,
        !starts_with(req.url@, WEBHOOK_PREFIX@) && req.url@ == "/"@ ==> r@ == plain_response(
            200,
            content_type("text/plain"@),
            host_info_text(host),
        ),
        !starts_with(req.url@, WEBHOOK_PREFIX@) && req.url@ != "/"@ ==> r@ == plain_response(
            404,
            Seq::empty(),
            not_found_text(req.url@),
        ),
{
    match strip_prefix(req.url.as_str(), WEBHOOK_PREFIX) {
        Some(token) => handle_telegram(store, host, token.as_str(), &req),
        None => {
            if req.url == String::from_str("/") {
                index(host, &req)
            } else {
                err404(&req)
            }
        },
    }
}

} // verus!

verus! {

/// What the host should take of a credit of `available` cycles: all of it,
/// when there is any.
pub fn cycles_to_accept(available: u64) -> (r: Option<u64>)
    ensures
        r == (if available > 0 { Some(available) } else { None::<u64> }),
{
    if available > 0 {
        Some(available)
    } else {
        None
    }
}

/// A joke learned from `text` can be told afterwards: some clock reading
/// picks it from the extended store.
pub proof fn lemma_learned_joke_can_come_up(jokes: Seq<Seq<char>>, text: Seq<char>)
    requires
        jokes.len() >= 1,
        jokes.len() < u64::MAX,
        learned_joke(text) is Some,
    ensures
        jokes_after(text, jokes).len() == jokes.len() + 1,
        exists|time: u64|
            #[trigger] jokes_after(text, jokes)[pick_index(time, jokes.len() + 1) as int]
                == learned_joke(text)->Some_0,
{
    let time = jokes.len() as u64;
    lemma_small_mod(jokes.len(), jokes.len() + 1);
    assert(pick_index(time, jokes.len() + 1) == jokes.len());
    assert(jokes_after(text, jokes)[pick_index(time, jokes.len() + 1) as int]
        == learned_joke(text)->Some_0);
}

/// A message that teaches no joke leaves the store as it was; one that does
/// extends it by that joke and asks the host to upgrade.
pub proof fn lemma_store_changes_only_when_learning(text: Seq<char>, jokes: Seq<Seq<char>>, chat: i64, host: &HostInfo)
    ensures
        learned_joke(text) is None ==> jokes_after(text, jokes) == jokes
            && message_reply(chat, text, jokes, host).3 == Some(false),
        learned_joke(text) is Some ==> jokes_after(text, jokes).len() == jokes.len() + 1
            && message_reply(chat, text, jokes, host).3 == Some(true),
{
}

} // verus!

verus! {

/// `/info` leaves the store alone, and its replies for two calls with the
/// same identifier and balance are the same head, the time in decimal, and
/// the same tail; with the time unchanged too, the two responses are equal.
pub proof fn lemma_info_reply_repeatable(chat: i64, jokes: Seq<Seq<char>>, h1: &HostInfo, h2: &HostInfo)
    requires
        h1.id@ == h2.id@,
        h1.balance == h2.balance,
    ensures
        jokes_after("/info"@, jokes) == jokes,
        reply_text("/info"@, jokes, h1) == info_head(h1.id@) + decimal(h1.time as nat) + info_tail(h1.id@, h1.balance),
        reply_text("/info"@, jokes, h2) == info_head(h1.id@) + decimal(h2.time as nat) + info_tail(h1.id@, h1.balance),
        h1.time == h2.time ==> message_reply(chat, "/info"@, jokes, h1) == message_reply(chat, "/info"@, jokes, h2),
{
    reveal_strlit("/info");
    reveal_strlit("/start");
    reveal_strlit("/joke");
    reveal_strlit("/telljoke");
    assert("/info"@.len() != "/start"@.len());
    assert("/info"@[1] != "/joke"@[1]);
    assert("/info"@.len() != "/telljoke"@.len());
}

} // verus!
