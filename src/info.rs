//! Facts the host supplies, and the informational text built from them.
use vstd::prelude::*;
use crate::text::{contains, decimal, decimal_string, lemma_contains_middle};

verus! {

/// What the hosting process tells about itself at the time of a call.
pub struct HostInfo {
    /// The process's own identifier, as text.
    pub id: String,
    /// The current time in nanoseconds; it never goes back.
    pub time: u64,
    /// The process's resource balance.
    pub balance: u64,
}

/// The bot's page on the messaging platform.
pub const BOT_URL: &'static str = "https://t.me/InternetComputerBot";

/// The bot's source repository.
pub const REPO_URL: &'static str = "https://github.com/nomeata/ic-telegram-bot";

/// The web address of the process with identifier `id`.
pub open spec fn process_url(id: Seq<char>) -> Seq<char> {
    "https://"@ + id + ".raw.ic0.app/"@
}

/// The informational text up to the time.
pub open spec fn info_head(id: Seq<char>) -> Seq<char> {
    "This is a Telegram bot on the Internet Computer!\nMy canister id: "@ + id + "\nLocal time is "@
}

/// The informational text after the time.
pub open spec fn info_tail(id: Seq<char>, balance: u64) -> Seq<char> {
    "ns.\nMy cycle balance is "@ + decimal(balance as nat) + "\nVisit my homepages:\n"@ + BOT_URL@
        + "\n"@ + process_url(id) + "\n"@ + REPO_URL@
}

/// The informational text for the host facts `id`, `time` and `balance`.
pub open spec fn info_text(id: Seq<char>, time: u64, balance: u64) -> Seq<char> {
    info_head(id) + decimal(time as nat) + info_tail(id, balance)
}

/// The informational text for `host`.
pub open spec fn host_info_text(host: &HostInfo) -> Seq<char> {
    info_text(host.id@, host.time, host.balance)
}

/// The informational text: identifier, time, balance and homepages.
pub fn get_info(host: &HostInfo) -> (r: String)
    ensures
        r@ == host_info_text(host),
{
    let mut s = String::from_str(
        "This is a Telegram bot on the Internet Computer!\nMy canister id: ",
    );
    s.append(host.id.as_str());
    s.append("\nLocal time is ");
    s.append(decimal_string(host.time).as_str());
    s.append("ns.\nMy cycle balance is ");
    s.append(decimal_string(host.balance).as_str());
    s.append("\nVisit my homepages:\n");
    s.append(BOT_URL);
    s.append("\n");
    s.append("https://");
    s.append(host.id.as_str());
    s.append(".raw.ic0.app/");
    s.append("\n");
    s.append(REPO_URL);
    assert(s@ =~= host_info_text(host));
    s
}

/// The informational text names the process identifier, the bot's page, the
/// process's web address and the source repository.
pub proof fn lemma_info_names_homepages(id: Seq<char>, time: u64, balance: u64)
    ensures
        contains(info_text(id, time, balance), id),
        contains(info_text(id, time, balance), BOT_URL@),
        contains(info_text(id, time, balance), process_url(id)),
        contains(info_text(id, time, balance), REPO_URL@),
{
    let t = info_text(id, time, balance);
    let a = "This is a Telegram bot on the Internet Computer!\nMy canister id: "@;
    let b = "\nLocal time is "@ + decimal(time as nat) + info_tail(id, balance);
    assert(t =~= a + id + b);
    lemma_contains_middle(a, id, b);
    let c = info_head(id) + decimal(time as nat) + "ns.\nMy cycle balance is "@
        + decimal(balance as nat) + "\nVisit my homepages:\n"@;
    let d = "\n"@ + process_url(id) + "\n"@ + REPO_URL@;
    assert(t =~= c + BOT_URL@ + d);
    lemma_contains_middle(c, BOT_URL@, d);
    let e = c + BOT_URL@ + "\n"@;
    let f = "\n"@ + REPO_URL@;
    assert(t =~= e + process_url(id) + f);
    lemma_contains_middle(e, process_url(id), f);
    let g = e + process_url(id) + "\n"@;
    assert(t =~= g + REPO_URL@ + Seq::<char>::empty());
    lemma_contains_middle(g, REPO_URL@, Seq::<char>::empty());
}

} // verus!
