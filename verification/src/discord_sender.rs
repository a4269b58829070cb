//! Best-effort delivery to a Discord webhook.
use vstd::prelude::*;
use crate::alert::Alert;
use crate::sender::{SendAttempt, Sender};
use crate::spool::{json_escaped, write_json_escaped};
use crate::text::{chars_of, push_str, string_of};

verus! {

/// Most characters of a Discord message.
pub const DISCORD_CONTENT_LIMIT: usize = 2000;

/// What ends a message cut to the limit.
pub const TRUNCATION_SUFFIX: &'static str = "\n...[truncated]";

/// Posts JSON bodies to URLs.
///
/// `posts` is the sequence of all posts so far: URL, body and result.
///
/// The bodies given to these ghost views are only defaults for
/// implementations that keep no such history: nothing verified relies on them.
pub trait DiscordHttpClient {
    closed spec fn posts(&self) -> Seq<(Seq<char>, Seq<char>, Result<(), String>)> {
        Seq::empty()
    }

    fn post_json(&mut self, url: &str, body: &str) -> (r: Result<(), String>)
        ensures
            final(self).posts() == old(self).posts().push((url@, body@, r)),
    ;
}

/// The content sent for a message: the message itself when it has at most
/// `DISCORD_CONTENT_LIMIT` characters, else its first characters followed
/// by the truncation suffix, `DISCORD_CONTENT_LIMIT` characters in all.
pub open spec fn discord_content(message: Seq<char>) -> Seq<char> {
    if message.len() <= DISCORD_CONTENT_LIMIT {
        message
    } else {
        message.take(DISCORD_CONTENT_LIMIT - TRUNCATION_SUFFIX@.len()) + TRUNCATION_SUFFIX@
    }
}

/// The webhook body for `content`: a JSON object whose `content` is it.
pub open spec fn discord_body(content: Seq<char>) -> Seq<char> {
    "{\"content\":\""@ + json_escaped(content) + "\"}"@
}

/// The content sent never exceeds the limit; a message within the limit is
/// sent whole, and a longer one as its beginning followed by the truncation
/// suffix.
pub proof fn law_discord_content_within_limit(message: Seq<char>)
    ensures
        discord_content(message).len() <= DISCORD_CONTENT_LIMIT,
        message.len() <= DISCORD_CONTENT_LIMIT ==> discord_content(message) == message,
        message.len() > DISCORD_CONTENT_LIMIT ==> discord_content(message).len() == DISCORD_CONTENT_LIMIT
            && discord_content(message).take(DISCORD_CONTENT_LIMIT - TRUNCATION_SUFFIX@.len()) == message.take(
            DISCORD_CONTENT_LIMIT - TRUNCATION_SUFFIX@.len(),
        ) && discord_content(message).skip(DISCORD_CONTENT_LIMIT - TRUNCATION_SUFFIX@.len())
            == TRUNCATION_SUFFIX@,
{
    reveal_strlit("\n...[truncated]");
    if message.len() > DISCORD_CONTENT_LIMIT {
        let c = discord_content(message);
        let k = DISCORD_CONTENT_LIMIT - TRUNCATION_SUFFIX@.len();
        assert(c.take(k) =~= message.take(k));
        assert(c.skip(k) =~= TRUNCATION_SUFFIX@);
    }
}

/// The content sent for a message, cut to the limit.
pub fn truncate_discord_content(content: &str) -> (r: String)
    ensures
        r@ == discord_content(content@),
{
    let cs = chars_of(content);
    proof {
        reveal_strlit("\n...[truncated]");
    }
    if cs.len() <= DISCORD_CONTENT_LIMIT {
        return string_of(&cs, 0, cs.len());
    }
    let keep: usize = DISCORD_CONTENT_LIMIT - 15;
    let mut r = string_of(&cs, 0, keep);
    push_str(&mut r, TRUNCATION_SUFFIX);
    assert(cs@.subrange(0, keep as int) =~= cs@.take(keep as int));
    r
}

/// The webhook body for `content`.
pub fn discord_payload(content: &str) -> (r: String)
    ensures
        r@ == discord_body(content@),
{
    let mut r = String::new();
    push_str(&mut r, "{\"content\":\"");
    write_json_escaped(&mut r, content);
    push_str(&mut r, "\"}");
    r
}

/// Sends alerts to a Discord webhook.
pub struct DiscordSender {
    webhook_url: String,
    client: Box<dyn DiscordHttpClient>,
    attempts: Ghost<Seq<SendAttempt>>,
}

impl DiscordSender {
    /// The webhook URL.
    pub closed spec fn webhook_url_view(&self) -> Seq<char> {
        self.webhook_url@
    }

    /// The posts made so far.
    pub closed spec fn posts(&self) -> Seq<(Seq<char>, Seq<char>, Result<(), String>)> {
        self.client.posts()
    }

    /// A sender to `webhook_url` that posts through `client`.
    pub fn new(webhook_url: String, client: Box<dyn DiscordHttpClient>) -> (s: Self)
        ensures
            s.webhook_url_view() == webhook_url@,
            s.send_attempts().len() == 0,
    {
        DiscordSender { webhook_url, client, attempts: Ghost(Seq::empty()) }
    }
}

impl Sender for DiscordSender {
    open spec fn spec_name(&self) -> Seq<char> {
        "discord"@
    }

    closed spec fn send_attempts(&self) -> Seq<SendAttempt> {
        self.attempts@
    }

    fn name(&self) -> (n: &'static str) {
        "discord"
    }

    open spec fn readiness(&self, r: Result<(), String>) -> bool {
        r is Ok
    }

    /// Always ready: nothing is checked before sending.
    fn check_ready(&self) -> (r: Result<(), String>)
        ensures
            r is Ok,
    {
        Ok(())
    }

    /// Posts the alert's message, cut to the limit, to the webhook once and
    /// returns what the post returned.
    fn send_alert(&mut self, alert: &Alert, channel: u32) -> (r: Result<(), String>)
        ensures
            final(self).webhook_url_view() == old(self).webhook_url_view(),
            final(self).posts() == old(self).posts().push(
                (
                    old(self).webhook_url_view(),
                    discord_body(discord_content(alert.message_text@)),
                    r,
                ),
            ),
    {
        let content = truncate_discord_content(alert.message_text.as_str());
        let payload = discord_payload(content.as_str());
        let r = self.client.post_json(self.webhook_url.as_str(), payload.as_str());
        proof {
            self.attempts@ = self.attempts@.push(SendAttempt { alert: *alert, channel, result: r });
        }
        r
    }
}

} // verus!
