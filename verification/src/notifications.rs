//! The webhook alerts sent when malware is found: which URLs get one and
//! what it says. Sending them is left to the caller.

use vstd::prelude::*;
use crate::text::{concat3, split_char, trim};

verus! {

/// The kind of chat service a webhook belongs to; it decides the shape of
/// the JSON body (`content` for Discord, `text` for Slack).
#[derive(Clone, Copy, Debug, PartialEq, Eq, Structural)]
pub enum WebhookKind {
    Discord,
    Slack,
}

/// One alert to post.
pub struct Notification {
    pub kind: WebhookKind,
    pub url: String,
    pub message: String,
}

/// A notification as plain values.
pub open spec fn notification_view(n: Notification) -> (WebhookKind, Seq<char>, Seq<char>) {
    (n.kind, n.url@, n.message@)
}

/// The alert text for infections found on `target`, with the scan summary
/// in a code block.
pub open spec fn alert_message(summary: Seq<char>, target: Seq<char>) -> Seq<char> {
    "\u{1F6A8} **Infected items found on "@ + target + "** \u{1F6A8}\n\n```\n"@ + summary
        + "\n```"@
}

/// The alert text for infections found on `target`.
pub fn notification_message(summary: &str, target: &str) -> (r: String)
    ensures
        r@ == alert_message(summary@, target@),
{
    let mut r = concat3("\u{1F6A8} **Infected items found on ", target, "** \u{1F6A8}\n\n```\n");
    r.append(summary);
    r.append("\n```");
    r
}

/// The URLs of a comma-separated list, each trimmed, empty ones left out.
pub open spec fn webhook_targets(list: Seq<char>) -> Seq<Seq<char>> {
    crate::text::split_pieces(list, ',').map_values(|p: Seq<char>| crate::text::trimmed(p)).filter(
        |t: Seq<char>| t.len() > 0,
    )
}

/// The URLs of a comma-separated list of webhooks.
pub fn webhook_urls(list: &str) -> (r: Vec<String>)
    ensures
        crate::text::views(r@) == webhook_targets(list@),
{
    let pieces = split_char(list, ',');
    let ghost ps = crate::text::views(pieces@);
    let ghost tr = ps.map_values(|p: Seq<char>| crate::text::trimmed(p));
    let ghost pred = |t: Seq<char>| t.len() > 0;
    let mut r: Vec<String> = Vec::new();
    let mut i: usize = 0;
    while i < pieces.len()
        invariant
            i <= pieces.len(),
            ps == crate::text::views(pieces@),
            tr == ps.map_values(|p: Seq<char>| crate::text::trimmed(p)),
            forall|t: Seq<char>| #[trigger] pred(t) == (t.len() > 0),
            crate::text::views(r@) == tr.take(i as int).filter(pred),
        decreases pieces.len() - i,
    {
        proof {
            reveal_with_fuel(Seq::<_>::filter, 1);
            assert(tr.take(i + 1).drop_last() =~= tr.take(i as int));
            assert(tr.take(i + 1).last() == crate::text::trimmed(pieces@[i as int]@));
        }
        let t = trim(pieces[i].as_str());
        if t.as_str().unicode_len() > 0 {
            let ghost before = crate::text::views(r@);
            r.push(t);
            assert(crate::text::views(r@) =~= before.push(tr[i as int]));
        }
        i = i + 1;
    }
    assert(tr.take(pieces.len() as int) =~= tr);
    r
}

/// The alerts for infections found on `target`: one per Discord webhook,
/// then one per Slack webhook, each carrying the same message.
pub open spec fn planned(
    summary: Seq<char>,
    target: Seq<char>,
    discord: Seq<char>,
    slack: Seq<char>,
) -> Seq<(WebhookKind, Seq<char>, Seq<char>)> {
    let m = alert_message(summary, target);
    webhook_targets(discord).map_values(|u: Seq<char>| (WebhookKind::Discord, u, m))
        + webhook_targets(slack).map_values(|u: Seq<char>| (WebhookKind::Slack, u, m))
}

/// Appends one alert of `kind` to `out` for each URL in `urls`.
fn push_alerts(out: &mut Vec<Notification>, kind: WebhookKind, urls: &Vec<String>, message: &String)
    ensures
        final(out)@.map_values(|n: Notification| notification_view(n)) == old(out)@.map_values(
            |n: Notification| notification_view(n),
        ) + crate::text::views(urls@).map_values(|u: Seq<char>| (kind, u, message@)),
{
    let ghost start = old(out)@.map_values(|n: Notification| notification_view(n));
    let mut i: usize = 0;
    while i < urls.len()
        invariant
            i <= urls.len(),
            out@.map_values(|n: Notification| notification_view(n)) == start + crate::text::views(
                urls@,
            ).take(i as int).map_values(|u: Seq<char>| (kind, u, message@)),
        decreases urls.len() - i,
    {
        let ghost before = out@.map_values(|n: Notification| notification_view(n));
        out.push(Notification { kind, url: urls[i].clone(), message: message.clone() });
        assert(out@.map_values(|n: Notification| notification_view(n)) =~= before.push(
            (kind, urls@[i as int]@, message@),
        ));
        assert(crate::text::views(urls@).take(i + 1).map_values(|u: Seq<char>| (kind, u, message@))
            =~= crate::text::views(urls@).take(i as int).map_values(
            |u: Seq<char>| (kind, u, message@),
        ).push((kind, urls@[i as int]@, message@)));
        i = i + 1;
    }
    assert(crate::text::views(urls@).take(urls.len() as int) =~= crate::text::views(urls@));
}

/// The alerts to post when infections were found on `target`, given the
/// webhook lists of the settings.
pub fn notifications_for(summary: &str, target: &str, discord_webhooks: &str, slack_webhooks: &str) -> (r:
    Vec<Notification>)
    ensures
        r@.map_values(|n: Notification| notification_view(n)) == planned(
            summary@,
            target@,
            discord_webhooks@,
            slack_webhooks@,
        ),
{
    let message = notification_message(summary, target);
    let mut r: Vec<Notification> = Vec::new();
    let discord = webhook_urls(discord_webhooks);
    push_alerts(&mut r, WebhookKind::Discord, &discord, &message);
    let slack = webhook_urls(slack_webhooks);
    push_alerts(&mut r, WebhookKind::Slack, &slack, &message);
    assert(r@.map_values(|n: Notification| notification_view(n)) =~= planned(
        summary@,
        target@,
        discord_webhooks@,
        slack_webhooks@,
    ));
    r
}

} // verus!
