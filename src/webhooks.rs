//! Webhook rules: when a finding triggers a notification, which payload
//! shape a URL gets, and how findings are grouped before sending.
use vstd::prelude::*;
use vstd::string::*;
use crate::findings::{clone_opt, opt_str};
use crate::builtin_modules::{decimal, decimal_text};
use crate::object_store::{uuid_hyphenated, uuid_text};
use crate::text::{has_prefix, starts_with, str_equals};

verus! {

/// A server's webhook settings.
pub struct WebhookSettings {
    pub webhook_url: Option<String>,
    pub webhook_enabled: bool,
    pub webhook_severity_levels: Vec<String>,
}

/// A notification triggers iff webhooks are enabled, a URL is set, and the
/// severity is among the configured levels.
pub open spec fn notifies(settings: WebhookSettings, severity: Seq<char>) -> bool {
    settings.webhook_enabled && settings.webhook_url is Some && exists|i: int|
        0 <= i < settings.webhook_severity_levels@.len()
            && #[trigger] settings.webhook_severity_levels@[i]@ == severity
}

/// Whether a finding of `severity` is sent to the server's webhook.
pub fn should_notify(settings: &WebhookSettings, severity: &str) -> (r: bool)
    ensures
        r == notifies(*settings, severity@),
{
    if !settings.webhook_enabled || settings.webhook_url.is_none() {
        assert(!notifies(*settings, severity@));
        return false;
    }
    let mut i: usize = 0;
    while i < settings.webhook_severity_levels.len()
        invariant
            settings.webhook_enabled,
            settings.webhook_url is Some,
            i <= settings.webhook_severity_levels@.len(),
            forall|k: int| 0 <= k < i ==> #[trigger] settings.webhook_severity_levels@[k]@ != severity@,
        decreases settings.webhook_severity_levels@.len() - i,
    {
        if str_equals(settings.webhook_severity_levels[i].as_str(), severity) {
            assert(settings.webhook_severity_levels@[i as int]@ == severity@);
            assert(notifies(*settings, severity@));
            return true;
        }
        i = i + 1;
    }
    assert(!notifies(*settings, severity@));
    false
}

/// Embed color of a severity on chat-platform webhooks.
pub open spec fn color_of(severity: Seq<char>) -> u32 {
    if severity == "critical"@ {
        0xDC2626
    } else if severity == "high"@ {
        0xF97316
    } else if severity == "medium"@ {
        0xEAB308
    } else if severity == "low"@ {
        0x6366F1
    } else {
        0x6B7280
    }
}

/// The embed color for a severity.
pub fn severity_color(severity: &str) -> (r: u32)
    ensures
        r == color_of(severity@),
{
    if str_equals(severity, "critical") {
        0xDC2626
    } else if str_equals(severity, "high") {
        0xF97316
    } else if str_equals(severity, "medium") {
        0xEAB308
    } else if str_equals(severity, "low") {
        0x6366F1
    } else {
        0x6B7280
    }
}

pub open spec fn emoji_of(severity: Seq<char>) -> Seq<char> {
    if severity == "critical"@ {
        "🚨"@
    } else if severity == "high"@ {
        "⚠️"@
    } else if severity == "medium"@ {
        "📢"@
    } else if severity == "low"@ {
        "📝"@
    } else {
        "ℹ️"@
    }
}

/// The emoji that leads an embed title.
pub fn severity_emoji(severity: &str) -> (r: &'static str)
    ensures
        r@ == emoji_of(severity@),
{
    if str_equals(severity, "critical") {
        "🚨"
    } else if str_equals(severity, "high") {
        "⚠️"
    } else if str_equals(severity, "medium") {
        "📢"
    } else if str_equals(severity, "low") {
        "📝"
    } else {
        "ℹ️"
    }
}

pub open spec fn is_discord_url(url: Seq<char>) -> bool {
    has_prefix(url, "https://discord.com/api/webhooks/"@) || has_prefix(
        url,
        "https://discordapp.com/api/webhooks/"@,
    )
}

/// Whether a webhook URL gets the chat-platform embed payload.
pub fn is_discord_webhook(url: &str) -> (r: bool)
    ensures
        r == is_discord_url(url@),
{
    starts_with(url, "https://discord.com/api/webhooks/") || starts_with(
        url,
        "https://discordapp.com/api/webhooks/",
    )
}

/// A finding to notify about.
pub struct FindingNotification {
    pub server_id: String,
    pub player_uuid: Option<u128>,
    pub player_name: Option<String>,
    pub detector_name: String,
    pub severity: String,
    pub title: String,
    pub description: Option<String>,
    pub occurrences: i64,
}

/// A notification as plain values.
pub struct NotificationView {
    pub server_id: Seq<char>,
    pub player_uuid: Option<u128>,
    pub player_name: Option<Seq<char>>,
    pub detector_name: Seq<char>,
    pub severity: Seq<char>,
    pub title: Seq<char>,
    pub description: Option<Seq<char>>,
    pub occurrences: int,
}

impl View for FindingNotification {
    type V = NotificationView;

    open spec fn view(&self) -> NotificationView {
        NotificationView {
            server_id: self.server_id@,
            player_uuid: self.player_uuid,
            player_name: opt_str(self.player_name),
            detector_name: self.detector_name@,
            severity: self.severity@,
            title: self.title@,
            description: opt_str(self.description),
            occurrences: self.occurrences as int,
        }
    }
}

/// Index of the group for `(detector, severity)` at or after `k`, or the length.
pub open spec fn notification_index_from(gs: Seq<NotificationView>, d: Seq<char>, s: Seq<char>, k: int) -> int
    decreases gs.len() - k,
{
    if k < 0 || k >= gs.len() || (gs[k].detector_name == d && gs[k].severity == s) {
        k
    } else {
        notification_index_from(gs, d, s, k + 1)
    }
}

/// Saturating addition within `i64`.
pub open spec fn sat_add(a: int, b: int) -> int {
    if a + b > i64::MAX {
        i64::MAX as int
    } else if a + b < i64::MIN {
        i64::MIN as int
    } else {
        a + b
    }
}

/// The groups after one more finding: the first finding of a
/// `(detector, severity)` pair stands for its group and the occurrences of
/// the later ones are added to it.
pub open spec fn group_step(gs: Seq<NotificationView>, f: NotificationView) -> Seq<NotificationView> {
    let i = notification_index_from(gs, f.detector_name, f.severity, 0);
    if i >= gs.len() {
        gs.push(f)
    } else {
        gs.update(i, NotificationView { occurrences: sat_add(gs[i].occurrences, f.occurrences), ..gs[i] })
    }
}

pub open spec fn grouped(fs: Seq<NotificationView>) -> Seq<NotificationView>
    decreases fs.len(),
{
    if fs.len() == 0 {
        Seq::empty()
    } else {
        group_step(grouped(fs.drop_last()), fs.last())
    }
}

proof fn lemma_notification_index_bounds(gs: Seq<NotificationView>, d: Seq<char>, s: Seq<char>, k: int)
    requires
        0 <= k <= gs.len(),
    ensures
        k <= notification_index_from(gs, d, s, k) <= gs.len(),
    decreases gs.len() - k,
{
    if k < gs.len() && !(gs[k].detector_name == d && gs[k].severity == s) {
        lemma_notification_index_bounds(gs, d, s, k + 1);
    }
}

fn same_group(a: &FindingNotification, b: &FindingNotification) -> (r: bool)
    ensures
        r == (a.detector_name@ == b.detector_name@ && a.severity@ == b.severity@),
{
    str_equals(a.detector_name.as_str(), b.detector_name.as_str()) && str_equals(
        a.severity.as_str(),
        b.severity.as_str(),
    )
}

fn clone_notification(f: &FindingNotification) -> (r: FindingNotification)
    ensures
        r@ == f@,
{
    FindingNotification {
        server_id: f.server_id.clone(),
        player_uuid: f.player_uuid,
        player_name: clone_opt(&f.player_name),
        detector_name: f.detector_name.clone(),
        severity: f.severity.clone(),
        title: f.title.clone(),
        description: clone_opt(&f.description),
        occurrences: f.occurrences,
    }
}

/// One notification per `(detector_name, severity)`, in order of first
/// appearance, carrying the first finding's details and the summed
/// occurrences (held within `i64`).
pub fn group_notifications(findings: &Vec<FindingNotification>) -> (r: Vec<FindingNotification>)
    ensures
        r@.map_values(|g: FindingNotification| g@) == grouped(
            findings@.map_values(|g: FindingNotification| g@),
        ),
{
    let ghost fs = findings@.map_values(|g: FindingNotification| g@);
    let mut out: Vec<FindingNotification> = Vec::new();
    let mut i: usize = 0;
    while i < findings.len()
        invariant
            i <= findings.len(),
            fs == findings@.map_values(|g: FindingNotification| g@),
            out@.map_values(|g: FindingNotification| g@) == grouped(fs.subrange(0, i as int)),
        decreases findings.len() - i,
    {
        let ghost before = out@.map_values(|g: FindingNotification| g@);
        proof {
            assert(fs.subrange(0, i + 1).drop_last() =~= fs.subrange(0, i as int));
            assert(fs.subrange(0, i + 1).last() == findings@[i as int]@);
        }
        let f = &findings[i];
        let mut j: usize = 0;
        while j < out.len() && !same_group(&out[j], f)
            invariant
                j <= out.len(),
                before == out@.map_values(|g: FindingNotification| g@),
                notification_index_from(before, f.detector_name@, f.severity@, 0)
                    == notification_index_from(before, f.detector_name@, f.severity@, j as int),
            decreases out.len() - j,
        {
            j = j + 1;
        }
        proof { lemma_notification_index_bounds(before, f.detector_name@, f.severity@, 0); }
        if j == out.len() {
            out.push(clone_notification(f));
            assert(out@.map_values(|g: FindingNotification| g@) =~= before.push(f@));
        } else {
            let old = clone_notification(&out[j]);
            let a = old.occurrences;
            let b = f.occurrences;
            let total: i64 = if b > 0 && a > i64::MAX - b {
                i64::MAX
            } else if b < 0 && a < i64::MIN - b {
                i64::MIN
            } else {
                a + b
            };
            let g = FindingNotification { occurrences: total, ..old };
            out.set(j, g);
            assert(out@.map_values(|g: FindingNotification| g@) =~= before.update(
                j as int,
                NotificationView { occurrences: sat_add(before[j as int].occurrences, f@.occurrences), ..before[j as int] },
            ));
        }
        i = i + 1;
    }
    assert(fs.subrange(0, i as int) =~= fs);
    out
}

/// The upper-case form of a text, as `str::to_uppercase` gives it.
pub uninterp spec fn upper_of(s: Seq<char>) -> Seq<char>;

/// Relies on `str::to_uppercase`: the result depends on the characters alone.
#[verifier::external_body]
fn uppercase(s: &str) -> (r: String)
    ensures
        r@ == upper_of(s@),
{
    s.to_uppercase()
}

/// An integer in decimal, with a leading `-` when negative.
pub open spec fn signed_decimal(n: int) -> Seq<char> {
    if n < 0 {
        "-"@ + decimal((-n) as nat)
    } else {
        decimal(n as nat)
    }
}

fn signed_decimal_text(n: i64) -> (r: String)
    ensures
        r@ == signed_decimal(n as int),
{
    if n < 0 {
        let magnitude: u64 = (0i128 - (n as i128)) as u64;
        String::from_str("-").concat(decimal_text(magnitude).as_str())
    } else {
        decimal_text(n as u64)
    }
}

/// The text of a chat-platform embed for one notification.
pub struct EmbedText {
    pub title: String,
    pub description: String,
    pub color: u32,
    pub player: String,
    pub detector: String,
    pub occurrences: String,
    pub footer: String,
}

/// Who a notification names: the player's name, else the UUID, else `Unknown`.
pub open spec fn player_display(f: NotificationView) -> Seq<char> {
    match f.player_name {
        Some(n) => n,
        None => match f.player_uuid {
            Some(u) => uuid_text(u),
            None => "Unknown"@,
        },
    }
}

/// Builds the embed: `<emoji> <SEVERITY> Detection`, `**<detector>**: <title>`,
/// the severity's color, the player, detector and occurrence count, and a
/// footer naming the server (its display name when known).
pub fn discord_embed(f: &FindingNotification, server_name: Option<&str>) -> (r: EmbedText)
    ensures
        r.title@ == emoji_of(f.severity@) + " "@ + upper_of(f.severity@) + " Detection"@,
        r.description@ == "**"@ + f.detector_name@ + "**: "@ + f.title@,
        r.color == color_of(f.severity@),
        r.player@ == player_display(f@),
        r.detector@ == f.detector_name@,
        r.occurrences@ == signed_decimal(f.occurrences as int),
        r.footer@ == "AsyncAnticheat • "@ + (match server_name {
            Some(n) => n@,
            None => f.server_id@,
        }),
{
    let upper = uppercase(f.severity.as_str());
    let title = String::from_str(severity_emoji(f.severity.as_str())).concat(" ").concat(upper.as_str()).concat(
        " Detection",
    );
    let description = String::from_str("**").concat(f.detector_name.as_str()).concat("**: ").concat(
        f.title.as_str(),
    );
    let player = match &f.player_name {
        Some(n) => n.clone(),
        None => match f.player_uuid {
            Some(u) => uuid_hyphenated(u),
            None => String::from_str("Unknown"),
        },
    };
    let footer = match server_name {
        Some(n) => String::from_str("AsyncAnticheat • ").concat(n),
        None => String::from_str("AsyncAnticheat • ").concat(f.server_id.as_str()),
    };
    EmbedText {
        title,
        description,
        color: severity_color(f.severity.as_str()),
        player,
        detector: f.detector_name.clone(),
        occurrences: signed_decimal_text(f.occurrences),
        footer,
    }
}

} // verus!
