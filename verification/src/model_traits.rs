//! Payload composition: the ready-to-send message built from a reminder's
//! stored content, shaped for either delivery target. A webhook payload
//! carries a username/avatar identity override and wraps its embed in a
//! one-element list; a direct channel payload carries the embed alone and
//! no identity override.

use vstd::prelude::*;
use vstd::string::StringExecFns;

use crate::models::{
    clone_opt_bytes, clone_opt_string, Channel, Embed, EmbedField, Message, Reminder,
};
use crate::substitutions::spec_substitute;
use crate::substitutions::substitute_at;
use crate::text::{chars_to_string, dec_str, extend_chars, push_dec, str_to_chars};

verus! {

/// An embed footer in wire shape.
pub struct Footer {
    pub text: String,
    pub icon_url: Option<String>,
}

/// An embed image in wire shape.
pub struct Image {
    pub url: Option<String>,
}

/// An embed thumbnail in wire shape.
pub struct Thumbnail {
    pub url: Option<String>,
}

/// An embed in wire shape.
pub struct SendableEmbed {
    pub title: String,
    pub description: String,
    pub image: Image,
    pub thumbnail: Thumbnail,
    pub footer: Footer,
    pub color: u32,
    pub fields: Vec<EmbedField>,
}

impl SendableEmbed {
    /// Reshapes a stored embed into wire shape; every part is carried
    /// through unchanged.
    pub fn from_embed(embed: Embed) -> (r: Self)
        ensures
            r.title@ == embed.title@,
            r.description@ == embed.description@,
            r.image.url.deep_view() == embed.image_url.deep_view(),
            r.thumbnail.url.deep_view() == embed.thumbnail_url.deep_view(),
            r.footer.text@ == embed.footer@,
            r.footer.icon_url.deep_view() == embed.footer_icon.deep_view(),
            r.color == embed.color,
            r.fields == embed.fields,
    {
        SendableEmbed {
            title: embed.title,
            description: embed.description,
            image: Image { url: embed.image_url },
            thumbnail: Thumbnail { url: embed.thumbnail_url },
            footer: Footer { text: embed.footer, icon_url: embed.footer_icon },
            color: embed.color,
            fields: embed.fields,
        }
    }
}

/// A ready-to-send message payload.
pub struct SendableMessage {
    /// The endpoint the payload goes to.
    pub url: String,
    /// The bot credential, for direct channel posts; webhooks carry their
    /// own credential in the url.
    pub authorization: Option<String>,
    pub content: String,
    /// Channel-message shape: at most one embed.
    pub embed: Option<SendableEmbed>,
    /// Webhook shape: a list of embeds.
    pub embeds: Option<Vec<SendableEmbed>>,
    pub tts: bool,
    pub avatar_url: Option<String>,
    pub username: Option<String>,
    pub attachment: Option<Vec<u8>>,
    pub attachment_name: Option<String>,
}

impl Default for SendableMessage {
    /// An empty payload under the fixed default identity.
    fn default() -> (d: SendableMessage)
        ensures
            d.url@ == Seq::<char>::empty(),
            d.authorization is None,
            d.content@ == Seq::<char>::empty(),
            d.embed is None,
            d.embeds is None,
            d.tts == false,
            d.avatar_url is None,
            (d.username matches Some(u) && u@ == ("Reminder")@),
            d.attachment is None,
            d.attachment_name is None,
    {
        SendableMessage {
            url: String::new(),
            authorization: None,
            content: String::new(),
            embed: None,
            embeds: None,
            tts: false,
            avatar_url: None,
            username: Some(String::from_str("Reminder")),
            attachment: None,
            attachment_name: None,
        }
    }
}

// ---------------------------------------------------------------------------
// Reminder details: a reminder joined with its channel
// ---------------------------------------------------------------------------

/// A reminder together with the channel record it delivers to.
pub struct ReminderDetails {
    pub channel: Channel,
    pub reminder: Reminder,
}

/// The channel is pause-muted at `now`: paused indefinitely, or paused
/// until a time not yet reached.
pub open spec fn spec_suppressed(ch: Channel, now: int) -> bool {
    ch.paused && (ch.paused_until is None || ch.paused_until->0 >= now)
}

/// The channel's pause has lapsed and must be cleared.
pub open spec fn spec_pause_elapsed(ch: Channel, now: int) -> bool {
    ch.paused && (ch.paused_until matches Some(u) && u < now)
}

/// The reminder may be composed and sent this tick.
pub open spec fn spec_should_send(d: ReminderDetails, now: int) -> bool {
    d.reminder.enabled && !spec_suppressed(d.channel, now)
}

impl ReminderDetails {
    /// Joins a reminder with its channel record.
    pub fn create_from_reminder(reminder: Reminder, channel: Channel) -> (r: ReminderDetails)
        ensures
            r.reminder == reminder,
            r.channel == channel,
    {
        ReminderDetails { channel, reminder }
    }

    /// Whether the reminder may be sent this tick: it must be enabled and
    /// its channel must not be pause-muted. A pause whose end has passed
    /// no longer mutes.
    pub fn should_send(&self, now: u64) -> (r: bool)
        ensures
            r == spec_should_send(*self, now as int),
    {
        if !self.reminder.enabled {
            false
        } else if !self.channel.paused {
            true
        } else {
            match self.channel.paused_until {
                Some(u) => u < now,
                None => false,
            }
        }
    }

    /// Whether the channel's pause has lapsed, so that the stored pause
    /// state must be cleared (self-healing).
    pub fn pause_elapsed(&self, now: u64) -> (r: bool)
        ensures
            r == spec_pause_elapsed(self.channel, now as int),
    {
        self.channel.paused && (match self.channel.paused_until {
            Some(u) => u < now,
            None => false,
        })
    }
}

// ---------------------------------------------------------------------------
// Delivery endpoints
// ---------------------------------------------------------------------------

pub open spec fn spec_channel_url(channel: nat) -> Seq<char> {
    ("https://discordapp.com/api/v6/channels/")@ + dec_str(channel) + ("/messages")@
}

pub open spec fn spec_webhook_url(id: nat, token: Seq<char>) -> Seq<char> {
    ("https://discordapp.com/api/webhooks/")@ + dec_str(id) + ("/")@ + token
}

fn build_channel_url(channel: u64) -> (r: String)
    ensures
        r@ == spec_channel_url(channel as nat),
{
    let mut out = str_to_chars("https://discordapp.com/api/v6/channels/");
    push_dec(&mut out, channel);
    let tail = str_to_chars("/messages");
    extend_chars(&mut out, &tail);
    chars_to_string(&out)
}

fn build_webhook_url(id: u64, token: &String) -> (r: String)
    ensures
        r@ == spec_webhook_url(id as nat, token@),
{
    let mut out = str_to_chars("https://discordapp.com/api/webhooks/");
    push_dec(&mut out, id);
    let slash = str_to_chars("/");
    extend_chars(&mut out, &slash);
    let tok = str_to_chars(token.as_str());
    extend_chars(&mut out, &tok);
    chars_to_string(&out)
}

/// How a reminder's payload reaches the chat service.
pub trait ApiCommunicable {
    /// The delivery goes through a stored webhook rather than a direct
    /// channel post.
    spec fn spec_is_webhook(&self) -> bool;

    /// The endpoint the payload goes to.
    spec fn spec_url(&self) -> Seq<char>;

    fn is_going_to_webhook(&self) -> (r: bool)
        ensures
            r == self.spec_is_webhook(),
    ;

    fn get_url(&self) -> (r: String)
        ensures
            r@ == self.spec_url(),
    ;

    /// The bot credential to send with the request: only a direct channel
    /// post needs one.
    fn get_authorization(&self, token: &String) -> (r: Option<String>)
        ensures
            r is Some <==> !self.spec_is_webhook(),
            r matches Some(t) ==> t@ == token@,
    ;
}

impl ApiCommunicable for ReminderDetails {
    open spec fn spec_is_webhook(&self) -> bool {
        self.channel.webhook_id is Some && self.channel.webhook_token is Some
    }

    open spec fn spec_url(&self) -> Seq<char> {
        if self.spec_is_webhook() {
            spec_webhook_url(
                self.channel.webhook_id->0 as nat,
                (self.channel.webhook_token->0)@,
            )
        } else {
            spec_channel_url(self.channel.channel as nat)
        }
    }

    fn is_going_to_webhook(&self) -> (r: bool) {
        self.channel.webhook_id.is_some() && self.channel.webhook_token.is_some()
    }

    fn get_url(&self) -> (r: String) {
        match (&self.channel.webhook_id, &self.channel.webhook_token) {
            (Some(id), Some(tok)) => build_webhook_url(*id, tok),
            _ => build_channel_url(self.channel.channel),
        }
    }

    fn get_authorization(&self, token: &String) -> (r: Option<String>) {
        if self.is_going_to_webhook() {
            None
        } else {
            Some(token.clone())
        }
    }
}

// ---------------------------------------------------------------------------
// Composition
// ---------------------------------------------------------------------------

/// The wire-shape embed `se` is the stored embed `e` with substitution
/// applied to its texts, everything else carried through.
pub open spec fn embed_matches(se: SendableEmbed, e: Embed, now: int) -> bool {
    &&& se.title@ == spec_substitute(e.title@, now)
    &&& se.description@ == spec_substitute(e.description@, now)
    &&& se.footer.text@ == spec_substitute(e.footer@, now)
    &&& se.footer.icon_url.deep_view() == e.footer_icon.deep_view()
    &&& se.image.url.deep_view() == e.image_url.deep_view()
    &&& se.thumbnail.url.deep_view() == e.thumbnail_url.deep_view()
    &&& se.color == e.color
    &&& se.fields@.len() == e.fields@.len()
    &&& forall|i: int|
        0 <= i < e.fields@.len() ==> {
            &&& (#[trigger] se.fields@[i]).title@ == spec_substitute(e.fields@[i].title@, now)
            &&& se.fields@[i].value@ == spec_substitute(e.fields@[i].value@, now)
            &&& se.fields@[i].inline == e.fields@[i].inline
        }
}

/// The stored embed a composition was given, as a value.
pub open spec fn embed_value(embed: Option<&Embed>) -> Option<Embed> {
    match embed {
        Some(e) => Some(*e),
        None => None,
    }
}

/// The payload `p` is exactly what composing `m` (with `embed`) for the
/// given target shape must produce.
pub open spec fn payload_ok(
    p: SendableMessage,
    d: ReminderDetails,
    m: Message,
    embed: Option<Embed>,
    token: Seq<char>,
    now: int,
    webhook: bool,
) -> bool {
    &&& (if webhook {
        &&& d.channel.webhook_id matches Some(id) && d.channel.webhook_token matches Some(wt)
            && p.url@ == spec_webhook_url(id as nat, wt@)
        &&& p.authorization is None
    } else {
        &&& p.url@ == spec_channel_url(d.channel.channel as nat)
        &&& (p.authorization matches Some(t) && t@ == token)
    })
    &&& p.content@ == spec_substitute(m.content@, now)
    &&& p.tts == m.tts
    &&& p.attachment.deep_view() == m.attachment.deep_view()
    &&& p.attachment_name.deep_view() == m.attachment_name.deep_view()
    &&& (match embed {
        None => p.embed is None && p.embeds is None,
        Some(e) => if webhook {
            &&& p.embed is None
            &&& (p.embeds matches Some(v) && v@.len() == 1 && embed_matches(v@[0], e, now))
        } else {
            &&& p.embeds is None
            &&& (p.embed matches Some(se) && embed_matches(se, e, now))
        },
    })
    &&& (if webhook {
        &&& (match d.reminder.username {
            Some(u) => p.username matches Some(pu) && pu@ == u@,
            None => p.username matches Some(pu) && pu@ == ("Reminder")@,
        })
        &&& p.avatar_url.deep_view() == d.reminder.avatar.deep_view()
    } else {
        &&& p.username is None
        &&& p.avatar_url is None
    })
}

/// Composes the payload for `d`'s reminder from its message and embed
/// records, applying substitution at time `now`, shaped for a webhook or
/// a direct channel post as `webhook` says.
pub fn compose_payload(
    d: &ReminderDetails,
    message: &Message,
    embed: Option<&Embed>,
    token: &String,
    now: i64,
    webhook: bool,
) -> (p: SendableMessage)
    requires
        webhook ==> d.channel.webhook_id is Some && d.channel.webhook_token is Some,
    ensures
        payload_ok(p, *d, *message, embed_value(embed), token@, now as int, webhook),
{
    let sendable_embed: Option<SendableEmbed> = match embed {
        Some(e) => Some(SendableEmbed::from_embed(e.substituted(now))),
        None => None,
    };
    let content = substitute_at(message.content.as_str(), now);
    let attachment = clone_opt_bytes(&message.attachment);
    let attachment_name = clone_opt_string(&message.attachment_name);
    if webhook {
        let url = match (&d.channel.webhook_id, &d.channel.webhook_token) {
            (Some(id), Some(tok)) => build_webhook_url(*id, tok),
            _ => build_channel_url(d.channel.channel),  // not reached: the pair is present
        };
        let embeds: Option<Vec<SendableEmbed>> = match sendable_embed {
            Some(se) => Some(vec![se]),
            None => None,
        };
        let username = match &d.reminder.username {
            Some(u) => Some(u.clone()),
            None => Some(String::from_str("Reminder")),
        };
        SendableMessage {
            url,
            authorization: None,
            content,
            embed: None,
            embeds,
            tts: message.tts,
            avatar_url: clone_opt_string(&d.reminder.avatar),
            username,
            attachment,
            attachment_name,
        }
    } else {
        SendableMessage {
            url: build_channel_url(d.channel.channel),
            authorization: Some(token.clone()),
            content,
            embed: sendable_embed,
            embeds: None,
            tts: message.tts,
            avatar_url: None,
            username: None,
            attachment,
            attachment_name,
        }
    }
}

/// Builds a reminder's sendable payload from its stored content.
pub trait ReminderContent {
    /// What the composed payload must satisfy.
    spec fn spec_sendable_ok(
        &self,
        p: SendableMessage,
        m: Message,
        embed: Option<Embed>,
        token: Seq<char>,
        now: int,
    ) -> bool;

    fn create_sendable(
        &self,
        message: &Message,
        embed: Option<&Embed>,
        token: &String,
        now: i64,
    ) -> (p: SendableMessage)
        ensures
            self.spec_sendable_ok(p, *message, embed_value(embed), token@, now as int),
    ;
}

impl ReminderContent for ReminderDetails {
    open spec fn spec_sendable_ok(
        &self,
        p: SendableMessage,
        m: Message,
        embed: Option<Embed>,
        token: Seq<char>,
        now: int,
    ) -> bool {
        payload_ok(p, *self, m, embed, token, now, self.spec_is_webhook())
    }

    /// Composes for the reminder's own target: its webhook when the
    /// channel carries the credential pair, its channel otherwise.
    fn create_sendable(
        &self,
        message: &Message,
        embed: Option<&Embed>,
        token: &String,
        now: i64,
    ) -> (p: SendableMessage) {
        let webhook = self.is_going_to_webhook();
        compose_payload(self, message, embed, token, now, webhook)
    }
}

} // verus!
