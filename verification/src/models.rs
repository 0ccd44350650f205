//! The engine's view of the stored records: reminders, channels, messages
//! and embeds, as plain values. Timestamps are epoch seconds.

use vstd::prelude::*;

use crate::substitutions::{spec_substitute, substitute_at};

verus! {

/// A reminder row: the unit of scheduling.
pub struct Reminder {
    pub id: u32,
    /// Owner-assigned external id.
    pub uid: String,
    /// Row id of the message record that holds the content.
    pub message_id: u32,
    /// Row id of the channel record to deliver to.
    pub channel_id: u32,
    /// When the reminder is (next) due, epoch seconds.
    pub fire_time: u64,
    /// Seconds between occurrences; `None` for a one-shot reminder.
    pub interval: Option<u64>,
    /// Cursor into the reminder's period sequence; `Some` selects the
    /// multi-position recurrence policy.
    pub position: Option<u32>,
    /// No occurrence may be scheduled past this time.
    pub expires_at: Option<u64>,
    pub enabled: bool,
    /// Pin the delivered message in its channel.
    pub pin: bool,
    pub restartable: bool,
    /// Webhook identity overrides.
    pub avatar: Option<String>,
    pub username: Option<String>,
}

/// A channel row: delivery target metadata.
pub struct Channel {
    pub id: u32,
    /// The external channel id.
    pub channel: u64,
    pub webhook_id: Option<u64>,
    pub webhook_token: Option<String>,
    pub paused: bool,
    pub paused_until: Option<u64>,
}

impl Channel {
    /// Both webhook credentials present, or both absent.
    pub open spec fn wf(&self) -> bool {
        self.webhook_id is Some <==> self.webhook_token is Some
    }
}

/// A message row: immutable content referenced by a reminder.
pub struct Message {
    pub id: u32,
    pub content: String,
    pub tts: bool,
    pub embed_id: Option<u32>,
    pub attachment: Option<Vec<u8>>,
    pub attachment_name: Option<String>,
}

/// One ordered field of an embed.
pub struct EmbedField {
    pub title: String,
    pub value: String,
    pub inline: bool,
}

/// An embed row.
pub struct Embed {
    pub id: u32,
    pub title: String,
    pub description: String,
    pub image_url: Option<String>,
    pub thumbnail_url: Option<String>,
    pub footer: String,
    pub footer_icon: Option<String>,
    pub color: u32,
    pub fields: Vec<EmbedField>,
}

impl Embed {
    /// Some part of the embed would be visible.
    pub open spec fn spec_has_content(&self) -> bool {
        ||| self.title@.len() > 0
        ||| self.description@.len() > 0
        ||| self.image_url is Some
        ||| self.thumbnail_url is Some
        ||| self.footer@.len() > 0
        ||| self.footer_icon is Some
        ||| self.fields@.len() > 0
    }

    /// Whether the embed holds anything worth sending: an embed whose
    /// texts are all empty and that has no images, icons or fields is
    /// dropped rather than delivered.
    pub fn has_content(&self) -> (r: bool)
        ensures
            r == self.spec_has_content(),
    {
        if self.title.as_str().is_empty() && self.description.as_str().is_empty()
            && self.image_url.is_none() && self.thumbnail_url.is_none()
            && self.footer.as_str().is_empty() && self.footer_icon.is_none()
            && self.fields.len() == 0 {
            false
        } else {
            true
        }
    }

    /// The embed with the placeholder substitution applied, at time `now`,
    /// to its title, description, footer text, and each field's title and
    /// value; everything else is carried through unchanged.
    pub fn substituted(&self, now: i64) -> (r: Embed)
        ensures
            r.id == self.id,
            r.title@ == spec_substitute(self.title@, now as int),
            r.description@ == spec_substitute(self.description@, now as int),
            r.footer@ == spec_substitute(self.footer@, now as int),
            r.image_url.deep_view() == self.image_url.deep_view(),
            r.thumbnail_url.deep_view() == self.thumbnail_url.deep_view(),
            r.footer_icon.deep_view() == self.footer_icon.deep_view(),
            r.color == self.color,
            r.fields@.len() == self.fields@.len(),
            forall|i: int|
                0 <= i < self.fields@.len() ==> {
                    &&& (#[trigger] r.fields@[i]).title@ == spec_substitute(
                        self.fields@[i].title@,
                        now as int,
                    )
                    &&& r.fields@[i].value@ == spec_substitute(self.fields@[i].value@, now as int)
                    &&& r.fields@[i].inline == self.fields@[i].inline
                },
    {
        let mut fields: Vec<EmbedField> = Vec::new();
        let mut i: usize = 0;
        let n = self.fields.len();
        while i < n
            invariant
                0 <= i <= n,
                n == self.fields@.len(),
                fields@.len() == i,
                forall|k: int|
                    0 <= k < i ==> {
                        &&& (#[trigger] fields@[k]).title@ == spec_substitute(
                            self.fields@[k].title@,
                            now as int,
                        )
                        &&& fields@[k].value@ == spec_substitute(
                            self.fields@[k].value@,
                            now as int,
                        )
                        &&& fields@[k].inline == self.fields@[k].inline
                    },
            decreases n - i,
        {
            let f = &self.fields[i];
            fields.push(
                EmbedField {
                    title: substitute_at(f.title.as_str(), now),
                    value: substitute_at(f.value.as_str(), now),
                    inline: f.inline,
                },
            );
            i += 1;
        }
        Embed {
            id: self.id,
            title: substitute_at(self.title.as_str(), now),
            description: substitute_at(self.description.as_str(), now),
            image_url: clone_opt_string(&self.image_url),
            thumbnail_url: clone_opt_string(&self.thumbnail_url),
            footer: substitute_at(self.footer.as_str(), now),
            footer_icon: clone_opt_string(&self.footer_icon),
            color: self.color,
            fields,
        }
    }
}

/// A copy of an optional string.
pub fn clone_opt_string(o: &Option<String>) -> (r: Option<String>)
    ensures
        r.deep_view() == o.deep_view(),
{
    match o {
        Some(s) => Some(s.clone()),
        None => None,
    }
}

/// A copy of a byte vector.
pub fn clone_bytes(v: &Vec<u8>) -> (r: Vec<u8>)
    ensures
        r@ == v@,
{
    let mut r: Vec<u8> = Vec::new();
    let n = v.len();
    let mut i: usize = 0;
    while i < n
        invariant
            0 <= i <= n,
            n == v@.len(),
            r@ == v@.subrange(0, i as int),
        decreases n - i,
    {
        r.push(v[i]);
        assert(r@ =~= v@.subrange(0, i + 1));
        i += 1;
    }
    assert(r@ =~= v@);
    r
}

/// A copy of an optional byte vector.
pub fn clone_opt_bytes(o: &Option<Vec<u8>>) -> (r: Option<Vec<u8>>)
    ensures
        r.deep_view() == o.deep_view(),
{
    match o {
        Some(v) => Some(clone_bytes(v)),
        None => None,
    }
}

} // verus!
