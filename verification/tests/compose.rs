use postman::model_traits::{
    ApiCommunicable, ReminderContent, ReminderDetails, SendableEmbed, SendableMessage,
};
use postman::models::{Channel, Embed, EmbedField, Message, Reminder};

fn plain_reminder() -> Reminder {
    Reminder {
        id: 7,
        uid: String::from("uid-7"),
        message_id: 3,
        channel_id: 5,
        fire_time: 1000,
        interval: None,
        position: None,
        expires_at: None,
        enabled: true,
        pin: false,
        restartable: false,
        avatar: None,
        username: None,
    }
}

fn plain_channel() -> Channel {
    Channel {
        id: 5,
        channel: 424242,
        webhook_id: None,
        webhook_token: None,
        paused: false,
        paused_until: None,
    }
}

fn webhook_channel() -> Channel {
    Channel {
        id: 5,
        channel: 424242,
        webhook_id: Some(99),
        webhook_token: Some(String::from("tok")),
        paused: false,
        paused_until: None,
    }
}

fn plain_message() -> Message {
    Message {
        id: 3,
        content: String::from("remember the milk"),
        tts: false,
        embed_id: None,
        attachment: None,
        attachment_name: None,
    }
}

fn full_embed() -> Embed {
    Embed {
        id: 9,
        title: String::from("title"),
        description: String::from("desc"),
        image_url: Some(String::from("http://img")),
        thumbnail_url: None,
        footer: String::from("foot"),
        footer_icon: Some(String::from("http://icon")),
        color: 0xFF00FF,
        fields: vec![EmbedField {
            title: String::from("f1"),
            value: String::from("v1"),
            inline: true,
        }],
    }
}

#[test]
fn from_embed_carries_every_part() {
    let se = SendableEmbed::from_embed(full_embed());
    assert_eq!(se.title, "title");
    assert_eq!(se.description, "desc");
    assert_eq!(se.image.url.as_deref(), Some("http://img"));
    assert_eq!(se.thumbnail.url, None);
    assert_eq!(se.footer.text, "foot");
    assert_eq!(se.footer.icon_url.as_deref(), Some("http://icon"));
    assert_eq!(se.color, 0xFF00FF);
    assert_eq!(se.fields.len(), 1);
    assert_eq!(se.fields[0].title, "f1");
    assert_eq!(se.fields[0].value, "v1");
    assert!(se.fields[0].inline);
}

#[test]
fn has_content_is_false_only_for_an_empty_embed() {
    let empty = Embed {
        id: 1,
        title: String::new(),
        description: String::new(),
        image_url: None,
        thumbnail_url: None,
        footer: String::new(),
        footer_icon: None,
        color: 0,
        fields: vec![],
    };
    assert!(!empty.has_content());
    assert!(full_embed().has_content());
    let mut only_title = empty;
    only_title.title = String::from("t");
    assert!(only_title.has_content());
}

#[test]
fn default_payload_has_the_fixed_identity() {
    let d = SendableMessage::default();
    assert_eq!(d.username.as_deref(), Some("Reminder"));
    assert_eq!(d.content, "");
    assert!(d.embed.is_none() && d.embeds.is_none());
    assert!(!d.tts);
}

#[test]
fn urls_for_both_targets() {
    let direct = ReminderDetails::create_from_reminder(plain_reminder(), plain_channel());
    assert!(!direct.is_going_to_webhook());
    assert_eq!(
        direct.get_url(),
        "https://discordapp.com/api/v6/channels/424242/messages"
    );
    let hooked = ReminderDetails::create_from_reminder(plain_reminder(), webhook_channel());
    assert!(hooked.is_going_to_webhook());
    assert_eq!(hooked.get_url(), "https://discordapp.com/api/webhooks/99/tok");
}

#[test]
fn authorization_only_for_direct_posts() {
    let token = String::from("SECRET-REDACTED");
    let direct = ReminderDetails::create_from_reminder(plain_reminder(), plain_channel());
    assert_eq!(direct.get_authorization(&token).as_deref(), Some("SECRET-REDACTED"));
    let hooked = ReminderDetails::create_from_reminder(plain_reminder(), webhook_channel());
    assert_eq!(hooked.get_authorization(&token), None);
}

#[test]
fn suppression_rules() {
    let mut ch = plain_channel();
    ch.paused = true;
    // Paused indefinitely: suppressed for any now.
    let d = ReminderDetails::create_from_reminder(plain_reminder(), ch);
    assert!(!d.should_send(0));
    assert!(!d.should_send(u32::MAX as u64));
    assert!(!d.pause_elapsed(1000));

    // Paused until t: suppressed strictly before t has passed.
    let mut ch2 = plain_channel();
    ch2.paused = true;
    ch2.paused_until = Some(500);
    let d2 = ReminderDetails::create_from_reminder(plain_reminder(), ch2);
    assert!(!d2.should_send(499));
    assert!(!d2.should_send(500));
    assert!(d2.should_send(501));
    assert!(d2.pause_elapsed(501));
    assert!(!d2.pause_elapsed(500));

    // A disabled reminder never sends.
    let mut rem = plain_reminder();
    rem.enabled = false;
    let d3 = ReminderDetails::create_from_reminder(rem, plain_channel());
    assert!(!d3.should_send(1000));
}

#[test]
fn channel_payload_shape() {
    let d = ReminderDetails::create_from_reminder(plain_reminder(), plain_channel());
    let token = String::from("tkn");
    let embed = full_embed();
    let p = d.create_sendable(&plain_message(), Some(&embed), &token, 1000);
    assert_eq!(p.content, "remember the milk");
    assert_eq!(p.url, "https://discordapp.com/api/v6/channels/424242/messages");
    assert_eq!(p.authorization.as_deref(), Some("tkn"));
    assert!(p.embeds.is_none());
    let se = p.embed.expect("channel shape carries a single embed");
    assert_eq!(se.title, "title");
    // No identity override for a direct post.
    assert!(p.username.is_none() && p.avatar_url.is_none());
}

#[test]
fn webhook_payload_shape() {
    let mut rem = plain_reminder();
    rem.username = Some(String::from("Robo"));
    rem.avatar = Some(String::from("http://avatar"));
    let d = ReminderDetails::create_from_reminder(rem, webhook_channel());
    let token = String::from("tkn");
    let embed = full_embed();
    let p = d.create_sendable(&plain_message(), Some(&embed), &token, 1000);
    assert_eq!(p.url, "https://discordapp.com/api/webhooks/99/tok");
    assert!(p.authorization.is_none());
    assert!(p.embed.is_none());
    let embeds = p.embeds.expect("webhook shape carries an embed list");
    assert_eq!(embeds.len(), 1);
    assert_eq!(embeds[0].description, "desc");
    assert_eq!(p.username.as_deref(), Some("Robo"));
    assert_eq!(p.avatar_url.as_deref(), Some("http://avatar"));
}

#[test]
fn webhook_payload_falls_back_to_the_default_identity() {
    let d = ReminderDetails::create_from_reminder(plain_reminder(), webhook_channel());
    let token = String::from("tkn");
    let p = d.create_sendable(&plain_message(), None, &token, 1000);
    assert_eq!(p.username.as_deref(), Some("Reminder"));
    assert_eq!(p.avatar_url, None);
    assert!(p.embed.is_none() && p.embeds.is_none());
}

#[test]
fn composition_substitutes_content_and_embed_texts() {
    let d = ReminderDetails::create_from_reminder(plain_reminder(), plain_channel());
    let token = String::from("tkn");
    let mut msg = plain_message();
    msg.content = String::from("in <<timefrom:0:%d days>>");
    let mut embed = full_embed();
    embed.title = String::from("T <<timefrom:0:%h h>>");
    embed.fields[0].value = String::from("<<timefrom:0:%s s>>");
    let p = d.create_sendable(&msg, Some(&embed), &token, 172800);
    assert_eq!(p.content, "in 2 days");
    let se = p.embed.expect("embed present");
    assert_eq!(se.title, "T 48 h");
    assert_eq!(se.fields[0].value, "172800 s");
}
