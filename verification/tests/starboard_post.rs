use loona::post::{build_embed, build_header_content, has_prefix, Attachment, SourceMessage, STARBOARD_EMBED_COLOUR};

fn message(guild: Option<u64>, attachment: Option<Attachment>) -> SourceMessage {
    SourceMessage {
        id: 333,
        channel_id: 22,
        guild_id: guild,
        author_id: 9,
        author_bot: false,
        author_name: "alice".to_string(),
        author_face: "https://cdn.example/a.png".to_string(),
        content: "hello".to_string(),
        timestamp: "2024-01-02T03:04:05Z".to_string(),
        first_attachment: attachment,
    }
}

#[test]
fn header_in_a_server() {
    let m = message(Some(1), None);
    assert_eq!(
        build_header_content(&m, 5, "⭐"),
        "⭐ 5 • https://discord.com/channels/1/22/333"
    );
}

#[test]
fn header_outside_a_server() {
    let m = message(None, None);
    assert_eq!(
        build_header_content(&m, 12, "<:pog:42>"),
        "<:pog:42> 12 • https://discord.com/channels/@me/22/333"
    );
}

#[test]
fn header_with_negative_count() {
    let m = message(Some(7), None);
    assert_eq!(build_header_content(&m, -1, "x"), "x -1 • https://discord.com/channels/7/22/333");
}

#[test]
fn embed_shows_author_text_and_image() {
    let m = message(
        Some(1),
        Some(Attachment { url: "https://cdn.example/p.png".to_string(), content_type: Some("image/png".to_string()) }),
    );
    let e = build_embed(&m);
    assert_eq!(e.colour, 0xE8B86D);
    assert_eq!(e.colour, STARBOARD_EMBED_COLOUR);
    assert_eq!(e.author_name, "alice");
    assert_eq!(e.author_icon, "https://cdn.example/a.png");
    assert_eq!(e.description, "hello");
    assert_eq!(e.timestamp, "2024-01-02T03:04:05Z");
    assert_eq!(e.image.as_deref(), Some("https://cdn.example/p.png"));
}

#[test]
fn embed_without_image_for_other_attachments() {
    let pdf = message(
        Some(1),
        Some(Attachment { url: "https://cdn.example/d.pdf".to_string(), content_type: Some("application/pdf".to_string()) }),
    );
    assert!(build_embed(&pdf).image.is_none());
    let unknown = message(Some(1), Some(Attachment { url: "u".to_string(), content_type: None }));
    assert!(build_embed(&unknown).image.is_none());
    assert!(build_embed(&message(Some(1), None)).image.is_none());
}

#[test]
fn prefix_check() {
    assert!(has_prefix("image/png", "image/"));
    assert!(has_prefix("image/", "image/"));
    assert!(!has_prefix("image", "image/"));
    assert!(!has_prefix("video/mp4", "image/"));
    assert!(has_prefix("anything", ""));
}
