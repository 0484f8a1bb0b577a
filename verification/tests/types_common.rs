use spotify_cli::types::common::{
    Copyright, Cursored, Cursors, ExternalIds, ExternalUrls, Followers, Image, LinkedFrom, Paginated,
    Restrictions, ResumePoint,
};

fn s(x: &str) -> String {
    x.to_string()
}

#[test]
fn image_deserializes() {
    let image = Image { url: s("https://image.jpg"), width: Some(640), height: Some(480) };
    assert_eq!(image.url, "https://image.jpg");
    assert_eq!(image.width, Some(640));
    assert_eq!(image.height, Some(480));
}

#[test]
fn image_deserializes_with_null_dimensions() {
    let image = Image { url: s("https://image.jpg"), width: None, height: None };
    assert!(image.width.is_none());
    assert!(image.height.is_none());
}

#[test]
fn external_urls_deserializes() {
    let urls = ExternalUrls { spotify: Some(s("https://open.spotify.com/track/123")) };
    assert_eq!(urls.spotify, Some("https://open.spotify.com/track/123".to_string()));
}

#[test]
fn external_ids_deserializes() {
    let ids = ExternalIds {
        isrc: Some(s("USRC12345678")),
        ean: Some(s("1234567890123")),
        upc: Some(s("012345678905")),
    };
    assert_eq!(ids.isrc, Some("USRC12345678".to_string()));
    assert_eq!(ids.ean, Some("1234567890123".to_string()));
    assert_eq!(ids.upc, Some("012345678905".to_string()));
}

#[test]
fn followers_deserializes() {
    let followers = Followers { href: None, total: 1000000 };
    assert_eq!(followers.total, 1000000);
    assert!(followers.href.is_none());
}

#[test]
fn copyright_deserializes() {
    let copyright = Copyright { text: s("(C) 2024 Test Records"), copyright_type: s("C") };
    assert_eq!(copyright.text, "(C) 2024 Test Records");
    assert_eq!(copyright.copyright_type, "C");
}

#[test]
fn restrictions_deserializes() {
    let restrictions = Restrictions { reason: s("market") };
    assert_eq!(restrictions.reason, "market");
}

#[test]
fn paginated_deserializes() {
    let paginated: Paginated<i32> = Paginated {
        href: s("https://api.spotify.com/v1/me/tracks"),
        limit: 20,
        next: None,
        offset: 0,
        previous: None,
        total: 100,
        items: vec![1, 2, 3],
    };
    assert_eq!(paginated.limit, 20);
    assert_eq!(paginated.total, 100);
    assert_eq!(paginated.items, vec![1, 2, 3]);
}

#[test]
fn paginated_with_next_prev() {
    let paginated: Paginated<i32> = Paginated {
        href: s("https://api.spotify.com/v1/me/tracks?offset=20"),
        limit: 20,
        next: Some(s("https://api.spotify.com/v1/me/tracks?offset=40")),
        offset: 20,
        previous: Some(s("https://api.spotify.com/v1/me/tracks?offset=0")),
        total: 100,
        items: vec![],
    };
    assert!(paginated.next.is_some());
    assert!(paginated.previous.is_some());
}

#[test]
fn cursored_deserializes() {
    let cursored: Cursored<String> = Cursored {
        href: s("https://api.spotify.com/v1/me/following"),
        limit: 20,
        next: None,
        cursors: Some(Cursors { after: Some(s("cursor123")), before: Some(s("cursor000")) }),
        total: Some(50),
        items: vec![s("a"), s("b")],
    };
    assert_eq!(cursored.limit, 20);
    assert_eq!(cursored.items.len(), 2);
    assert!(cursored.cursors.is_some());
}

#[test]
fn cursors_deserializes() {
    let cursors = Cursors { after: Some(s("next_cursor")), before: Some(s("prev_cursor")) };
    assert_eq!(cursors.after, Some("next_cursor".to_string()));
    assert_eq!(cursors.before, Some("prev_cursor".to_string()));
}

#[test]
fn resume_point_deserializes() {
    let resume = ResumePoint { fully_played: false, resume_position_ms: 120000 };
    assert!(!resume.fully_played);
    assert_eq!(resume.resume_position_ms, 120000);
}

#[test]
fn linked_from_deserializes() {
    let linked = LinkedFrom {
        external_urls: None,
        href: Some(s("https://api.spotify.com/v1/tracks/track123")),
        id: Some(s("track123")),
        item_type: Some(s("track")),
        uri: Some(s("spotify:track:track123")),
    };
    assert_eq!(linked.id, Some("track123".to_string()));
    assert_eq!(linked.item_type, Some("track".to_string()));
}
