use spotify_cli::types::common::Image;
use spotify_cli::types::user::{UserPrivate, UserPublic};

fn private(product: Option<&str>) -> UserPrivate {
    UserPrivate {
        country: None,
        display_name: None,
        email: None,
        explicit_content: None,
        external_urls: None,
        followers: None,
        href: None,
        id: "me".to_string(),
        images: None,
        product: product.map(|p| p.to_string()),
        item_type: "user".to_string(),
        uri: "spotify:user:me".to_string(),
    }
}

#[test]
fn premium_only_for_premium_product() {
    assert!(private(Some("premium")).is_premium());
    assert!(!private(Some("free")).is_premium());
    assert!(!private(None).is_premium());
}

#[test]
fn user_image_url_is_first_image() {
    let mut me = private(None);
    assert!(me.image_url().is_none());
    me.images = Some(vec![
        Image { url: "https://a.jpg".to_string(), width: None, height: None },
        Image { url: "https://b.jpg".to_string(), width: None, height: None },
    ]);
    assert_eq!(me.image_url(), Some("https://a.jpg"));
    let other = UserPublic {
        display_name: None,
        external_urls: None,
        followers: None,
        href: None,
        id: "x".to_string(),
        images: Some(vec![]),
        item_type: "user".to_string(),
        uri: "spotify:user:x".to_string(),
    };
    assert!(other.image_url().is_none());
}
