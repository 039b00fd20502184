use ryt::utils::{is_supported_domain, is_valid_url};

#[test]
fn test_valid_urls() {
    assert!(is_valid_url("https://www.youtube.com/watch?v=dQw4w9WgXcQ"));
    assert!(is_valid_url("https://youtu.be/dQw4w9WgXcQ"));
    assert!(is_valid_url("https://vimeo.com/123456"));
    assert!(is_valid_url(
        "https://music.youtube.com/watch?v=dQw4w9WgXcQ"
    ));
    assert!(!is_valid_url("not a url"));
    assert!(!is_valid_url(""));
    assert!(!is_valid_url("https://unsupported-site.com/video"));
    assert!(!is_valid_url("https://fake-youtube.com.evil.com/video"));
}

#[test]
fn test_domain_validation() {
    assert!(is_supported_domain("youtube.com"));
    assert!(is_supported_domain("www.youtube.com"));
    assert!(is_supported_domain("youtu.be"));

    assert!(is_supported_domain("music.youtube.com"));
    assert!(is_supported_domain("gaming.youtube.com"));

    assert!(!is_supported_domain("fake-youtube.com"));
    assert!(!is_supported_domain("youtube.com.evil.com"));
    assert!(!is_supported_domain("notyoutube.com"));
}

#[test]
fn suffix_spoofing_is_rejected() {
    assert!(!is_valid_url("https://youtube.com.evil.com/x"));
    assert!(is_valid_url("https://music.youtube.com/watch?v=X"));
    assert!(!is_supported_domain(""));
    assert!(!is_supported_domain(".youtube.co"));
    assert!(is_supported_domain("a.b.twitch.tv"));
    assert!(is_supported_domain("www.tiktok.com"));
    assert!(!is_supported_domain("tiktok.com.cn"));
}

#[test]
fn every_listed_domain_is_accepted() {
    for d in [
        "youtube.com", "www.youtube.com", "youtu.be", "m.youtube.com", "vimeo.com",
        "www.vimeo.com", "dailymotion.com", "www.dailymotion.com", "twitch.tv",
        "www.twitch.tv", "soundcloud.com", "www.soundcloud.com", "tiktok.com",
        "www.tiktok.com",
    ] {
        assert!(is_supported_domain(d));
        assert!(is_valid_url(&format!("https://{}/path", d)));
    }
}

#[test]
fn host_is_taken_from_parsed_url() {
    assert!(is_valid_url("https://YOUTUBE.com/watch"));
    assert!(is_valid_url("http://user@vimeo.com:8080/1"));
    assert!(!is_valid_url("youtube.com/watch"));
    assert!(!is_valid_url("mailto:someone@youtube.com"));
}
