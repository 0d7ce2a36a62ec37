use fie::data::{compose, compose_with, join_hash_tags, PlatformId};
use fie::error::{decimal_text, ApiError, PlatformError};

fn tags(names: &[&str]) -> Vec<String> {
    names.iter().map(|name| name.to_string()).collect()
}

#[test]
fn hash_tags_are_joined_by_single_spaces() {
    assert_eq!(join_hash_tags(&tags(&["rust", "go"])), "#rust #go");
    assert_eq!(join_hash_tags(&tags(&["one"])), "#one");
    assert_eq!(join_hash_tags(&tags(&["a", "b", "c"])), "#a #b #c");
    assert_eq!(join_hash_tags(&tags(&[])), "");
}

#[test]
fn a_tag_is_taken_as_it_is() {
    assert_eq!(join_hash_tags(&tags(&["", "x y"])), "# #x y");
}

#[test]
fn tags_without_a_message_stand_alone() {
    assert_eq!(compose(String::new(), &tags(&["rust", "go"])), "#rust #go");
    assert_eq!(compose(String::new(), &tags(&["solo"])), "#solo");
}

#[test]
fn a_message_without_tags_is_unchanged() {
    assert_eq!(compose("Hello".to_string(), &tags(&[])), "Hello");
    assert_eq!(compose(String::new(), &tags(&[])), "");
}

#[test]
fn tags_follow_the_message_on_a_new_line() {
    assert_eq!(compose("Hello".to_string(), &tags(&["rust", "go"])), "Hello\n#rust #go");
}

#[test]
fn tags_that_may_be_absent_are_put_together_like_any_others() {
    assert_eq!(
        compose_with("Hello".to_string(), &Some(tags(&["rust", "go"]))),
        "Hello\n#rust #go"
    );
    assert_eq!(compose_with("Hello".to_string(), &None), "Hello");
    assert_eq!(compose_with(String::new(), &Some(tags(&["rust", "go"]))), "#rust #go");
    assert_eq!(compose_with("Hello".to_string(), &Some(tags(&[]))), "Hello");
    assert_eq!(compose_with(String::new(), &Some(tags(&[]))), "");
    assert_eq!(compose_with(String::new(), &None), "");
}

#[test]
fn a_text_put_together_stays_as_it_is_without_tags() {
    let once = compose(String::new(), &tags(&["rust", "go"]));
    assert_eq!(compose(once, &tags(&[])), "#rust #go");
    let once = compose("Hello".to_string(), &tags(&["rust"]));
    assert_eq!(compose(once, &tags(&[])), "Hello\n#rust");
}

#[test]
fn platforms_keep_their_order() {
    let order = [PlatformId::Twitter, PlatformId::Gab, PlatformId::Mastodon, PlatformId::Minds];
    for (at, id) in order.iter().enumerate() {
        assert_eq!(id.index(), at);
        assert_eq!(PlatformId::from_index(at), Some(*id));
    }
    assert_eq!(PlatformId::from_index(4), None);
    assert_eq!(PlatformId::from_index(usize::MAX), None);
}

#[test]
fn only_minds_takes_a_single_attachment() {
    assert!(PlatformId::Minds.is_single_attachment());
    assert!(!PlatformId::Twitter.is_single_attachment());
    assert!(!PlatformId::Gab.is_single_attachment());
    assert!(!PlatformId::Mastodon.is_single_attachment());
}

#[test]
fn numbers_are_written_in_decimal() {
    assert_eq!(decimal_text(0), "0");
    assert_eq!(decimal_text(7), "7");
    assert_eq!(decimal_text(10), "10");
    assert_eq!(decimal_text(404), "404");
    assert_eq!(decimal_text(1234567890), "1234567890");
    assert_eq!(decimal_text(u64::MAX), "18446744073709551615");
}

#[test]
fn platform_errors_read_as_sentences() {
    assert_eq!(PlatformError::Unauthorized.message(), "client is not authorized");
    assert_eq!(
        PlatformError::Transport("timed out".to_string()).message(),
        "request failed: timed out"
    );
    assert_eq!(PlatformError::Status(503).message(), "server returned error code 503");
    assert_eq!(
        PlatformError::Decode("guid".to_string()).message(),
        "unreadable response: guid"
    );
    assert_eq!(PlatformError::NoAttachment.message(), "no attachment was uploaded");
}

#[test]
fn api_errors_name_where_they_come_from() {
    assert_eq!(
        ApiError::CannotLoadImage("cat.png".to_string(), "not found".to_string()).message(),
        "Error opening image 'cat.png'. Error: not found"
    );
    assert_eq!(
        ApiError::Twitter(PlatformError::Status(401)).message(),
        "Twitter API Error: server returned error code 401"
    );
    assert_eq!(
        ApiError::Gab(PlatformError::Unauthorized).message(),
        "Gab API Error: client is not authorized"
    );
    assert_eq!(
        ApiError::Mastodon(PlatformError::NoAttachment).message(),
        "Mastodon API Error: no attachment was uploaded"
    );
    assert_eq!(
        ApiError::Minds(PlatformError::Transport("reset".to_string())).message(),
        "MindsError API Error: request failed: reset"
    );
}

#[test]
fn a_platform_failure_is_filed_under_its_platform() {
    assert_eq!(
        ApiError::from_platform(PlatformId::Twitter, PlatformError::Status(500)),
        ApiError::Twitter(PlatformError::Status(500))
    );
    assert_eq!(
        ApiError::from_platform(PlatformId::Gab, PlatformError::Unauthorized),
        ApiError::Gab(PlatformError::Unauthorized)
    );
    assert_eq!(
        ApiError::from_platform(PlatformId::Mastodon, PlatformError::NoAttachment),
        ApiError::Mastodon(PlatformError::NoAttachment)
    );
    assert_eq!(
        ApiError::from_platform(PlatformId::Minds, PlatformError::Status(404)),
        ApiError::Minds(PlatformError::Status(404))
    );
    assert_eq!(ApiError::Minds(PlatformError::Status(404)).platform(), Some(PlatformId::Minds));
    assert_eq!(ApiError::Twitter(PlatformError::Status(404)).platform(), Some(PlatformId::Twitter));
    assert_eq!(ApiError::CannotLoadImage(String::new(), String::new()).platform(), None);
}
