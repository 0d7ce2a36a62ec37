use fie::api::API;
use fie::config;
use fie::data::PlatformId;
use fie::error::{ApiError, PlatformError};
use fie::gab;
use fie::mastodon;
use fie::minds::{Minds, Oauth2};
use fie::twitter;
use std::cell::Cell;

fn gab_config(token: &str) -> config::Gab {
    config::Gab { token: token.to_string() }
}

fn twitter_config() -> config::Twitter {
    config::Twitter {
        consumer: config::Token { key: "ck".to_string(), secret: "cs".to_string() },
        access: config::Token { key: "ak".to_string(), secret: "as".to_string() },
    }
}

fn login() -> Oauth2 {
    Oauth2 {
        access_token: "token".to_string(),
        user_id: "42".to_string(),
        refresh_token: "again".to_string(),
    }
}

#[test]
fn a_new_registry_has_every_platform_disabled() {
    let api = API::new(config::Settings { timeout: 7 });
    assert_eq!(api.timeout(), 7);
    for id in [PlatformId::Twitter, PlatformId::Gab, PlatformId::Mastodon, PlatformId::Minds] {
        assert!(!api.is_enabled(id));
        assert!(api.is_authorized(id));
    }
    assert!(api.client::<config::Gab>().is_none());
    assert!(api.client::<config::Twitter>().is_none());
    assert!(api.client::<config::Mastodon>().is_none());
    assert!(api.client::<config::Minds>().is_none());
}

#[test]
fn configure_installs_the_client_that_was_set_up() {
    let mut api = API::new(config::Settings { timeout: 5 });
    let done = api.configure(gab_config("first"), |config| Ok(gab::Client::new(config)));
    assert_eq!(done, Ok(()));
    assert!(api.is_enabled(PlatformId::Gab));
    assert!(!api.is_enabled(PlatformId::Twitter));
    assert!(!api.is_enabled(PlatformId::Mastodon));
    assert!(!api.is_enabled(PlatformId::Minds));
    assert_eq!(api.client::<config::Gab>(), Some(&gab::Client { config: gab_config("first") }));
}

#[test]
fn configure_twice_keeps_the_first_client() {
    let calls = Cell::new(0u32);
    let mut api = API::new(config::Settings { timeout: 5 });
    let first = api.configure(gab_config("first"), |config| {
        calls.set(calls.get() + 1);
        Ok(gab::Client::new(config))
    });
    assert_eq!(first, Ok(()));
    assert_eq!(calls.get(), 1);
    let second = api.configure(gab_config("second"), |config| {
        calls.set(calls.get() + 1);
        Ok(gab::Client::new(config))
    });
    assert_eq!(second, Ok(()));
    assert_eq!(calls.get(), 1);
    assert_eq!(api.client::<config::Gab>(), Some(&gab::Client { config: gab_config("first") }));
}

#[test]
fn configure_twice_succeeds_even_where_setting_up_would_fail() {
    let mut api = API::new(config::Settings { timeout: 5 });
    assert_eq!(api.configure(twitter_config(), |config| Ok(twitter::Client::new(config))), Ok(()));
    let again = api.configure(twitter_config(), |_| {
        Err(ApiError::Twitter(PlatformError::Unauthorized))
    });
    assert_eq!(again, Ok(()));
    assert_eq!(api.client::<config::Twitter>(), Some(&twitter::Client::new(twitter_config())));
}

#[test]
fn a_failed_set_up_is_reported_and_changes_nothing() {
    let mut api = API::new(config::Settings { timeout: 5 });
    assert_eq!(api.configure(gab_config("kept"), |config| Ok(gab::Client::new(config))), Ok(()));
    let failed = api.configure(
        config::Minds { username: "me".to_string(), password: "wrong".to_string() },
        |_| Err(ApiError::Minds(PlatformError::Status(401))),
    );
    assert_eq!(failed, Err(ApiError::Minds(PlatformError::Status(401))));
    assert!(!api.is_enabled(PlatformId::Minds));
    assert!(api.is_enabled(PlatformId::Gab));
    assert_eq!(api.client::<config::Gab>(), Some(&gab::Client { config: gab_config("kept") }));
    let retried = api.configure(
        config::Minds { username: "me".to_string(), password: "right".to_string() },
        |_| Ok(Minds::Started(login())),
    );
    assert_eq!(retried, Ok(()));
    assert_eq!(api.client::<config::Minds>(), Some(&Minds::Started(login())));
}

#[test]
fn disable_hands_the_client_back_once() {
    let mut api = API::new(config::Settings { timeout: 5 });
    assert_eq!(api.configure(gab_config("mine"), |config| Ok(gab::Client::new(config))), Ok(()));
    let taken = api.disable::<config::Gab>();
    assert_eq!(taken, Some(gab::Client { config: gab_config("mine") }));
    assert!(!api.is_enabled(PlatformId::Gab));
    assert_eq!(api.disable::<config::Gab>(), None);
    assert_eq!(api.disable::<config::Twitter>(), None);
}

#[test]
fn enable_puts_a_client_back_and_clears_with_nothing() {
    let mut api = API::new(config::Settings { timeout: 5 });
    assert_eq!(api.configure(gab_config("mine"), |config| Ok(gab::Client::new(config))), Ok(()));
    let taken = api.disable::<config::Gab>();
    api.enable::<config::Gab>(taken);
    assert_eq!(api.client::<config::Gab>(), Some(&gab::Client { config: gab_config("mine") }));
    api.enable::<config::Gab>(None);
    assert!(!api.is_enabled(PlatformId::Gab));
}

#[test]
fn enable_replaces_what_the_slot_holds() {
    let mut api = API::new(config::Settings { timeout: 5 });
    api.enable::<config::Gab>(Some(gab::Client::new(gab_config("old"))));
    api.enable::<config::Gab>(Some(gab::Client::new(gab_config("new"))));
    assert_eq!(api.client::<config::Gab>(), Some(&gab::Client { config: gab_config("new") }));
}

#[test]
fn each_platform_has_a_slot_of_its_own() {
    let mut api = API::new(config::Settings { timeout: 5 });
    api.enable::<config::Twitter>(Some(twitter::Client::new(twitter_config())));
    api.enable::<config::Mastodon>(Some(mastodon::Client::new(config::Mastodon {
        host: "https://example.social".to_string(),
        access_token: "m".to_string(),
    })));
    api.enable::<config::Minds>(Some(Minds::Started(login())));
    assert!(api.is_enabled(PlatformId::Twitter));
    assert!(!api.is_enabled(PlatformId::Gab));
    assert!(api.is_enabled(PlatformId::Mastodon));
    assert!(api.is_enabled(PlatformId::Minds));
    assert!(api.disable::<config::Mastodon>().is_some());
    assert!(api.is_enabled(PlatformId::Twitter));
    assert!(!api.is_enabled(PlatformId::Mastodon));
    assert!(api.is_enabled(PlatformId::Minds));
}

#[test]
fn minds_is_authorized_once_it_holds_a_login() {
    let mut api = API::new(config::Settings { timeout: 5 });
    api.enable::<config::Minds>(Some(Minds::new(config::Minds {
        username: "me".to_string(),
        password: "secret".to_string(),
    })));
    assert!(api.is_enabled(PlatformId::Minds));
    assert!(!api.is_authorized(PlatformId::Minds));
    api.enable::<config::Minds>(Some(Minds::Started(login())));
    assert!(api.is_authorized(PlatformId::Minds));
}
