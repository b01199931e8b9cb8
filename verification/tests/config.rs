use teams_status::configuration::{create_configuration, get_configuration, save_ha_configuration};
use teams_status::utils::{decrypt_if_needed, encrypt};

#[test]
fn empty_file_yields_defaults() {
    let conf = get_configuration("");
    let defaults = create_configuration();
    assert_eq!(conf.ha.url, defaults.ha.url);
    assert_eq!(conf.ha.long_live_token, defaults.ha.long_live_token);
    assert_eq!(conf.ha.icons.in_a_meeting, defaults.ha.icons.in_a_meeting);
    assert_eq!(conf.ha.icons.video_off, defaults.ha.icons.video_off);
    assert_eq!(conf.ha.entities.meeting_id, defaults.ha.entities.meeting_id);
    assert_eq!(conf.teams.url, defaults.teams.url);
    assert_eq!(conf.teams.api_token, defaults.teams.api_token);
}

#[test]
fn unreadable_file_yields_defaults() {
    let conf = get_configuration("[[[ not an ini file ===");
    let defaults = create_configuration();
    assert_eq!(conf.teams.url, defaults.teams.url);
    assert_eq!(conf.ha.url, defaults.ha.url);
}

#[test]
fn known_keys_override_defaults_and_unknown_ones_are_ignored() {
    let text = "[Teams]\nURL=ws://10.0.0.5:8124\nApiToken=enc!nekot\nNoSuchKey=1\n\
                [HomeAssistant]\nURL=http://ha.local:8123\nLongLiveToken=plainsecret\n\
                [Icons]\nInAMeeting=mdi:account\n\
                [Entities]\nMeetingId=sensor.custom\n\
                [NoSuchSection]\nFoo=Bar\n";
    let conf = get_configuration(text);
    assert_eq!(conf.teams.url, "ws://10.0.0.5:8124");
    // the stored token carries the marker, so it is decoded on load
    assert_eq!(conf.teams.api_token, "token");
    // a plain token is accepted verbatim
    assert_eq!(conf.ha.long_live_token, "plainsecret");
    assert_eq!(conf.ha.url, "http://ha.local:8123");
    assert_eq!(conf.ha.icons.in_a_meeting, "mdi:account");
    // untouched keys keep their defaults
    let defaults = create_configuration();
    assert_eq!(conf.ha.icons.video_on, defaults.ha.icons.video_on);
    assert_eq!(conf.ha.entities.meeting_id, "sensor.custom");
    assert_eq!(
        conf.ha.entities.video_id,
        defaults.ha.entities.video_id
    );
}

#[test]
fn empty_values_are_ignored() {
    let text = "[Teams]\nURL=\n[HomeAssistant]\nURL=\n";
    let conf = get_configuration(text);
    let defaults = create_configuration();
    assert_eq!(conf.teams.url, defaults.teams.url);
    assert_eq!(conf.ha.url, defaults.ha.url);
}

#[test]
fn saved_configuration_loads_back_unchanged() {
    let text = "[Teams]\nURL=ws://feed.local:8124\nApiToken=my-feed-token\n\
                [HomeAssistant]\nURL=http://hub.local:8123\nLongLiveToken=my-hub-token\n\
                [Icons]\nInAMeeting=mdi:busy\nNotInAMeeting=mdi:free\n\
                [Entities]\nMeetingId=sensor.m\nMeetingFriendlyName=Meeting\nVideoId=sensor.v\nVideoFriendlyName=Video\n";
    let conf = get_configuration(text);
    assert_eq!(conf.teams.api_token, "my-feed-token");
    let saved = save_ha_configuration(&conf);
    // the saved file stores both secrets obfuscated
    assert!(saved.contains("ApiToken=enc!nekot-deef-ym"));
    assert!(saved.contains("LongLiveToken=enc!nekot-buh-ym"));
    let reloaded = get_configuration(&saved);
    assert_eq!(reloaded.teams.url, conf.teams.url);
    assert_eq!(reloaded.teams.api_token, conf.teams.api_token);
    assert_eq!(reloaded.ha.url, conf.ha.url);
    assert_eq!(reloaded.ha.long_live_token, conf.ha.long_live_token);
    assert_eq!(reloaded.ha.icons.in_a_meeting, conf.ha.icons.in_a_meeting);
    assert_eq!(
        reloaded.ha.icons.not_in_a_meeting,
        conf.ha.icons.not_in_a_meeting
    );
    assert_eq!(
        reloaded.ha.entities.meeting_friendly_name,
        conf.ha.entities.meeting_friendly_name
    );
    assert_eq!(reloaded.ha.entities.video_id, conf.ha.entities.video_id);
}

#[test]
fn obfuscation_marks_and_reverses() {
    assert_eq!(encrypt("secret"), "enc!terces");
    assert_eq!(encrypt(""), "enc!");
}

#[test]
fn deobfuscation_restores_marked_values_and_keeps_plain_ones() {
    assert_eq!(decrypt_if_needed("enc!terces"), "secret");
    assert_eq!(decrypt_if_needed("plain-token"), "plain-token");
    assert_eq!(decrypt_if_needed("enc!"), "");
    assert_eq!(decrypt_if_needed("enc"), "enc");
    assert_eq!(decrypt_if_needed(&encrypt("round trip!")), "round trip!");
}
