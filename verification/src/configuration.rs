//! Configuration of the bridge: the remote hub's address and token, the
//! local feed's address and token, and the display names the hub uses.
//! Loading merges the key-value items of an INI text over defaults, ignoring
//! unknown sections and keys and empty values; saving re-encodes the whole
//! file, obfuscating the secret fields.

use vstd::prelude::*;

use crate::utils::{decrypt_if_needed, decrypt_spec, encrypt, encrypt_spec};

verus! {

pub const HOME_ASSISTANT: &'static str = "HomeAssistant";

pub const HA_URL: &'static str = "URL";

pub const HA_LONG_LIVE_TOKEN: &'static str = "LongLiveToken";

pub const HA_ICONS: &'static str = "Icons";

pub const HA_IN_A_MEETING: &'static str = "InAMeeting";

pub const HA_NOT_IN_A_MEETING: &'static str = "NotInAMeeting";

pub const HA_VIDEO_ON: &'static str = "VideoOn";

pub const HA_VIDEO_OFF: &'static str = "VideoOff";

pub const HA_ENTITIES: &'static str = "Entities";

pub const HA_MEETING_ID: &'static str = "MeetingId";

pub const HA_MEETING_FRIENDLY_NAME: &'static str = "MeetingFriendlyName";

pub const HA_VIDEO_ID: &'static str = "VideoId";

pub const HA_VIDEO_FRIENDLY_NAME: &'static str = "VideoFriendlyName";

pub const TEAMS: &'static str = "Teams";

pub const TEAMS_URL: &'static str = "URL";

pub const TEAMS_API_TOKEN: &'static str = "ApiToken";

/// Icons the hub shows for each meeting state.
#[derive(Clone, Debug)]
pub struct HaIcons {
    pub in_a_meeting: String,
    pub not_in_a_meeting: String,
    pub video_on: String,
    pub video_off: String,
}

/// Identifiers and display names of the hub entities the bridge writes.
#[derive(Clone, Debug)]
pub struct HaEntities {
    pub meeting_id: String,
    pub meeting_friendly_name: String,
    pub video_id: String,
    pub video_friendly_name: String,
}

/// The remote hub's address, access token and entity naming.
#[derive(Clone, Debug)]
pub struct HaConfiguration {
    pub url: String,
    pub long_live_token: String,
    pub icons: HaIcons,
    pub entities: HaEntities,
}

/// The local feed's address and access token.
#[derive(Clone, Debug)]
pub struct TeamsConfiguration {
    pub url: String,
    pub api_token: String,
}

/// Everything a bridge session is configured with.
#[derive(Clone, Debug)]
pub struct Configuration {
    pub ha: HaConfiguration,
    pub teams: TeamsConfiguration,
}

/// Mathematical image of `HaIcons`.
pub struct HaIconsView {
    pub in_a_meeting: Seq<char>,
    pub not_in_a_meeting: Seq<char>,
    pub video_on: Seq<char>,
    pub video_off: Seq<char>,
}

/// Mathematical image of `HaEntities`.
pub struct HaEntitiesView {
    pub meeting_id: Seq<char>,
    pub meeting_friendly_name: Seq<char>,
    pub video_id: Seq<char>,
    pub video_friendly_name: Seq<char>,
}

/// Mathematical image of `HaConfiguration`.
pub struct HaConfigurationView {
    pub url: Seq<char>,
    pub long_live_token: Seq<char>,
    pub icons: HaIconsView,
    pub entities: HaEntitiesView,
}

/// Mathematical image of `TeamsConfiguration`.
pub struct TeamsConfigurationView {
    pub url: Seq<char>,
    pub api_token: Seq<char>,
}

/// Mathematical image of `Configuration`.
pub struct ConfigurationView {
    pub ha: HaConfigurationView,
    pub teams: TeamsConfigurationView,
}

impl View for HaIcons {
    type V = HaIconsView;

    open spec fn view(&self) -> HaIconsView {
        HaIconsView {
            in_a_meeting: self.in_a_meeting@,
            not_in_a_meeting: self.not_in_a_meeting@,
            video_on: self.video_on@,
            video_off: self.video_off@,
        }
    }
}

impl View for HaEntities {
    type V = HaEntitiesView;

    open spec fn view(&self) -> HaEntitiesView {
        HaEntitiesView {
            meeting_id: self.meeting_id@,
            meeting_friendly_name: self.meeting_friendly_name@,
            video_id: self.video_id@,
            video_friendly_name: self.video_friendly_name@,
        }
    }
}

impl View for HaConfiguration {
    type V = HaConfigurationView;

    open spec fn view(&self) -> HaConfigurationView {
        HaConfigurationView {
            url: self.url@,
            long_live_token: self.long_live_token@,
            icons: self.icons@,
            entities: self.entities@,
        }
    }
}

impl View for TeamsConfiguration {
    type V = TeamsConfigurationView;

    open spec fn view(&self) -> TeamsConfigurationView {
        TeamsConfigurationView { url: self.url@, api_token: self.api_token@ }
    }
}

impl View for Configuration {
    type V = ConfigurationView;

    open spec fn view(&self) -> ConfigurationView {
        ConfigurationView { ha: self.ha@, teams: self.teams@ }
    }
}

/// The configuration used when the file supplies nothing.
pub open spec fn default_configuration_view() -> ConfigurationView {
    ConfigurationView {
        ha: HaConfigurationView {
            url: "http://localhost:8123"@,
            long_live_token: ""@,
            icons: HaIconsView {
                in_a_meeting: "mdi:phone-in-talk"@,
                not_in_a_meeting: "mdi:phone-off"@,
                video_on: "mdi:video"@,
                video_off: "mdi:video-off"@,
            },
            entities: HaEntitiesView {
                meeting_id: "sensor.teams_meeting"@,
                meeting_friendly_name: "Teams Meeting"@,
                video_id: "sensor.teams_video"@,
                video_friendly_name: "Teams Video"@,
            },
        },
        teams: TeamsConfigurationView { url: "ws://localhost:8124"@, api_token: ""@ },
    }
}

/// A configuration holding every default value.
pub fn create_configuration() -> (conf: Configuration)
    ensures
        conf@ == default_configuration_view(),
{
    Configuration {
        ha: HaConfiguration {
            url: String::from_str("http://localhost:8123"),
            long_live_token: String::from_str(""),
            icons: HaIcons {
                in_a_meeting: String::from_str("mdi:phone-in-talk"),
                not_in_a_meeting: String::from_str("mdi:phone-off"),
                video_on: String::from_str("mdi:video"),
                video_off: String::from_str("mdi:video-off"),
            },
            entities: HaEntities {
                meeting_id: String::from_str("sensor.teams_meeting"),
                meeting_friendly_name: String::from_str("Teams Meeting"),
                video_id: String::from_str("sensor.teams_video"),
                video_friendly_name: String::from_str("Teams Video"),
            },
        },
        teams: TeamsConfiguration {
            url: String::from_str("ws://localhost:8124"),
            api_token: String::from_str(""),
        },
    }
}

/// What one key-value item under one section does to the configuration:
/// empty values and unknown sections or keys change nothing, token keys are
/// decoded on the way in.
pub open spec fn apply_setting_spec(
    c: ConfigurationView,
    sec: Seq<char>,
    key: Seq<char>,
    value: Seq<char>,
) -> ConfigurationView {
    if value.len() == 0 {
        c
    } else if sec == HOME_ASSISTANT@ {
        if key == HA_LONG_LIVE_TOKEN@ {
            ConfigurationView {
                ha: HaConfigurationView { long_live_token: decrypt_spec(value), ..c.ha },
                ..c
            }
        } else if key == HA_URL@ {
            ConfigurationView { ha: HaConfigurationView { url: value, ..c.ha }, ..c }
        } else {
            c
        }
    } else if sec == HA_ICONS@ {
        if key == HA_IN_A_MEETING@ {
            ConfigurationView {
                ha: HaConfigurationView {
                    icons: HaIconsView { in_a_meeting: value, ..c.ha.icons },
                    ..c.ha
                },
                ..c
            }
        } else if key == HA_NOT_IN_A_MEETING@ {
            ConfigurationView {
                ha: HaConfigurationView {
                    icons: HaIconsView { not_in_a_meeting: value, ..c.ha.icons },
                    ..c.ha
                },
                ..c
            }
        } else if key == HA_VIDEO_ON@ {
            ConfigurationView {
                ha: HaConfigurationView {
                    icons: HaIconsView { video_on: value, ..c.ha.icons },
                    ..c.ha
                },
                ..c
            }
        } else if key == HA_VIDEO_OFF@ {
            ConfigurationView {
                ha: HaConfigurationView {
                    icons: HaIconsView { video_off: value, ..c.ha.icons },
                    ..c.ha
                },
                ..c
            }
        } else {
            c
        }
    } else if sec == HA_ENTITIES@ {
        if key == HA_MEETING_ID@ {
            ConfigurationView {
                ha: HaConfigurationView {
                    entities: HaEntitiesView { meeting_id: value, ..c.ha.entities },
                    ..c.ha
                },
                ..c
            }
        } else if key == HA_MEETING_FRIENDLY_NAME@ {
            ConfigurationView {
                ha: HaConfigurationView {
                    entities: HaEntitiesView { meeting_friendly_name: value, ..c.ha.entities },
                    ..c.ha
                },
                ..c
            }
        } else if key == HA_VIDEO_ID@ {
            ConfigurationView {
                ha: HaConfigurationView {
                    entities: HaEntitiesView { video_id: value, ..c.ha.entities },
                    ..c.ha
                },
                ..c
            }
        } else if key == HA_VIDEO_FRIENDLY_NAME@ {
            ConfigurationView {
                ha: HaConfigurationView {
                    entities: HaEntitiesView { video_friendly_name: value, ..c.ha.entities },
                    ..c.ha
                },
                ..c
            }
        } else {
            c
        }
    } else if sec == TEAMS@ {
        if key == TEAMS_URL@ {
            ConfigurationView {
                teams: TeamsConfigurationView { url: value, ..c.teams },
                ..c
            }
        } else if key == TEAMS_API_TOKEN@ {
            ConfigurationView {
                teams: TeamsConfigurationView { api_token: decrypt_spec(value), ..c.teams },
                ..c
            }
        } else {
            c
        }
    } else {
        c
    }
}

/// Applies one key-value item of the configuration file.
pub fn apply_setting(conf: &mut Configuration, sec: &str, key: &str, value: &str)
    ensures
        final(conf)@ == apply_setting_spec(old(conf)@, sec@, key@, value@),
{
    if value.is_empty() {
        return ;
    }
    if crate::utils::str_eq(sec, HOME_ASSISTANT) {
        if crate::utils::str_eq(key, HA_LONG_LIVE_TOKEN) {
            conf.ha.long_live_token = decrypt_if_needed(value);
        } else if crate::utils::str_eq(key, HA_URL) {
            conf.ha.url = value.to_owned();
        }
    } else if crate::utils::str_eq(sec, HA_ICONS) {
        if crate::utils::str_eq(key, HA_IN_A_MEETING) {
            conf.ha.icons.in_a_meeting = value.to_owned();
        } else if crate::utils::str_eq(key, HA_NOT_IN_A_MEETING) {
            conf.ha.icons.not_in_a_meeting = value.to_owned();
        } else if crate::utils::str_eq(key, HA_VIDEO_ON) {
            conf.ha.icons.video_on = value.to_owned();
        } else if crate::utils::str_eq(key, HA_VIDEO_OFF) {
            conf.ha.icons.video_off = value.to_owned();
        }
    } else if crate::utils::str_eq(sec, HA_ENTITIES) {
        if crate::utils::str_eq(key, HA_MEETING_ID) {
            conf.ha.entities.meeting_id = value.to_owned();
        } else if crate::utils::str_eq(key, HA_MEETING_FRIENDLY_NAME) {
            conf.ha.entities.meeting_friendly_name = value.to_owned();
        } else if crate::utils::str_eq(key, HA_VIDEO_ID) {
            conf.ha.entities.video_id = value.to_owned();
        } else if crate::utils::str_eq(key, HA_VIDEO_FRIENDLY_NAME) {
            conf.ha.entities.video_friendly_name = value.to_owned();
        }
    } else if crate::utils::str_eq(sec, TEAMS) {
        if crate::utils::str_eq(key, TEAMS_URL) {
            conf.teams.url = value.to_owned();
        } else if crate::utils::str_eq(key, TEAMS_API_TOKEN) {
            conf.teams.api_token = decrypt_if_needed(value);
        }
    }
}

/// The key-value items an INI text holds, in file order: section name (none
/// for items above the first section header), key, value. Relied on below;
/// an unparsable text holds no items.
pub uninterp spec fn ini_items_of(text: Seq<char>) -> Seq<(Option<Seq<char>>, Seq<char>, Seq<char>)>;

/// The views of parsed items, for stating what the parser returned.
pub open spec fn ini_item_views(items: Seq<(Option<String>, String, String)>) -> Seq<
    (Option<Seq<char>>, Seq<char>, Seq<char>),
> {
    Seq::new(
        items.len(),
        |i: int|
            (
                match items[i].0 {
                    Some(s) => Some(s@),
                    None => None,
                },
                items[i].1@,
                items[i].2@,
            ),
    )
}

/// Relies on ini::Ini::load_from_str and its section and property iterators:
/// the key-value items of the INI text in file order, a function of the text
/// alone; an unparsable text yields none.
#[verifier::external_body]
fn parse_ini_items(text: &str) -> (items: Vec<(Option<String>, String, String)>)
    ensures
        ini_item_views(items@) == ini_items_of(text@),
{
    let mut out = Vec::new();
    if let Ok(ini) = ini::Ini::load_from_str(text) {
        for (sec, prop) in ini.iter() {
            for (k, v) in prop.iter() {
                out.push((sec.map(|s| s.to_string()), k.to_string(), v.to_string()));
            }
        }
    }
    out
}

/// What one parsed item does: items outside any section are ignored.
pub open spec fn apply_item_spec(
    c: ConfigurationView,
    item: (Option<Seq<char>>, Seq<char>, Seq<char>),
) -> ConfigurationView {
    match item.0 {
        Some(sec) => apply_setting_spec(c, sec, item.1, item.2),
        None => c,
    }
}

/// The configuration after every item of the file has been applied in order.
pub open spec fn load_spec(
    c: ConfigurationView,
    items: Seq<(Option<Seq<char>>, Seq<char>, Seq<char>)>,
) -> ConfigurationView
    decreases items.len(),
{
    if items.len() == 0 {
        c
    } else {
        apply_item_spec(load_spec(c, items.drop_last()), items.last())
    }
}

/// Merges the items of the INI text over the given configuration, in file
/// order.
pub fn load_configuration(conf: &mut Configuration, text: &str)
    ensures
        final(conf)@ == load_spec(old(conf)@, ini_items_of(text@)),
{
    let items = parse_ini_items(text);
    let ghost item_views = ini_items_of(text@);
    let n = items.len();
    let mut idx: usize = 0;
    while idx < n
        invariant
            n == items@.len(),
            ini_item_views(items@) == item_views,
            item_views == ini_items_of(text@),
            idx <= n,
            conf@ == load_spec(old(conf)@, item_views.take(idx as int)),
        decreases n - idx,
    {
        proof {
            assert(item_views[idx as int] == ini_item_views(items@)[idx as int]);
            assert(item_views.take(idx + 1).drop_last() =~= item_views.take(idx as int));
            assert(item_views.take(idx + 1).last() == item_views[idx as int]);
        }
        let item = &items[idx];
        match &item.0 {
            Some(sec) => {
                apply_setting(conf, sec.as_str(), item.1.as_str(), item.2.as_str());
            },
            None => {},
        }
        idx += 1;
    }
    proof {
        assert(item_views.take(n as int) =~= item_views);
    }
}

/// The configuration the file text describes: defaults, overridden by every
/// item of the text in order.
pub fn get_configuration(text: &str) -> (conf: Configuration)
    ensures
        conf@ == load_spec(default_configuration_view(), ini_items_of(text@)),
{
    let mut conf = create_configuration();
    load_configuration(&mut conf, text);
    conf
}

/// The INI text that a set of section-key-value items renders to. Relied on
/// below; a function of the items alone.
pub uninterp spec fn ini_render_of(items: Seq<(Seq<char>, Seq<char>, Seq<char>)>) -> Seq<char>;

/// The views of the items handed to the renderer.
pub open spec fn triple_views(items: Seq<(String, String, String)>) -> Seq<
    (Seq<char>, Seq<char>, Seq<char>),
> {
    Seq::new(items.len(), |i: int| (items[i].0@, items[i].1@, items[i].2@))
}

/// Relies on ini::Ini: sections built with with_section and set in item
/// order, serialized by write_to. The text is a function of the items alone.
#[verifier::external_body]
fn render_ini(items: &Vec<(String, String, String)>) -> (text: String)
    ensures
        text@ == ini_render_of(triple_views(items@)),
{
    let mut ini = ini::Ini::new();
    for it in items.iter() {
        ini.with_section(Some(it.0.as_str())).set(it.1.as_str(), it.2.as_str());
    }
    let mut buf: Vec<u8> = Vec::new();
    let _ = ini.write_to(&mut buf);
    String::from_utf8(buf).unwrap_or_default()
}

/// The items a configuration is saved as, in file order, with both secret
/// fields obfuscated.
pub open spec fn save_items_spec(c: ConfigurationView) -> Seq<(Seq<char>, Seq<char>, Seq<char>)> {
    seq![
        (TEAMS@, TEAMS_URL@, c.teams.url),
        (TEAMS@, TEAMS_API_TOKEN@, encrypt_spec(c.teams.api_token)),
        (HOME_ASSISTANT@, HA_URL@, c.ha.url),
        (HOME_ASSISTANT@, HA_LONG_LIVE_TOKEN@, encrypt_spec(c.ha.long_live_token)),
        (HA_ICONS@, HA_IN_A_MEETING@, c.ha.icons.in_a_meeting),
        (HA_ICONS@, HA_NOT_IN_A_MEETING@, c.ha.icons.not_in_a_meeting),
        (HA_ENTITIES@, HA_MEETING_ID@, c.ha.entities.meeting_id),
        (HA_ENTITIES@, HA_MEETING_FRIENDLY_NAME@, c.ha.entities.meeting_friendly_name),
        (HA_ENTITIES@, HA_VIDEO_ID@, c.ha.entities.video_id),
        (HA_ENTITIES@, HA_VIDEO_FRIENDLY_NAME@, c.ha.entities.video_friendly_name),
    ]
}

/// Renders the configuration as the INI text to be written back to disk,
/// with the secret fields obfuscated.
pub fn save_ha_configuration(conf: &Configuration) -> (text: String)
    ensures
        text@ == ini_render_of(save_items_spec(conf@)),
{
    let mut items: Vec<(String, String, String)> = Vec::new();
    items.push(
        (String::from_str(TEAMS), String::from_str(TEAMS_URL), conf.teams.url.clone()),
    );
    items.push(
        (
            String::from_str(TEAMS),
            String::from_str(TEAMS_API_TOKEN),
            encrypt(conf.teams.api_token.as_str()),
        ),
    );
    items.push(
        (String::from_str(HOME_ASSISTANT), String::from_str(HA_URL), conf.ha.url.clone()),
    );
    items.push(
        (
            String::from_str(HOME_ASSISTANT),
            String::from_str(HA_LONG_LIVE_TOKEN),
            encrypt(conf.ha.long_live_token.as_str()),
        ),
    );
    items.push(
        (
            String::from_str(HA_ICONS),
            String::from_str(HA_IN_A_MEETING),
            conf.ha.icons.in_a_meeting.clone(),
        ),
    );
    items.push(
        (
            String::from_str(HA_ICONS),
            String::from_str(HA_NOT_IN_A_MEETING),
            conf.ha.icons.not_in_a_meeting.clone(),
        ),
    );
    items.push(
        (
            String::from_str(HA_ENTITIES),
            String::from_str(HA_MEETING_ID),
            conf.ha.entities.meeting_id.clone(),
        ),
    );
    items.push(
        (
            String::from_str(HA_ENTITIES),
            String::from_str(HA_MEETING_FRIENDLY_NAME),
            conf.ha.entities.meeting_friendly_name.clone(),
        ),
    );
    items.push(
        (
            String::from_str(HA_ENTITIES),
            String::from_str(HA_VIDEO_ID),
            conf.ha.entities.video_id.clone(),
        ),
    );
    items.push(
        (
            String::from_str(HA_ENTITIES),
            String::from_str(HA_VIDEO_FRIENDLY_NAME),
            conf.ha.entities.video_friendly_name.clone(),
        ),
    );
    proof {
        assert(triple_views(items@) =~= save_items_spec(conf@));
    }
    render_ini(&items)
}

} // verus!
