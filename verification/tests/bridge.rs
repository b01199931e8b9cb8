use teams_status::session::{
    control_tick, supervisor_step, toggle_mute_command, ControlAction, SupervisorStep,
    TOGGLE_MUTE_MESSAGE,
};
use teams_status::teams_api::{decode_message, parse_data, DecodedEvent, TeamsAPI, FEED_URL_QUERY};
use teams_status::teams_states::TeamsStates;

fn fresh_states() -> TeamsStates {
    TeamsStates::new()
}

#[test]
fn first_message_updates_state_and_notifies_once() {
    let mut states = fresh_states();
    let msg = r#"{"meetingUpdate":{"meetingState":{"isInMeeting":true,"isVideoOn":false}}}"#;
    let notify = parse_data(msg, &mut states);
    assert_eq!(notify, Some((true, false)));
    assert_eq!(
        states,
        TeamsStates {
            is_in_meeting: true,
            is_video_on: false
        }
    );
}

#[test]
fn repeated_message_sends_no_second_notification() {
    let mut states = fresh_states();
    let msg = r#"{"meetingUpdate":{"meetingState":{"isInMeeting":true,"isVideoOn":false}}}"#;
    let first = parse_data(msg, &mut states);
    assert_eq!(first, Some((true, false)));
    let second = parse_data(msg, &mut states);
    assert_eq!(second, None);
    assert_eq!(
        states,
        TeamsStates {
            is_in_meeting: true,
            is_video_on: false
        }
    );
}

#[test]
fn frame_without_meeting_update_section_is_a_noop() {
    let mut states = fresh_states();
    let notify = parse_data(r#"{"tokenRefresh":"abc"}"#, &mut states);
    assert_eq!(notify, None);
    assert_eq!(states, fresh_states());
    assert_eq!(
        decode_message(r#"{"tokenRefresh":"abc"}"#),
        DecodedEvent::Ignored
    );
}

#[test]
fn malformed_frame_is_a_noop() {
    let mut states = fresh_states();
    let notify = parse_data("this is not a structured document {{{", &mut states);
    assert_eq!(notify, None);
    assert_eq!(states, fresh_states());
}

#[test]
fn missing_in_meeting_flag_defaults_to_false() {
    let msg = r#"{"meetingUpdate":{"meetingState":{"isVideoOn":true}}}"#;
    assert_eq!(
        decode_message(msg),
        DecodedEvent::Pair {
            in_meeting: false,
            video_on: true
        }
    );
    let mut states = fresh_states();
    let notify = parse_data(msg, &mut states);
    assert_eq!(notify, Some((false, true)));
}

#[test]
fn wrong_typed_flag_defaults_to_false() {
    let msg = r#"{"meetingUpdate":{"meetingState":{"isInMeeting":"yes","isVideoOn":true}}}"#;
    assert_eq!(
        decode_message(msg),
        DecodedEvent::Pair {
            in_meeting: false,
            video_on: true
        }
    );
}

#[test]
fn meeting_update_without_state_defaults_both_flags() {
    let mut states = fresh_states();
    let msg = r#"{"meetingUpdate":{"somethingElse":1}}"#;
    assert_eq!(
        decode_message(msg),
        DecodedEvent::Pair {
            in_meeting: false,
            video_on: false
        }
    );
    // the defaulted pair equals the fresh snapshot, so nothing is notified
    let notify = parse_data(msg, &mut states);
    assert_eq!(notify, None);
    assert_eq!(states, fresh_states());
}

#[test]
fn update_reports_change_exactly_when_a_field_differs() {
    let mut states = fresh_states();
    assert!(!states.update(false, false));
    assert!(states.update(true, false));
    assert!(states.update(true, true));
    assert!(!states.update(true, true));
    assert!(states.update(false, true));
    assert!(states.update(false, false));
}

#[test]
fn mute_toggle_request_sends_exactly_one_command() {
    let (action, flag) = control_tick(true, true);
    assert_eq!(action, ControlAction::SendToggleMute);
    assert!(!flag);
    assert_eq!(toggle_mute_command().as_str(), TOGGLE_MUTE_MESSAGE);
    let (next_action, next_flag) = control_tick(true, flag);
    assert_eq!(next_action, ControlAction::Idle);
    assert!(!next_flag);
}

#[test]
fn toggle_mute_command_is_the_fixed_envelope() {
    assert_eq!(
        toggle_mute_command().as_str(),
        r#"{"requestId":1,"apiVersion":"2.0.0","service":"toggle-mute","action":"toggle-mute"}"#
    );
}

#[test]
fn socket_close_restarts_session_with_fresh_state() {
    let mut states = fresh_states();
    let msg = r#"{"meetingUpdate":{"meetingState":{"isInMeeting":true,"isVideoOn":true}}}"#;
    parse_data(msg, &mut states);
    // the socket closes: the supervisor, still running, starts a new session
    assert_eq!(supervisor_step(true), SupervisorStep::RunSession);
    let conf = teams_status::configuration::create_configuration();
    let api = TeamsAPI::new(&conf.teams);
    assert_eq!(api.teams_states, fresh_states());
    // the fresh session re-notifies even a state identical to the old one
    let mut new_states = api.teams_states;
    assert_eq!(parse_data(msg, &mut new_states), Some((true, true)));
}

#[test]
fn shutdown_request_ends_session_and_stops_supervisor() {
    let (action, _) = control_tick(false, false);
    assert_eq!(action, ControlAction::Exit);
    // even a pending mute toggle does not keep the session alive
    let (action, _) = control_tick(false, true);
    assert_eq!(action, ControlAction::Exit);
    assert_eq!(supervisor_step(false), SupervisorStep::Stop);
}

#[test]
fn feed_url_carries_the_fixed_query_parameters() {
    let conf = teams_status::configuration::create_configuration();
    let api = TeamsAPI::new(&conf.teams);
    let expected = format!("{}{}", conf.teams.url, FEED_URL_QUERY);
    assert_eq!(api.url, expected);
    assert_eq!(
        FEED_URL_QUERY,
        "?protocol-version=2.0.0&manufacturer=HA-Integration&device=MyPC&app=teams-status-rs&app-version=1.0"
    );
}
