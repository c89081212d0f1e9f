use fmod_test_bed::engine::{init_settings, is_event_path, EngineState, MAX_CHANNELS};
use fmod_test_bed::envelope::{check, check_pair, check_playback_state, check_value};
use fmod_test_bed::error::Error;
use fmod_test_bed::flags::{INIT_RIGHTHANDED_3D, STUDIO_INIT_LIVEUPDATE};
use fmod_test_bed::instance::{
    instance_count_from_raw, is_playing, stop_mode, timeline_from_raw, timeline_to_raw,
};
use fmod_test_bed::kinds::{PlaybackState, StopMode};
use fmod_test_bed::load::{BankLoad, LoadAction};
use fmod_test_bed::play::{PlayEvent, PlayStep};
use fmod_test_bed::space::{
    planar_attributes, planar_position_velocity, Vec2Bits, Vec3Bits, F32_ONE, F32_ZERO,
};
use fmod_test_bed::status::FmodResult;
use u64_id::U64Id;

fn v2(x: f32, y: f32) -> Vec2Bits {
    Vec2Bits { x: x.to_bits(), y: y.to_bits() }
}

#[test]
fn init_settings_follow_live_update() {
    let on = init_settings(true);
    assert_eq!(on.max_channels, 1024);
    assert_eq!(MAX_CHANNELS, 1024);
    assert_eq!(on.studio_flags.bits(), STUDIO_INIT_LIVEUPDATE);
    assert_eq!(on.flags.bits(), INIT_RIGHTHANDED_3D);
    let off = init_settings(false);
    assert_eq!(off.studio_flags.bits(), 0);
    assert_eq!(off.flags.bits(), 4);
}

#[test]
fn event_paths_need_the_namespace_prefix() {
    assert!(is_event_path("event:/Music/Level 02"));
    assert!(is_event_path("event:/"));
    assert!(!is_event_path("event:"));
    assert!(!is_event_path(""));
    assert!(!is_event_path("bus:/"));
    assert!(!is_event_path("Event:/Music"));
    assert!(!is_event_path("snapshot:/x"));
}

#[test]
fn new_engine_is_empty_and_at_rest() {
    let s = EngineState::new();
    assert!(s.event_names().is_empty());
    assert_eq!(s.asset_id(), None);
    assert_eq!(s.listener_position(), v2(0.0, 0.0));
    assert_eq!(s.listener_velocity(), v2(0.0, 0.0));
    assert!(!s.should_update());
}

#[test]
fn listener_pose_is_kept_only_on_success() {
    let mut s = EngineState::new();
    let r = s.commit_listener(v2(15.0, 15.0), v2(5.0, 5.0), Ok(()));
    assert_eq!(r, Ok(()));
    assert_eq!(s.listener_position(), v2(15.0, 15.0));
    assert_eq!(s.listener_velocity(), v2(5.0, 5.0));

    let failure = Error::from_status("Studio_System_SetListenerAttributes", 31);
    let r = s.commit_listener(v2(1.0, 2.0), v2(3.0, 4.0), Err(failure));
    assert_eq!(r, Err(Error::from_status("Studio_System_SetListenerAttributes", 31)));
    assert_eq!(s.listener_position(), v2(15.0, 15.0));
    assert_eq!(s.listener_velocity(), v2(5.0, 5.0));
}

fn run_load(
    reports: &[Result<Vec<Result<&str, i32>>, i32>],
    count_fails_at: Option<usize>,
) -> BankLoad {
    let mut load = BankLoad::new(reports.len());
    let mut current: Vec<Result<&str, i32>> = vec![];
    let mut bank = 0;
    loop {
        match load.next_action() {
            LoadAction::LoadBank(i) => {
                bank = i;
                match &reports[i] {
                    Ok(paths) => {
                        current = paths.clone();
                        load.bank_loaded(Ok(()));
                    }
                    Err(code) => load.bank_loaded(Err(Error::from_status(
                        "Studio_System_LoadBankMemory",
                        *code,
                    ))),
                }
            }
            LoadAction::CountEvents => {
                if count_fails_at == Some(bank) {
                    load.events_counted(Err(Error::from_status("Studio_Bank_GetEventCount", 30)));
                } else {
                    load.events_counted(Ok(current.len() as i32));
                }
            }
            LoadAction::ListEvents(capacity) => {
                assert_eq!(capacity as usize, current.len());
                load.events_listed(Ok(current.len()));
            }
            LoadAction::ReadPath(j) => match current[j] {
                Ok(p) => load.path_read(Ok(p.to_string())),
                Err(code) => load.path_read(Err(Error::from_status(
                    "Studio_EventDescription_GetPath",
                    code,
                ))),
            },
            LoadAction::Finish => return load,
        }
    }
}

#[test]
fn load_collects_paths_in_bank_order() {
    let reports = vec![
        Ok(vec![]),
        Ok(vec![Ok("event:/Music/Level 01"), Ok("event:/Music/Level 02")]),
        Ok(vec![Ok("event:/UI/Click")]),
    ];
    let load = run_load(&reports, None);
    let mut s = EngineState::new();
    assert_eq!(s.finish_load(U64Id(7), load), Ok(()));
    assert_eq!(
        s.event_names(),
        &["event:/Music/Level 01", "event:/Music/Level 02", "event:/UI/Click"]
    );
    assert_eq!(s.asset_id(), Some(U64Id(7)));
    assert!(s.should_update());
}

#[test]
fn unreadable_paths_are_passed_over() {
    let reports = vec![Ok(vec![Ok("event:/A"), Err(65), Ok("event:/B")])];
    let load = run_load(&reports, None);
    let mut s = EngineState::new();
    assert_eq!(s.finish_load(U64Id(1), load), Ok(()));
    assert_eq!(s.event_names(), &["event:/A", "event:/B"]);
}

#[test]
fn load_stops_at_the_first_failing_bank() {
    let reports = vec![
        Ok(vec![Ok("event:/A")]),
        Err(13),
        Ok(vec![Ok("event:/C")]),
    ];
    let load = run_load(&reports, None);
    let mut s = EngineState::new();
    let r = s.finish_load(U64Id(3), load);
    assert_eq!(r, Err(Error::from_status("Studio_System_LoadBankMemory", 13)));
    assert_eq!(s.event_names(), &["event:/A"]);
    assert_eq!(s.asset_id(), None);
    assert!(!s.should_update());
}

#[test]
fn load_stops_when_a_bank_cannot_be_counted() {
    let reports = vec![Ok(vec![Ok("event:/A")]), Ok(vec![Ok("event:/B")])];
    let load = run_load(&reports, Some(1));
    let mut s = EngineState::new();
    let r = s.finish_load(U64Id(3), load);
    assert_eq!(r, Err(Error::from_status("Studio_Bank_GetEventCount", 30)));
    assert_eq!(s.event_names(), &["event:/A"]);
    assert_eq!(s.asset_id(), None);
}

#[test]
fn loading_nothing_still_records_the_asset() {
    let load = BankLoad::new(0);
    assert_eq!(load.next_action(), LoadAction::Finish);
    let mut s = EngineState::new();
    assert_eq!(s.finish_load(U64Id(9), load), Ok(()));
    assert!(s.event_names().is_empty());
    assert_eq!(s.asset_id(), Some(U64Id(9)));
}

#[test]
fn second_load_appends() {
    let mut s = EngineState::new();
    let first = run_load(&[Ok(vec![Ok("event:/A")])], None);
    assert_eq!(s.finish_load(U64Id(1), first), Ok(()));
    let second = run_load(&[Ok(vec![Ok("event:/B")])], None);
    assert_eq!(s.finish_load(U64Id(2), second), Ok(()));
    assert_eq!(s.event_names(), &["event:/A", "event:/B"]);
    assert_eq!(s.asset_id(), Some(U64Id(2)));
}

#[test]
fn envelopes_decode_status_first() {
    assert_eq!(check("Studio_System_Update", 0), Ok(()));
    assert_eq!(
        check("Studio_System_Update", 30),
        Err(Error::from_status("Studio_System_Update", 30))
    );
    assert_eq!(check_value("Studio_Bank_GetEventCount", 0, 12), Ok(12));
    assert_eq!(
        check_value("Studio_Bank_GetEventCount", 74, 12),
        Err(Error::from_status("Studio_Bank_GetEventCount", 74))
    );
    assert_eq!(check_pair("Studio_EventInstance_GetPitch", 0, 1u8, 2u8), Ok((1, 2)));
    assert_eq!(
        check_pair("Studio_EventInstance_GetPitch", 30, 1u8, 2u8),
        Err(Error::from_status("Studio_EventInstance_GetPitch", 30))
    );
}

#[test]
fn playback_state_envelope() {
    assert_eq!(
        check_playback_state("Studio_EventInstance_GetPlaybackState", 0, 2),
        Ok(PlaybackState::Stopped)
    );
    assert_eq!(
        check_playback_state("Studio_EventInstance_GetPlaybackState", 0, 9),
        Err(Error::unexpected_value("FMOD_STUDIO_PLAYBACK_STATE", 9))
    );
    let e = check_playback_state("Studio_EventInstance_GetPlaybackState", 30, 2).unwrap_err();
    assert_eq!(e.kind(), Some(FmodResult::ErrInvalidHandle));
}

#[test]
fn unknown_event_reports_event_not_found() {
    let e = check_value("Studio_System_GetEvent", 74, ()).unwrap_err();
    assert_eq!(e.kind(), Some(FmodResult::ErrEventNotFound));
    assert_eq!(instance_count_from_raw(0), 0);
    assert!(!is_playing(instance_count_from_raw(0)));
}

#[test]
fn planar_attributes_lift_into_3d() {
    let a = planar_attributes(v2(2.0, 3.0), v2(4.0, -5.0));
    assert_eq!(a.position, Vec3Bits { x: 2.0f32.to_bits(), y: 3.0f32.to_bits(), z: 0 });
    assert_eq!(a.velocity, Vec3Bits { x: 4.0f32.to_bits(), y: (-5.0f32).to_bits(), z: 0 });
    assert_eq!(a.forward, Vec3Bits { x: F32_ZERO, y: 1.0f32.to_bits(), z: F32_ZERO });
    assert_eq!(a.up, Vec3Bits { x: 0.0f32.to_bits(), y: 0.0f32.to_bits(), z: F32_ONE });
    let back = planar_position_velocity(&a);
    assert_eq!(back.position, v2(2.0, 3.0));
    assert_eq!(back.velocity, v2(4.0, -5.0));
    assert_eq!(Vec2Bits::zero(), v2(0.0, 0.0));
}

#[test]
fn timeline_and_counts() {
    assert_eq!(timeline_to_raw(5000), 5000);
    assert_eq!(timeline_to_raw(i32::MAX as u32), i32::MAX);
    assert_eq!(timeline_from_raw(5000), 5000);
    assert_eq!(timeline_from_raw(-1), u32::MAX);
    assert_eq!(instance_count_from_raw(3), 3);
    assert!(is_playing(3));
    assert!(!is_playing(0));
    assert_eq!(stop_mode(true), StopMode::Immediate);
    assert_eq!(stop_mode(false), StopMode::AllowFadeout);
}

fn drive(mut play: PlayEvent, fail_at: Option<&str>) -> (Vec<&'static str>, Option<Error>) {
    let mut seen = vec![];
    loop {
        let name = match play.next_step() {
            PlayStep::GetEvent => "get_event",
            PlayStep::CreateInstance => "create_instance",
            PlayStep::SetAttributes(_) => "set_3d_attributes",
            PlayStep::Start => "start",
            PlayStep::MarkForRelease => "release",
            PlayStep::Done => return (seen, play.into_failure()),
        };
        seen.push(name);
        if fail_at == Some(name) {
            play.step_done(Err(Error::from_status("Studio_System_GetEvent", 74)));
        } else {
            play.step_done(Ok(()));
        }
    }
}

#[test]
fn play_runs_every_step_in_order() {
    let attrs = planar_attributes(v2(1.0, 2.0), v2(0.0, 0.0));
    let (seen, failure) = drive(PlayEvent::play(Some(attrs)), None);
    assert_eq!(seen, ["get_event", "create_instance", "set_3d_attributes", "start", "release"]);
    assert_eq!(failure, None);
    let (seen, _) = drive(PlayEvent::play(None), None);
    assert_eq!(seen, ["get_event", "create_instance", "start", "release"]);
    let (seen, _) = drive(PlayEvent::create_only(), None);
    assert_eq!(seen, ["get_event", "create_instance"]);
}

#[test]
fn play_of_unknown_event_creates_no_instance() {
    let (seen, failure) = drive(PlayEvent::play(None), Some("get_event"));
    assert_eq!(seen, ["get_event"]);
    let failure = failure.unwrap();
    assert_eq!(failure.kind(), Some(FmodResult::ErrEventNotFound));
}

#[test]
fn play_stops_at_a_failed_start() {
    let (seen, failure) = drive(PlayEvent::play(None), Some("start"));
    assert_eq!(seen, ["get_event", "create_instance", "start"]);
    assert!(failure.is_some());
}

#[test]
fn stopped_and_released_instance_reports_invalid_handle() {
    // Replies of the middleware to: stop immediately, mark for release,
    // query the state, then a call after the instance was reclaimed.
    assert_eq!(check("Studio_EventInstance_Stop", 0), Ok(()));
    assert_eq!(check("Studio_EventInstance_Release", 0), Ok(()));
    assert_eq!(
        check_playback_state("Studio_EventInstance_GetPlaybackState", 0, 2),
        Ok(PlaybackState::Stopped)
    );
    let after = check("Studio_EventInstance_SetPaused", 30).unwrap_err();
    assert_eq!(after.kind(), Some(FmodResult::ErrInvalidHandle));
}

#[test]
fn reloading_after_unload_lists_each_path_once() {
    let mut s = EngineState::new();
    let first = run_load(&[Ok(vec![Ok("event:/A"), Ok("event:/B")])], None);
    assert_eq!(s.finish_load(U64Id(1), first), Ok(()));
    s.banks_unloaded();
    assert!(s.event_names().is_empty());
    assert_eq!(s.asset_id(), None);
    assert!(!s.should_update());
    let again = run_load(&[Ok(vec![Ok("event:/A"), Ok("event:/B")])], None);
    assert_eq!(s.finish_load(U64Id(1), again), Ok(()));
    assert_eq!(s.event_names(), &["event:/A", "event:/B"]);
}

#[test]
fn a_path_reported_twice_is_listed_once() {
    let mut s = EngineState::new();
    let reports = vec![
        Ok(vec![Ok("event:/A"), Ok("event:/B")]),
        Ok(vec![Ok("event:/B"), Ok("event:/C"), Ok("event:/A")]),
    ];
    let load = run_load(&reports, None);
    assert_eq!(s.finish_load(U64Id(4), load), Ok(()));
    assert_eq!(s.event_names(), &["event:/A", "event:/B", "event:/C"]);
    let more = run_load(&[Ok(vec![Ok("event:/C"), Ok("event:/D")])], None);
    assert_eq!(s.finish_load(U64Id(5), more), Ok(()));
    assert_eq!(s.event_names(), &["event:/A", "event:/B", "event:/C", "event:/D"]);
}

#[test]
fn unloading_keeps_the_listener_pose() {
    let mut s = EngineState::new();
    s.commit_listener(v2(1.0, 2.0), v2(3.0, 4.0), Ok(())).unwrap();
    s.banks_unloaded();
    assert_eq!(s.listener_position(), v2(1.0, 2.0));
    assert_eq!(s.listener_velocity(), v2(3.0, 4.0));
}
