use waterctl::control::{
    Command, Control, ControlMode, Job, ManualControl, Ventil, VentilGruppe, Waterbreach,
};
use waterctl::hal::FakeOutputPin;
use waterctl::time::{Date, DateTime, Duration, Time};

type FakeControl = Control<FakeOutputPin, FakeOutputPin, FakeOutputPin, FakeOutputPin>;

fn fresh_control(start: DateTime) -> FakeControl {
    Control {
        start_time: start,
        current_time: start,
        ventil_gruppe: VentilGruppe::new(
            FakeOutputPin::new(),
            FakeOutputPin::new(),
            FakeOutputPin::new(),
            FakeOutputPin::new(),
        ),
        control_mode: ControlMode::Automatic(Job::Idle, Job::Idle),
        already_cleaned: false,
        distance: None,
        water_breach: Waterbreach(None),
    }
}

fn valve_states(c: &FakeControl) -> (bool, bool, bool, bool) {
    (
        c.ventil_gruppe.einlass.is_open(),
        c.ventil_gruppe.abwasser.is_open(),
        c.ventil_gruppe.filterwasser.is_open(),
        c.ventil_gruppe.bridge.is_open(),
    )
}

#[test]
fn test_nightly_clean_is_scheduled() {
    let start = Date::from_ymd(2024, 5, 1).with_hms(0, 0, 0);
    let mut c = fresh_control(start);
    let now = Date::from_ymd(2024, 5, 1).with_hms(3, 30, 0);
    c.tick(now, None, false);
    assert_eq!(
        c.control_mode,
        ControlMode::Automatic(
            Job::Clean(Date::from_ymd(2024, 5, 1).with_hms(3, 30, 10)),
            Job::Idle
        )
    );
    assert!(c.already_cleaned);
}

#[test]
fn test_nightly_clean_fires_once_per_session() {
    let start = Date::from_ymd(2024, 5, 1).with_hms(0, 0, 0);
    let mut c = fresh_control(start);
    c.already_cleaned = true;
    let now = Date::from_ymd(2024, 5, 1).with_hms(3, 30, 0);
    c.tick(now, None, false);
    assert_eq!(c.control_mode, ControlMode::Automatic(Job::Idle, Job::Idle));
}

#[test]
fn test_needs_cleaning_window_boundaries() {
    let start = Date::from_ymd(2024, 5, 1).with_hms(0, 0, 0);
    let c = fresh_control(start);
    assert!(!c.needs_cleaning(Time::from_hms(3, 0, 0)));
    assert!(c.needs_cleaning(Time::from_hms(3, 0, 1)));
    assert!(c.needs_cleaning(Time::from_hms(4, 0, 0)));
    assert!(!c.needs_cleaning(Time::from_hms(4, 0, 1)));
    assert!(!c.needs_cleaning(Time::from_hms(2, 59, 59)));
}

#[test]
fn test_idle_schedules_clean_on_far_distance() {
    let start = Date::from_ymd(2024, 5, 1).with_hms(12, 0, 0);
    let mut c = fresh_control(start);
    c.distance = Some(51);
    let now = Date::from_ymd(2024, 5, 1).with_hms(12, 0, 4);
    c.tick(now, None, false);
    assert_eq!(
        c.control_mode,
        ControlMode::Automatic(
            Job::Clean(Date::from_ymd(2024, 5, 1).with_hms(12, 0, 9)),
            Job::Filter
        )
    );
}

#[test]
fn test_idle_stays_idle_on_near_distance() {
    let start = Date::from_ymd(2024, 5, 1).with_hms(12, 0, 0);
    let mut c = fresh_control(start);
    c.distance = Some(50);
    c.tick(start, None, false);
    assert_eq!(c.control_mode, ControlMode::Automatic(Job::Idle, Job::Idle));
    assert_eq!(valve_states(&c), (false, false, false, false));
}

#[test]
fn test_filter_schedules_clean_on_close_distance() {
    let start = Date::from_ymd(2024, 5, 1).with_hms(12, 0, 0);
    let mut c = fresh_control(start);
    c.control_mode = ControlMode::Automatic(Job::Filter, Job::Idle);
    c.distance = Some(5);
    c.tick(start, None, false);
    assert_eq!(
        c.control_mode,
        ControlMode::Automatic(
            Job::Clean(Date::from_ymd(2024, 5, 1).with_hms(12, 0, 5)),
            Job::Idle
        )
    );
}

#[test]
fn test_filter_treats_missing_reading_as_close() {
    let start = Date::from_ymd(2024, 5, 1).with_hms(12, 0, 0);
    let mut c = fresh_control(start);
    c.control_mode = ControlMode::Automatic(Job::Filter, Job::Idle);
    c.distance = None;
    c.tick(start, None, false);
    assert_eq!(
        c.control_mode,
        ControlMode::Automatic(
            Job::Clean(Date::from_ymd(2024, 5, 1).with_hms(12, 0, 5)),
            Job::Idle
        )
    );
}

#[test]
fn test_filter_keeps_filtering_on_clear_reading() {
    let start = Date::from_ymd(2024, 5, 1).with_hms(12, 0, 0);
    let mut c = fresh_control(start);
    c.control_mode = ControlMode::Automatic(Job::Filter, Job::Idle);
    c.distance = Some(10);
    c.tick(start, None, false);
    assert_eq!(c.control_mode, ControlMode::Automatic(Job::Filter, Job::Idle));
    assert_eq!(valve_states(&c), (true, true, true, false));
}

#[test]
fn test_clean_runs_until_stop_time() {
    let stop = Date::from_ymd(2024, 5, 1).with_hms(12, 0, 10);
    let start = Date::from_ymd(2024, 5, 1).with_hms(12, 0, 0);
    let mut c = fresh_control(start);
    c.control_mode = ControlMode::Automatic(Job::Clean(stop), Job::Idle);
    c.tick(Date::from_ymd(2024, 5, 1).with_hms(12, 0, 9), None, false);
    assert_eq!(c.control_mode, ControlMode::Automatic(Job::Clean(stop), Job::Idle));
    assert_eq!(valve_states(&c), (true, true, false, true));
    c.tick(Date::from_ymd(2024, 5, 1).with_hms(12, 0, 10), None, false);
    assert_eq!(c.control_mode, ControlMode::Automatic(Job::Idle, Job::Idle));
}

#[test]
fn test_clean_hands_over_to_filter() {
    let stop = Date::from_ymd(2024, 5, 1).with_hms(12, 0, 10);
    let start = Date::from_ymd(2024, 5, 1).with_hms(12, 0, 0);
    let mut c = fresh_control(start);
    c.control_mode = ControlMode::Automatic(Job::Clean(stop), Job::Filter);
    c.tick(Date::from_ymd(2024, 5, 1).with_hms(12, 0, 11), None, false);
    assert_eq!(c.control_mode, ControlMode::Automatic(Job::Filter, Job::Idle));
}

#[test]
fn test_unexpected_job_pairing_idles() {
    let stop = Date::from_ymd(2024, 5, 1).with_hms(12, 0, 10);
    let start = Date::from_ymd(2024, 5, 1).with_hms(12, 0, 0);
    let mut c = fresh_control(start);
    c.control_mode = ControlMode::Automatic(Job::Clean(stop), Job::Clean(stop));
    c.tick(Date::from_ymd(2024, 5, 1).with_hms(12, 0, 20), None, false);
    assert_eq!(c.control_mode, ControlMode::Automatic(Job::Clean(stop), Job::Clean(stop)));
    assert_eq!(valve_states(&c), (false, false, false, false));
}

#[test]
fn test_breach_latches_and_idles() {
    let start = Date::from_ymd(2024, 5, 1).with_hms(12, 0, 0);
    let mut c = fresh_control(start);
    c.distance = Some(80);
    let now = Date::from_ymd(2024, 5, 1).with_hms(12, 0, 4);
    c.tick(now, None, true);
    assert_eq!(c.control_mode, ControlMode::Breach);
    assert_eq!(c.water_breach, Waterbreach(Some(now)));
    assert_eq!(valve_states(&c), (false, false, false, false));
    assert!(!c.should_sample_distance());
}

#[test]
fn test_breach_persists_across_ticks_until_cleared() {
    let start = Date::from_ymd(2024, 5, 1).with_hms(12, 0, 0);
    let mut c = fresh_control(start);
    let latched = Date::from_ymd(2024, 5, 1).with_hms(12, 0, 4);
    c.tick(latched, None, true);
    // sensor back to normal: the latch and the mode persist
    c.tick(Date::from_ymd(2024, 5, 1).with_hms(12, 0, 8), None, false);
    assert_eq!(c.control_mode, ControlMode::Breach);
    assert_eq!(c.water_breach, Waterbreach(Some(latched)));
    assert!(!c.should_sample_distance());
    // the clear command unlatches the timestamp; the mode needs its own command
    c.tick(Date::from_ymd(2024, 5, 1).with_hms(12, 0, 12), Some(Command::ClearBreach), false);
    assert_eq!(c.water_breach, Waterbreach(None));
    assert_eq!(c.control_mode, ControlMode::Breach);
    c.tick(Date::from_ymd(2024, 5, 1).with_hms(12, 0, 16), Some(Command::Automatic), false);
    assert_eq!(c.control_mode, ControlMode::Automatic(Job::Idle, Job::Idle));
    assert!(c.should_sample_distance());
}

#[test]
fn test_command_on_breach_tick_wins_but_latch_stays() {
    let start = Date::from_ymd(2024, 5, 1).with_hms(12, 0, 0);
    let mut c = fresh_control(start);
    let now = Date::from_ymd(2024, 5, 1).with_hms(12, 0, 4);
    c.tick(now, Some(Command::Automatic), true);
    assert_eq!(c.control_mode, ControlMode::Automatic(Job::Idle, Job::Idle));
    assert_eq!(c.water_breach, Waterbreach(Some(now)));
}

#[test]
fn test_bridged_mode_drives_valves_directly() {
    let start = Date::from_ymd(2024, 5, 1).with_hms(12, 0, 0);
    let mut c = fresh_control(start);
    c.control_mode = ControlMode::Manual(ManualControl::Bridged(true, false, true, false));
    c.tick(start, None, false);
    assert_eq!(valve_states(&c), (true, false, true, false));
    assert_eq!(
        c.control_mode,
        ControlMode::Manual(ManualControl::Bridged(true, false, true, false))
    );
}

#[test]
fn test_manual_jobs_share_automatic_valve_policies() {
    let start = Date::from_ymd(2024, 5, 1).with_hms(12, 0, 0);
    let mut c = fresh_control(start);
    c.tick(start, Some(Command::ManualFilter), false);
    assert_eq!(valve_states(&c), (true, true, true, false));
    c.tick(start, Some(Command::ManualClean), false);
    assert_eq!(valve_states(&c), (true, true, false, true));
    assert_eq!(
        c.control_mode,
        ControlMode::Manual(ManualControl::CurrentJob(Job::Clean(
            Date::from_ymd(0, 0, 0).with_hms(0, 0, 0)
        )))
    );
    c.tick(start, Some(Command::ManualIdle), false);
    assert_eq!(valve_states(&c), (false, false, false, false));
}

#[test]
fn test_bridge_commands_open_one_valve_each() {
    let start = Date::from_ymd(2024, 5, 1).with_hms(12, 0, 0);
    let mut c = fresh_control(start);
    c.tick(start, Some(Command::BridgeInlet), false);
    assert_eq!(valve_states(&c), (true, false, false, false));
    c.tick(start, Some(Command::BridgeWastewater), false);
    assert_eq!(valve_states(&c), (false, true, false, false));
    c.tick(start, Some(Command::BridgeFilteredWater), false);
    assert_eq!(valve_states(&c), (false, false, true, false));
    c.tick(start, Some(Command::BridgeBridge), false);
    assert_eq!(valve_states(&c), (false, false, false, true));
}

#[test]
fn test_off_mode_closes_everything() {
    let start = Date::from_ymd(2024, 5, 1).with_hms(12, 0, 0);
    let mut c = fresh_control(start);
    c.control_mode = ControlMode::Manual(ManualControl::Bridged(true, true, true, true));
    c.tick(start, None, false);
    assert_eq!(valve_states(&c), (true, true, true, true));
    c.tick(start, Some(Command::Off), false);
    assert_eq!(c.control_mode, ControlMode::Off);
    assert_eq!(valve_states(&c), (false, false, false, false));
}

#[test]
fn test_valve_group_policies() {
    let mut g = VentilGruppe::new(
        FakeOutputPin::new(),
        FakeOutputPin::new(),
        FakeOutputPin::new(),
        FakeOutputPin::new(),
    );
    assert!(!g.einlass.is_open());
    g.set_filter();
    assert!(g.einlass.is_open() && g.abwasser.is_open() && g.filterwasser.is_open());
    assert!(!g.bridge.is_open());
    g.set_clean();
    assert!(g.einlass.is_open() && g.abwasser.is_open() && g.bridge.is_open());
    assert!(!g.filterwasser.is_open());
    g.set_idle();
    assert!(!g.einlass.is_open() && !g.abwasser.is_open());
    assert!(!g.filterwasser.is_open() && !g.bridge.is_open());
}

#[test]
fn test_single_valve_set_and_readback() {
    let mut v = Ventil::new(FakeOutputPin::new());
    assert!(!v.is_open());
    v.open();
    assert!(v.is_open());
    v.close();
    assert!(!v.is_open());
    v.set(true);
    assert!(v.is_open());
    v.set(false);
    assert!(!v.is_open());
}

#[test]
fn test_status_record_text() {
    let start = Date::from_ymd(2024, 1, 1).with_hms(10, 20, 30);
    let mut c = fresh_control(start);
    c.current_time = Date::from_ymd(2024, 1, 2).with_hms(11, 21, 31);
    c.control_mode = ControlMode::Off;
    let expected = "{\n            \"start_time\": \"2024:1:1:10:20:30\",\n            \"current_time\": \"2024:1:2:11:21:31\",\n            \"ventile\": {\n            \"einlass\": false,\n            \"abwasser\": false,\n            \"filterwasser\": false,\n            \"bridge\": false\n            },\n            \"mode\": {\n            \"name\": \"off\",\n            \"jobs\": []\n            },\n            \"distance\": \"0\",\n            \"water_breach\": \"None\"\n        }";
    assert_eq!(c.record(), expected);
}

#[test]
fn test_status_record_automatic_jobs_and_breach() {
    let start = Date::from_ymd(2024, 1, 1).with_hms(0, 0, 0);
    let mut c = fresh_control(start);
    c.control_mode = ControlMode::Automatic(
        Job::Clean(Date::from_ymd(2024, 1, 1).with_hms(3, 30, 10)),
        Job::Filter,
    );
    c.distance = Some(77);
    c.water_breach = Waterbreach(Some(Date::from_ymd(2024, 1, 1).with_hms(1, 2, 3)));
    let text = c.record();
    assert!(text.contains("\"name\": \"automatic\""));
    assert!(text.contains("\"Clean(2024:1:1:3:30:10)\""));
    assert!(text.contains("\"Filter\""));
    assert!(text.contains("\"distance\": \"77\""));
    assert!(text.contains("\"water_breach\": \"2024:1:1:1:2:3\""));
}

#[test]
fn test_status_record_manual_modes() {
    assert_eq!(
        ControlMode::Manual(ManualControl::Bridged(true, false, true, false)).record(),
        "{\n            \"name\": \"manual\",\n            \"jobs\": [\n                \"Bridged(true, false, true, false)\"\n            ]\n            }"
    );
    assert_eq!(
        ControlMode::Manual(ManualControl::CurrentJob(Job::Idle)).record(),
        "{\n            \"name\": \"manual\",\n            \"jobs\": [\n                \"CurrentJob(Idle)\"\n            ]\n            }"
    );
    assert_eq!(
        ControlMode::Breach.record(),
        "{\n            \"name\": \"breach\",\n            \"jobs\": []\n            }"
    );
}
