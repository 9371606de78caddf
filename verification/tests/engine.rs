use pbs_engine::engine::debug_output::{message_type_to_str, severity_to_str};
use pbs_engine::engine::{check_graphics_api_version, GraphicsApiError};
use pbs_engine::math::UVec2;
use pbs_engine::scene::{SceneCall, SceneManager, Transition};
use pbs_engine::{ApplicationData, Msaa, Rectangle, Version};

#[test]
fn rectangle_new_keeps_its_fields() {
    let r = Rectangle::new(1, -2, 300, 400);
    assert_eq!((r.x, r.y, r.width, r.height), (1, -2, 300, 400));
}

#[test]
fn msaa_sample_counts() {
    assert_eq!(Msaa::Off.samples(), 1);
    assert_eq!(Msaa::X2.samples(), 2);
    assert_eq!(Msaa::X4.samples(), 4);
    assert_eq!(Msaa::X8.samples(), 8);
    assert_eq!(Msaa::X16.samples(), 16);
}

#[test]
fn msaa_context_multisampling_turns_off_for_off() {
    assert_eq!(Msaa::Off.context_multisampling(), 0);
    assert_eq!(Msaa::X2.context_multisampling(), 2);
    assert_eq!(Msaa::X4.context_multisampling(), 4);
    assert_eq!(Msaa::X16.context_multisampling(), 16);
}

#[test]
fn graphics_api_above_32_up_to_46_is_accepted() {
    for (major, minor) in [(3, 3), (4, 0), (4, 1), (4, 2), (3, 9)] {
        let v = Version { major, minor, patch: 0 };
        assert_eq!(check_graphics_api_version(&v), Ok(()));
    }
    let v = Version { major: 4, minor: 5, patch: 0 };
    assert_eq!(check_graphics_api_version(&v), Ok(()));
    let v = Version { major: 4, minor: 6, patch: 3 };
    assert_eq!(check_graphics_api_version(&v), Ok(()));
}

#[test]
fn graphics_api_32_or_older_is_too_old() {
    assert_eq!(
        check_graphics_api_version(&Version { major: 3, minor: 2, patch: 0 }),
        Err(GraphicsApiError::TooOld)
    );
    assert_eq!(
        check_graphics_api_version(&Version { major: 2, minor: 9, patch: 0 }),
        Err(GraphicsApiError::TooOld)
    );
    assert_eq!(
        check_graphics_api_version(&Version { major: 3, minor: 0, patch: 0 }),
        Err(GraphicsApiError::TooOld)
    );
    assert_eq!(
        GraphicsApiError::TooOld.message(),
        "Only OpenGL version greater than 3.2 are supported"
    );
}

#[test]
fn graphics_api_above_46_is_too_new() {
    assert_eq!(
        check_graphics_api_version(&Version { major: 4, minor: 7, patch: 0 }),
        Err(GraphicsApiError::TooNew)
    );
    assert_eq!(
        check_graphics_api_version(&Version { major: 5, minor: 3, patch: 0 }),
        Err(GraphicsApiError::TooNew)
    );
    assert_eq!(
        GraphicsApiError::TooNew.message(),
        "OpenGL versions greater than 4.6 are not supported"
    );
}

#[test]
fn uvec2_and_application_data() {
    let v = UVec2::new(2560, 1440);
    assert_eq!((v.x, v.y), (2560, 1440));
    let d = ApplicationData { foo: 10 };
    assert_eq!(d.foo, 10);
}

#[test]
fn scene_manager_starts_idle_and_initialize_starts_top() {
    let mut m = SceneManager::new(1);
    assert!(!m.is_running());
    assert_eq!(m.active_scene(), None);
    assert_eq!(m.initialize(), SceneCall::Start(1));
    assert!(m.is_running());
    assert_eq!(m.active_scene(), Some(1));
}

#[test]
fn push_pauses_current_and_starts_new() {
    let mut m = SceneManager::new(1);
    m.initialize();
    let calls = m.handle_transition(Transition::Push(2));
    assert_eq!(calls, vec![SceneCall::Pause(1), SceneCall::Start(2)]);
    assert_eq!(m.active_scene(), Some(2));
}

#[test]
fn quit_stops_every_scene_top_first_once() {
    let mut m = SceneManager::new(1);
    m.initialize();
    m.handle_transition(Transition::Push(2));
    m.handle_transition(Transition::Push(3));
    let calls = m.handle_transition(Transition::Quit);
    assert_eq!(
        calls,
        vec![SceneCall::Stop(3), SceneCall::Stop(2), SceneCall::Stop(1)]
    );
    assert!(!m.is_running());
    assert_eq!(m.active_scene(), None);
    assert_eq!(m.stop(), vec![]);
    assert_eq!(m.handle_transition(Transition::Quit), vec![]);
}

#[test]
fn switch_pop_and_stay_change_nothing() {
    let mut m = SceneManager::new(1);
    m.initialize();
    assert_eq!(m.handle_transition(Transition::Switch(5)), vec![]);
    assert_eq!(m.handle_transition(Transition::Pop), vec![]);
    assert_eq!(m.handle_transition(Transition::Stay), vec![]);
    assert_eq!(m.active_scene(), Some(1));
}

#[test]
fn stop_before_initialize_does_nothing() {
    let mut m = SceneManager::new(4);
    assert_eq!(m.stop(), vec![]);
    assert_eq!(m.pause(), Some(SceneCall::Pause(4)));
    assert_eq!(m.resume(), Some(SceneCall::Resume(4)));
}

#[test]
fn pause_and_resume_on_empty_stack() {
    let mut m = SceneManager::new(4);
    m.initialize();
    m.stop();
    assert_eq!(m.pause(), None);
    assert_eq!(m.resume(), None);
}

#[test]
fn push_on_stopped_manager_starts_without_pause() {
    let mut m = SceneManager::new(4);
    m.initialize();
    m.stop();
    assert_eq!(m.push(8), vec![SceneCall::Start(8)]);
    assert_eq!(m.active_scene(), None);
}

#[test]
fn debug_message_names() {
    assert_eq!(message_type_to_str(gl::DEBUG_TYPE_ERROR), "ERROR");
    assert_eq!(message_type_to_str(gl::DEBUG_TYPE_DEPRECATED_BEHAVIOR), "DEPRECATED BEHAVIOR");
    assert_eq!(message_type_to_str(gl::DEBUG_TYPE_UNDEFINED_BEHAVIOR), "UNDEFINED BEHAVIOR");
    assert_eq!(message_type_to_str(gl::DEBUG_TYPE_PUSH_GROUP), "PUSH GROUP");
    assert_eq!(message_type_to_str(gl::DEBUG_TYPE_POP_GROUP), "POP GROUP");
    assert_eq!(message_type_to_str(gl::DEBUG_TYPE_MARKER), "MARKER");
    assert_eq!(message_type_to_str(0), "!UNDEFINED ENUM!");
    assert_eq!(severity_to_str(gl::DEBUG_SEVERITY_HIGH), "HIGH");
    assert_eq!(severity_to_str(gl::DEBUG_SEVERITY_MEDIUM), "MEDIUM");
    assert_eq!(severity_to_str(gl::DEBUG_SEVERITY_LOW), "LOW");
    assert_eq!(severity_to_str(gl::DEBUG_SEVERITY_NOTIFICATION), "NOTIFICATION");
    assert_eq!(severity_to_str(gl::DEBUG_TYPE_ERROR), "!UNDEFINED ENUM!");
}
