use shader_reload::config::parse_config;
use shader_reload::config::Config;
use shader_reload::controller::EditState;
use shader_reload::controller::FsEvent;
use shader_reload::controller::PassIo;
use shader_reload::path::AssetPath;
use shader_reload::state::GameState;
use shader_reload::state::MainMenuState;
use shader_reload::watch::WatchSet;

fn p(s: &str) -> AssetPath {
    AssetPath::new(s.as_bytes().to_vec())
}

fn bytes(s: &str) -> Vec<u8> {
    s.as_bytes().to_vec()
}

fn config(shader: &str) -> Config {
    Config { shader_path: p(shader), vertices: 3, instances: 1 }
}

fn baseline() -> EditState {
    EditState::new(
        p("/assets/config.json"),
        config("/assets/a.glsl"),
        1,
        vec![p("/assets/shader_library/noise.glsl")],
    )
}

fn artifact_of(state: &EditState) -> (Vec<u8>, u64) {
    let a = state.current_artifact().unwrap();
    (a.source_path.as_bytes().clone(), a.program)
}

#[test]
fn startup_from_document() {
    let doc = bytes(
        r#"{"path": "shaders/main.glsl", "parameters": {}, "vertices": 4, "instances": 2, "fov": 0.5}"#,
    );
    let cfg = parse_config(&doc, &p("/assets")).unwrap();
    let state = EditState::new(p("/assets/config.json"), cfg, 1, vec![]);
    assert_eq!(artifact_of(&state), (bytes("/assets/shaders/main.glsl"), 1));
    assert_eq!(state.watched_shader().as_bytes().as_slice(), b"/assets/shaders/main.glsl");
    assert_eq!(state.config().vertices, 4);
    assert_eq!(state.config().instances, 2);
    assert_eq!(state.elapsed_ns(), 0);
}

#[test]
fn startup_state() {
    let state = baseline();
    assert_eq!(artifact_of(&state), (bytes("/assets/a.glsl"), 1));
    assert_eq!(state.watched_shader().as_bytes().as_slice(), b"/assets/a.glsl");
    assert_eq!(state.config_path().as_bytes().as_slice(), b"/assets/config.json");
    assert_eq!(state.elapsed_ns(), 0);
}

#[test]
fn config_cascade_switches_watch_and_artifact() {
    let mut state = baseline();
    let io = PassIo {
        config: Some(config("/assets/b.glsl")),
        compile: Some(2),
        manifest: None,
        fragments: vec![],
    };
    let report = state.process_pass(&FsEvent::Changed(p("/assets/config.json")), io);
    assert_eq!(artifact_of(&state), (bytes("/assets/b.glsl"), 2));
    assert_eq!(state.watched_shader().as_bytes().as_slice(), b"/assets/b.glsl");
    assert_eq!(report.unwatch.unwrap().as_bytes().as_slice(), b"/assets/a.glsl");
    assert_eq!(report.watch.unwrap().as_bytes().as_slice(), b"/assets/b.glsl");
    assert!(report.adopted);
    assert!(report.rewatch.is_none());
}

#[test]
fn failed_compile_keeps_last_known_good() {
    let mut state = baseline();
    let before = artifact_of(&state);
    let io = PassIo { config: None, compile: None, manifest: None, fragments: vec![] };
    let report = state.process_pass(&FsEvent::Changed(p("/assets/a.glsl")), io);
    assert_eq!(artifact_of(&state), before);
    assert!(!report.adopted);
    assert!(report.unwatch.is_none() && report.watch.is_none());
}

#[test]
fn failed_compile_after_config_switch_still_moves_watch() {
    let mut state = baseline();
    let io = PassIo {
        config: Some(config("/assets/b.glsl")),
        compile: None,
        manifest: None,
        fragments: vec![],
    };
    let report = state.process_pass(&FsEvent::Changed(p("/assets/config.json")), io);
    // The watch moved before compilation was attempted, so a later edit of
    // the new path is still observed; the artifact stayed the old one.
    assert_eq!(artifact_of(&state), (bytes("/assets/a.glsl"), 1));
    assert_eq!(state.watched_shader().as_bytes().as_slice(), b"/assets/b.glsl");
    assert_eq!(report.unwatch.unwrap().as_bytes().as_slice(), b"/assets/a.glsl");
    assert!(!report.adopted);
}

#[test]
fn removed_event_acts_like_changed_and_rewatches() {
    let io = |prog| PassIo { config: None, compile: Some(prog), manifest: None, fragments: vec![] };
    let mut changed = baseline();
    let changed_report = changed.process_pass(&FsEvent::Changed(p("/assets/a.glsl")), io(5));
    let mut removed = baseline();
    let removed_report = removed.process_pass(&FsEvent::Removed(p("/assets/a.glsl")), io(5));
    assert_eq!(artifact_of(&changed), artifact_of(&removed));
    assert_eq!(
        changed.watched_shader().as_bytes().as_slice(),
        removed.watched_shader().as_bytes().as_slice()
    );
    assert!(changed_report.rewatch.is_none());
    assert_eq!(removed_report.rewatch.unwrap().as_bytes().as_slice(), b"/assets/a.glsl");
}

#[test]
fn identical_pass_twice_is_idempotent() {
    let io = || PassIo {
        config: None,
        compile: Some(4),
        manifest: Some(vec![bytes("noise.glsl")]),
        fragments: vec![Some(bytes("float n;"))],
    };
    let mut state = baseline();
    state.process_pass(&FsEvent::Changed(p("/assets/a.glsl")), io());
    let once = artifact_of(&state);
    let watched_once = state.watched_shader().as_bytes().clone();
    state.process_pass(&FsEvent::Changed(p("/assets/a.glsl")), io());
    assert_eq!(artifact_of(&state), once);
    assert_eq!(state.watched_shader().as_bytes().clone(), watched_once);
    assert_eq!(state.registry().len(), 1);
    assert_eq!(state.registry().get(&bytes("noise.glsl")).unwrap().as_slice(), b"float n;");
}

#[test]
fn watch_follows_config_over_many_switches() {
    let mut state = baseline();
    for (i, shader) in ["/assets/b.glsl", "/assets/c.glsl", "/assets/d.glsl"].iter().enumerate() {
        let io = PassIo {
            config: Some(config(shader)),
            compile: Some(10 + i as u64),
            manifest: None,
            fragments: vec![],
        };
        state.process_pass(&FsEvent::Changed(p("/assets/config.json")), io);
        assert_eq!(state.watched_shader().as_bytes().as_slice(), shader.as_bytes());
        assert_eq!(
            state.current_artifact().unwrap().source_path.as_bytes().as_slice(),
            shader.as_bytes()
        );
    }
}

#[test]
fn config_reload_failure_changes_nothing() {
    let mut state = baseline();
    let io = PassIo { config: None, compile: Some(9), manifest: None, fragments: vec![] };
    let report = state.process_pass(&FsEvent::Changed(p("/assets/config.json")), io);
    assert_eq!(artifact_of(&state), (bytes("/assets/a.glsl"), 1));
    assert_eq!(state.watched_shader().as_bytes().as_slice(), b"/assets/a.glsl");
    assert!(!report.adopted);
}

#[test]
fn non_config_event_never_rereads_config() {
    let mut state = baseline();
    let io = PassIo {
        config: Some(Config { shader_path: p("/assets/z.glsl"), vertices: 99, instances: 9 }),
        compile: Some(2),
        manifest: None,
        fragments: vec![],
    };
    state.process_pass(&FsEvent::Changed(p("/assets/a.glsl")), io);
    // The pass ignored the incoming config: the shader event alone does
    // not re-read the configuration.
    assert_eq!(state.config().vertices, 3);
    assert_eq!(artifact_of(&state), (bytes("/assets/a.glsl"), 2));
}

#[test]
fn library_injection_aborts_on_missing_fragment() {
    let mut state = baseline();
    let io = PassIo {
        config: None,
        compile: Some(2),
        manifest: Some(vec![bytes("x.glsl"), bytes("y.glsl"), bytes("z.glsl")]),
        fragments: vec![Some(bytes("x body")), None, Some(bytes("z body"))],
    };
    let report = state.process_pass(&FsEvent::Changed(p("/assets/a.glsl")), io);
    // The unreadable second fragment stops the rest of the pass, but the
    // first injection stays and the new artifact is still adopted.
    assert!(report.adopted);
    assert_eq!(state.registry().len(), 1);
    assert_eq!(state.registry().get(&bytes("x.glsl")).unwrap().as_slice(), b"x body");
    assert!(state.registry().get(&bytes("y.glsl")).is_none());
    assert!(state.registry().get(&bytes("z.glsl")).is_none());
}

#[test]
fn watch_error_event_is_inert() {
    let mut state = baseline();
    let io = PassIo { config: None, compile: Some(7), manifest: None, fragments: vec![] };
    let report = state.process_pass(&FsEvent::WatchError(p("/assets/a.glsl")), io);
    assert_eq!(artifact_of(&state), (bytes("/assets/a.glsl"), 1));
    assert!(!report.adopted && report.unwatch.is_none() && report.rewatch.is_none());
}

#[test]
fn disconnected_controller_stops_reloading() {
    let mut state = baseline();
    state.channel_disconnected();
    let io = PassIo { config: None, compile: Some(7), manifest: None, fragments: vec![] };
    let report = state.process_pass(&FsEvent::Changed(p("/assets/a.glsl")), io);
    assert_eq!(artifact_of(&state), (bytes("/assets/a.glsl"), 1));
    assert!(!report.adopted);
}

#[test]
fn elapsed_time_accumulates_and_survives_reloads() {
    let mut state = baseline();
    state.advance_time(10);
    state.advance_time(5);
    assert_eq!(state.elapsed_ns(), 15);
    let io = PassIo { config: None, compile: Some(2), manifest: None, fragments: vec![] };
    state.process_pass(&FsEvent::Changed(p("/assets/a.glsl")), io);
    assert_eq!(state.elapsed_ns(), 15);
    state.advance_time(u64::MAX);
    assert_eq!(state.elapsed_ns(), u64::MAX);
}

#[test]
fn needs_config_reload_distinguishes_paths() {
    let state = baseline();
    assert!(state.needs_config_reload(&FsEvent::Changed(p("/assets/config.json"))));
    assert!(state.needs_config_reload(&FsEvent::Removed(p("/assets/config.json"))));
    assert!(!state.needs_config_reload(&FsEvent::Changed(p("/assets/a.glsl"))));
    assert!(!state.needs_config_reload(&FsEvent::WatchError(p("/assets/config.json"))));
}

#[test]
fn target_shader_path_prefers_incoming_config() {
    let state = baseline();
    let incoming = Some(config("/assets/b.glsl"));
    assert_eq!(state.target_shader_path(&incoming).as_bytes().as_slice(), b"/assets/b.glsl");
    assert_eq!(state.target_shader_path(&None).as_bytes().as_slice(), b"/assets/a.glsl");
}

#[test]
fn watch_set_membership_and_switch() {
    let mut set = WatchSet::new(
        p("/assets/config.json"),
        p("/assets/a.glsl"),
        vec![p("/assets/shader_library/noise.glsl")],
    );
    assert!(set.is_watched(&p("/assets/config.json")));
    assert!(set.is_watched(&p("/assets/a.glsl")));
    assert!(set.is_watched(&p("/assets/shader_library/noise.glsl")));
    assert!(!set.is_watched(&p("/assets/b.glsl")));
    let prev = set.switch_shader(p("/assets/b.glsl"));
    assert_eq!(prev.as_bytes().as_slice(), b"/assets/a.glsl");
    assert!(set.is_watched(&p("/assets/b.glsl")));
    assert!(!set.is_watched(&p("/assets/a.glsl")));
}

#[test]
fn main_menu_switches_on_key() {
    let mut menu = MainMenuState::new();
    assert!(menu.transition().is_none());
    menu.handle_key_down();
    let game = menu.transition().unwrap();
    assert!(game.transition().is_none());
    assert!(GameState::new().transition().is_none());
}
