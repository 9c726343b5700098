use mixdial::audio::apply_plan_model;
use mixdial::audio::default_output_ready;
use mixdial::audio::destroy_loop_done;
use mixdial::audio::routing_plan;
use mixdial::audio::teardown_plan;
use mixdial::audio::AudioOp;
use mixdial::audio::AudioState;
use mixdial::audio::Channel;

fn messy_state() -> AudioState {
    AudioState {
        game_sink: true,
        chat_sink: false,
        game_route: true,
        chat_route: false,
        default_is_game: false,
    }
}

#[test]
fn teardown_removes_sinks_and_routes_cleanly() {
    let (after, ok) = apply_plan_model(messy_state(), &teardown_plan());
    assert!(ok);
    assert!(!after.game_sink);
    assert!(!after.chat_sink);
    assert!(!after.game_route);
    assert!(!after.chat_route);
}

#[test]
fn teardown_twice_is_indistinguishable_from_once() {
    let plan = teardown_plan();
    let (once, ok_first) = apply_plan_model(messy_state(), &plan);
    let (twice, ok_second) = apply_plan_model(once, &plan);
    assert!(ok_first);
    assert!(ok_second);
    assert_eq!(once, twice);
}

#[test]
fn teardown_of_a_clean_system_reports_no_error() {
    let clean = AudioState {
        game_sink: false,
        chat_sink: false,
        game_route: false,
        chat_route: false,
        default_is_game: false,
    };
    let (after, ok) = apply_plan_model(clean, &teardown_plan());
    assert!(ok);
    assert_eq!(after, clean);
}

#[test]
fn configure_reaches_the_routed_state_from_any_leftover() {
    let (torn, ok_teardown) = apply_plan_model(messy_state(), &teardown_plan());
    let (after, ok_routing) = apply_plan_model(torn, &routing_plan(7));
    assert!(ok_teardown);
    assert!(ok_routing);
    assert!(after.game_sink);
    assert!(after.chat_sink);
    assert!(after.game_route);
    assert!(after.chat_route);
    assert!(after.default_is_game);
}

#[test]
fn duplicate_sink_creation_is_the_modelled_failure() {
    let (configured, _) = apply_plan_model(messy_state(), &routing_plan(3));
    let again = vec![AudioOp::CreateSink { channel: Channel::Game }];
    let (_, ok) = apply_plan_model(configured, &again);
    assert!(!ok);
}

#[test]
fn teardown_plan_orders_routes_before_sinks() {
    let plan = teardown_plan();
    assert_eq!(
        plan,
        vec![
            AudioOp::DestroyLoopbacks,
            AudioOp::DestroySink { channel: Channel::Game },
            AudioOp::DestroySink { channel: Channel::Chat },
        ]
    );
}

#[test]
fn routing_plan_creates_sinks_before_routing_them() {
    let plan = routing_plan(42);
    assert_eq!(
        plan,
        vec![
            AudioOp::CreateSink { channel: Channel::Game },
            AudioOp::CreateSink { channel: Channel::Chat },
            AudioOp::CreateLoopback { channel: Channel::Game, destination: 42 },
            AudioOp::CreateLoopback { channel: Channel::Chat, destination: 42 },
            AudioOp::SetDefault { channel: Channel::Game },
        ]
    );
}

#[test]
fn empty_default_output_answer_means_retry() {
    assert!(!default_output_ready(b""));
    assert!(default_output_ready(b"alsa_output.pci-0000_00_1f.3\n"));
}

#[test]
fn destroy_loop_stops_only_on_a_diagnostic() {
    assert!(!destroy_loop_done(0));
    assert!(destroy_loop_done(1));
    assert!(destroy_loop_done(57));
}
