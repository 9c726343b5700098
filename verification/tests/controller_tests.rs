use mixdial::audio::Channel;
use mixdial::controller::Controller;
use mixdial::controller::Directive;
use mixdial::controller::SessionState;
use mixdial::frame::Frame;

fn running_controller() -> Controller {
    let mut c = Controller::new();
    let entry = c.start();
    assert_eq!(entry, vec![Directive::Configure]);
    assert_eq!(c.current_state(), SessionState::Running);
    c
}

fn paused_controller() -> Controller {
    let mut c = running_controller();
    let ds = c.handle_frame(Frame::from_bytes([185, 2, 0, 0]));
    assert_eq!(ds, vec![Directive::Teardown]);
    assert_eq!(c.current_state(), SessionState::Paused);
    c
}

#[test]
fn frame_decodes_positionally() {
    let f = Frame::from_bytes([69, 40, 70, 3]);
    assert_eq!(f.opcode, 69);
    assert_eq!(f.field_a, 40);
    assert_eq!(f.field_b, 70);
    assert_eq!(f.reserved, 3);
}

#[test]
fn chatmix_in_running_sets_both_volumes() {
    let mut c = running_controller();
    let ds = c.handle_frame(Frame::from_bytes([69, 40, 70, 0]));
    assert_eq!(
        ds,
        vec![
            Directive::SetVolume { channel: Channel::Game, percent: 40 },
            Directive::SetVolume { channel: Channel::Chat, percent: 70 },
            Directive::SetDefaultToGame,
        ]
    );
    assert_eq!(c.current_state(), SessionState::Running);
}

#[test]
fn chatmix_sets_each_channel_exactly_once() {
    let mut c = running_controller();
    let ds = c.handle_frame(Frame::from_bytes([69, 11, 22, 0]));
    let game_sets = ds
        .iter()
        .filter(|d| matches!(d, Directive::SetVolume { channel: Channel::Game, .. }))
        .count();
    let chat_sets = ds
        .iter()
        .filter(|d| matches!(d, Directive::SetVolume { channel: Channel::Chat, .. }))
        .count();
    assert_eq!(game_sets, 1);
    assert_eq!(chat_sets, 1);
    assert_eq!(c.current_state(), SessionState::Running);
}

#[test]
fn out_of_range_volume_bytes_pass_through_verbatim() {
    let mut c = running_controller();
    let ds = c.handle_frame(Frame::from_bytes([69, 255, 200, 0]));
    assert_eq!(
        ds[0],
        Directive::SetVolume { channel: Channel::Game, percent: 255 }
    );
    assert_eq!(
        ds[1],
        Directive::SetVolume { channel: Channel::Chat, percent: 200 }
    );
}

#[test]
fn chatmix_reserved_byte_is_not_validated() {
    let mut c = running_controller();
    let ds = c.handle_frame(Frame::from_bytes([69, 10, 20, 9]));
    assert_eq!(
        ds[0],
        Directive::SetVolume { channel: Channel::Game, percent: 10 }
    );
    assert_eq!(c.current_state(), SessionState::Running);
}

#[test]
fn power_off_in_running_tears_down_and_pauses() {
    let mut c = running_controller();
    let ds = c.handle_frame(Frame::from_bytes([185, 2, 0, 0]));
    assert_eq!(ds, vec![Directive::Teardown]);
    assert_eq!(c.current_state(), SessionState::Paused);
}

#[test]
fn power_off_while_paused_issues_no_second_teardown() {
    let mut c = paused_controller();
    let ds = c.handle_frame(Frame::from_bytes([185, 2, 0, 0]));
    assert_eq!(ds, vec![]);
    assert_eq!(c.current_state(), SessionState::Paused);
}

#[test]
fn power_on_in_paused_configures_and_resumes() {
    let mut c = paused_controller();
    let ds = c.handle_frame(Frame::from_bytes([185, 3, 0, 0]));
    assert_eq!(ds, vec![Directive::Configure]);
    assert_eq!(c.current_state(), SessionState::Running);
}

#[test]
fn power_on_while_running_issues_no_second_configure() {
    let mut c = running_controller();
    let ds = c.handle_frame(Frame::from_bytes([185, 3, 0, 0]));
    assert_eq!(ds, vec![]);
    assert_eq!(c.current_state(), SessionState::Running);
}

#[test]
fn unknown_opcode_is_ignored_in_every_state() {
    let mut waiting = Controller::new();
    let ds = waiting.handle_frame(Frame::from_bytes([1, 0, 0, 0]));
    assert_eq!(ds, vec![]);
    assert_eq!(waiting.current_state(), SessionState::Waiting);

    let mut running = running_controller();
    let ds = running.handle_frame(Frame::from_bytes([1, 0, 0, 0]));
    assert_eq!(ds, vec![]);
    assert_eq!(running.current_state(), SessionState::Running);

    let mut paused = paused_controller();
    let ds = paused.handle_frame(Frame::from_bytes([1, 0, 0, 0]));
    assert_eq!(ds, vec![]);
    assert_eq!(paused.current_state(), SessionState::Paused);
}

#[test]
fn unknown_power_substate_is_ignored() {
    let mut running = running_controller();
    let ds = running.handle_frame(Frame::from_bytes([185, 7, 0, 0]));
    assert_eq!(ds, vec![]);
    assert_eq!(running.current_state(), SessionState::Running);

    let mut paused = paused_controller();
    let ds = paused.handle_frame(Frame::from_bytes([185, 9, 0, 0]));
    assert_eq!(ds, vec![]);
    assert_eq!(paused.current_state(), SessionState::Paused);
}

#[test]
fn full_power_cycle_returns_to_running() {
    let mut c = running_controller();
    c.handle_frame(Frame::from_bytes([185, 2, 0, 0]));
    assert_eq!(c.current_state(), SessionState::Paused);
    c.handle_frame(Frame::from_bytes([185, 3, 0, 0]));
    assert_eq!(c.current_state(), SessionState::Running);
    let ds = c.handle_frame(Frame::from_bytes([69, 50, 50, 0]));
    assert_eq!(ds.len(), 3);
}
