use rmpc::albums::{AlbumsScreen, AlbumsStep};
use rmpc::command::{ClientCommand, Version};
use rmpc::context::{AppContext, ImageMethod, OnOffOneshot, Song, Status};
use rmpc::idle::PlayState;
use rmpc::ui::{
    GlobalAction, KeyCode, KeyEvent, KeyHandleResult, KeyHandleResultInternal, Keybinds, Level, Modals,
    Screens, Ui, UiEvent, UiRefresh,
};

fn status(state: PlayState) -> Status {
    Status {
        state,
        song_id: Some(7),
        volume: 98,
        repeat: false,
        random: true,
        single: OnOffOneshot::Off,
        consume: OnOffOneshot::Oneshot,
    }
}

fn context() -> AppContext {
    AppContext {
        status: status(PlayState::Play),
        queue: vec![Song { id: 7, file: "x.mp3".to_string() }],
        image_method: ImageMethod::Disabled,
        disabled_protocols: vec![],
        volume_step: 5,
        status_update_interval_ms: None,
    }
}

fn key(c: char) -> KeyEvent {
    KeyEvent { code: KeyCode::Char(c), modifiers: 0 }
}

#[test]
fn new_ui_starts_on_queue() {
    let ui = Ui::new(&context());
    assert_eq!(ui.active_screen, Screens::Queue);
    assert!(ui.modals.is_empty());
    assert!(ui.status_message.is_none());
}

#[test]
fn before_show_finds_current_song() {
    let ctx = context();
    let mut ui = Ui::new(&ctx);
    assert!(ui.before_show(&ctx).is_none());
    assert_eq!(ui.current_song, Some(Song { id: 7, file: "x.mp3".to_string() }));
}

#[test]
fn status_message_expires_after_five_seconds() {
    let mut ui = Ui::new(&context());
    ui.display_message("hello".to_string(), Level::Info, 1_000);
    ui.on_frame(6_000);
    assert!(ui.status_message.is_some());
    ui.on_frame(6_001);
    assert!(ui.status_message.is_none());
    assert_eq!(ui.rendered_frames_count, 2);
}

#[test]
fn global_actions_map_to_commands() {
    let mut ui = Ui::new(&context());
    let v = Version::new(0, 24, 0);
    let st = status(PlayState::Play);
    let out = ui.handle_global_action(GlobalAction::VolumeUp, &st, 5, v);
    assert_eq!(out.command, Some(ClientCommand::SetVolume(100)));
    let out = ui.handle_global_action(GlobalAction::VolumeDown, &st, 5, v);
    assert_eq!(out.command, Some(ClientCommand::SetVolume(93)));
    let out = ui.handle_global_action(GlobalAction::ToggleRandom, &st, 5, v);
    assert_eq!(out.command, Some(ClientCommand::Random(false)));
    let out = ui.handle_global_action(GlobalAction::ToggleConsume, &st, 5, v);
    assert_eq!(out.command, Some(ClientCommand::Consume(OnOffOneshot::On)));
    let out = ui.handle_global_action(GlobalAction::ToggleConsume, &st, 5, Version::new(0, 23, 0));
    assert_eq!(out.command, Some(ClientCommand::Consume(OnOffOneshot::On)));
    let out = ui.handle_global_action(GlobalAction::SeekForward, &st, 5, v);
    assert_eq!(out.command, Some(ClientCommand::SeekForward(5)));
    let stopped = status(PlayState::Stop);
    let out = ui.handle_global_action(GlobalAction::NextTrack, &stopped, 5, v);
    assert_eq!(out.command, None);
    assert_eq!(out.result, KeyHandleResult::SkipRender);
    let out = ui.handle_global_action(GlobalAction::TogglePause, &stopped, 5, v);
    assert_eq!(out.command, None);
    let out = ui.handle_global_action(GlobalAction::Quit, &st, 5, v);
    assert_eq!(out.result, KeyHandleResult::Quit);
}

#[test]
fn tabs_switch_screens() {
    let mut ui = Ui::new(&context());
    let v = Version::new(0, 24, 0);
    let st = status(PlayState::Play);
    let out = ui.handle_global_action(GlobalAction::QueueTab, &st, 5, v);
    assert_eq!(out.shown, None);
    assert_eq!(out.result, KeyHandleResult::SkipRender);
    let out = ui.handle_global_action(GlobalAction::AlbumsTab, &st, 5, v);
    assert_eq!(out.shown, Some(Screens::Albums));
    assert_eq!(out.result, KeyHandleResult::RenderRequested);
    assert_eq!(ui.active_screen, Screens::Albums);
    ui.handle_global_action(GlobalAction::NextTab, &st, 5, v);
    assert_eq!(ui.active_screen, Screens::Playlists);
    ui.handle_global_action(GlobalAction::PreviousTab, &st, 5, v);
    ui.handle_global_action(GlobalAction::PreviousTab, &st, 5, v);
    assert_eq!(ui.active_screen, Screens::Artists);
    assert_eq!(Screens::Search.next(), Screens::Queue);
    assert_eq!(Screens::Queue.prev(), Screens::Search);
}

#[test]
fn keys_go_to_modal_then_screen_then_global() {
    let mut ui = Ui::new(&context());
    let binds = Keybinds { global: vec![(key('q'), GlobalAction::Quit), (key('q'), GlobalAction::Stop)] };
    let v = Version::new(0, 24, 0);
    let st = status(PlayState::Play);
    let out = ui.handle_key(key('q'), Ok(KeyHandleResultInternal::KeyNotHandled), &binds, &st, 5, v).unwrap();
    assert_eq!(out.result, KeyHandleResult::Quit);
    let out = ui.handle_key(key('z'), Ok(KeyHandleResultInternal::KeyNotHandled), &binds, &st, 5, v).unwrap();
    assert_eq!(out.result, KeyHandleResult::SkipRender);
    let out = ui
        .handle_key(key('c'), Ok(KeyHandleResultInternal::Modal(Some(Modals::ConfirmQueueClear))), &binds, &st, 5, v)
        .unwrap();
    assert_eq!(out.result, KeyHandleResult::RenderRequested);
    assert_eq!(ui.modals, vec![Modals::ConfirmQueueClear]);
    let out = ui.handle_key(key('q'), Ok(KeyHandleResultInternal::SkipRender), &binds, &st, 5, v).unwrap();
    assert_eq!(out.result, KeyHandleResult::SkipRender);
    let out = ui.handle_key(key('q'), Ok(KeyHandleResultInternal::Modal(None)), &binds, &st, 5, v).unwrap();
    assert_eq!(out.result, KeyHandleResult::RenderRequested);
    assert!(ui.modals.is_empty());
    assert!(ui.handle_key(key('q'), Err("bad".to_string()), &binds, &st, 5, v).is_err());
}

#[test]
fn screen_results_push_and_pop_modals() {
    let mut ui = Ui::new(&context());
    assert_eq!(
        ui.handle_screen_event_result(Ok(KeyHandleResultInternal::Modal(Some(Modals::SaveQueue)))),
        Ok(KeyHandleResult::RenderRequested)
    );
    assert_eq!(ui.modals, vec![Modals::SaveQueue]);
    assert_eq!(
        ui.handle_screen_event_result(Ok(KeyHandleResultInternal::Modal(None))),
        Ok(KeyHandleResult::RenderRequested)
    );
    assert!(ui.modals.is_empty());
    assert_eq!(
        ui.handle_screen_event_result(Ok(KeyHandleResultInternal::Modal(None))),
        Ok(KeyHandleResult::RenderRequested)
    );
    assert_eq!(
        ui.handle_screen_event_result(Ok(KeyHandleResultInternal::KeyNotHandled)),
        Ok(KeyHandleResult::SkipRender)
    );
    assert_eq!(ui.handle_screen_event_result(Err("e".to_string())), Err("e".to_string()));
}

#[test]
fn ui_events_choose_refresh() {
    let ctx = context();
    let mut ui = Ui::new(&ctx);
    assert_eq!(ui.on_event(&UiEvent::Mixer, &ctx).refresh, UiRefresh::Volume);
    assert_eq!(ui.on_event(&UiEvent::Options, &ctx).refresh, UiRefresh::Status);
    assert_eq!(ui.on_event(&UiEvent::Player, &ctx).refresh, UiRefresh::CurrentSong);
    let out = ui.on_event(&UiEvent::ModalOpened, &ctx);
    assert_eq!(out.refresh, UiRefresh::Nothing);
    assert_eq!(out.result, KeyHandleResult::RenderRequested);
}

#[test]
fn albums_screen_enters_album_and_adds_title() {
    let mut s = AlbumsScreen::new();
    assert!(s.needs_album_list());
    s.show_albums(vec!["the greatest".to_string(), "other".to_string()]);
    let (step, res) = s.next();
    assert_eq!(step, AlbumsStep::ListTitles("the greatest".to_string()));
    assert_eq!(res, KeyHandleResultInternal::RenderRequested);
    let (cmd, _) = s.add("other");
    assert_eq!(cmd, Some(ClientCommand::FindAdd("(Album == 'other')".to_string())));
    s.enter_album("the greatest".to_string(), vec!["song one".to_string()]);
    assert!(!s.needs_album_list());
    let (step, _) = s.next();
    assert_eq!(
        step,
        AlbumsStep::Command(ClientCommand::FindAdd(
            "(Title == 'song one') AND (Album == 'the greatest')".to_string()
        ))
    );
    s.enter_album("deeper".to_string(), vec![]);
    assert_eq!(s.add("x"), (None, KeyHandleResultInternal::SkipRender));
    s.set_filter_input_mode_active(true);
    assert!(s.is_filter_input_mode_active());
}

#[test]
fn screen_results_are_collected_in_order() {
    let mut ui = Ui::new(&context());
    let r = ui.on_screen_results(vec![
        Ok(KeyHandleResultInternal::SkipRender),
        Ok(KeyHandleResultInternal::RenderRequested),
        Ok(KeyHandleResultInternal::KeyNotHandled),
    ]);
    assert_eq!(r, Ok(KeyHandleResult::RenderRequested));
    let r = ui.on_screen_results(vec![Ok(KeyHandleResultInternal::SkipRender), Ok(KeyHandleResultInternal::KeyNotHandled)]);
    assert_eq!(r, Ok(KeyHandleResult::SkipRender));
    let r = ui.on_screen_results(vec![
        Ok(KeyHandleResultInternal::Modal(Some(Modals::Confirm))),
        Err("first".to_string()),
        Ok(KeyHandleResultInternal::Modal(Some(Modals::SaveQueue))),
        Err("second".to_string()),
    ]);
    assert_eq!(r, Err("first".to_string()));
    assert_eq!(ui.modals, vec![Modals::Confirm]);
    assert_eq!(ui.on_screen_results(vec![]), Ok(KeyHandleResult::SkipRender));
}

#[test]
fn albums_preview_queries() {
    let mut s = AlbumsScreen::new();
    assert_eq!(s.preview_query(), None);
    s.show_albums(vec!["a'b".to_string()]);
    assert_eq!(s.preview_query(), Some("list Title \"((Album == 'a\\\\'b'))\"".to_string()));
    s.enter_album("a'b".to_string(), vec!["t".to_string(), "u".to_string()]);
    s.move_selection(true);
    assert_eq!(s.selected, Some(1));
    s.move_selection(true);
    assert_eq!(s.selected, Some(1));
    assert_eq!(
        s.preview_query(),
        Some("find \"((Title == 'u') AND (Album == 'a\\\\'b'))\"".to_string())
    );
    s.move_selection(false);
    s.move_selection(false);
    assert_eq!(s.selected, Some(0));
}
