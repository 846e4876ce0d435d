use rmpc::album_art::{AlbumArt, AlbumArtPane, ALBUM_ART};
use rmpc::context::{AppContext, ImageMethod, OnOffOneshot, Song, Status};
use rmpc::event_loop::{CycleControl, EventEffect, FramePacer, RenderAction, FRAME_BUDGET_NS};
use rmpc::idle::{
    idle_refresh, player_reaction, song_hook_env, IdleBackoff, IdleEvent, IdleRefresh, IdleRetry, PlayState,
};
use rmpc::text::{duration_string, to_ascii_upper};
use rmpc::query::{MpdQuery, MpdQueryResult, PaneType, QueryRequest, QueryResultEvent, QueryTracker};
use rmpc::scheduler::{LoopEvent, RenderLoop, SchedulerInput, SchedulerMode, SchedulerWait, UpdateScheduler};
use rmpc::{event_effect, handle_work_request, key_effect, work_done_event, AppEvent, WorkDone, WorkRequest};
use rmpc::ui::{KeyHandleResult, Level};

fn status(state: PlayState, song_id: Option<u32>) -> Status {
    Status {
        state,
        song_id,
        volume: 50,
        repeat: false,
        random: false,
        single: OnOffOneshot::Off,
        consume: OnOffOneshot::Off,
    }
}

fn context(method: ImageMethod) -> AppContext {
    AppContext {
        status: status(PlayState::Play, Some(333)),
        queue: vec![
            Song { id: 1, file: "first.mp3".to_string() },
            Song { id: 333, file: "music/a.flac".to_string() },
        ],
        image_method: method,
        disabled_protocols: vec!["http://".to_string()],
        volume_step: 5,
        status_update_interval_ms: Some(1000),
    }
}

#[test]
fn stop_while_running_silences_ticker() {
    let mut s = UpdateScheduler::new(1000);
    assert_eq!(s.next_wait(), SchedulerWait::ForSignal);
    assert!(!s.handle(SchedulerInput::Signal(LoopEvent::Start)));
    assert_eq!(s.mode, SchedulerMode::Running);
    assert_eq!(s.next_wait(), SchedulerWait::Sleep(1000));
    assert!(s.handle(SchedulerInput::IntervalElapsed));
    assert!(!s.handle(SchedulerInput::Signal(LoopEvent::Stop)));
    assert_eq!(s.mode, SchedulerMode::Stopped);
    for _ in 0..3 {
        assert!(!s.handle(SchedulerInput::IntervalElapsed));
    }
    assert!(!s.handle(SchedulerInput::Signal(LoopEvent::Stop)));
    assert!(!s.handle(SchedulerInput::IntervalElapsed));
    s.handle(SchedulerInput::Signal(LoopEvent::Start));
    assert!(s.handle(SchedulerInput::IntervalElapsed));
}

#[test]
fn start_while_running_is_noop() {
    let mut s = UpdateScheduler::new(250);
    s.handle(SchedulerInput::Signal(LoopEvent::Start));
    let before = s;
    assert!(!s.handle(SchedulerInput::Signal(LoopEvent::Start)));
    assert_eq!(s, before);
}

#[test]
fn no_interval_makes_ticker_inert() {
    let r = RenderLoop::new(None);
    assert_eq!(r.start(), None);
    assert_eq!(r.stop(), None);
    assert_eq!(r.ticker(), None);
    let r = RenderLoop::new(Some(500));
    assert_eq!(r.start(), Some(LoopEvent::Start));
    assert_eq!(r.stop(), Some(LoopEvent::Stop));
    assert_eq!(r.ticker().map(|t| (t.interval_ms, t.mode)), Some((500, SchedulerMode::Stopped)));
}

#[test]
fn backoff_sleeps_grow_then_listener_gives_up() {
    let mut b = IdleBackoff::new();
    let mut sleeps = Vec::new();
    loop {
        match b.on_failure() {
            IdleRetry::Retry(secs) => sleeps.push(secs),
            IdleRetry::GiveUp => break,
        }
    }
    assert_eq!(sleeps, vec![1, 2, 3, 4, 5]);
    assert_eq!(b.on_failure(), IdleRetry::GiveUp);
}

#[test]
fn success_resets_failure_counter() {
    let mut b = IdleBackoff::new();
    assert_eq!(b.on_failure(), IdleRetry::Retry(1));
    assert_eq!(b.on_failure(), IdleRetry::Retry(2));
    assert_eq!(b.on_failure(), IdleRetry::Retry(3));
    b.on_success();
    assert_eq!(b.error_count, 0);
    assert_eq!(b.on_failure(), IdleRetry::Retry(1));
}

#[test]
fn subsystem_names_parse() {
    assert_eq!(IdleEvent::from_name("player"), Some(IdleEvent::Player));
    assert_eq!(IdleEvent::from_name("stored_playlist"), Some(IdleEvent::StoredPlaylist));
    assert_eq!(IdleEvent::from_name("mount"), Some(IdleEvent::Mount));
    assert_eq!(IdleEvent::from_name("something_new"), None);
    assert_eq!(IdleEvent::from_name(""), None);
    assert_eq!(IdleEvent::Neighbor.as_str(), "neighbor");
}

#[test]
fn idle_events_choose_what_to_fetch() {
    assert_eq!(idle_refresh(IdleEvent::Mixer, true), IdleRefresh::Volume);
    assert_eq!(idle_refresh(IdleEvent::Mixer, false), IdleRefresh::Status);
    assert_eq!(idle_refresh(IdleEvent::Player, true), IdleRefresh::Status);
    assert_eq!(idle_refresh(IdleEvent::Playlist, true), IdleRefresh::Queue);
    assert_eq!(idle_refresh(IdleEvent::Database, true), IdleRefresh::Nothing);
    assert_eq!(idle_refresh(IdleEvent::Sticker, true), IdleRefresh::Unhandled);
}

#[test]
fn playing_starts_scheduler() {
    let mut ticker = UpdateScheduler::new(1000);
    let reaction = player_reaction(Some(1), PlayState::Play, Some(2), true);
    assert_eq!(reaction.scheduler, LoopEvent::Start);
    assert!(reaction.run_song_hook);
    ticker.handle(SchedulerInput::Signal(reaction.scheduler));
    assert_eq!(ticker.mode, SchedulerMode::Running);

    let paused = player_reaction(Some(2), PlayState::Pause, Some(2), true);
    assert_eq!(paused.scheduler, LoopEvent::Stop);
    assert!(!paused.run_song_hook);
    ticker.handle(SchedulerInput::Signal(paused.scheduler));
    assert_eq!(ticker.mode, SchedulerMode::Stopped);
}

#[test]
fn failed_download_yields_one_failure_event() {
    let request = WorkRequest::DownloadYoutube { url: "http://x".to_string() };
    let plan = handle_work_request(&request, Some("/tmp/cache"));
    let job = plan.clone().unwrap();
    assert_eq!(job.url, "http://x");
    assert_eq!(job.cache_dir, "/tmp/cache");
    let event = work_done_event(plan, Err("download failed".to_string()));
    assert!(matches!(event, AppEvent::WorkDone(Err(ref e)) if e == "download failed"));
    assert_eq!(event_effect(&event), Some(EventEffect::Unchanged));
}

#[test]
fn download_without_cache_dir_fails() {
    let request = WorkRequest::DownloadYoutube { url: "http://x".to_string() };
    let plan = handle_work_request(&request, None);
    assert_eq!(plan, Err("Youtube support requires 'cache_dir' to be configured".to_string()));
    let event = work_done_event(plan, Ok("never".to_string()));
    assert!(matches!(event, AppEvent::WorkDone(Err(_))));
}

#[test]
fn finished_download_is_reported() {
    let request = WorkRequest::DownloadYoutube { url: "http://x".to_string() };
    let plan = handle_work_request(&request, Some("/c"));
    let event = work_done_event(plan, Ok("/c/x.opus".to_string()));
    assert!(matches!(
        event,
        AppEvent::WorkDone(Ok(WorkDone::YoutubeDowloaded { ref file_path })) if file_path == "/c/x.opus"
    ));
}

#[test]
fn two_key_inputs_in_one_frame_render_once() {
    let mut p = FramePacer::new();
    assert_eq!(p.wait_timeout(0), None);
    assert_eq!(p.apply(EventEffect::Render), CycleControl::Proceed);
    assert_eq!(p.render_check(10), RenderAction::Render);
    let t0 = 10;
    let mut renders = 0;
    for now in [t0 + 1_000, t0 + 2_000] {
        let effect = key_effect(&Ok(KeyHandleResult::RenderRequested));
        assert_eq!(p.apply(effect), CycleControl::Proceed);
        if p.render_check(now) != RenderAction::Wait {
            renders += 1;
        }
    }
    assert_eq!(renders, 0);
    assert_eq!(p.wait_timeout(t0 + 2_000), Some(FRAME_BUDGET_NS - 2_000));
    assert_eq!(p.render_check(t0 + FRAME_BUDGET_NS), RenderAction::Render);
    assert_eq!(p.render_check(t0 + FRAME_BUDGET_NS + 1), RenderAction::Wait);
    assert_eq!(p.wait_timeout(t0 + FRAME_BUDGET_NS + 1), None);
}

#[test]
fn full_render_clears_first_and_skip_skips() {
    let mut p = FramePacer::new();
    assert_eq!(p.apply(event_effect(&AppEvent::Resized { columns: 80, rows: 24 }).unwrap()), CycleControl::Proceed);
    assert_eq!(p.render_check(0), RenderAction::FullRender);
    assert!(!p.full_rerender_wanted);
    assert_eq!(p.apply(key_effect(&Ok(KeyHandleResult::SkipRender))), CycleControl::Continue);
    assert_eq!(p.apply(key_effect(&Ok(KeyHandleResult::Quit))), CycleControl::Quit);
    assert_eq!(key_effect(&Err("boom".to_string())), EventEffect::Render);
    assert_eq!(event_effect(&AppEvent::RequestRender(true)), Some(EventEffect::FullRender));
    assert_eq!(event_effect(&AppEvent::Status("hi".to_string(), Level::Info)), Some(EventEffect::Render));
    assert_eq!(event_effect(&AppEvent::Log(vec![1])), Some(EventEffect::Unchanged));
}

fn art_query() -> MpdQuery {
    MpdQuery {
        id: ALBUM_ART,
        replace_id: Some(ALBUM_ART),
        target: Some(PaneType::AlbumArt),
        request: QueryRequest::AlbumArt { file: "a".to_string() },
    }
}

#[test]
fn replaced_query_result_is_discarded() {
    let mut t = QueryTracker::new();
    let first = MpdQuery { replace_id: None, ..art_query() };
    let s1 = t.issue(&first);
    assert!(t.accepts(ALBUM_ART, s1));
    let s2 = t.issue(&art_query());
    assert!(s2 > s1);
    assert!(!t.accepts(ALBUM_ART, s1));
    assert!(t.accepts(ALBUM_ART, s2));
    assert!(t.accepts("other", s1));
}

#[test]
fn superseded_album_art_is_never_shown() {
    let ctx = context(ImageMethod::Kitty);
    let mut pane = AlbumArtPane::new(&ctx);
    let mut t = QueryTracker::new();
    let qa = AlbumArtPane::fetch_album_art(&ctx).unwrap();
    let sa = t.issue(&qa);
    let qb = AlbumArtPane::fetch_album_art(&ctx).unwrap();
    let sb = t.issue(&qb);
    let result = |seq, data: Option<Vec<u8>>| QueryResultEvent {
        id: ALBUM_ART,
        seq,
        target: Some(PaneType::AlbumArt),
        data: MpdQueryResult::AlbumArt(data),
    };
    pane.on_query_result(&t, result(sa, Some(vec![0xA])));
    assert_eq!(pane.art, AlbumArt::Placeholder);
    assert!(!pane.visible);
    pane.on_query_result(&t, result(sb, Some(vec![0xB])));
    assert_eq!(pane.art, AlbumArt::Image(vec![0xB]));
    pane.on_query_result(&t, result(sa, Some(vec![0xA])));
    assert_eq!(pane.art, AlbumArt::Image(vec![0xB]));
    let sc = t.issue(&qb);
    pane.on_query_result(&t, result(sc, None));
    assert_eq!(pane.art, AlbumArt::Placeholder);
}

#[test]
fn searches_for_album_art_by_method() {
    for (method, should_search) in [
        (ImageMethod::Kitty, true),
        (ImageMethod::UeberzugWayland, true),
        (ImageMethod::UeberzugX11, true),
        (ImageMethod::Iterm2, true),
        (ImageMethod::Sixel, true),
        (ImageMethod::Unsupported, false),
        (ImageMethod::Disabled, false),
    ] {
        let ctx = context(method);
        let mut pane = AlbumArtPane::new(&ctx);
        let q = pane.before_show(&ctx);
        assert_eq!(q.is_some(), should_search);
        if let Some(q) = q {
            assert_eq!(q.id, ALBUM_ART);
            assert_eq!(q.replace_id, Some(ALBUM_ART));
            assert_eq!(q.target, Some(PaneType::AlbumArt));
            assert_eq!(q.request, QueryRequest::AlbumArt { file: "music/a.flac".to_string() });
        } else {
            assert_eq!(pane.art, AlbumArt::Placeholder);
            assert!(pane.visible);
        }
    }
}

#[test]
fn no_album_art_for_disabled_protocol_or_missing_song() {
    let mut ctx = context(ImageMethod::Kitty);
    ctx.queue[1].file = "http://stream".to_string();
    assert!(AlbumArtPane::fetch_album_art(&ctx).is_none());
    let mut ctx = context(ImageMethod::Kitty);
    ctx.status.song_id = Some(999);
    assert!(AlbumArtPane::fetch_album_art(&ctx).is_none());
    ctx.status.song_id = None;
    assert!(AlbumArtPane::fetch_album_art(&ctx).is_none());
}

#[test]
fn current_song_is_first_with_its_id() {
    let ctx = context(ImageMethod::Kitty);
    let (i, s) = ctx.find_current_song_in_queue().unwrap();
    assert_eq!(i, 1);
    assert_eq!(s.file, "music/a.flac");
}

#[test]
fn producer_order_is_kept_through_the_bus() {
    let (tx, rx) = std::sync::mpsc::channel::<(u8, u32)>();
    let a = tx.clone();
    let b = tx;
    for i in 0..5u32 {
        a.send((1, i)).unwrap();
        if i % 2 == 0 {
            b.send((2, i)).unwrap();
        }
    }
    let mut pacer = FramePacer::new();
    let mut seen_a = Vec::new();
    let mut seen_b = Vec::new();
    let mut cycles = 0;
    while let Ok((producer, n)) = rx.try_recv() {
        cycles += 1;
        assert_eq!(pacer.apply(EventEffect::Render), CycleControl::Proceed);
        if producer == 1 {
            seen_a.push(n);
        } else {
            seen_b.push(n);
        }
    }
    assert_eq!(cycles, 8);
    assert_eq!(seen_a, vec![0, 1, 2, 3, 4]);
    assert_eq!(seen_b, vec![0, 2, 4]);
}

#[test]
fn song_hook_environment() {
    assert_eq!(to_ascii_upper("albumArtist-é"), "ALBUMARTIST-é");
    assert_eq!(duration_string(187), "3:07");
    assert_eq!(duration_string(60), "1:00");
    assert_eq!(duration_string(5), "0:05");
    let metadata = vec![("artist".to_string(), "Mrs Singer".to_string()), ("Title".to_string(), "Song".to_string())];
    let env = song_hook_env("music/a.flac", &metadata, Some(187));
    assert_eq!(
        env,
        vec![
            ("ARTIST".to_string(), "Mrs Singer".to_string()),
            ("TITLE".to_string(), "Song".to_string()),
            ("FILE".to_string(), "music/a.flac".to_string()),
            ("DURATION".to_string(), "3:07".to_string()),
        ]
    );
    let env = song_hook_env("x", &vec![], None);
    assert_eq!(env, vec![("FILE".to_string(), "x".to_string()), ("DURATION".to_string(), String::new())]);
}
