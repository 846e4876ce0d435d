use rmpc::command::{ClientCommand, MpdError, Version};
use rmpc::context::OnOffOneshot;
use rmpc::mpd_client::{
    find_album_art, list_tag_command, AlbumArtLookup, Filter, MpdClient, QueueMoveTarget, SaveMode,
    SingleOrRange, Tag, ValueChange,
};
use rmpc::idle::IdleEvent;
use rmpc::mpd_client::{
    add_to_playlist_command, filter_command, getvol_command, idle_command, list_files_command,
    list_playlist_info_command, lsinfo_command, move_in_playlist_command, rescan_command, save_queue_command,
    update_command, volume_command, FilterCommand,
};
use rmpc::text::decimal_string;

#[test]
fn value_change_texts() {
    assert_eq!(ValueChange::Increase(5).to_mpd_str(), "+5");
    assert_eq!(ValueChange::Decrease(12).to_mpd_str(), "-12");
    assert_eq!(ValueChange::SetTo(0).to_mpd_str(), "0");
    assert_eq!(ValueChange::SetTo(4294967295).to_mpd_str(), "4294967295");
}

#[test]
fn move_target_texts() {
    assert_eq!(QueueMoveTarget::RelativeAdd(0).as_mpd_str(), "+0");
    assert_eq!(QueueMoveTarget::RelativeSub(3).as_mpd_str(), "-3");
    assert_eq!(QueueMoveTarget::Absolute(42).as_mpd_str(), "42");
}

#[test]
fn range_texts() {
    assert_eq!(SingleOrRange::single(7).as_mpd_range(), "\"7\"");
    assert_eq!(SingleOrRange::range(1, 10).as_mpd_range(), "\"1:10\"");
    assert_eq!(SingleOrRange::range(3, 4), SingleOrRange { start: 3, end: Some(4) });
}

#[test]
fn save_mode_words() {
    assert_eq!(SaveMode::Create.as_str(), "create");
    assert_eq!(SaveMode::Append.as_str(), "append");
    assert_eq!(SaveMode::Replace.as_str(), "replace");
}

#[test]
fn decimal_rendering() {
    assert_eq!(decimal_string(0), "0");
    assert_eq!(decimal_string(1234567890), "1234567890");
    assert_eq!(decimal_string(u64::MAX), "18446744073709551615");
}

#[test]
fn command_lines() {
    let v = Version::new(0, 24, 0);
    assert_eq!(ClientCommand::Next.to_command_string(v), Ok("next".to_string()));
    assert_eq!(ClientCommand::Prev.to_command_string(v), Ok("previous".to_string()));
    assert_eq!(ClientCommand::Repeat(true).to_command_string(v), Ok("repeat 1".to_string()));
    assert_eq!(ClientCommand::Random(false).to_command_string(v), Ok("random 0".to_string()));
    assert_eq!(
        ClientCommand::Single(OnOffOneshot::Oneshot).to_command_string(v),
        Ok("single oneshot".to_string())
    );
    assert_eq!(ClientCommand::SetVolume(55).to_command_string(v), Ok("setvol 55".to_string()));
    assert_eq!(ClientCommand::SeekForward(5).to_command_string(v), Ok("seekcur +5".to_string()));
    assert_eq!(ClientCommand::SeekBack(5).to_command_string(v), Ok("seekcur -5".to_string()));
    assert_eq!(
        ClientCommand::Add("/tmp/a b.mp3".to_string()).to_command_string(v),
        Ok("add \"/tmp/a b.mp3\"".to_string())
    );
    assert_eq!(
        ClientCommand::FindAdd("(Album == 'x')".to_string()).to_command_string(v),
        Ok("findadd \"((Album == 'x'))\"".to_string())
    );
}

#[test]
fn consume_oneshot_needs_new_server() {
    let old = Version::new(0, 23, 5);
    assert_eq!(
        ClientCommand::Consume(OnOffOneshot::Oneshot).to_command_string(old),
        Err(MpdError::UnsupportedMpdVersion)
    );
    assert_eq!(
        ClientCommand::Consume(OnOffOneshot::On).to_command_string(old),
        Ok("consume 1".to_string())
    );
    assert_eq!(
        ClientCommand::Consume(OnOffOneshot::Oneshot).to_command_string(Version::new(0, 24, 0)),
        Ok("consume oneshot".to_string())
    );
}

#[test]
fn version_order() {
    assert!(Version::new(0, 23, 9).lt(&Version::new(0, 24, 0)));
    assert!(!Version::new(0, 24, 0).lt(&Version::new(0, 24, 0)));
    assert!(!Version::new(1, 0, 0).lt(&Version::new(0, 99, 99)));
}

#[test]
fn list_tag_lines() {
    assert_eq!(list_tag_command(Tag::Album, None), "list Album");
    let fs = [Filter::new(Tag::Album, "x")];
    assert_eq!(list_tag_command(Tag::Title, Some(&fs)), "list Title \"((Album == 'x'))\"");
}

struct FakeClient {
    albumart: Result<Option<Vec<u8>>, MpdError>,
    read_picture: Result<Option<Vec<u8>>, MpdError>,
    read_picture_calls: u32,
}

impl MpdClient for FakeClient {
    fn albumart(&mut self, _path: &str) -> Result<Option<Vec<u8>>, MpdError> {
        self.albumart.clone()
    }

    fn read_picture(&mut self, _path: &str) -> Result<Option<Vec<u8>>, MpdError> {
        self.read_picture_calls += 1;
        self.read_picture.clone()
    }
}

fn fake(a: Result<Option<Vec<u8>>, MpdError>, r: Result<Option<Vec<u8>>, MpdError>) -> FakeClient {
    FakeClient { albumart: a, read_picture: r, read_picture_calls: 0 }
}

#[test]
fn album_art_prefers_stored_art() {
    let mut c = fake(Ok(Some(vec![1, 2])), Ok(Some(vec![9])));
    assert_eq!(find_album_art(&mut c, "a.flac"), AlbumArtLookup { art: Some(vec![1, 2]), error: None });
    assert_eq!(c.read_picture_calls, 0);
}

#[test]
fn album_art_falls_back_to_embedded_picture() {
    let mut c = fake(Err(MpdError::NoExist), Ok(Some(vec![9])));
    assert_eq!(find_album_art(&mut c, "a.flac"), AlbumArtLookup { art: Some(vec![9]), error: None });
    assert_eq!(c.read_picture_calls, 1);
    let mut c = fake(Ok(None), Err(MpdError::NoExist));
    assert_eq!(find_album_art(&mut c, "a.flac"), AlbumArtLookup { art: None, error: None });
}

#[test]
fn album_art_reports_other_errors() {
    let mut c = fake(Err(MpdError::Failed), Ok(Some(vec![9])));
    assert_eq!(
        find_album_art(&mut c, "a.flac"),
        AlbumArtLookup { art: None, error: Some(MpdError::Failed) }
    );
    assert_eq!(c.read_picture_calls, 0);
    let mut c = fake(Ok(None), Err(MpdError::Failed));
    assert_eq!(
        find_album_art(&mut c, "a.flac"),
        AlbumArtLookup { art: None, error: Some(MpdError::Failed) }
    );
}

#[test]
fn value_change_parses_signs() {
    assert_eq!(ValueChange::parse("+5"), Some(ValueChange::Increase(5)));
    assert_eq!(ValueChange::parse("-5"), Some(ValueChange::Decrease(5)));
    assert_eq!(ValueChange::parse("5"), Some(ValueChange::SetTo(5)));
    assert_eq!(ValueChange::parse("--7"), Some(ValueChange::Decrease(7)));
    assert_eq!(ValueChange::parse("-+7"), Some(ValueChange::Decrease(7)));
    assert_eq!(ValueChange::parse("4294967295"), Some(ValueChange::SetTo(4294967295)));
}

#[test]
fn value_change_rejects_bad_text() {
    assert_eq!(ValueChange::parse(""), None);
    assert_eq!(ValueChange::parse("+"), None);
    assert_eq!(ValueChange::parse("-"), None);
    assert_eq!(ValueChange::parse("abc"), None);
    assert_eq!(ValueChange::parse("5x"), None);
    assert_eq!(ValueChange::parse("4294967296"), None);
    assert_eq!(ValueChange::parse("99999999999999999999"), None);
}

#[test]
fn database_command_lines() {
    assert_eq!(update_command(None), "update");
    assert_eq!(update_command(Some("music/new")), "update music/new");
    assert_eq!(rescan_command(Some("x")), "rescan x");
    assert_eq!(idle_command(None), "idle");
    assert_eq!(idle_command(Some(IdleEvent::StoredPlaylist)), "idle stored_playlist");
    assert_eq!(getvol_command(Version::new(0, 22, 9)), Err(MpdError::UnsupportedMpdVersion));
    assert_eq!(getvol_command(Version::new(0, 23, 0)), Ok("getvol".to_string()));
    assert_eq!(volume_command(ValueChange::Increase(3)), "volume +3");
    assert_eq!(volume_command(ValueChange::SetTo(30)), "setvol 30");
    let fs = [Filter::new(Tag::Artist, "a"), Filter::new(Tag::Album, "b")];
    assert_eq!(
        filter_command(FilterCommand::Search, &fs),
        "search \"((Artist == 'a') AND (Album == 'b'))\""
    );
    assert_eq!(filter_command(FilterCommand::FindAdd, &fs[..1]), "findadd \"((Artist == 'a'))\"");
    assert_eq!(lsinfo_command(None), "lsinfo");
    assert_eq!(lsinfo_command(Some("dir one")), "lsinfo \"dir one\"");
    assert_eq!(list_files_command(Some("d")), "listfiles \"d\"");
    assert_eq!(
        list_playlist_info_command("mix", None, Version::new(0, 23, 0)),
        Ok("listplaylistinfo \"mix\"".to_string())
    );
    assert_eq!(
        list_playlist_info_command("mix", Some(SingleOrRange::range(0, 5)), Version::new(0, 23, 0)),
        Err(MpdError::UnsupportedMpdVersion)
    );
    assert_eq!(
        list_playlist_info_command("mix", Some(SingleOrRange::range(0, 5)), Version::new(0, 24, 0)),
        Ok("listplaylistinfo \"mix\" \"0:5\"".to_string())
    );
    assert_eq!(
        move_in_playlist_command("mix", &SingleOrRange::single(2), 0),
        "playlistmove \"mix\" \"2\" 0"
    );
    assert_eq!(add_to_playlist_command("mix", "a.mp3", None), "playlistadd \"mix\" \"a.mp3\"");
    assert_eq!(add_to_playlist_command("mix", "a.mp3", Some(4)), "playlistadd \"mix\" \"a.mp3\" 4");
    assert_eq!(save_queue_command("q", None, Version::new(0, 20, 0)), Ok("save \"q\"".to_string()));
    assert_eq!(
        save_queue_command("q", Some(SaveMode::Append), Version::new(0, 20, 0)),
        Err(MpdError::UnsupportedMpdVersion)
    );
    assert_eq!(
        save_queue_command("q", Some(SaveMode::Replace), Version::new(0, 24, 1)),
        Ok("save \"q\" \"replace\"".to_string())
    );
}
