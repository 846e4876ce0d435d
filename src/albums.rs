use vstd::prelude::*;

use crate::command::ClientCommand;
use crate::mpd_client::{
    Filter, FilterCommand, FilterKind, Tag, filter_command, filter_command_verb, filter_text, list_tag_command,
    query_text, quoted, tag_name, to_query_str,
};
use crate::ui::KeyHandleResultInternal;

verus! {

/// The query for one album: `(Album == 'a')`.
pub open spec fn album_query(album: Seq<char>) -> Seq<char> {
    "("@ + filter_text(Tag::Album, album, FilterKind::Exact) + ")"@
}

/// The query for one title of one album: `(Title == 't') AND (Album == 'a')`.
pub open spec fn album_title_query(album: Seq<char>, title: Seq<char>) -> Seq<char> {
    "("@ + filter_text(Tag::Title, title, FilterKind::Exact) + ")"@ + " AND ("@ + filter_text(
        Tag::Album,
        album,
        FilterKind::Exact,
    ) + ")"@
}

/// The albums browser: the albums, or the titles of the album entered.
#[derive(Debug, Clone)]
pub struct AlbumsScreen {
    /// Empty at the album list; the album's name inside an album.
    pub path: Vec<String>,
    /// The names listed at the current level.
    pub items: Vec<String>,
    pub selected: Option<usize>,
    pub filter_input_mode: bool,
}

/// What going deeper on the albums screen asks of the event loop.
#[derive(Debug, Clone, PartialEq, Eq)]
pub enum AlbumsStep {
    /// List the titles of this album, then enter it.
    ListTitles(String),
    /// Send this command.
    Command(ClientCommand),
    /// Nothing to fetch.
    Nothing,
}

impl AlbumsScreen {
    pub open spec fn wf(&self) -> bool {
        self.selected matches Some(i) ==> i < self.items@.len()
    }

    pub fn new() -> (r: Self)
        ensures
            r.path@.len() == 0,
            r.items@.len() == 0,
            r.selected is None,
            !r.filter_input_mode,
            r.wf(),
    {
        AlbumsScreen { path: Vec::new(), items: Vec::new(), selected: None, filter_input_mode: false }
    }

    pub fn set_filter_input_mode_active(&mut self, active: bool)
        ensures
            final(self).filter_input_mode == active,
            final(self).path == old(self).path,
            final(self).items == old(self).items,
            final(self).selected == old(self).selected,
    {
        self.filter_input_mode = active;
    }

    pub fn is_filter_input_mode_active(&self) -> (r: bool)
        ensures
            r == self.filter_input_mode,
    {
        self.filter_input_mode
    }

    /// Whether showing the screen needs the album list: only at the top level.
    pub fn needs_album_list(&self) -> (r: bool)
        ensures
            r == (self.path@.len() == 0),
    {
        self.path.len() == 0
    }

    /// Shows the album list, with the first album selected.
    pub fn show_albums(&mut self, albums: Vec<String>)
        ensures
            final(self).path@.len() == 0,
            final(self).items == albums,
            final(self).selected == (if albums@.len() > 0 { Some(0usize) } else { None::<usize> }),
            final(self).filter_input_mode == old(self).filter_input_mode,
            final(self).wf(),
    {
        self.path = Vec::new();
        self.selected = if albums.len() > 0 {
            Some(0)
        } else {
            None
        };
        self.items = albums;
    }

    /// Enters an album with its titles, the first one selected.
    pub fn enter_album(&mut self, album: String, titles: Vec<String>)
        ensures
            final(self).path@ == old(self).path@.push(album),
            final(self).items == titles,
            final(self).selected == (if titles@.len() > 0 { Some(0usize) } else { None::<usize> }),
            final(self).wf(),
    {
        self.path.push(album);
        self.selected = if titles.len() > 0 {
            Some(0)
        } else {
            None
        };
        self.items = titles;
    }

    /// Moves the selection one item down or up, staying inside the list.
    pub fn move_selection(&mut self, down: bool)
        requires
            old(self).wf(),
        ensures
            final(self).wf(),
            final(self).path == old(self).path,
            final(self).items == old(self).items,
            final(self).selected == (match old(self).selected {
                None => None,
                Some(i) => Some(if down {
                    if i + 1 < old(self).items@.len() { (i + 1) as usize } else { i }
                } else {
                    if i > 0 { (i - 1) as usize } else { i }
                }),
            }),
    {
        if let Some(i) = self.selected {
            if down {
                if i < self.items.len() - 1 {
                    self.selected = Some(i + 1);
                }
            } else if i > 0 {
                self.selected = Some(i - 1);
            }
        }
    }

    /// Adds an item to the queue: an album at the top level, one title inside an album.
    pub fn add(&self, item: &str) -> (r: (Option<ClientCommand>, KeyHandleResultInternal))
        ensures
            self.path@.len() == 0 ==> r.1 == KeyHandleResultInternal::RenderRequested && (r.0 matches Some(
                ClientCommand::FindAdd(q),
            ) && q@ == album_query(item@)),
            self.path@.len() == 1 ==> r.1 == KeyHandleResultInternal::RenderRequested && (r.0 matches Some(
                ClientCommand::FindAdd(q),
            ) && q@ == album_title_query(self.path@[0]@, item@)),
            self.path@.len() > 1 ==> r.0 is None && r.1 == KeyHandleResultInternal::SkipRender,
    {
        if self.path.len() == 0 {
            let fs = vec![Filter::new(Tag::Album, item)];
            let q = to_query_str(fs.as_slice());
            proof {
                assert(fs@.len() == 1);
                assert(fs@[0].text() == filter_text(Tag::Album, item@, FilterKind::Exact));
            }
            (Some(ClientCommand::FindAdd(q)), KeyHandleResultInternal::RenderRequested)
        } else if self.path.len() == 1 {
            let album = self.path[0].as_str();
            let fs = vec![Filter::new(Tag::Title, item), Filter::new(Tag::Album, album)];
            let q = to_query_str(fs.as_slice());
            proof {
                let s = fs@;
                assert(s.len() == 2);
                assert(s.drop_last().len() == 1);
                assert(s.drop_last()[0] == s[0]);
                assert(s[0].text() == filter_text(Tag::Title, item@, FilterKind::Exact));
                assert(s[1].text() == filter_text(Tag::Album, self.path@[0]@, FilterKind::Exact));
                assert(query_text(s.drop_last()) == "("@ + s[0].text() + ")"@);
                assert(s.last() == s[1]);
                assert(q@ =~= album_title_query(self.path@[0]@, item@));
            }
            (Some(ClientCommand::FindAdd(q)), KeyHandleResultInternal::RenderRequested)
        } else {
            (None, KeyHandleResultInternal::SkipRender)
        }
    }

    /// The command whose answer previews the selected item: the album's titles
    /// at the top level, the matching song inside an album.
    pub fn preview_query(&self) -> (r: Option<String>)
        requires
            self.wf(),
        ensures
            self.selected is None || self.path@.len() > 1 ==> r is None,
            self.selected matches Some(i) ==> (self.path@.len() == 0 ==> (r matches Some(q) && q@
                == "list "@ + tag_name(Tag::Title) + " \"("@ + album_query(self.items@[i as int]@) + ")\""@)),
            self.selected matches Some(i) ==> (self.path@.len() == 1 ==> (r matches Some(q) && q@
                == filter_command_verb(FilterCommand::Find) + " "@ + quoted(
                "("@ + album_title_query(self.path@[0]@, self.items@[i as int]@) + ")"@,
            ))),
    {
        let i = match self.selected {
            Some(i) => i,
            None => return None,
        };
        let current = self.items[i].as_str();
        if self.path.len() == 0 {
            let fs = vec![Filter::new(Tag::Album, current)];
            let q = list_tag_command(Tag::Title, Some(fs.as_slice()));
            proof {
                assert(fs@.len() == 1);
                assert(fs@[0].text() == filter_text(Tag::Album, current@, FilterKind::Exact));
                assert(query_text(fs@) == album_query(current@));
            }
            Some(q)
        } else if self.path.len() == 1 {
            let album = self.path[0].as_str();
            let fs = vec![Filter::new(Tag::Title, current), Filter::new(Tag::Album, album)];
            let q = filter_command(FilterCommand::Find, fs.as_slice());
            proof {
                let s = fs@;
                assert(s.drop_last().len() == 1);
                assert(s.drop_last()[0] == s[0]);
                assert(s[0].text() == filter_text(Tag::Title, current@, FilterKind::Exact));
                assert(s[1].text() == filter_text(Tag::Album, album@, FilterKind::Exact));
                assert(query_text(s.drop_last()) == "("@ + s[0].text() + ")"@);
                assert(s.last() == s[1]);
                assert(query_text(s) =~= album_title_query(album@, current@));
            }
            Some(q)
        } else {
            None
        }
    }

    /// Goes deeper on the selected item: at the album list, enters the album
    /// (after its titles are listed); inside an album, adds the title.
    pub fn next(&self) -> (r: (AlbumsStep, KeyHandleResultInternal))
        requires
            self.wf(),
        ensures
            self.selected is None || self.path@.len() > 1 ==> r == (
                AlbumsStep::Nothing,
                KeyHandleResultInternal::RenderRequested,
            ),
            self.selected matches Some(i) ==> (self.path@.len() == 0 ==> r == (
                AlbumsStep::ListTitles(self.items@[i as int]),
                KeyHandleResultInternal::RenderRequested,
            )),
            self.selected matches Some(i) ==> (self.path@.len() == 1 ==> (r.0 matches AlbumsStep::Command(
                ClientCommand::FindAdd(q),
            ) && q@ == album_title_query(self.path@[0]@, self.items@[i as int]@)) && r.1
                == KeyHandleResultInternal::RenderRequested),
    {
        let i = match self.selected {
            Some(i) => i,
            None => return (AlbumsStep::Nothing, KeyHandleResultInternal::RenderRequested),
        };
        let current = &self.items[i];
        if self.path.len() == 0 {
            (AlbumsStep::ListTitles(current.clone()), KeyHandleResultInternal::RenderRequested)
        } else if self.path.len() == 1 {
            let (cmd, res) = self.add(current.as_str());
            match cmd {
                Some(c) => (AlbumsStep::Command(c), res),
                None => (AlbumsStep::Nothing, res),
            }
        } else {
            (AlbumsStep::Nothing, KeyHandleResultInternal::RenderRequested)
        }
    }
}

} // verus!
