use vstd::prelude::*;

use crate::context::{AppContext, ImageMethod, shows_images};
use crate::query::{
    MpdQuery, MpdQueryResult, PaneType, QueryRequest, QueryResultEvent, QueryTracker, issued,
    lemma_replacing_query_discards_earlier,
};
use crate::text::{is_prefix, starts_with, str_eq};
use crate::ui::UiEvent;

verus! {

/// The correlation id of every cover art query.
pub const ALBUM_ART: &'static str = "album_art";

/// The art a pane holds.
#[derive(Debug, Clone, PartialEq, Eq)]
pub enum AlbumArt {
    /// The default image, used when a song has no art.
    Placeholder,
    /// The song's cover art.
    Image(Vec<u8>),
}

/// The cover art pane: the art it holds, and whether it is drawn.
#[derive(Debug, Clone)]
pub struct AlbumArtPane {
    pub art: AlbumArt,
    pub visible: bool,
    pub method: ImageMethod,
}

/// What the pane asks for after an event.
#[derive(Debug, Clone)]
pub struct PaneReaction {
    /// A cover art query to send to the client worker.
    pub query: Option<MpdQuery>,
    /// Whether a render is to be requested.
    pub render: bool,
}

/// Whether `uri` starts with one of the disabled protocols.
pub open spec fn protocol_disabled(protos: Seq<String>, uri: Seq<char>) -> bool {
    exists|i: int| 0 <= i < protos.len() && is_prefix(protos[i]@, uri)
}

/// The cover art query for the current song, or none when art is hidden:
/// images are off, no current song is in the queue, or its protocol is disabled.
pub open spec fn art_query_for(ctx: AppContext, q: Option<MpdQuery>) -> bool {
    match q {
        None => !shows_images(ctx.image_method) || ctx.status.song_id is None || (forall|j: int|
            0 <= j < ctx.queue@.len() ==> ctx.queue@[j].id != ctx.status.song_id->0) || exists|
            i: int,
        |
            0 <= i < ctx.queue@.len() && ctx.queue@[i].id == ctx.status.song_id->0 && (forall|
                j: int,
            | 0 <= j < i ==> ctx.queue@[j].id != ctx.status.song_id->0) && protocol_disabled(
                ctx.disabled_protocols@,
                ctx.queue@[i].file@,
            ),
        Some(q) => {
            &&& shows_images(ctx.image_method)
            &&& q.id@ == ALBUM_ART@
            &&& q.replace_id matches Some(r) && r@ == ALBUM_ART@
            &&& q.target == Some(PaneType::AlbumArt)
            &&& exists|i: int|
                0 <= i < ctx.queue@.len() && ctx.queue@[i].id == ctx.status.song_id->0 && ctx.status.song_id
                    is Some && (forall|j: int| 0 <= j < i ==> ctx.queue@[j].id != ctx.status.song_id->0)
                    && !protocol_disabled(ctx.disabled_protocols@, ctx.queue@[i].file@) && q.request
                    == (QueryRequest::AlbumArt { file: ctx.queue@[i].file })
        },
    }
}

/// The pane after a query result reaches it.
pub open spec fn after_result(p: AlbumArtPane, id: Seq<char>, data: MpdQueryResult) -> AlbumArtPane {
    if id == ALBUM_ART@ {
        match data {
            MpdQueryResult::AlbumArt(Some(d)) => AlbumArtPane { art: AlbumArt::Image(d), visible: true, ..p },
            MpdQueryResult::AlbumArt(None) => AlbumArtPane { art: AlbumArt::Placeholder, visible: true, ..p },
        }
    } else {
        p
    }
}

/// The pane after the event loop delivers a result: applied only when it is
/// meant for this pane and still current.
pub open spec fn after_delivery(p: AlbumArtPane, t: QueryTracker, ev: QueryResultEvent) -> AlbumArtPane {
    if ev.target == Some(PaneType::AlbumArt) && t.is_current(ev.id@, ev.seq) {
        after_result(p, ev.id@, ev.data)
    } else {
        p
    }
}

fn any_protocol_disabled(protos: &Vec<String>, uri: &str) -> (r: bool)
    ensures
        r == protocol_disabled(protos@, uri@),
{
    let mut i: usize = 0;
    while i < protos.len()
        invariant
            i <= protos@.len(),
            forall|j: int| 0 <= j < i ==> !is_prefix(#[trigger] protos@[j]@, uri@),
        decreases protos@.len() - i,
    {
        if starts_with(uri, protos[i].as_str()) {
            return true;
        }
        i = i + 1;
    }
    false
}

impl AlbumArtPane {
    pub fn new(context: &AppContext) -> (r: Self)
        ensures
            r.art == AlbumArt::Placeholder,
            !r.visible,
            r.method == context.image_method,
    {
        AlbumArtPane { art: AlbumArt::Placeholder, visible: false, method: context.image_method }
    }

    /// The cover art query for the current song; none when art is to be hidden.
    pub fn fetch_album_art(context: &AppContext) -> (r: Option<MpdQuery>)
        ensures
            art_query_for(*context, r),
    {
        match context.image_method {
            ImageMethod::Unsupported | ImageMethod::Disabled => return None,
            _ => {},
        }
        let (_, current_song) = match context.find_current_song_in_queue() {
            Some(found) => found,
            None => return None,
        };
        let song_uri = current_song.file.as_str();
        if any_protocol_disabled(&context.disabled_protocols, song_uri) {
            return None;
        }
        Some(
            MpdQuery {
                id: ALBUM_ART,
                replace_id: Some(ALBUM_ART),
                target: Some(PaneType::AlbumArt),
                request: QueryRequest::AlbumArt { file: current_song.file.clone() },
            },
        )
    }

    /// Before the pane is shown: asks for the current song's art, or shows the
    /// placeholder when there is none to ask for.
    pub fn before_show(&mut self, context: &AppContext) -> (r: Option<MpdQuery>)
        ensures
            art_query_for(*context, r),
            r is None ==> final(self).art == AlbumArt::Placeholder && final(self).visible,
            r is Some ==> *final(self) == *old(self),
    {
        let q = AlbumArtPane::fetch_album_art(context);
        if q.is_none() {
            self.art = AlbumArt::Placeholder;
            self.visible = true;
        }
        q
    }

    /// A query result for this pane: shows the art, or the placeholder when the
    /// song has none. Results of other queries are ignored.
    pub fn on_query_finished(&mut self, id: &str, data: MpdQueryResult)
        ensures
            *final(self) == after_result(*old(self), id@, data),
    {
        if str_eq(id, ALBUM_ART) {
            match data {
                MpdQueryResult::AlbumArt(Some(d)) => {
                    self.art = AlbumArt::Image(d);
                    self.visible = true;
                },
                MpdQueryResult::AlbumArt(None) => {
                    self.art = AlbumArt::Placeholder;
                    self.visible = true;
                },
            }
        }
    }

    /// Delivers a result from the bus, unless it was superseded or is meant for
    /// another component.
    pub fn on_query_result(&mut self, tracker: &QueryTracker, ev: QueryResultEvent)
        ensures
            *final(self) == after_delivery(*old(self), *tracker, ev),
    {
        let current = match ev.target {
            Some(PaneType::AlbumArt) => tracker.accepts(ev.id, ev.seq),
            None => false,
        };
        let ghost target = ev.target;
        let ghost seq = ev.seq;
        let id = ev.id;
        if current {
            assert(target == Some(PaneType::AlbumArt) && tracker.is_current(id@, seq));
            self.on_query_finished(id, ev.data);
        }
    }

    /// Reacts to a UI event: a song change (while visible) asks for new art;
    /// a modal hides the art until it closes; exit clears it.
    pub fn on_event(&mut self, event: &UiEvent, is_visible: bool, context: &AppContext) -> (r:
        PaneReaction)
        ensures
            (event == UiEvent::SongChanged || event == UiEvent::Reconnected) && is_visible ==> {
                &&& art_query_for(*context, r.query)
                &&& r.query is None ==> final(self).art == AlbumArt::Placeholder && final(self).visible
                &&& r.query is Some ==> *final(self) == *old(self)
                &&& !r.render
            },
            *event == UiEvent::ModalOpened ==> r.query is None && r.render && !final(self).visible
                && final(self).art == old(self).art,
            *event == UiEvent::ModalClosed ==> r.query is None && r.render && final(self).visible
                && final(self).art == old(self).art,
            *event == UiEvent::Exit ==> r.query is None && !r.render && !final(self).visible,
            !((event == UiEvent::SongChanged || event == UiEvent::Reconnected) && is_visible)
                && *event != UiEvent::ModalOpened && *event != UiEvent::ModalClosed && *event
                != UiEvent::Exit ==> r.query is None && !r.render && *final(self) == *old(self),
    {
        match event {
            UiEvent::SongChanged | UiEvent::Reconnected => {
                if is_visible {
                    let q = self.before_show(context);
                    PaneReaction { query: q, render: false }
                } else {
                    PaneReaction { query: None, render: false }
                }
            },
            UiEvent::ModalOpened => {
                self.visible = false;
                PaneReaction { query: None, render: true }
            },
            UiEvent::ModalClosed => {
                self.visible = true;
                PaneReaction { query: None, render: true }
            },
            UiEvent::Exit => {
                self.visible = false;
                PaneReaction { query: None, render: false }
            },
            _ => PaneReaction { query: None, render: false },
        }
    }
}

/// A cover art query for one song, superseded by a query for another song
/// before its result returns: its result is dropped whenever it arrives, and
/// the pane ends up showing the second song's art, or the placeholder when
/// that song has none; never the first song's art.
pub proof fn lemma_superseded_art_never_shown(
    pane: AlbumArtPane,
    before: QueryTracker,
    after: QueryTracker,
    first: QueryResultEvent,
    second: QueryResultEvent,
)
    requires
        before.wf(),
        issued(before, after, Some(ALBUM_ART@)),
        first.id@ == ALBUM_ART@,
        first.seq < before.next(),
        second.id@ == ALBUM_ART@,
        second.seq == before.next(),
        second.target == Some(PaneType::AlbumArt),
    ensures
        after_delivery(pane, after, first) == pane,
        after_delivery(after_delivery(pane, after, first), after, second).art == (match second.data {
            MpdQueryResult::AlbumArt(Some(d)) => AlbumArt::Image(d),
            MpdQueryResult::AlbumArt(None) => AlbumArt::Placeholder,
        }),
        after_delivery(after_delivery(pane, after, second), after, first) == after_delivery(
            pane,
            after,
            second,
        ),
{
    lemma_replacing_query_discards_earlier(before, after, ALBUM_ART@, first.seq);
}

} // verus!
