use vstd::prelude::*;

use crate::command::{MpdError, Version, version_lt};
use crate::idle::{IdleEvent, idle_event_name};
use crate::text::{decimal, parse_u32_from, parse_u32_spec, push_char, push_decimal, skip_char, trim_leading};

verus! {

/// How a stored playlist is written when the queue is saved under its name.
#[derive(Debug, Clone, Copy, PartialEq, Eq, Structural)]
pub enum SaveMode {
    Create,
    Append,
    Replace,
}

pub open spec fn save_mode_name(m: SaveMode) -> Seq<char> {
    match m {
        SaveMode::Create => "create"@,
        SaveMode::Append => "append"@,
        SaveMode::Replace => "replace"@,
    }
}

impl SaveMode {
    /// The protocol word for this mode.
    pub fn as_str(&self) -> (r: &'static str)
        ensures
            r@ == save_mode_name(*self),
    {
        match self {
            SaveMode::Create => "create",
            SaveMode::Append => "append",
            SaveMode::Replace => "replace",
        }
    }
}

/// A change of a numeric player setting: relative up, relative down, or absolute.
#[derive(Debug, Clone, Copy, PartialEq, Eq, Structural)]
pub enum ValueChange {
    Increase(u32),
    Decrease(u32),
    SetTo(u32),
}

pub open spec fn value_change_text(v: ValueChange) -> Seq<char> {
    match v {
        ValueChange::Increase(n) => seq!['+'] + decimal(n as nat),
        ValueChange::Decrease(n) => seq!['-'] + decimal(n as nat),
        ValueChange::SetTo(n) => decimal(n as nat),
    }
}

/// What a user's text means as a change: `-n` lowers, `+n` raises, `n` sets.
/// Leading runs of the sign are dropped before the number is read.
pub open spec fn parse_value_change(s: Seq<char>) -> Option<ValueChange> {
    if s.len() > 0 && s[0] == '-' {
        match parse_u32_spec(trim_leading(s, '-')) {
            Some(n) => Some(ValueChange::Decrease(n)),
            None => None,
        }
    } else if s.len() > 0 && s[0] == '+' {
        match parse_u32_spec(trim_leading(s, '+')) {
            Some(n) => Some(ValueChange::Increase(n)),
            None => None,
        }
    } else {
        match parse_u32_spec(s) {
            Some(n) => Some(ValueChange::SetTo(n)),
            None => None,
        }
    }
}

impl ValueChange {
    /// Reads a change from text such as `+5`, `-5` or `5`; none when the text is
    /// not such a change.
    pub fn parse(s: &str) -> (r: Option<ValueChange>)
        ensures
            r == parse_value_change(s@),
    {
        let n = s.unicode_len();
        proof {
            assert(s@.subrange(0, n as int) =~= s@);
        }
        if n > 0 && s.get_char(0) == '-' {
            let i = skip_char(s, 0, '-');
            match parse_u32_from(s, i) {
                Some(v) => Some(ValueChange::Decrease(v)),
                None => None,
            }
        } else if n > 0 && s.get_char(0) == '+' {
            let i = skip_char(s, 0, '+');
            match parse_u32_from(s, i) {
                Some(v) => Some(ValueChange::Increase(v)),
                None => None,
            }
        } else {
            match parse_u32_from(s, 0) {
                Some(v) => Some(ValueChange::SetTo(v)),
                None => None,
            }
        }
    }

    /// The protocol argument for this change: `+n`, `-n` or `n`.
    pub fn to_mpd_str(&self) -> (r: String)
        ensures
            r@ == value_change_text(*self),
    {
        let mut s = String::new();
        match self {
            ValueChange::Increase(n) => {
                push_char(&mut s, '+');
                push_decimal(&mut s, *n as u64);
            },
            ValueChange::Decrease(n) => {
                push_char(&mut s, '-');
                push_decimal(&mut s, *n as u64);
            },
            ValueChange::SetTo(n) => {
                push_decimal(&mut s, *n as u64);
            },
        }
        assert(s@ =~= value_change_text(*self));
        s
    }
}

/// Where a queue entry is moved to.
#[derive(Debug, Clone, Copy, PartialEq, Eq, Structural)]
pub enum QueueMoveTarget {
    /// relative to the currently playing song; e.g. +0 moves to right after the current song
    RelativeAdd(usize),
    /// relative to the currently playing song; e.g. -0 moves to right before the current song
    RelativeSub(usize),
    Absolute(usize),
}

pub open spec fn move_target_text(t: QueueMoveTarget) -> Seq<char> {
    match t {
        QueueMoveTarget::RelativeAdd(n) => seq!['+'] + decimal(n as nat),
        QueueMoveTarget::RelativeSub(n) => seq!['-'] + decimal(n as nat),
        QueueMoveTarget::Absolute(n) => decimal(n as nat),
    }
}

impl QueueMoveTarget {
    /// The protocol argument for this target: `+n`, `-n` or `n`.
    pub fn as_mpd_str(&self) -> (r: String)
        ensures
            r@ == move_target_text(*self),
    {
        let mut s = String::new();
        match self {
            QueueMoveTarget::RelativeAdd(n) => {
                push_char(&mut s, '+');
                push_decimal(&mut s, *n as u64);
            },
            QueueMoveTarget::RelativeSub(n) => {
                push_char(&mut s, '-');
                push_decimal(&mut s, *n as u64);
            },
            QueueMoveTarget::Absolute(n) => {
                push_decimal(&mut s, *n as u64);
            },
        }
        assert(s@ =~= move_target_text(*self));
        s
    }
}

/// A single queue position, or the half-open range `start..end`.
#[derive(Debug, Clone, Copy, PartialEq, Eq, Structural)]
pub struct SingleOrRange {
    pub start: usize,
    pub end: Option<usize>,
}

/// A list of positions and ranges.
#[derive(Debug)]
pub struct Ranges(pub Vec<SingleOrRange>);

pub open spec fn mpd_range_text(r: SingleOrRange) -> Seq<char> {
    match r.end {
        Some(end) => seq!['"'] + decimal(r.start as nat) + seq![':'] + decimal(end as nat) + seq!['"'],
        None => seq!['"'] + decimal(r.start as nat) + seq!['"'],
    }
}

impl SingleOrRange {
    pub fn single(idx: usize) -> (r: Self)
        ensures
            r == (SingleOrRange { start: idx, end: None }),
    {
        Self { start: idx, end: None }
    }

    pub fn range(start: usize, end: usize) -> (r: Self)
        ensures
            r == (SingleOrRange { start, end: Some(end) }),
    {
        Self { start, end: Some(end) }
    }

    /// The quoted protocol argument: `"start:end"` or `"start"`.
    pub fn as_mpd_range(&self) -> (r: String)
        ensures
            r@ == mpd_range_text(*self),
    {
        let mut s = String::new();
        push_char(&mut s, '"');
        push_decimal(&mut s, self.start as u64);
        if let Some(end) = self.end {
            push_char(&mut s, ':');
            push_decimal(&mut s, end as u64);
        }
        push_char(&mut s, '"');
        assert(s@ =~= mpd_range_text(*self));
        s
    }
}

/// What a character becomes inside a quoted filter value.
pub open spec fn escape_char(c: char) -> Seq<char> {
    if c == '\\' {
        seq!['\\', '\\', '\\', '\\']
    } else if c == '(' {
        seq!['\\', '(']
    } else if c == ')' {
        seq!['\\', ')']
    } else if c == '\'' {
        seq!['\\', '\\', '\'']
    } else if c == '"' {
        seq!['\\', '"']
    } else {
        seq![c]
    }
}

/// The escaped form of `s`: each character replaced by its escape.
pub open spec fn escaped(s: Seq<char>) -> Seq<char>
    decreases s.len(),
{
    if s.len() == 0 {
        seq![]
    } else {
        escaped(s.drop_last()) + escape_char(s.last())
    }
}

fn push_escaped_char(out: &mut String, c: char)
    ensures
        final(out)@ == old(out)@ + escape_char(c),
{
    if c == '\\' {
        push_char(out, '\\');
        push_char(out, '\\');
        push_char(out, '\\');
        push_char(out, '\\');
    } else if c == '(' {
        push_char(out, '\\');
        push_char(out, '(');
    } else if c == ')' {
        push_char(out, '\\');
        push_char(out, ')');
    } else if c == '\'' {
        push_char(out, '\\');
        push_char(out, '\\');
        push_char(out, '\'');
    } else if c == '"' {
        push_char(out, '\\');
        push_char(out, '"');
    } else {
        push_char(out, c);
    }
    assert(final(out)@ =~= old(out)@ + escape_char(c));
}

/// Escapes backslashes, parentheses and quotes so that `s` can stand inside a
/// quoted filter expression.
pub fn escape(s: &str) -> (r: String)
    ensures
        r@ == escaped(s@),
{
    let n = s.unicode_len();
    let mut out = String::new();
    let mut i: usize = 0;
    while i < n
        invariant
            n == s@.len(),
            i <= n,
            out@ == escaped(s@.subrange(0, i as int)),
        decreases n - i,
    {
        let c = s.get_char(i);
        proof {
            let next = s@.subrange(0, i + 1);
            assert(next.drop_last() =~= s@.subrange(0, i as int));
            assert(next.last() == c);
        }
        push_escaped_char(&mut out, c);
        i = i + 1;
    }
    assert(s@.subrange(0, n as int) =~= s@);
    out
}

/// A song attribute that a filter tests.
#[derive(Debug, Clone, Copy, PartialEq, Eq)]
pub enum Tag {
    Any,
    Artist,
    AlbumArtist,
    Album,
    Title,
    File,
    Genre,
    Custom(&'static str),
}

pub open spec fn tag_name(t: Tag) -> Seq<char> {
    match t {
        Tag::Any => "Any"@,
        Tag::Artist => "Artist"@,
        Tag::AlbumArtist => "AlbumArtist"@,
        Tag::Album => "Album"@,
        Tag::Title => "Title"@,
        Tag::File => "File"@,
        Tag::Genre => "Genre"@,
        Tag::Custom(v) => v@,
    }
}

impl Tag {
    /// The tag's name in the protocol.
    pub fn as_str(&self) -> (r: &'static str)
        ensures
            r@ == tag_name(*self),
    {
        match self {
            Tag::Any => "Any",
            Tag::Artist => "Artist",
            Tag::AlbumArtist => "AlbumArtist",
            Tag::Album => "Album",
            Tag::Title => "Title",
            Tag::File => "File",
            Tag::Genre => "Genre",
            Tag::Custom(v) => v,
        }
    }
}

/// How a filter compares the tag with its value.
#[derive(Debug, Default, Copy, Clone, PartialEq, Eq, Structural)]
pub enum FilterKind {
    Exact,
    StartsWith,
    #[default]
    Contains,
    Regex,
}

/// The kind that follows `k` when the user cycles through the kinds.
pub open spec fn next_filter_kind(k: FilterKind) -> FilterKind {
    match k {
        FilterKind::Exact => FilterKind::Contains,
        FilterKind::Contains => FilterKind::StartsWith,
        FilterKind::StartsWith => FilterKind::Regex,
        FilterKind::Regex => FilterKind::Exact,
    }
}

pub open spec fn filter_kind_label(k: FilterKind) -> Seq<char> {
    match k {
        FilterKind::Exact => "Exact match"@,
        FilterKind::Contains => "Contains value"@,
        FilterKind::StartsWith => "Starts with value"@,
        FilterKind::Regex => "Regex"@,
    }
}

impl FilterKind {
    /// Moves to the next kind: exact, contains, starts with, regex, and round again.
    pub fn cycle(&mut self)
        ensures
            *final(self) == next_filter_kind(*old(self)),
    {
        *self = match self {
            FilterKind::Exact => FilterKind::Contains,
            FilterKind::Contains => FilterKind::StartsWith,
            FilterKind::StartsWith => FilterKind::Regex,
            FilterKind::Regex => FilterKind::Exact,
        };
    }

    /// The label shown to the user for this kind.
    pub fn label(&self) -> (r: &'static str)
        ensures
            r@ == filter_kind_label(*self),
    {
        match self {
            FilterKind::Exact => "Exact match",
            FilterKind::Contains => "Contains value",
            FilterKind::StartsWith => "Starts with value",
            FilterKind::Regex => "Regex",
        }
    }
}

/// One condition of a search: a tag, a value, and how they are compared.
#[derive(Debug)]
pub struct Filter<'value> {
    pub tag: Tag,
    pub value: &'value str,
    pub kind: FilterKind,
}

/// The condition text of one filter, without the surrounding parentheses.
pub open spec fn filter_text(tag: Tag, value: Seq<char>, kind: FilterKind) -> Seq<char> {
    match kind {
        FilterKind::Exact => tag_name(tag) + " == '"@ + escaped(value) + "'"@,
        FilterKind::StartsWith => tag_name(tag) + " =~ '^"@ + escaped(value) + "'"@,
        FilterKind::Contains => tag_name(tag) + " =~ '.*"@ + escaped(value) + ".*'"@,
        FilterKind::Regex => tag_name(tag) + " =~ '"@ + escaped(value) + "'"@,
    }
}

impl<'value> Filter<'value> {
    pub open spec fn text(&self) -> Seq<char> {
        filter_text(self.tag, self.value@, self.kind)
    }

    /// An exact-match filter.
    pub fn new(tag: Tag, value: &'value str) -> (r: Self)
        ensures
            r.tag == tag,
            r.value == value,
            r.kind == FilterKind::Exact,
    {
        Self { tag, value, kind: FilterKind::Exact }
    }

    pub fn new_with_kind(tag: Tag, value: &'value str, kind: FilterKind) -> (r: Self)
        ensures
            r.tag == tag,
            r.value == value,
            r.kind == kind,
    {
        Self { tag, value, kind }
    }

    pub fn with_type(self, t: FilterKind) -> (r: Self)
        ensures
            r.tag == self.tag,
            r.value == self.value,
            r.kind == t,
    {
        let mut s = self;
        s.kind = t;
        s
    }

    /// The condition text, e.g. `Album == 'x'`.
    pub fn to_query_str(&self) -> (r: String)
        ensures
            r@ == self.text(),
    {
        let mut s = String::new();
        s.append(self.tag.as_str());
        match self.kind {
            FilterKind::Exact => s.append(" == '"),
            FilterKind::StartsWith => s.append(" =~ '^"),
            FilterKind::Contains => s.append(" =~ '.*"),
            FilterKind::Regex => s.append(" =~ '"),
        }
        let e = escape(self.value);
        s.append(e.as_str());
        match self.kind {
            FilterKind::Contains => s.append(".*'"),
            _ => s.append("'"),
        }
        s
    }
}

/// The conjunction of all filters: `(a) AND (b) AND ...`.
pub open spec fn query_text(fs: Seq<Filter>) -> Seq<char>
    decreases fs.len(),
{
    if fs.len() == 0 {
        seq![]
    } else if fs.len() == 1 {
        "("@ + fs[0].text() + ")"@
    } else {
        query_text(fs.drop_last()) + " AND ("@ + fs.last().text() + ")"@
    }
}

/// Joins the filters into one query expression: `(a) AND (b) AND ...`.
pub fn to_query_str(filters: &[Filter]) -> (r: String)
    ensures
        r@ == query_text(filters@),
{
    let mut s = String::new();
    let mut i: usize = 0;
    while i < filters.len()
        invariant
            i <= filters@.len(),
            s@ == query_text(filters@.subrange(0, i as int)),
        decreases filters@.len() - i,
    {
        let q = filters[i].to_query_str();
        if i > 0 {
            s.append(" AND (");
        } else {
            s.append("(");
        }
        s.append(q.as_str());
        s.append(")");
        proof {
            let next = filters@.subrange(0, i + 1);
            assert(next.drop_last() =~= filters@.subrange(0, i as int));
            assert(next.last() == filters@[i as int]);
            if i == 0 {
                assert(filters@.subrange(0, 0).len() == 0);
            }
        }
        i = i + 1;
    }
    assert(filters@.subrange(0, filters@.len() as int) =~= filters@);
    s
}

/// The `list` command for a tag, narrowed by filters when given.
pub open spec fn list_tag_text(tag: Tag, filter: Option<Seq<Filter>>) -> Seq<char> {
    match filter {
        Some(fs) => "list "@ + tag_name(tag) + " \"("@ + query_text(fs) + ")\""@,
        None => "list "@ + tag_name(tag),
    }
}

/// The `list` command line for a tag, narrowed by filters when given.
pub fn list_tag_command(tag: Tag, filter: Option<&[Filter]>) -> (r: String)
    ensures
        r@ == list_tag_text(
            tag,
            match filter {
                Some(f) => Some(f@),
                None => None,
            },
        ),
{
    let mut s = String::new();
    s.append("list ");
    s.append(tag.as_str());
    if let Some(f) = filter {
        s.append(" \"(");
        let q = to_query_str(f);
        s.append(q.as_str());
        s.append(")\"");
    }
    s
}

/// The session operations that the library's own logic calls.
pub trait MpdClient {
    /// The cover art stored next to the song at `path`, if any.
    fn albumart(&mut self, path: &str) -> Result<Option<Vec<u8>>, MpdError>;

    /// The picture embedded in the song at `path`, if any.
    fn read_picture(&mut self, path: &str) -> Result<Option<Vec<u8>>, MpdError>;
}

/// The outcome of a cover art lookup: the art, if found, and an error worth
/// reporting to the user.
#[derive(Debug, Clone, PartialEq, Eq)]
pub struct AlbumArtLookup {
    pub art: Option<Vec<u8>>,
    pub error: Option<MpdError>,
}

/// Whether the first lookup found nothing, so that the embedded picture is tried.
pub open spec fn art_missing(r: Result<Option<Vec<u8>>, MpdError>) -> bool {
    r == Ok::<Option<Vec<u8>>, MpdError>(None) || r == Err::<Option<Vec<u8>>, MpdError>(MpdError::NoExist)
}

/// The lookup's outcome from the two answers: the stored art when there is
/// some; else the embedded picture; "does not exist" is no error.
pub open spec fn resolve_spec(
    first: Result<Option<Vec<u8>>, MpdError>,
    second: Result<Option<Vec<u8>>, MpdError>,
) -> AlbumArtLookup {
    match first {
        Ok(Some(v)) => AlbumArtLookup { art: Some(v), error: None },
        Err(e) => if e != MpdError::NoExist {
            AlbumArtLookup { art: None, error: Some(e) }
        } else {
            resolve_second(second)
        },
        Ok(None) => resolve_second(second),
    }
}

pub open spec fn resolve_second(second: Result<Option<Vec<u8>>, MpdError>) -> AlbumArtLookup {
    match second {
        Ok(p) => AlbumArtLookup { art: p, error: None },
        Err(e) => if e == MpdError::NoExist {
            AlbumArtLookup { art: None, error: None }
        } else {
            AlbumArtLookup { art: None, error: Some(e) }
        },
    }
}

/// Whether the first answer sends the lookup on to the embedded picture.
pub fn needs_read_picture(first: &Result<Option<Vec<u8>>, MpdError>) -> (r: bool)
    ensures
        r == art_missing(*first),
{
    match first {
        Ok(None) => true,
        Err(MpdError::NoExist) => true,
        _ => false,
    }
}

/// Combines the two answers of a lookup; `second` is only read when the first
/// found nothing.
pub fn resolve_album_art(
    first: Result<Option<Vec<u8>>, MpdError>,
    second: Result<Option<Vec<u8>>, MpdError>,
) -> (r: AlbumArtLookup)
    ensures
        r == resolve_spec(first, second),
{
    match first {
        Ok(Some(v)) => AlbumArtLookup { art: Some(v), error: None },
        Err(MpdError::UnsupportedMpdVersion) => AlbumArtLookup { art: None, error: Some(MpdError::UnsupportedMpdVersion) },
        Err(MpdError::Failed) => AlbumArtLookup { art: None, error: Some(MpdError::Failed) },
        Ok(None) | Err(MpdError::NoExist) => match second {
            Ok(p) => AlbumArtLookup { art: p, error: None },
            Err(MpdError::NoExist) => AlbumArtLookup { art: None, error: None },
            Err(e) => AlbumArtLookup { art: None, error: Some(e) },
        },
    }
}

/// Looks for the cover art of the song at `path`: the stored art first, then
/// the embedded picture. Never fails: an error is reported, with no art.
pub fn find_album_art<C: MpdClient>(client: &mut C, path: &str) -> (r: AlbumArtLookup)
    ensures
        r.error is Some ==> r.art is None,
        r.error != Some(MpdError::NoExist),
{
    let first = client.albumart(path);
    if needs_read_picture(&first) {
        let second = client.read_picture(path);
        resolve_album_art(first, second)
    } else {
        resolve_album_art(first, Ok(None))
    }
}

/// `s` in double quotes.
pub open spec fn quoted(s: Seq<char>) -> Seq<char> {
    seq!['"'] + s + seq!['"']
}

fn push_quoted(out: &mut String, s: &str)
    ensures
        final(out)@ == old(out)@ + quoted(s@),
{
    push_char(out, '"');
    out.append(s);
    push_char(out, '"');
    assert(final(out)@ =~= old(out)@ + quoted(s@));
}

/// `verb`, followed by a space and `arg` when there is one.
pub open spec fn with_arg(verb: Seq<char>, arg: Option<Seq<char>>) -> Seq<char> {
    match arg {
        Some(a) => verb + seq![' '] + a,
        None => verb,
    }
}

pub open spec fn opt_view(s: Option<&str>) -> Option<Seq<char>> {
    match s {
        Some(x) => Some(x@),
        None => None,
    }
}

fn verb_with_arg(verb: &str, arg: Option<&str>) -> (r: String)
    ensures
        r@ == with_arg(verb@, opt_view(arg)),
{
    let mut s = String::new();
    s.append(verb);
    if let Some(a) = arg {
        push_char(&mut s, ' ');
        s.append(a);
    }
    assert(s@ =~= with_arg(verb@, opt_view(arg)));
    s
}

/// The command that updates the database, below `path` when given.
pub fn update_command(path: Option<&str>) -> (r: String)
    ensures
        r@ == with_arg("update"@, opt_view(path)),
{
    verb_with_arg("update", path)
}

/// The command that rescans the database, below `path` when given.
pub fn rescan_command(path: Option<&str>) -> (r: String)
    ensures
        r@ == with_arg("rescan"@, opt_view(path)),
{
    verb_with_arg("rescan", path)
}

/// The command that waits for a change, of one subsystem when given.
pub fn idle_command(subsystem: Option<IdleEvent>) -> (r: String)
    ensures
        r@ == with_arg(
            "idle"@,
            match subsystem {
                Some(e) => Some(idle_event_name(e)),
                None => None,
            },
        ),
{
    match subsystem {
        Some(e) => verb_with_arg("idle", Some(e.as_str())),
        None => verb_with_arg("idle", None),
    }
}

/// The command that reads the volume alone; servers before 0.23 lack it.
pub fn getvol_command(version: Version) -> (r: Result<String, MpdError>)
    ensures
        version_lt(version, Version { major: 0, minor: 23, patch: 0 }) ==> r == Err::<String, MpdError>(
            MpdError::UnsupportedMpdVersion,
        ),
        !version_lt(version, Version { major: 0, minor: 23, patch: 0 }) ==> (r matches Ok(s) && s@
            == "getvol"@),
{
    if version.lt(&Version::new(0, 23, 0)) {
        Err(MpdError::UnsupportedMpdVersion)
    } else {
        Ok(String::from_str("getvol"))
    }
}

/// The command that changes the volume: relative by `volume`, absolute by `setvol`.
pub open spec fn volume_text(change: ValueChange) -> Seq<char> {
    match change {
        ValueChange::SetTo(v) => "setvol "@ + decimal(v as nat),
        _ => "volume "@ + value_change_text(change),
    }
}

pub fn volume_command(change: ValueChange) -> (r: String)
    ensures
        r@ == volume_text(change),
{
    let mut s = String::new();
    match change {
        ValueChange::SetTo(v) => {
            s.append("setvol ");
            push_decimal(&mut s, v as u64);
        },
        _ => {
            s.append("volume ");
            let t = change.to_mpd_str();
            s.append(t.as_str());
        },
    }
    s
}

/// A database search by filters.
#[derive(Debug, Clone, Copy, PartialEq, Eq, Structural)]
pub enum FilterCommand {
    /// Songs that match exactly.
    Find,
    /// Songs that match, ignoring case.
    Search,
    /// Add the exact matches to the queue.
    FindAdd,
    /// Add the matches, ignoring case, to the queue.
    SearchAdd,
}

pub open spec fn filter_command_verb(c: FilterCommand) -> Seq<char> {
    match c {
        FilterCommand::Find => "find"@,
        FilterCommand::Search => "search"@,
        FilterCommand::FindAdd => "findadd"@,
        FilterCommand::SearchAdd => "searchadd"@,
    }
}

/// The search command: the verb and the quoted, parenthesized query.
pub fn filter_command(command: FilterCommand, filters: &[Filter]) -> (r: String)
    ensures
        r@ == filter_command_verb(command) + " "@ + quoted("("@ + query_text(filters@) + ")"@),
{
    let mut s = String::new();
    match command {
        FilterCommand::Find => s.append("find"),
        FilterCommand::Search => s.append("search"),
        FilterCommand::FindAdd => s.append("findadd"),
        FilterCommand::SearchAdd => s.append("searchadd"),
    }
    s.append(" \"(");
    let q = to_query_str(filters);
    s.append(q.as_str());
    s.append(")\"");
    proof {
        reveal_strlit(" \"(");
        reveal_strlit(")\"");
        reveal_strlit(" ");
        reveal_strlit("(");
        reveal_strlit(")");
    }
    assert(s@ =~= filter_command_verb(command) + " "@ + quoted("("@ + query_text(filters@) + ")"@));
    s
}

/// `verb`, followed by the quoted path when there is one.
pub open spec fn with_quoted_arg(verb: Seq<char>, path: Option<&str>) -> Seq<char> {
    match path {
        Some(p) => verb + " "@ + quoted(p@),
        None => verb,
    }
}

fn verb_with_quoted(verb: &str, path: Option<&str>) -> (r: String)
    ensures
        r@ == with_quoted_arg(verb@, path),
{
    let mut s = String::new();
    s.append(verb);
    if let Some(p) = path {
        s.append(" ");
        push_quoted(&mut s, p);
    }
    s
}

/// The command that lists a directory of the database (the root when no path).
pub fn lsinfo_command(path: Option<&str>) -> (r: String)
    ensures
        r@ == with_quoted_arg("lsinfo"@, path),
{
    verb_with_quoted("lsinfo", path)
}

/// The command that lists the files of a directory (the root when no path).
pub fn list_files_command(path: Option<&str>) -> (r: String)
    ensures
        r@ == with_quoted_arg("listfiles"@, path),
{
    verb_with_quoted("listfiles", path)
}

pub open spec fn before_0_24(v: Version) -> bool {
    version_lt(v, Version { major: 0, minor: 24, patch: 0 })
}

/// The command that lists a stored playlist's songs, a range of them when
/// given; a range needs a 0.24 server.
pub fn list_playlist_info_command(playlist: &str, range: Option<SingleOrRange>, version: Version) -> (r:
    Result<String, MpdError>)
    ensures
        range is Some && before_0_24(version) ==> r == Err::<String, MpdError>(MpdError::UnsupportedMpdVersion),
        range is None ==> (r matches Ok(s) && s@ == "listplaylistinfo "@ + quoted(playlist@)),
        range matches Some(g) ==> (!before_0_24(version) ==> (r matches Ok(s) && s@
            == "listplaylistinfo "@ + quoted(playlist@) + " "@ + mpd_range_text(g))),
{
    let mut s = String::new();
    s.append("listplaylistinfo ");
    push_quoted(&mut s, playlist);
    if let Some(g) = range {
        if version.lt(&Version::new(0, 24, 0)) {
            return Err(MpdError::UnsupportedMpdVersion);
        }
        s.append(" ");
        let t = g.as_mpd_range();
        s.append(t.as_str());
    }
    Ok(s)
}

/// The command that moves a range of a stored playlist to a position.
pub fn move_in_playlist_command(playlist_name: &str, range: &SingleOrRange, target_position: usize) -> (r:
    String)
    ensures
        r@ == "playlistmove "@ + quoted(playlist_name@) + " "@ + mpd_range_text(*range) + " "@ + decimal(
            target_position as nat,
        ),
{
    let mut s = String::new();
    s.append("playlistmove ");
    push_quoted(&mut s, playlist_name);
    s.append(" ");
    let t = range.as_mpd_range();
    s.append(t.as_str());
    s.append(" ");
    push_decimal(&mut s, target_position as u64);
    s
}

/// The command that adds a song to a stored playlist, at a position when given.
pub fn add_to_playlist_command(playlist_name: &str, uri: &str, target_position: Option<usize>) -> (r: String)
    ensures
        r@ == "playlistadd "@ + quoted(playlist_name@) + " "@ + quoted(uri@) + match target_position {
            Some(p) => " "@ + decimal(p as nat),
            None => Seq::<char>::empty(),
        },
{
    let mut s = String::new();
    s.append("playlistadd ");
    push_quoted(&mut s, playlist_name);
    s.append(" ");
    push_quoted(&mut s, uri);
    let ghost base = s@;
    if let Some(p) = target_position {
        s.append(" ");
        push_decimal(&mut s, p as u64);
    }
    assert(s@ =~= base + match target_position {
        Some(p) => " "@ + decimal(p as nat),
        None => Seq::<char>::empty(),
    });
    s
}

/// The command that saves the queue as a stored playlist; a save mode needs a
/// 0.24 server.
pub fn save_queue_command(name: &str, mode: Option<SaveMode>, version: Version) -> (r: Result<String, MpdError>)
    ensures
        mode is Some && before_0_24(version) ==> r == Err::<String, MpdError>(MpdError::UnsupportedMpdVersion),
        mode is None ==> (r matches Ok(s) && s@ == "save "@ + quoted(name@)),
        mode matches Some(m) ==> (!before_0_24(version) ==> (r matches Ok(s) && s@ == "save "@ + quoted(
            name@,
        ) + " "@ + quoted(save_mode_name(m)))),
{
    let mut s = String::new();
    s.append("save ");
    push_quoted(&mut s, name);
    if let Some(m) = mode {
        if version.lt(&Version::new(0, 24, 0)) {
            return Err(MpdError::UnsupportedMpdVersion);
        }
        s.append(" ");
        push_quoted(&mut s, m.as_str());
    }
    Ok(s)
}

} // verus!
