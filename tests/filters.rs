use rmpc::mpd_client::{escape, to_query_str, Filter, FilterKind, Tag};

#[test]
fn escapes_correctly() {
    let input: &'static str = r#"(Artist == "foo'bar")"#;

    assert_eq!(escape(input), r#"\(Artist == \"foo\\'bar\"\)"#);
}

#[test]
fn single_value() {
    let cases = [
        (Tag::Artist, "Artist"),
        (Tag::Album, "Album"),
        (Tag::AlbumArtist, "AlbumArtist"),
        (Tag::Title, "Title"),
        (Tag::File, "File"),
        (Tag::Genre, "Genre"),
        (Tag::Custom("customtag"), "customtag"),
    ];
    for (tag, expected) in cases {
        let input: &[Filter<'_>] = &[Filter::new(tag, "mrs singer")];

        assert_eq!(to_query_str(input), format!("({expected} == 'mrs singer')"));
    }
}

#[test]
fn starts_with() {
    let input: &[Filter<'_>] = &[Filter::new_with_kind(Tag::Artist, "mrs singer", FilterKind::StartsWith)];

    assert_eq!(to_query_str(input), "(Artist =~ '^mrs singer')");
}

#[test]
fn exact() {
    let input: &[Filter<'_>] = &[Filter::new_with_kind(Tag::Album, "the greatest", FilterKind::Exact)];

    assert_eq!(to_query_str(input), "(Album == 'the greatest')");
}

#[test]
fn contains() {
    let input: &[Filter<'_>] = &[Filter::new_with_kind(Tag::Album, "the greatest", FilterKind::Contains)];

    assert_eq!(to_query_str(input), "(Album =~ '.*the greatest.*')");
}

#[test]
fn regex() {
    let input: &[Filter<'_>] = &[Filter::new_with_kind(
        Tag::Album,
        r"the greatest.*\s+[A-Za-z]+$",
        FilterKind::Regex,
    )];

    assert_eq!(to_query_str(input), r"(Album =~ 'the greatest.*\\\\s+[A-Za-z]+$')");
}

#[test]
fn multiple_values() {
    let input: &[Filter<'_>] = &[
        Filter::new(Tag::Album, "the greatest"),
        Filter::new(Tag::Artist, "mrs singer"),
    ];

    assert_eq!(
        to_query_str(input),
        "(Album == 'the greatest') AND (Artist == 'mrs singer')"
    );
}

#[test]
fn empty_filter_list_gives_empty_query() {
    let input: &[Filter<'_>] = &[];
    assert_eq!(to_query_str(input), "");
}

#[test]
fn with_type_changes_only_the_kind() {
    let f = Filter::new(Tag::Genre, "jazz").with_type(FilterKind::Contains);
    assert_eq!(f.kind, FilterKind::Contains);
    assert_eq!(f.value, "jazz");
    assert_eq!(f.to_query_str(), "Genre =~ '.*jazz.*'");
}

#[test]
fn filter_kind_cycles_through_all_kinds() {
    let mut k = FilterKind::default();
    assert_eq!(k, FilterKind::Contains);
    assert_eq!(k.label(), "Contains value");
    k.cycle();
    assert_eq!(k, FilterKind::StartsWith);
    k.cycle();
    assert_eq!(k, FilterKind::Regex);
    k.cycle();
    assert_eq!(k, FilterKind::Exact);
    assert_eq!(k.label(), "Exact match");
    k.cycle();
    assert_eq!(k, FilterKind::Contains);
}

#[test]
fn escape_leaves_plain_text_alone() {
    assert_eq!(escape("plain text"), "plain text");
    assert_eq!(escape(""), "");
    assert_eq!(escape(r"a\b"), r"a\\\\b");
}
