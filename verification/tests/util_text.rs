//! The scalar utilities: child extraction from a flat element, the
//! delimiter codec, and entry construction defaults.

use mal::list::Status;
use mal::list::anime::{AnimeEntry, AnimeInfo, AnimeType, AiringStatus, AnimeValues};
use mal::util::{ParseXMLError, concat_by_delimeter, parse_xml_child, split_into_vec};
use mal::xml::{XmlChild, XmlElement};

fn sample_element() -> XmlElement {
    XmlElement {
        children: vec![
            XmlChild { name: String::from("id"), text: String::from("42") },
            XmlChild { name: String::from("title"), text: String::from("T") },
            XmlChild { name: String::from("title"), text: String::from("shadowed") },
        ],
    }
}

#[test]
fn parse_xml_child_finds_the_first_match() {
    let elem = sample_element();
    assert_eq!(parse_xml_child(&elem, "id").unwrap(), "42");
    assert_eq!(parse_xml_child(&elem, "title").unwrap(), "T");
}

#[test]
fn parse_xml_child_reports_a_missing_node() {
    let elem = sample_element();
    match parse_xml_child(&elem, "score") {
        Err(ParseXMLError::MissingXMLNode(n)) => assert_eq!(n, "score"),
        other => panic!("expected a missing-node failure, got {:?}", other),
    }
}

#[test]
fn concat_writes_the_delimiter_after_every_piece() {
    let tags = vec![String::from("a"), String::from("b")];
    assert_eq!(concat_by_delimeter(&tags, ','), "a,b,");
    assert_eq!(concat_by_delimeter(&[], ','), "");
    let one = vec![String::from("x")];
    assert_eq!(concat_by_delimeter(&one, ';'), "x;");
}

#[test]
fn split_and_concat_conventions() {
    assert_eq!(
        split_into_vec("one; two; three", "; "),
        vec![
            String::from("one"),
            String::from("two"),
            String::from("three")
        ]
    );
    assert_eq!(split_into_vec("; ; lead", "; "), vec![String::from("lead")]);
    assert_eq!(split_into_vec("; ", "; "), Vec::<String>::new());
}

#[test]
fn fresh_entry_has_defaults_and_nothing_dirty() {
    let info = AnimeInfo {
        id: 42,
        title: String::from("T"),
        synonyms: Vec::new(),
        episodes: 12,
        airing_status: AiringStatus::Airing,
        series_type: AnimeType::TV,
        start_date: None,
        end_date: None,
        image_url: String::new(),
    };
    let entry = AnimeEntry::new(info);
    assert_eq!(entry.id(), 42);
    assert_eq!(entry.values.watched_episodes(), 0);
    assert_eq!(entry.values.status(), Status::PlanToWatchOrRead);
    assert_eq!(entry.values.score(), 0);
    assert_eq!(entry.values.rewatching(), false);
    assert!(entry.values.tags().is_empty());
    let xml = entry.values.generate_xml().unwrap();
    assert!(!xml.contains("<episode>"), "{}", xml);
}

#[test]
fn values_default_matches_new() {
    let a = AnimeValues::new();
    let b = AnimeValues::default();
    assert_eq!(a.watched_episodes(), b.watched_episodes());
    assert_eq!(a.status(), b.status());
    assert!(!a.status.dirty() && !b.status.dirty());
}

#[test]
fn info_equality_is_by_identity_alone() {
    let a = AnimeInfo {
        id: 42,
        title: String::from("One title"),
        synonyms: Vec::new(),
        episodes: 12,
        airing_status: AiringStatus::Airing,
        series_type: AnimeType::TV,
        start_date: None,
        end_date: None,
        image_url: String::new(),
    };
    let mut b = AnimeInfo {
        id: 42,
        title: String::from("A stale cached title"),
        synonyms: vec![String::from("alias")],
        episodes: 13,
        airing_status: AiringStatus::FinishedAiring,
        series_type: AnimeType::Movie,
        start_date: None,
        end_date: None,
        image_url: String::from("other"),
    };
    assert_eq!(a, b);
    b.id = 43;
    assert_ne!(a, b);
}
