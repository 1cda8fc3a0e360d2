//! The write-body emitter: only the modified fields appear, under their
//! fixed wire tags, rendered by their own field formatters.

use mal::date::Date;
use mal::list::Status;
use mal::list::anime::AnimeValues;
use mal::list::manga::MangaValues;

const ANIME_TAGS: [&str; 7] = [
    "<episode>",
    "<status>",
    "<date_start>",
    "<date_finish>",
    "<score>",
    "<enable_rewatching>",
    "<tags>",
];

#[test]
fn nothing_dirty_emits_no_children() {
    let values = AnimeValues::new();
    let xml = values.generate_xml().unwrap();
    for tag in ANIME_TAGS {
        assert!(!xml.contains(tag), "unexpected {} in {}", tag, xml);
    }
    assert!(xml.contains("entry"));
}

#[test]
fn one_dirty_field_emits_exactly_one_child() {
    let mut values = AnimeValues::new();
    values.set_watched_episodes(5);
    let xml = values.generate_xml().unwrap();
    assert!(xml.contains("<episode>5</episode>"), "{}", xml);
    for tag in &ANIME_TAGS[1..] {
        assert!(!xml.contains(tag), "unexpected {} in {}", tag, xml);
    }
}

#[test]
fn all_dirty_fields_emit_all_children() {
    let mut values = AnimeValues::new();
    values
        .set_watched_episodes(12)
        .set_status(Status::Completed)
        .set_start_date(Some(Date { year: 2017, month: 1, day: 2 }))
        .set_finish_date(None)
        .set_score(9)
        .set_rewatching(true);
    values.tags_mut().push(String::from("a"));
    values.tags_mut().push(String::from("b"));
    let xml = values.generate_xml().unwrap();
    assert!(xml.contains("<episode>12</episode>"), "{}", xml);
    assert!(xml.contains("<status>2</status>"), "{}", xml);
    assert!(xml.contains("<date_start>01022017</date_start>"), "{}", xml);
    assert!(xml.contains("<date_finish>00000000</date_finish>"), "{}", xml);
    assert!(xml.contains("<score>9</score>"), "{}", xml);
    assert!(
        xml.contains("<enable_rewatching>1</enable_rewatching>"),
        "{}",
        xml
    );
    assert!(xml.contains("<tags>a,b,</tags>"), "{}", xml);
}

#[test]
fn rewatching_false_emits_zero() {
    let mut values = AnimeValues::new();
    values.set_rewatching(false);
    let xml = values.generate_xml().unwrap();
    assert!(
        xml.contains("<enable_rewatching>0</enable_rewatching>"),
        "{}",
        xml
    );
}

#[test]
fn planning_status_emits_index_six() {
    let mut values = AnimeValues::new();
    values.set_status(Status::PlanToWatchOrRead);
    let xml = values.generate_xml().unwrap();
    assert!(xml.contains("<status>6</status>"), "{}", xml);
}

#[test]
fn tags_mut_alone_marks_the_tags_dirty() {
    let mut values = AnimeValues::new();
    let _ = values.tags_mut();
    let xml = values.generate_xml().unwrap();
    assert!(xml.contains("<tags>"), "{}", xml);
}

#[test]
fn manga_emit_uses_its_own_tags_and_order() {
    let mut values = MangaValues::new();
    values
        .set_read_chapters(25)
        .set_read_volumes(2)
        .set_score(10)
        .set_status(Status::Completed)
        .set_rereading(false);
    let xml = values.generate_xml().unwrap();
    assert!(xml.contains("<chapter>25</chapter>"), "{}", xml);
    assert!(xml.contains("<volume>2</volume>"), "{}", xml);
    assert!(xml.contains("<status>2</status>"), "{}", xml);
    assert!(xml.contains("<score>10</score>"), "{}", xml);
    assert!(
        xml.contains("<enable_rereading>0</enable_rereading>"),
        "{}",
        xml
    );
    assert!(!xml.contains("<date_start>"), "{}", xml);
    assert!(!xml.contains("<date_finish>"), "{}", xml);
    assert!(!xml.contains("<tags>"), "{}", xml);
    let chapter_at = xml.find("<chapter>").unwrap();
    let volume_at = xml.find("<volume>").unwrap();
    let status_at = xml.find("<status>").unwrap();
    let score_at = xml.find("<score>").unwrap();
    assert!(chapter_at < volume_at && volume_at < status_at && status_at < score_at);
}

#[test]
fn manga_all_dirty_fields_emit_all_children() {
    let mut values = MangaValues::new();
    values
        .set_read_chapters(1)
        .set_read_volumes(1)
        .set_status(Status::OnHold)
        .set_score(7)
        .set_start_date(None)
        .set_finish_date(Some(Date { year: 2020, month: 6, day: 15 }))
        .set_rereading(true);
    values.tags_mut().push(String::from("t"));
    let xml = values.generate_xml().unwrap();
    assert!(xml.contains("<chapter>1</chapter>"), "{}", xml);
    assert!(xml.contains("<volume>1</volume>"), "{}", xml);
    assert!(xml.contains("<status>3</status>"), "{}", xml);
    assert!(xml.contains("<score>7</score>"), "{}", xml);
    assert!(xml.contains("<date_start>00000000</date_start>"), "{}", xml);
    assert!(xml.contains("<date_finish>06152020</date_finish>"), "{}", xml);
    assert!(
        xml.contains("<enable_rereading>1</enable_rereading>"),
        "{}",
        xml
    );
    assert!(xml.contains("<tags>t,</tags>"), "{}", xml);
}

#[test]
fn emission_is_deterministic_in_the_values() {
    let mut values = AnimeValues::new();
    values.set_watched_episodes(5).set_score(9);
    let first = values.generate_xml().unwrap();
    let second = values.generate_xml().unwrap();
    assert_eq!(first, second);
}

#[test]
fn manga_nothing_dirty_emits_no_children() {
    let values = MangaValues::new();
    let xml = values.generate_xml().unwrap();
    assert!(!xml.contains("<chapter>"), "{}", xml);
    assert!(!xml.contains("<volume>"), "{}", xml);
    assert!(!xml.contains("<status>"), "{}", xml);
}
