//! Decoding wire documents: list snapshots, search results, the lenient
//! re-watching flag, the delimiter conventions, and the decode errors.

use mal::error::{ListError, MALError};
use mal::list::Status;
use mal::list::anime;
use mal::list::anime::{AiringStatus, AnimeType};
use mal::list::manga;
use mal::list::manga::{MangaType, PublishingStatus};
use mal::util::split_into_vec;

const ANIME_SNAPSHOT: &str = "<myanimelist>
<myinfo>
<user_id>100</user_id>
<user_watching>3</user_watching>
<user_completed>4</user_completed>
<user_onhold>1</user_onhold>
<user_dropped>0</user_dropped>
<user_plantowatch>2</user_plantowatch>
<user_days_spent_watching>12.5</user_days_spent_watching>
</myinfo>
<anime>
<series_animedb_id>4224</series_animedb_id>
<series_title>Toradora!</series_title>
<series_synonyms>Tiger X Dragon; Toradora!</series_synonyms>
<series_episodes>25</series_episodes>
<series_status>2</series_status>
<series_type>1</series_type>
<series_start>2008-10-02</series_start>
<series_end>2009-03-26</series_end>
<series_image>https://cover.example/4224.jpg</series_image>
<my_watched_episodes>5</my_watched_episodes>
<my_start_date>2017-01-02</my_start_date>
<my_finish_date>0000-00-00</my_finish_date>
<my_status>1</my_status>
<my_score>8</my_score>
<my_rewatching></my_rewatching>
<my_tags>drama,comedy</my_tags>
<my_last_updated>1490000000</my_last_updated>
</anime>
</myanimelist>";

#[test]
fn anime_snapshot_decodes() {
    let list = anime::list_outcome_to_entries(Ok(String::from(ANIME_SNAPSHOT))).unwrap();
    assert_eq!(list.user_info.user_id, 100);
    assert_eq!(list.user_info.watching, 3);
    assert_eq!(list.user_info.completed, 4);
    assert_eq!(list.user_info.on_hold, 1);
    assert_eq!(list.user_info.dropped, 0);
    assert_eq!(list.user_info.plan_to_watch, 2);
    assert_eq!(list.user_info.days_spent_watching, "12.5");
    assert_eq!(list.entries.len(), 1);
    let entry = &list.entries[0];
    assert_eq!(entry.series_info.id, 4224);
    assert_eq!(entry.series_info.title, "Toradora!");
    assert_eq!(
        entry.series_info.synonyms,
        vec![String::from("Tiger X Dragon"), String::from("Toradora!")]
    );
    assert_eq!(entry.series_info.episodes, 25);
    assert_eq!(entry.series_info.airing_status, AiringStatus::FinishedAiring);
    assert_eq!(entry.series_info.series_type, AnimeType::TV);
    assert_eq!(entry.series_info.start_date.unwrap().year, 2008);
    assert_eq!(entry.series_info.end_date.unwrap().month, 3);
    assert_eq!(entry.last_updated_time, 1490000000);
    assert_eq!(entry.values.watched_episodes(), 5);
    assert_eq!(entry.values.start_date().unwrap().day, 2);
    assert_eq!(entry.values.finish_date(), None);
    assert_eq!(entry.values.status(), Status::WatchingOrReading);
    assert_eq!(entry.values.score(), 8);
    assert_eq!(
        entry.values.tags(),
        &vec![String::from("drama"), String::from("comedy")]
    );
}

#[test]
fn blank_rewatching_flag_decodes_to_false() {
    let list = anime::list_outcome_to_entries(Ok(String::from(ANIME_SNAPSHOT))).unwrap();
    assert_eq!(list.entries[0].values.rewatching(), false);
}

#[test]
fn snapshot_decode_leaves_nothing_dirty() {
    let list = anime::list_outcome_to_entries(Ok(String::from(ANIME_SNAPSHOT))).unwrap();
    let xml = list.entries[0].values.generate_xml().unwrap();
    assert!(!xml.contains("<episode>"), "{}", xml);
    assert!(!xml.contains("<status>"), "{}", xml);
    assert!(!xml.contains("<tags>"), "{}", xml);
}

#[test]
fn snapshot_without_leading_statistics_is_its_own_failure() {
    let outcome = anime::list_outcome_to_entries(Ok(String::from("<myanimelist></myanimelist>")));
    assert!(matches!(
        outcome,
        Err(MALError::List(ListError::NoUserInfoFound))
    ));
}

#[test]
fn unknown_status_index_is_reported_with_the_text() {
    let text = ANIME_SNAPSHOT.replace(
        "<my_status>1</my_status>",
        "<my_status>5</my_status>",
    );
    let outcome = anime::list_outcome_to_entries(Ok(text));
    match outcome {
        Err(MALError::List(ListError::UnknownStatus(t))) => assert_eq!(t, "5"),
        other => panic!("expected an unknown-status failure, got {:?}", other),
    }
}

#[test]
fn missing_child_is_reported_with_its_name() {
    let text = ANIME_SNAPSHOT.replace(
        "<my_score>8</my_score>",
        "<my_points>8</my_points>",
    );
    let outcome = anime::list_outcome_to_entries(Ok(text));
    match outcome {
        Err(MALError::List(ListError::MissingXMLNode(n))) => assert_eq!(n, "my_score"),
        other => panic!("expected a missing-node failure, got {:?}", other),
    }
}

#[test]
fn unparseable_count_is_a_conversion_failure() {
    let text = ANIME_SNAPSHOT.replace(
        "<my_watched_episodes>5</my_watched_episodes>",
        "<my_watched_episodes>five</my_watched_episodes>",
    );
    let outcome = anime::list_outcome_to_entries(Ok(text));
    match outcome {
        Err(MALError::List(ListError::XMLConversionFailed(n))) => {
            assert_eq!(n, "my_watched_episodes")
        },
        other => panic!("expected a conversion failure, got {:?}", other),
    }
}

#[test]
fn non_numeric_statistics_time_is_a_conversion_failure() {
    let text = ANIME_SNAPSHOT.replace(
        "<user_days_spent_watching>12.5</user_days_spent_watching>",
        "<user_days_spent_watching>a while</user_days_spent_watching>",
    );
    let outcome = anime::list_outcome_to_entries(Ok(text));
    match outcome {
        Err(MALError::List(ListError::XMLConversionFailed(n))) => {
            assert_eq!(n, "user_days_spent_watching")
        },
        other => panic!("expected a conversion failure, got {:?}", other),
    }
}

#[test]
fn statistics_time_shapes() {
    for good in ["0", "7", "12.5", ".5", "5.", "-3.25", "+40"] {
        let text = ANIME_SNAPSHOT.replace(
            "<user_days_spent_watching>12.5</user_days_spent_watching>",
            &format!(
                "<user_days_spent_watching>{}</user_days_spent_watching>",
                good
            ),
        );
        let list = anime::list_outcome_to_entries(Ok(text)).unwrap();
        assert_eq!(list.user_info.days_spent_watching, good);
    }
    for bad in ["", ".", "-", "1.2.3", "day"] {
        let text = ANIME_SNAPSHOT.replace(
            "<user_days_spent_watching>12.5</user_days_spent_watching>",
            &format!(
                "<user_days_spent_watching>{}</user_days_spent_watching>",
                bad
            ),
        );
        let outcome = anime::list_outcome_to_entries(Ok(text));
        assert!(
            matches!(
                outcome,
                Err(MALError::List(ListError::XMLConversionFailed(_)))
            ),
            "{:?} should be rejected",
            bad
        );
    }
}

#[test]
fn a_plus_signed_numeral_still_parses() {
    let text = ANIME_SNAPSHOT.replace(
        "<my_score>8</my_score>",
        "<my_score>+8</my_score>",
    );
    let list = anime::list_outcome_to_entries(Ok(text)).unwrap();
    assert_eq!(list.entries[0].values.score(), 8);
}

#[test]
fn a_count_too_large_for_its_type_is_a_conversion_failure() {
    let text = ANIME_SNAPSHOT.replace(
        "<series_episodes>25</series_episodes>",
        "<series_episodes>99999999999</series_episodes>",
    );
    let outcome = anime::list_outcome_to_entries(Ok(text));
    match outcome {
        Err(MALError::List(ListError::XMLConversionFailed(n))) => {
            assert_eq!(n, "series_episodes")
        },
        other => panic!("expected a conversion failure, got {:?}", other),
    }
}

#[test]
fn a_score_above_the_byte_range_is_a_conversion_failure() {
    let text = ANIME_SNAPSHOT.replace(
        "<my_score>8</my_score>",
        "<my_score>300</my_score>",
    );
    let outcome = anime::list_outcome_to_entries(Ok(text));
    match outcome {
        Err(MALError::List(ListError::XMLConversionFailed(n))) => assert_eq!(n, "my_score"),
        other => panic!("expected a conversion failure, got {:?}", other),
    }
}

const ANIME_SEARCH: &str = "<anime>
<entry>
<id>4224</id>
<title>Toradora!</title>
<synonyms>A; B; </synonyms>
<episodes>25</episodes>
<type>TV</type>
<status>Finished Airing</status>
<start_date>2008-10-02</start_date>
<end_date>0000-00-00</end_date>
<image>https://cover.example/4224.jpg</image>
</entry>
</anime>";

#[test]
fn anime_search_response_decodes() {
    let results = anime::search_outcome_to_results(Ok(String::from(ANIME_SEARCH))).unwrap();
    assert_eq!(results.len(), 1);
    let info = &results[0];
    assert_eq!(info.id, 4224);
    assert_eq!(info.title, "Toradora!");
    assert_eq!(info.episodes, 25);
    assert_eq!(info.series_type, AnimeType::TV);
    assert_eq!(info.airing_status, AiringStatus::FinishedAiring);
    assert_eq!(info.start_date.unwrap().day, 2);
    assert_eq!(info.end_date, None);
    assert_eq!(info.image_url, "https://cover.example/4224.jpg");
}

#[test]
fn synonym_list_drops_edge_empties() {
    let results = anime::search_outcome_to_results(Ok(String::from(ANIME_SEARCH))).unwrap();
    assert_eq!(
        results[0].synonyms,
        vec![String::from("A"), String::from("B")]
    );
}

#[test]
fn split_drops_leading_and_trailing_empties_only() {
    assert_eq!(
        split_into_vec("A; B; ", "; "),
        vec![String::from("A"), String::from("B")]
    );
    assert_eq!(split_into_vec("", ","), Vec::<String>::new());
    assert_eq!(split_into_vec(",a,", ","), vec![String::from("a")]);
    assert_eq!(
        split_into_vec("a,,b", ","),
        vec![String::from("a"), String::from(""), String::from("b")]
    );
}

#[test]
fn unknown_search_label_is_reported_with_the_text() {
    let text = ANIME_SEARCH.replace("<type>TV</type>", "<type>Radio</type>");
    let outcome = anime::search_outcome_to_results(Ok(text));
    match outcome {
        Err(MALError::List(ListError::UnknownSeriesType(t))) => assert_eq!(t, "Radio"),
        other => panic!("expected an unknown-type failure, got {:?}", other),
    }
}

#[test]
fn unparseable_response_text_is_a_document_failure() {
    let outcome = anime::search_outcome_to_results(Ok(String::from("not xml at all")));
    assert!(matches!(outcome, Err(MALError::Minidom(_))));
}

const MANGA_SNAPSHOT: &str = "<myanimelist>
<myinfo>
<user_id>100</user_id>
<user_reading>1</user_reading>
<user_completed>2</user_completed>
<user_onhold>0</user_onhold>
<user_dropped>0</user_dropped>
<user_plantoread>3</user_plantoread>
<user_days_spent_watching>4.25</user_days_spent_watching>
</myinfo>
<manga>
<series_mangadb_id>2</series_mangadb_id>
<series_title>Berserk</series_title>
<series_synonyms>Berserk; </series_synonyms>
<series_chapters>0</series_chapters>
<series_volumes>0</series_volumes>
<series_status>1</series_status>
<series_type>1</series_type>
<series_start>1989-08-25</series_start>
<series_end>0000-00-00</series_end>
<series_image>https://cover.example/2.jpg</series_image>
<my_read_chapters>25</my_read_chapters>
<my_read_volumes>2</my_read_volumes>
<my_status>6</my_status>
<my_score>10</my_score>
<my_start_date>0000-00-00</my_start_date>
<my_finish_date>0000-00-00</my_finish_date>
<my_rereadingg></my_rereadingg>
<my_tags></my_tags>
<my_last_updated>1490000001</my_last_updated>
</manga>
</myanimelist>";

#[test]
fn manga_snapshot_decodes() {
    let list = manga::list_outcome_to_entries(Ok(String::from(MANGA_SNAPSHOT))).unwrap();
    assert_eq!(list.user_info.user_id, 100);
    assert_eq!(list.user_info.reading, 1);
    assert_eq!(list.user_info.plan_to_read, 3);
    assert_eq!(list.user_info.days_spent_watching, "4.25");
    assert_eq!(list.entries.len(), 1);
    let entry = &list.entries[0];
    assert_eq!(entry.series_info.id, 2);
    assert_eq!(entry.series_info.title, "Berserk");
    assert_eq!(entry.series_info.synonyms, vec![String::from("Berserk")]);
    assert_eq!(entry.series_info.english_title, None);
    assert_eq!(entry.series_info.synopsis, None);
    assert_eq!(entry.series_info.series_type, MangaType::Manga);
    assert_eq!(
        entry.series_info.publishing_status,
        PublishingStatus::Publishing
    );
    assert_eq!(entry.values.chapter(), 25);
    assert_eq!(entry.values.volume(), 2);
    assert_eq!(entry.values.status(), Status::PlanToWatchOrRead);
    assert_eq!(entry.values.score(), 10);
    assert_eq!(entry.values.start_date(), None);
    assert_eq!(entry.values.tags(), &Vec::<String>::new());
    assert_eq!(entry.last_updated_time, 1490000001);
}

#[test]
fn blank_rereading_flag_decodes_to_false() {
    let list = manga::list_outcome_to_entries(Ok(String::from(MANGA_SNAPSHOT))).unwrap();
    assert_eq!(list.entries[0].values.rereading(), false);
}

#[test]
fn rereading_flag_one_decodes_to_true() {
    let text = MANGA_SNAPSHOT.replace(
        "<my_rereadingg></my_rereadingg>",
        "<my_rereadingg>1</my_rereadingg>",
    );
    let list = manga::list_outcome_to_entries(Ok(text)).unwrap();
    assert_eq!(list.entries[0].values.rereading(), true);
}

const MANGA_SEARCH: &str = "<manga>
<entry>
<id>2</id>
<title>Berserk</title>
<english></english>
<synonyms></synonyms>
<chapters>380</chapters>
<volumes>41</volumes>
<type>Manga</type>
<status>Publishing</status>
<start_date>1989-08-25</start_date>
<end_date>0000-00-00</end_date>
<synopsis>A tale.</synopsis>
<image>https://cover.example/2.jpg</image>
</entry>
</manga>";

#[test]
fn manga_search_response_decodes() {
    let results = manga::search_outcome_to_results(Ok(String::from(MANGA_SEARCH))).unwrap();
    assert_eq!(results.len(), 1);
    let info = &results[0];
    assert_eq!(info.id, 2);
    assert_eq!(info.english_title, None);
    assert_eq!(info.synonyms, Vec::<String>::new());
    assert_eq!(info.chapters, 380);
    assert_eq!(info.volumes, 41);
    assert_eq!(info.synopsis, Some(String::from("A tale.")));
    assert_eq!(info.series_type, MangaType::Manga);
    assert_eq!(info.publishing_status, PublishingStatus::Publishing);
}

#[test]
fn nonempty_english_title_is_kept() {
    let text = MANGA_SEARCH.replace("<english></english>", "<english>Berserk EN</english>");
    let results = manga::search_outcome_to_results(Ok(text)).unwrap();
    assert_eq!(results[0].english_title, Some(String::from("Berserk EN")));
}
