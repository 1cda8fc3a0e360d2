//! The operation decisions: the no-content search answer, sync settlement
//! against success and failure, and credential verification.

use mal::error::{MALError, RequestError};
use mal::interpret_verify_response;
use mal::list::Status;
use mal::list::anime;
use mal::list::anime::AnimeValues;
use mal::list::manga;
use mal::list::manga::MangaValues;

#[test]
fn no_content_search_answer_is_an_empty_result() {
    let outcome = anime::search_outcome_to_results(Err(RequestError::BadResponseCode(204)));
    assert_eq!(outcome.unwrap().len(), 0);
    let outcome = manga::search_outcome_to_results(Err(RequestError::BadResponseCode(204)));
    assert_eq!(outcome.unwrap().len(), 0);
}

#[test]
fn other_search_failures_are_passed_through() {
    let outcome = anime::search_outcome_to_results(Err(RequestError::BadResponseCode(500)));
    assert!(matches!(
        outcome,
        Err(MALError::Request(RequestError::BadResponseCode(500)))
    ));
    let outcome =
        anime::search_outcome_to_results(Err(RequestError::HttpError(String::from("down"))));
    assert!(matches!(outcome, Err(MALError::Request(RequestError::HttpError(_)))));
}

#[test]
fn list_read_failures_are_passed_through() {
    let outcome = anime::list_outcome_to_entries(Err(RequestError::BadResponseCode(403)));
    assert!(matches!(
        outcome,
        Err(MALError::Request(RequestError::BadResponseCode(403)))
    ));
}

#[test]
fn failed_sync_leaves_every_dirty_flag_and_value_untouched() {
    let mut values = AnimeValues::new();
    values.set_watched_episodes(5).set_status(Status::WatchingOrReading);
    let outcome = anime::apply_sync_outcome(
        &mut values,
        Err(RequestError::HttpError(String::from("timed out"))),
    );
    assert!(matches!(outcome, Err(MALError::Request(_))));
    assert!(values.watched_episodes.dirty());
    assert!(values.status.dirty());
    assert!(!values.score.dirty());
    assert_eq!(values.watched_episodes(), 5);
    assert_eq!(values.status(), Status::WatchingOrReading);
}

#[test]
fn successful_sync_clears_the_flags_and_keeps_the_values() {
    let mut values = AnimeValues::new();
    values.set_watched_episodes(5).set_score(9);
    let outcome = anime::apply_sync_outcome(&mut values, Ok(()));
    assert!(outcome.is_ok());
    assert!(!values.watched_episodes.dirty());
    assert!(!values.score.dirty());
    assert_eq!(values.watched_episodes(), 5);
    assert_eq!(values.score(), 9);
}

#[test]
fn failed_entry_sync_does_not_advance_the_sync_time() {
    let snapshot = "<myanimelist>
<myinfo>
<user_id>1</user_id>
<user_watching>1</user_watching>
<user_completed>0</user_completed>
<user_onhold>0</user_onhold>
<user_dropped>0</user_dropped>
<user_plantowatch>0</user_plantowatch>
<user_days_spent_watching>0.0</user_days_spent_watching>
</myinfo>
<anime>
<series_animedb_id>1</series_animedb_id>
<series_title>T</series_title>
<series_synonyms></series_synonyms>
<series_episodes>1</series_episodes>
<series_status>2</series_status>
<series_type>1</series_type>
<series_start>0000-00-00</series_start>
<series_end>0000-00-00</series_end>
<series_image></series_image>
<my_watched_episodes>0</my_watched_episodes>
<my_start_date>0000-00-00</my_start_date>
<my_finish_date>0000-00-00</my_finish_date>
<my_status>6</my_status>
<my_score>0</my_score>
<my_rewatching>0</my_rewatching>
<my_tags></my_tags>
<my_last_updated>1234567890</my_last_updated>
</anime>
</myanimelist>";
    let list = anime::list_outcome_to_entries(Ok(String::from(snapshot))).unwrap();
    let mut entry = list.entries.into_iter().next().unwrap();
    entry.values_mut().set_watched_episodes(1);
    let outcome = anime::apply_entry_sync_outcome(
        &mut entry,
        Err(RequestError::BadResponseCode(503)),
    );
    assert!(matches!(outcome, Err(MALError::Request(_))));
    assert_eq!(entry.last_updated_time, 1234567890);
    assert!(entry.values.watched_episodes.dirty());
}

#[test]
fn failed_manga_sync_leaves_the_values_untouched() {
    let mut values = MangaValues::new();
    values.set_read_chapters(7).set_rereading(true);
    let outcome = manga::apply_sync_outcome(
        &mut values,
        Err(RequestError::ReadResponse(String::from("cut off"))),
    );
    assert!(matches!(outcome, Err(MALError::Request(_))));
    assert!(values.chapter.dirty());
    assert!(values.rereading.dirty());
    assert_eq!(values.chapter(), 7);
    assert_eq!(values.rereading(), true);
}

#[test]
fn successful_manga_sync_clears_the_flags() {
    let mut values = MangaValues::new();
    values.set_read_volumes(3);
    assert!(manga::apply_sync_outcome(&mut values, Ok(())).is_ok());
    assert!(!values.volume.dirty());
    assert_eq!(values.volume(), 3);
}

#[test]
fn any_successful_answer_verifies_the_credentials() {
    let outcome = interpret_verify_response(Ok(String::from("<user/>")));
    assert_eq!(outcome.unwrap(), true);
}

#[test]
fn the_unauthorized_status_is_a_negative_answer_not_a_failure() {
    let outcome = interpret_verify_response(Err(RequestError::BadResponseCode(401)));
    assert_eq!(outcome.unwrap(), false);
}

#[test]
fn other_verify_failures_are_passed_through() {
    let outcome = interpret_verify_response(Err(RequestError::BadResponseCode(403)));
    assert!(matches!(
        outcome,
        Err(MALError::Request(RequestError::BadResponseCode(403)))
    ));
    let outcome = interpret_verify_response(Err(RequestError::HttpError(String::from("down"))));
    assert!(matches!(outcome, Err(MALError::Request(RequestError::HttpError(_)))));
}
