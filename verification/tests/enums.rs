//! The enum codecs: index round trips for every member of every family,
//! the index sets each family accepts, and case-insensitive label decoding.

use mal::list::Status;
use mal::list::anime::{AiringStatus, AnimeType};
use mal::list::manga::{MangaType, PublishingStatus};

#[test]
fn status_index_round_trip() {
    let members = [
        Status::WatchingOrReading,
        Status::Completed,
        Status::OnHold,
        Status::Dropped,
        Status::PlanToWatchOrRead,
    ];
    for m in members {
        assert_eq!(Status::from_i32(m.to_index()), Some(m));
    }
}

#[test]
fn status_index_set_is_exact() {
    assert_eq!(Status::from_i32(0), None);
    assert_eq!(Status::from_i32(5), None);
    assert_eq!(Status::from_i32(7), None);
    assert_eq!(Status::from_i32(-1), None);
    assert_eq!(Status::from_i32(1), Some(Status::WatchingOrReading));
    assert_eq!(Status::from_i32(6), Some(Status::PlanToWatchOrRead));
}

#[test]
fn status_default_is_planning() {
    assert_eq!(Status::default(), Status::PlanToWatchOrRead);
}

#[test]
fn status_names() {
    assert_eq!(Status::WatchingOrReading.describe(), "watching / reading");
    assert_eq!(Status::Completed.describe(), "completed");
    assert_eq!(Status::OnHold.describe(), "on hold");
    assert_eq!(Status::Dropped.describe(), "dropped");
    assert_eq!(Status::PlanToWatchOrRead.describe(), "plan to watch / read");
}

#[test]
fn anime_type_index_round_trip() {
    let members = [
        AnimeType::Unknown,
        AnimeType::TV,
        AnimeType::OVA,
        AnimeType::Movie,
        AnimeType::Special,
        AnimeType::ONA,
        AnimeType::Music,
    ];
    for m in members {
        assert_eq!(AnimeType::from_i32(m.to_index()), Some(m));
    }
}

#[test]
fn anime_type_zero_means_unknown() {
    assert_eq!(AnimeType::from_i32(0), Some(AnimeType::Unknown));
    assert_eq!(AnimeType::from_i32(7), None);
    assert_eq!(AnimeType::from_i32(-1), None);
}

#[test]
fn airing_status_index_round_trip() {
    let members = [
        AiringStatus::Airing,
        AiringStatus::FinishedAiring,
        AiringStatus::NotYetAired,
    ];
    for m in members {
        assert_eq!(AiringStatus::from_i32(m.to_index()), Some(m));
    }
}

#[test]
fn airing_status_zero_is_invalid() {
    assert_eq!(AiringStatus::from_i32(0), None);
    assert_eq!(AiringStatus::from_i32(4), None);
}

#[test]
fn manga_type_index_round_trip() {
    let members = [
        MangaType::Manga,
        MangaType::Novel,
        MangaType::OneShot,
        MangaType::Manhwa,
        MangaType::Manhua,
    ];
    for m in members {
        assert_eq!(MangaType::from_i32(m.to_index()), Some(m));
    }
}

#[test]
fn manga_type_zero_is_invalid() {
    assert_eq!(MangaType::from_i32(0), None);
    assert_eq!(MangaType::from_i32(6), None);
}

#[test]
fn publishing_status_index_round_trip() {
    let members = [
        PublishingStatus::Publishing,
        PublishingStatus::Finished,
        PublishingStatus::NotYetPublished,
    ];
    for m in members {
        assert_eq!(PublishingStatus::from_i32(m.to_index()), Some(m));
    }
}

#[test]
fn labels_decode_case_insensitively() {
    assert_eq!(AnimeType::from_str("TV"), Some(AnimeType::TV));
    assert_eq!(AnimeType::from_str("Movie"), Some(AnimeType::Movie));
    assert_eq!(AnimeType::from_str("OVA"), Some(AnimeType::OVA));
    assert_eq!(
        AiringStatus::from_str("Currently Airing"),
        Some(AiringStatus::Airing)
    );
    assert_eq!(
        AiringStatus::from_str("not yet aired"),
        Some(AiringStatus::NotYetAired)
    );
    assert_eq!(MangaType::from_str("One-Shot"), Some(MangaType::OneShot));
    assert_eq!(
        PublishingStatus::from_str("Not Yet Published"),
        Some(PublishingStatus::NotYetPublished)
    );
}

#[test]
fn empty_label_is_the_unknown_anime_type() {
    assert_eq!(AnimeType::from_str(""), Some(AnimeType::Unknown));
    assert_eq!(MangaType::from_str(""), None);
}

#[test]
fn unmatched_labels_decode_to_none() {
    assert_eq!(AnimeType::from_str("radio drama"), None);
    assert_eq!(AiringStatus::from_str("paused"), None);
    assert_eq!(MangaType::from_str("webtoon"), None);
    assert_eq!(PublishingStatus::from_str("hiatus"), None);
}
