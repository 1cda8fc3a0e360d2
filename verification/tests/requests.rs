//! Request construction: paths, verbs, query pairs, bodies and the
//! authentication rule for every operation of both categories.

use mal::request::{HttpVerb, ListType, Request};

#[test]
fn search_paths_and_query() {
    let req = Request::Search("Cowboy Bebop", ListType::Anime);
    assert_eq!(req.path(), "/api/anime/search.xml");
    assert_eq!(req.verb(), HttpVerb::Get);
    assert!(req.needs_auth());
    let pairs = req.query_pairs();
    assert_eq!(pairs.len(), 1);
    assert_eq!(pairs[0].0, "q");
    assert_eq!(pairs[0].1, "Cowboy Bebop");
    assert_eq!(req.body(), None);
    let req = Request::Search("Bleach", ListType::Manga);
    assert_eq!(req.path(), "/api/manga/search.xml");
}

#[test]
fn list_read_is_unauthenticated_with_three_query_pairs() {
    let req = Request::List("someone", ListType::Anime);
    assert_eq!(req.path(), "/malappinfo.php");
    assert_eq!(req.verb(), HttpVerb::Get);
    assert!(!req.needs_auth());
    let pairs = req.query_pairs();
    assert_eq!(pairs.len(), 3);
    assert_eq!(pairs[0].0, "u");
    assert_eq!(pairs[0].1, "someone");
    assert_eq!(pairs[1].0, "status");
    assert_eq!(pairs[1].1, "all");
    assert_eq!(pairs[2].0, "type");
    assert_eq!(pairs[2].1, "anime");
    let req = Request::List("someone", ListType::Manga);
    assert_eq!(req.query_pairs()[2].1, "manga");
}

#[test]
fn add_and_update_paths_carry_the_id() {
    let req = Request::Add(4224, ListType::Anime, "<entry/>");
    assert_eq!(req.path(), "/api/animelist/add/4224.xml");
    assert_eq!(req.verb(), HttpVerb::Post);
    assert_eq!(req.body(), Some("<entry/>"));
    assert!(req.needs_auth());
    let req = Request::Update(2, ListType::Manga, "<entry/>");
    assert_eq!(req.path(), "/api/mangalist/update/2.xml");
    assert_eq!(req.verb(), HttpVerb::Post);
    let req = Request::Add(2, ListType::Manga, "<entry/>");
    assert_eq!(req.path(), "/api/mangalist/add/2.xml");
    let req = Request::Update(4224, ListType::Anime, "<entry/>");
    assert_eq!(req.path(), "/api/animelist/update/4224.xml");
}

#[test]
fn delete_paths_carry_the_id() {
    let req = Request::Delete(4224, ListType::Anime);
    assert_eq!(req.path(), "/api/animelist/delete/4224.xml");
    assert_eq!(req.verb(), HttpVerb::Delete);
    assert_eq!(req.body(), None);
    let req = Request::Delete(7, ListType::Manga);
    assert_eq!(req.path(), "/api/mangalist/delete/7.xml");
}

#[test]
fn credential_check_path() {
    let req = Request::VerifyCredentials;
    assert_eq!(req.path(), "/api/account/verify_credentials.xml");
    assert_eq!(req.verb(), HttpVerb::Get);
    assert!(req.needs_auth());
    assert_eq!(req.query_pairs().len(), 0);
}
