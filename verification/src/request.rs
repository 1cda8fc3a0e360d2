//! Request construction: the mapping from a logical operation and a list
//! category to the wire path, HTTP verb, query pairs, body and
//! authentication requirement. The transport that executes the request is
//! not part of the library.

use vstd::prelude::*;
use crate::text::{dec_str, u32_to_string};

verus! {

/// The category of list an operation works on.
#[derive(Debug, Copy, Clone, PartialEq, Eq, Structural)]
pub enum ListType {
    Anime,
    Manga,
}

/// The HTTP verb a request is sent with.
#[derive(Debug, Copy, Clone, PartialEq, Eq, Structural)]
pub enum HttpVerb {
    Get,
    Post,
    Delete,
}

/// One logical operation against the service, with what it addresses.
#[derive(Debug)]
pub enum Request<'a> {
    /// Search the catalog by name.
    Search(&'a str, ListType),
    /// Read a user's whole list by username.
    List(&'a str, ListType),
    /// Add the entry with the given ID, with a serialized write body.
    Add(u32, ListType, &'a str),
    /// Update the entry with the given ID, with a serialized write body.
    Update(u32, ListType, &'a str),
    /// Delete the entry with the given ID.
    Delete(u32, ListType),
    /// Check that the stored credentials are accepted.
    VerifyCredentials,
}

/// The wire path of a request.
pub open spec fn spec_request_path(r: Request) -> Seq<char> {
    match r {
        Request::Search(_, ListType::Anime) => "/api/anime/search.xml"@,
        Request::Search(_, ListType::Manga) => "/api/manga/search.xml"@,
        Request::List(_, _) => "/malappinfo.php"@,
        Request::Add(id, ListType::Anime, _) => "/api/animelist/add/"@ + dec_str(id as nat)
            + ".xml"@,
        Request::Add(id, ListType::Manga, _) => "/api/mangalist/add/"@ + dec_str(id as nat)
            + ".xml"@,
        Request::Update(id, ListType::Anime, _) => "/api/animelist/update/"@ + dec_str(id as nat)
            + ".xml"@,
        Request::Update(id, ListType::Manga, _) => "/api/mangalist/update/"@ + dec_str(id as nat)
            + ".xml"@,
        Request::Delete(id, ListType::Anime) => "/api/animelist/delete/"@ + dec_str(id as nat)
            + ".xml"@,
        Request::Delete(id, ListType::Manga) => "/api/mangalist/delete/"@ + dec_str(id as nat)
            + ".xml"@,
        Request::VerifyCredentials => "/api/account/verify_credentials.xml"@,
    }
}

impl<'a> Request<'a> {
    /// Builds the wire path of the request.
    pub fn path(&self) -> (r: String)
        ensures
            r@ == spec_request_path(*self),
    {
        match self {
            Request::Search(_, ListType::Anime) => String::from_str("/api/anime/search.xml"),
            Request::Search(_, ListType::Manga) => String::from_str("/api/manga/search.xml"),
            Request::List(_, _) => String::from_str("/malappinfo.php"),
            Request::Add(id, ListType::Anime, _) => {
                let mut s = String::from_str("/api/animelist/add/");
                let num = u32_to_string(*id);
                s.append(num.as_str());
                s.append(".xml");
                s
            },
            Request::Add(id, ListType::Manga, _) => {
                let mut s = String::from_str("/api/mangalist/add/");
                let num = u32_to_string(*id);
                s.append(num.as_str());
                s.append(".xml");
                s
            },
            Request::Update(id, ListType::Anime, _) => {
                let mut s = String::from_str("/api/animelist/update/");
                let num = u32_to_string(*id);
                s.append(num.as_str());
                s.append(".xml");
                s
            },
            Request::Update(id, ListType::Manga, _) => {
                let mut s = String::from_str("/api/mangalist/update/");
                let num = u32_to_string(*id);
                s.append(num.as_str());
                s.append(".xml");
                s
            },
            Request::Delete(id, ListType::Anime) => {
                let mut s = String::from_str("/api/animelist/delete/");
                let num = u32_to_string(*id);
                s.append(num.as_str());
                s.append(".xml");
                s
            },
            Request::Delete(id, ListType::Manga) => {
                let mut s = String::from_str("/api/mangalist/delete/");
                let num = u32_to_string(*id);
                s.append(num.as_str());
                s.append(".xml");
                s
            },
            Request::VerifyCredentials => String::from_str("/api/account/verify_credentials.xml"),
        }
    }

    /// The HTTP verb the request is sent with.
    pub fn verb(&self) -> (r: HttpVerb)
        ensures
            r == (match *self {
                Request::Search(_, _) => HttpVerb::Get,
                Request::List(_, _) => HttpVerb::Get,
                Request::Add(_, _, _) => HttpVerb::Post,
                Request::Update(_, _, _) => HttpVerb::Post,
                Request::Delete(_, _) => HttpVerb::Delete,
                Request::VerifyCredentials => HttpVerb::Get,
            }),
    {
        match self {
            Request::Search(_, _) => HttpVerb::Get,
            Request::List(_, _) => HttpVerb::Get,
            Request::Add(_, _, _) => HttpVerb::Post,
            Request::Update(_, _, _) => HttpVerb::Post,
            Request::Delete(_, _) => HttpVerb::Delete,
            Request::VerifyCredentials => HttpVerb::Get,
        }
    }

    /// Whether the request carries the user's credentials. Reading a list is
    /// public; everything else authenticates.
    pub fn needs_auth(&self) -> (r: bool)
        ensures
            r == !(*self matches Request::List(_, _)),
    {
        match self {
            Request::List(_, _) => false,
            _ => true,
        }
    }

    /// The query pairs of the request: the search term for a search; the
    /// username, the all-statuses marker and the category for a list read.
    pub fn query_pairs(&self) -> (r: Vec<(String, String)>)
        ensures
            match *self {
                Request::Search(name, _) => r@.len() == 1 && r@[0].0@ == "q"@ && r@[0].1@ == name@,
                Request::List(uname, lt) => {
                    &&& r@.len() == 3
                    &&& r@[0].0@ == "u"@ && r@[0].1@ == uname@
                    &&& r@[1].0@ == "status"@ && r@[1].1@ == "all"@
                    &&& r@[2].0@ == "type"@ && r@[2].1@ == (if lt is Anime {
                        "anime"@
                    } else {
                        "manga"@
                    })
                },
                _ => r@.len() == 0,
            },
    {
        let mut pairs: Vec<(String, String)> = Vec::new();
        match self {
            Request::Search(name, _) => {
                pairs.push((String::from_str("q"), String::from_str(*name)));
            },
            Request::List(uname, lt) => {
                pairs.push((String::from_str("u"), String::from_str(*uname)));
                pairs.push((String::from_str("status"), String::from_str("all")));
                let kind = match lt {
                    ListType::Anime => String::from_str("anime"),
                    ListType::Manga => String::from_str("manga"),
                };
                pairs.push((String::from_str("type"), kind));
            },
            _ => {},
        }
        pairs
    }

    /// The serialized write body the request carries, if any.
    pub fn body(&self) -> (r: Option<&'a str>)
        ensures
            match *self {
                Request::Add(_, _, b) => r == Some(b),
                Request::Update(_, _, b) => r == Some(b),
                _ => r is None,
            },
    {
        match self {
            Request::Add(_, _, b) => Some(*b),
            Request::Update(_, _, b) => Some(*b),
            _ => None,
        }
    }
}

} // verus!
