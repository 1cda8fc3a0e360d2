//! Anime-list data structures and codecs: the per-category enums with their
//! two wire codecs, the descriptive series record, the list entry, and the
//! change-tracked user values with their write-body emitter.

use vstd::prelude::*;
use crate::date::{Date, spec_date_wire};
use crate::list::{
    ListEntries,
    ChangeTracker, Status, spec_status_index, spec_status_from_index, child_date,
    child_decimal_text, child_i32, child_i64, child_flag_lenient, child_status, child_string,
    child_u32, child_u8, spec_child_decimal_ok, spec_child_flag, spec_child_i32_ok,
    spec_child_i32_val, spec_child_i64_ok,
    spec_child_present, spec_child_text, spec_child_unsigned_ok, spec_child_unsigned_val,
    spec_date_of_text,
};
use crate::request::ListType;
use crate::text::{
    concat_delim, dec_str, is_decimal_fraction_text, lower_seq, seq_views, split_seq,
    trim_empty_edges, u32_to_string, u64_to_string, ascii_lower, str_eq, push_char,
    signed_text_value,
};
use crate::xml::{
    XmlChild, XmlDocument, XmlElement, children_views, entry_render_ok, has_tag,
    lemma_has_tag_concat, xml_document_content, xml_entry_rendering, xml_parses,
};
use crate::error::{ListError, MALError, RequestError};

verus! {

broadcast use vstd::string::group_string_axioms;

/// The kind of an anime series. Index zero is a real wire value here,
/// meaning the kind is not known yet.
#[derive(Debug, Copy, Clone, PartialEq, Eq, Structural)]
pub enum AnimeType {
    /// An unknown series type (usually because it hasn't aired yet).
    Unknown,
    /// A series that has aired on TV.
    TV,
    /// A series that has never aired on TV.
    OVA,
    /// A series depicted in the form of a movie.
    Movie,
    /// An extra set of episodes from a series that are usually self-contained.
    Special,
    /// A series that has only been presented on the internet.
    ONA,
    /// A music video.
    Music,
}

/// The wire index of an anime type.
pub open spec fn spec_anime_type_index(t: AnimeType) -> int {
    match t {
        AnimeType::Unknown => 0,
        AnimeType::TV => 1,
        AnimeType::OVA => 2,
        AnimeType::Movie => 3,
        AnimeType::Special => 4,
        AnimeType::ONA => 5,
        AnimeType::Music => 6,
    }
}

/// The anime type a wire index denotes, if any; zero is valid and means
/// unknown.
pub open spec fn spec_anime_type_from_index(value: int) -> Option<AnimeType> {
    if value == 0 {
        Some(AnimeType::Unknown)
    } else if value == 1 {
        Some(AnimeType::TV)
    } else if value == 2 {
        Some(AnimeType::OVA)
    } else if value == 3 {
        Some(AnimeType::Movie)
    } else if value == 4 {
        Some(AnimeType::Special)
    } else if value == 5 {
        Some(AnimeType::ONA)
    } else if value == 6 {
        Some(AnimeType::Music)
    } else {
        None
    }
}

/// The anime type a lowercased search label denotes, if any; the unknown
/// kind's label is the empty string.
pub open spec fn spec_anime_type_from_label(t: Seq<char>) -> Option<AnimeType> {
    if t == ""@ {
        Some(AnimeType::Unknown)
    } else if t == "tv"@ {
        Some(AnimeType::TV)
    } else if t == "ova"@ {
        Some(AnimeType::OVA)
    } else if t == "movie"@ {
        Some(AnimeType::Movie)
    } else if t == "special"@ {
        Some(AnimeType::Special)
    } else if t == "ona"@ {
        Some(AnimeType::ONA)
    } else if t == "music"@ {
        Some(AnimeType::Music)
    } else {
        None
    }
}

impl AnimeType {
    /// Decodes the wire index of an anime type, as list snapshots carry it.
    pub fn from_i32(value: i32) -> (r: Option<AnimeType>)
        ensures
            r == spec_anime_type_from_index(value as int),
    {
        match value {
            0 => Some(AnimeType::Unknown),
            1 => Some(AnimeType::TV),
            2 => Some(AnimeType::OVA),
            3 => Some(AnimeType::Movie),
            4 => Some(AnimeType::Special),
            5 => Some(AnimeType::ONA),
            6 => Some(AnimeType::Music),
            _ => None,
        }
    }

    /// Decodes the free-text label of an anime type, as search results carry
    /// it; matching is case-insensitive.
    pub fn from_str(input: &str) -> (r: Option<AnimeType>)
        ensures
            r == spec_anime_type_from_label(lower_seq(input@)),
    {
        let lowered = ascii_lower(input);
        let l = lowered.as_str();
        if str_eq(l, "") {
            Some(AnimeType::Unknown)
        } else if str_eq(l, "tv") {
            Some(AnimeType::TV)
        } else if str_eq(l, "ova") {
            Some(AnimeType::OVA)
        } else if str_eq(l, "movie") {
            Some(AnimeType::Movie)
        } else if str_eq(l, "special") {
            Some(AnimeType::Special)
        } else if str_eq(l, "ona") {
            Some(AnimeType::ONA)
        } else if str_eq(l, "music") {
            Some(AnimeType::Music)
        } else {
            None
        }
    }

    /// Encodes an anime type as its wire index.
    pub fn to_index(&self) -> (r: i32)
        ensures
            r == spec_anime_type_index(*self),
    {
        match *self {
            AnimeType::Unknown => 0,
            AnimeType::TV => 1,
            AnimeType::OVA => 2,
            AnimeType::Movie => 3,
            AnimeType::Special => 4,
            AnimeType::ONA => 5,
            AnimeType::Music => 6,
        }
    }
}

/// Decoding an anime type's own wire index yields the type back, for every
/// member.
pub proof fn lemma_anime_type_index_round_trip(t: AnimeType)
    ensures
        spec_anime_type_from_index(spec_anime_type_index(t)) == Some(t),
{
}

/// The airing status of an anime series.
#[derive(Debug, Copy, Clone, PartialEq, Eq, Structural)]
pub enum AiringStatus {
    /// A series that is currently airing.
    Airing,
    /// A series that has finished airing.
    FinishedAiring,
    /// A series that hasn't aired yet.
    NotYetAired,
}

/// The wire index of an airing status.
pub open spec fn spec_airing_status_index(s: AiringStatus) -> int {
    match s {
        AiringStatus::Airing => 1,
        AiringStatus::FinishedAiring => 2,
        AiringStatus::NotYetAired => 3,
    }
}

/// The airing status a wire index denotes, if any; zero is invalid here.
pub open spec fn spec_airing_status_from_index(value: int) -> Option<AiringStatus> {
    if value == 1 {
        Some(AiringStatus::Airing)
    } else if value == 2 {
        Some(AiringStatus::FinishedAiring)
    } else if value == 3 {
        Some(AiringStatus::NotYetAired)
    } else {
        None
    }
}

/// The airing status a lowercased search label denotes, if any.
pub open spec fn spec_airing_status_from_label(t: Seq<char>) -> Option<AiringStatus> {
    if t == "currently airing"@ {
        Some(AiringStatus::Airing)
    } else if t == "finished airing"@ {
        Some(AiringStatus::FinishedAiring)
    } else if t == "not yet aired"@ {
        Some(AiringStatus::NotYetAired)
    } else {
        None
    }
}

impl AiringStatus {
    /// Decodes the wire index of an airing status, as list snapshots carry
    /// it.
    pub fn from_i32(value: i32) -> (r: Option<AiringStatus>)
        ensures
            r == spec_airing_status_from_index(value as int),
    {
        match value {
            1 => Some(AiringStatus::Airing),
            2 => Some(AiringStatus::FinishedAiring),
            3 => Some(AiringStatus::NotYetAired),
            _ => None,
        }
    }

    /// Decodes the free-text label of an airing status, as search results
    /// carry it; matching is case-insensitive.
    pub fn from_str(input: &str) -> (r: Option<AiringStatus>)
        ensures
            r == spec_airing_status_from_label(lower_seq(input@)),
    {
        let lowered = ascii_lower(input);
        let l = lowered.as_str();
        if str_eq(l, "currently airing") {
            Some(AiringStatus::Airing)
        } else if str_eq(l, "finished airing") {
            Some(AiringStatus::FinishedAiring)
        } else if str_eq(l, "not yet aired") {
            Some(AiringStatus::NotYetAired)
        } else {
            None
        }
    }

    /// Encodes an airing status as its wire index.
    pub fn to_index(&self) -> (r: i32)
        ensures
            r == spec_airing_status_index(*self),
    {
        match *self {
            AiringStatus::Airing => 1,
            AiringStatus::FinishedAiring => 2,
            AiringStatus::NotYetAired => 3,
        }
    }
}

/// Decoding an airing status's own wire index yields the status back, for
/// every member.
pub proof fn lemma_airing_status_index_round_trip(s: AiringStatus)
    ensures
        spec_airing_status_from_index(spec_airing_status_index(s)) == Some(s),
{
}

/// The user-editable values of one anime list entry, each field tracking
/// whether the caller has set it since the last successful sync.
#[derive(Debug)]
pub struct AnimeValues {
    pub watched_episodes: ChangeTracker<u32>,
    pub start_date: ChangeTracker<Option<Date>>,
    pub finish_date: ChangeTracker<Option<Date>>,
    pub status: ChangeTracker<Status>,
    pub score: ChangeTracker<u8>,
    pub rewatching: ChangeTracker<bool>,
    pub tags: ChangeTracker<Vec<String>>,
}

/// Whether no field of the values is marked modified.
pub open spec fn spec_anime_values_clean(v: AnimeValues) -> bool {
    &&& !v.watched_episodes.changed
    &&& !v.start_date.changed
    &&& !v.finish_date.changed
    &&& !v.status.changed
    &&& !v.score.changed
    &&& !v.rewatching.changed
    &&& !v.tags.changed
}

impl AnimeValues {
    /// Fresh values for a never-synced entry: zero progress, no dates, the
    /// planning status, no score, not rewatching, no tags — and nothing
    /// marked modified.
    pub fn new() -> (r: AnimeValues)
        ensures
            r.watched_episodes.value == 0,
            r.start_date.value is None,
            r.finish_date.value is None,
            r.status.value == Status::PlanToWatchOrRead,
            r.score.value == 0,
            r.rewatching.value == false,
            r.tags.value@.len() == 0,
            spec_anime_values_clean(r),
    {
        AnimeValues {
            watched_episodes: ChangeTracker::new(0),
            start_date: ChangeTracker::new(None),
            finish_date: ChangeTracker::new(None),
            status: ChangeTracker::new(Status::PlanToWatchOrRead),
            score: ChangeTracker::new(0),
            rewatching: ChangeTracker::new(false),
            tags: ChangeTracker::new(Vec::new()),
        }
    }

    /// Returns the number of watched episodes.
    pub fn watched_episodes(&self) -> (r: u32)
        ensures
            r == self.watched_episodes.value,
    {
        self.watched_episodes.value
    }

    /// Sets the number of watched episodes.
    pub fn set_watched_episodes(&mut self, watched_episodes: u32) -> (r: &mut AnimeValues)
        ensures
            *r == (AnimeValues {
                watched_episodes: ChangeTracker { value: watched_episodes, changed: true },
                ..*old(self)
            }),
            *final(self) == *final(r),
    {
        self.watched_episodes.set(watched_episodes);
        self
    }

    /// Returns the date the user started watching the series.
    pub fn start_date(&self) -> (r: Option<Date>)
        ensures
            r == self.start_date.value,
    {
        self.start_date.value
    }

    /// Sets the date the user started watching the series.
    pub fn set_start_date(&mut self, start_date: Option<Date>) -> (r: &mut AnimeValues)
        ensures
            *r == (AnimeValues {
                start_date: ChangeTracker { value: start_date, changed: true },
                ..*old(self)
            }),
            *final(self) == *final(r),
    {
        self.start_date.set(start_date);
        self
    }

    /// Returns the date the user finished watching the series.
    pub fn finish_date(&self) -> (r: Option<Date>)
        ensures
            r == self.finish_date.value,
    {
        self.finish_date.value
    }

    /// Sets the date the user finished watching the series.
    pub fn set_finish_date(&mut self, finish_date: Option<Date>) -> (r: &mut AnimeValues)
        ensures
            *r == (AnimeValues {
                finish_date: ChangeTracker { value: finish_date, changed: true },
                ..*old(self)
            }),
            *final(self) == *final(r),
    {
        self.finish_date.set(finish_date);
        self
    }

    /// Returns the current watch status of the series.
    pub fn status(&self) -> (r: Status)
        ensures
            r == self.status.value,
    {
        self.status.value
    }

    /// Sets the current watch status of the series.
    pub fn set_status(&mut self, status: Status) -> (r: &mut AnimeValues)
        ensures
            *r == (AnimeValues {
                status: ChangeTracker { value: status, changed: true },
                ..*old(self)
            }),
            *final(self) == *final(r),
    {
        self.status.set(status);
        self
    }

    /// Returns the user's rating of the series.
    pub fn score(&self) -> (r: u8)
        ensures
            r == self.score.value,
    {
        self.score.value
    }

    /// Sets the user's rating of the series.
    pub fn set_score(&mut self, score: u8) -> (r: &mut AnimeValues)
        ensures
            *r == (AnimeValues { score: ChangeTracker { value: score, changed: true }, ..*old(self) }),
            *final(self) == *final(r),
    {
        self.score.set(score);
        self
    }

    /// Returns the current rewatch status of the series.
    pub fn rewatching(&self) -> (r: bool)
        ensures
            r == self.rewatching.value,
    {
        self.rewatching.value
    }

    /// Sets the current rewatch status of the series.
    pub fn set_rewatching(&mut self, rewatching: bool) -> (r: &mut AnimeValues)
        ensures
            *r == (AnimeValues {
                rewatching: ChangeTracker { value: rewatching, changed: true },
                ..*old(self)
            }),
            *final(self) == *final(r),
    {
        self.rewatching.set(rewatching);
        self
    }

    /// Returns the tags the user has set for the anime.
    pub fn tags(&self) -> (r: &Vec<String>)
        ensures
            r == self.tags.value,
    {
        &self.tags.value
    }

    /// Returns mutable access to the tags. Whoever asks for this is assumed
    /// to intend mutation, so the field is marked modified at acquisition —
    /// over-reporting is acceptable, failing to transmit a real edit is not.
    pub fn tags_mut(&mut self) -> (r: &mut Vec<String>)
        ensures
            *r == old(self).tags.value,
            final(self).tags.value == *final(r),
            final(self).tags.changed,
            final(self).watched_episodes == old(self).watched_episodes,
            final(self).start_date == old(self).start_date,
            final(self).finish_date == old(self).finish_date,
            final(self).status == old(self).status,
            final(self).score == old(self).score,
            final(self).rewatching == old(self).rewatching,
    {
        self.tags.get_mut()
    }

    /// Clears every modified flag, keeping every value; for the
    /// orchestrator, after a confirmed successful write.
    pub fn reset_changed_fields(&mut self)
        ensures
            *final(self) == spec_anime_values_reset(*old(self)),
    {
        self.watched_episodes.reset();
        self.start_date.reset();
        self.finish_date.reset();
        self.status.reset();
        self.score.reset();
        self.rewatching.reset();
        self.tags.reset();
    }
}

impl Default for AnimeValues {
    /// The same values as [`AnimeValues::new`].
    fn default() -> (r: AnimeValues)
        ensures
            r.watched_episodes.value == 0,
            r.start_date.value is None,
            r.finish_date.value is None,
            r.status.value == Status::PlanToWatchOrRead,
            r.score.value == 0,
            r.rewatching.value == false,
            r.tags.value@.len() == 0,
            spec_anime_values_clean(r),
    {
        AnimeValues::new()
    }
}

/// The values with every modified flag cleared and every value kept.
pub open spec fn spec_anime_values_reset(v: AnimeValues) -> AnimeValues {
    AnimeValues {
        watched_episodes: ChangeTracker { value: v.watched_episodes.value, changed: false },
        start_date: ChangeTracker { value: v.start_date.value, changed: false },
        finish_date: ChangeTracker { value: v.finish_date.value, changed: false },
        status: ChangeTracker { value: v.status.value, changed: false },
        score: ChangeTracker { value: v.score.value, changed: false },
        rewatching: ChangeTracker { value: v.rewatching.value, changed: false },
        tags: ChangeTracker { value: v.tags.value, changed: false },
    }
}

/// One write-body child when the field is marked modified, nothing when it
/// is not.
pub open spec fn opt_child(dirty: bool, name: Seq<char>, text: Seq<char>) -> Seq<
    (Seq<char>, Seq<char>),
> {
    if dirty {
        seq![(name, text)]
    } else {
        Seq::empty()
    }
}

/// The wire text of the rewatch / reread flag.
pub open spec fn spec_flag_text(v: bool) -> Seq<char> {
    if v {
        seq!['1']
    } else {
        seq!['0']
    }
}

/// The write-body children of the values: one child per modified field, in
/// the fixed wire order, each rendered by its own field formatter; fields
/// not marked modified are omitted entirely.
pub open spec fn spec_anime_dirty_children(v: AnimeValues) -> Seq<(Seq<char>, Seq<char>)> {
    opt_child(
        v.watched_episodes.changed,
        "episode"@,
        dec_str(v.watched_episodes.value as nat),
    ) + opt_child(v.status.changed, "status"@, dec_str(spec_status_index(v.status.value) as nat))
        + opt_child(v.start_date.changed, "date_start"@, spec_date_wire(v.start_date.value))
        + opt_child(v.finish_date.changed, "date_finish"@, spec_date_wire(v.finish_date.value))
        + opt_child(v.score.changed, "score"@, dec_str(v.score.value as nat))
        + opt_child(v.rewatching.changed, "enable_rewatching"@, spec_flag_text(v.rewatching.value))
        + opt_child(v.tags.changed, "tags"@, concat_delim(seq_views(v.tags.value@), ','))
}

impl AnimeValues {
    /// Builds the write-body children: exactly one child per modified field,
    /// in the fixed wire order.
    #[verifier::rlimit(100)]
    #[verifier::spinoff_prover]
    pub fn dirty_children(&self) -> (r: Vec<XmlChild>)
        ensures
            children_views(r@) == spec_anime_dirty_children(*self),
    {
        let mut out: Vec<XmlChild> = Vec::new();
        let ghost s0 = Seq::<(Seq<char>, Seq<char>)>::empty();
        proof {
            assert(children_views(out@) =~= s0);
        }
        if self.watched_episodes.dirty() {
            let child = XmlChild {
                name: String::from_str("episode"),
                text: u32_to_string(self.watched_episodes.value),
            };
            let ghost before = out@;
            let ghost gc = child;
            out.push(child);
            proof {
                crate::xml::lemma_children_views_push(before, gc);
            }
        }
        let ghost s1 = s0 + opt_child(
            self.watched_episodes.changed,
            "episode"@,
            dec_str(self.watched_episodes.value as nat),
        );
        proof {
            if self.watched_episodes.changed {
                assert(children_views(out@) =~= s1);
            } else {
                assert(children_views(out@) =~= s1);
            }
        }
        if self.status.dirty() {
            let idx = self.status.value.to_index();
            let child = XmlChild {
                name: String::from_str("status"),
                text: u64_to_string(idx as u64),
            };
            let ghost before = out@;
            let ghost gc = child;
            out.push(child);
            proof {
                crate::xml::lemma_children_views_push(before, gc);
            }
        }
        let ghost s2 = s1 + opt_child(
            self.status.changed,
            "status"@,
            dec_str(spec_status_index(self.status.value) as nat),
        );
        proof {
            if self.status.changed {
                assert(children_views(out@) =~= s2);
            } else {
                assert(children_views(out@) =~= s2);
            }
        }
        if self.start_date.dirty() {
            let child = XmlChild {
                name: String::from_str("date_start"),
                text: crate::util::date_to_str(self.start_date.value),
            };
            let ghost before = out@;
            let ghost gc = child;
            out.push(child);
            proof {
                crate::xml::lemma_children_views_push(before, gc);
            }
        }
        let ghost s3 = s2 + opt_child(
            self.start_date.changed,
            "date_start"@,
            spec_date_wire(self.start_date.value),
        );
        proof {
            if self.start_date.changed {
                assert(children_views(out@) =~= s3);
            } else {
                assert(children_views(out@) =~= s3);
            }
        }
        if self.finish_date.dirty() {
            let child = XmlChild {
                name: String::from_str("date_finish"),
                text: crate::util::date_to_str(self.finish_date.value),
            };
            let ghost before = out@;
            let ghost gc = child;
            out.push(child);
            proof {
                crate::xml::lemma_children_views_push(before, gc);
            }
        }
        let ghost s4 = s3 + opt_child(
            self.finish_date.changed,
            "date_finish"@,
            spec_date_wire(self.finish_date.value),
        );
        proof {
            if self.finish_date.changed {
                assert(children_views(out@) =~= s4);
            } else {
                assert(children_views(out@) =~= s4);
            }
        }
        if self.score.dirty() {
            let child = XmlChild {
                name: String::from_str("score"),
                text: u64_to_string(self.score.value as u64),
            };
            let ghost before = out@;
            let ghost gc = child;
            out.push(child);
            proof {
                crate::xml::lemma_children_views_push(before, gc);
            }
        }
        let ghost s5 = s4 + opt_child(self.score.changed, "score"@, dec_str(self.score.value as nat));
        proof {
            if self.score.changed {
                assert(children_views(out@) =~= s5);
            } else {
                assert(children_views(out@) =~= s5);
            }
        }
        if self.rewatching.dirty() {
            let mut flag = String::new();
            push_char(&mut flag, if self.rewatching.value { '1' } else { '0' });
            proof {
                assert(flag@ =~= spec_flag_text(self.rewatching.value));
            }
            let child = XmlChild { name: String::from_str("enable_rewatching"), text: flag };
            let ghost before = out@;
            let ghost gc = child;
            out.push(child);
            proof {
                crate::xml::lemma_children_views_push(before, gc);
            }
        }
        let ghost s6 = s5 + opt_child(
            self.rewatching.changed,
            "enable_rewatching"@,
            spec_flag_text(self.rewatching.value),
        );
        proof {
            if self.rewatching.changed {
                assert(children_views(out@) =~= s6);
            } else {
                assert(children_views(out@) =~= s6);
            }
        }
        if self.tags.dirty() {
            let child = XmlChild {
                name: String::from_str("tags"),
                text: crate::text::join_with_delim(self.tags.value.as_slice(), ','),
            };
            let ghost before = out@;
            let ghost gc = child;
            out.push(child);
            proof {
                crate::xml::lemma_children_views_push(before, gc);
            }
        }
        let ghost s7 = s6 + opt_child(
            self.tags.changed,
            "tags"@,
            concat_delim(seq_views(self.tags.value@), ','),
        );
        proof {
            if self.tags.changed {
                assert(children_views(out@) =~= s7);
            } else {
                assert(children_views(out@) =~= s7);
            }
            assert(s7 =~= spec_anime_dirty_children(*self));
        }
        out
    }

    /// Serializes the modified fields as the write body: one `entry`
    /// element whose children are exactly the modified fields. Whether
    /// serialization succeeds, like its rendering, depends on the modified
    /// fields alone.
    pub fn generate_xml(&self) -> (r: Result<String, ListError>)
        ensures
            r is Ok == entry_render_ok(spec_anime_dirty_children(*self)),
            r matches Ok(s) ==> s@ == xml_entry_rendering(spec_anime_dirty_children(*self)),
    {
        let children = self.dirty_children();
        crate::xml::render_entry_element(&children)
    }
}

/// Whether a tag is one of the write-body tags of anime values.
pub open spec fn is_anime_wire_tag(t: Seq<char>) -> bool {
    ||| t == "episode"@
    ||| t == "status"@
    ||| t == "date_start"@
    ||| t == "date_finish"@
    ||| t == "score"@
    ||| t == "enable_rewatching"@
    ||| t == "tags"@
}

/// Which tags the write body holds, for any tag: a field's own tag occurs
/// exactly when that field is marked modified.
pub proof fn lemma_anime_has_tag(v: AnimeValues, t: Seq<char>)
    ensures
        has_tag(spec_anime_dirty_children(v), t) == {
            ||| (v.watched_episodes.changed && t == "episode"@)
            ||| (v.status.changed && t == "status"@)
            ||| (v.start_date.changed && t == "date_start"@)
            ||| (v.finish_date.changed && t == "date_finish"@)
            ||| (v.score.changed && t == "score"@)
            ||| (v.rewatching.changed && t == "enable_rewatching"@)
            ||| (v.tags.changed && t == "tags"@)
        },
{
    let c1 = opt_child(
        v.watched_episodes.changed,
        "episode"@,
        dec_str(v.watched_episodes.value as nat),
    );
    let c2 = opt_child(
        v.status.changed,
        "status"@,
        dec_str(spec_status_index(v.status.value) as nat),
    );
    let c3 = opt_child(v.start_date.changed, "date_start"@, spec_date_wire(v.start_date.value));
    let c4 = opt_child(v.finish_date.changed, "date_finish"@, spec_date_wire(v.finish_date.value));
    let c5 = opt_child(v.score.changed, "score"@, dec_str(v.score.value as nat));
    let c6 = opt_child(
        v.rewatching.changed,
        "enable_rewatching"@,
        spec_flag_text(v.rewatching.value),
    );
    let c7 = opt_child(v.tags.changed, "tags"@, concat_delim(seq_views(v.tags.value@), ','));
    lemma_opt_child_has_tag(
        v.watched_episodes.changed,
        "episode"@,
        dec_str(v.watched_episodes.value as nat),
        t,
    );
    lemma_opt_child_has_tag(
        v.status.changed,
        "status"@,
        dec_str(spec_status_index(v.status.value) as nat),
        t,
    );
    lemma_opt_child_has_tag(
        v.start_date.changed,
        "date_start"@,
        spec_date_wire(v.start_date.value),
        t,
    );
    lemma_opt_child_has_tag(
        v.finish_date.changed,
        "date_finish"@,
        spec_date_wire(v.finish_date.value),
        t,
    );
    lemma_opt_child_has_tag(v.score.changed, "score"@, dec_str(v.score.value as nat), t);
    lemma_opt_child_has_tag(
        v.rewatching.changed,
        "enable_rewatching"@,
        spec_flag_text(v.rewatching.value),
        t,
    );
    lemma_opt_child_has_tag(
        v.tags.changed,
        "tags"@,
        concat_delim(seq_views(v.tags.value@), ','),
        t,
    );
    lemma_has_tag_concat(c1, c2, t);
    lemma_has_tag_concat(c1 + c2, c3, t);
    lemma_has_tag_concat(c1 + c2 + c3, c4, t);
    lemma_has_tag_concat(c1 + c2 + c3 + c4, c5, t);
    lemma_has_tag_concat(c1 + c2 + c3 + c4 + c5, c6, t);
    lemma_has_tag_concat(c1 + c2 + c3 + c4 + c5 + c6, c7, t);
}

/// The write body holds exactly the tags of the modified fields: each
/// field's tag occurs if and only if that field is marked modified, and no
/// other tag occurs at all.
pub proof fn lemma_anime_dirty_children_exact(v: AnimeValues)
    ensures
        has_tag(spec_anime_dirty_children(v), "episode"@) == v.watched_episodes.changed,
        has_tag(spec_anime_dirty_children(v), "status"@) == v.status.changed,
        has_tag(spec_anime_dirty_children(v), "date_start"@) == v.start_date.changed,
        has_tag(spec_anime_dirty_children(v), "date_finish"@) == v.finish_date.changed,
        has_tag(spec_anime_dirty_children(v), "score"@) == v.score.changed,
        has_tag(spec_anime_dirty_children(v), "enable_rewatching"@) == v.rewatching.changed,
        has_tag(spec_anime_dirty_children(v), "tags"@) == v.tags.changed,
        forall|t: Seq<char>| #[trigger] has_tag(spec_anime_dirty_children(v), t)
            ==> is_anime_wire_tag(t),
{
    reveal_strlit("episode");
    reveal_strlit("status");
    reveal_strlit("date_start");
    reveal_strlit("date_finish");
    reveal_strlit("score");
    reveal_strlit("enable_rewatching");
    reveal_strlit("tags");
    assert("episode"@.len() == 7);
    assert("status"@.len() == 6);
    assert("date_start"@.len() == 10);
    assert("date_finish"@.len() == 11);
    assert("score"@.len() == 5);
    assert("enable_rewatching"@.len() == 17);
    assert("tags"@.len() == 4);
    lemma_anime_has_tag(v, "episode"@);
    lemma_anime_has_tag(v, "status"@);
    lemma_anime_has_tag(v, "date_start"@);
    lemma_anime_has_tag(v, "date_finish"@);
    lemma_anime_has_tag(v, "score"@);
    lemma_anime_has_tag(v, "enable_rewatching"@);
    lemma_anime_has_tag(v, "tags"@);
    assert forall|t: Seq<char>| #[trigger] has_tag(spec_anime_dirty_children(v), t)
        implies is_anime_wire_tag(t) by {
        lemma_anime_has_tag(v, t);
    }
}

/// A conditional singleton holds a tag exactly when it is present and the
/// tag is its own.
pub proof fn lemma_opt_child_has_tag(dirty: bool, name: Seq<char>, text: Seq<char>, t: Seq<char>)
    ensures
        has_tag(opt_child(dirty, name, text), t) == (dirty && t == name),
{
    if dirty && t == name {
        assert(opt_child(dirty, name, text)[0].0 == t);
    }
}

/// Server-owned descriptive metadata of an anime series. Replaced wholesale
/// on every read; equality is by numeric identity alone.
#[derive(Debug)]
pub struct AnimeInfo {
    /// The ID of the anime series.
    pub id: u32,
    /// The title of the anime series.
    pub title: String,
    /// The alternative titles for the series.
    pub synonyms: Vec<String>,
    /// The number of episodes in the anime series.
    pub episodes: u32,
    /// The current airing status of the series.
    pub airing_status: AiringStatus,
    /// The type of series that this is.
    pub series_type: AnimeType,
    /// The date the series started airing.
    pub start_date: Option<Date>,
    /// The date the series finished airing.
    pub end_date: Option<Date>,
    /// The URL to the cover image of the series.
    pub image_url: String,
}

impl PartialEq for AnimeInfo {
    /// Two records are equal exactly when they name the same series, however
    /// stale the rest of either snapshot is.
    fn eq(&self, other: &AnimeInfo) -> bool {
        self.id == other.id
    }
}

impl vstd::std_specs::cmp::PartialEqSpecImpl for AnimeInfo {
    open spec fn obeys_eq_spec() -> bool {
        true
    }

    open spec fn eq_spec(&self, other: &AnimeInfo) -> bool {
        self.id == other.id
    }
}

/// Whether a search-result element holds every field an [`AnimeInfo`]
/// needs, well-formed.
pub open spec fn spec_anime_search_decodable(e: Seq<(Seq<char>, Seq<char>)>) -> bool {
    &&& spec_child_unsigned_ok(e, "id"@, u32::MAX as nat)
    &&& spec_child_present(e, "title"@)
    &&& spec_child_present(e, "synonyms"@)
    &&& spec_child_unsigned_ok(e, "episodes"@, u32::MAX as nat)
    &&& spec_child_present(e, "status"@)
    &&& spec_airing_status_from_label(lower_seq(spec_child_text(e, "status"@))) is Some
    &&& spec_child_present(e, "type"@)
    &&& spec_anime_type_from_label(lower_seq(spec_child_text(e, "type"@))) is Some
    &&& spec_child_present(e, "start_date"@)
    &&& spec_child_present(e, "end_date"@)
    &&& spec_child_present(e, "image"@)
}

/// What every field of an [`AnimeInfo`] decoded from a search-result
/// element holds.
pub open spec fn spec_anime_search_info(e: Seq<(Seq<char>, Seq<char>)>, info: AnimeInfo) -> bool {
    &&& info.id == spec_child_unsigned_val(e, "id"@)
    &&& info.title@ == spec_child_text(e, "title"@)
    &&& seq_views(info.synonyms@) == trim_empty_edges(
        split_seq(spec_child_text(e, "synonyms"@), "; "@),
    )
    &&& info.episodes == spec_child_unsigned_val(e, "episodes"@)
    &&& Some(info.airing_status) == spec_airing_status_from_label(
        lower_seq(spec_child_text(e, "status"@)),
    )
    &&& Some(info.series_type) == spec_anime_type_from_label(
        lower_seq(spec_child_text(e, "type"@)),
    )
    &&& info.start_date == spec_date_of_text(spec_child_text(e, "start_date"@))
    &&& info.end_date == spec_date_of_text(spec_child_text(e, "end_date"@))
    &&& info.image_url@ == spec_child_text(e, "image"@)
}

/// Which error decoding a search-result element reports, and on what input.
pub open spec fn spec_anime_search_err(e: Seq<(Seq<char>, Seq<char>)>, err: ListError) -> bool {
    match err {
        ListError::MissingXMLNode(n) => !spec_child_present(e, n@) && (n@ == "id"@ || n@
            == "title"@ || n@ == "synonyms"@ || n@ == "episodes"@ || n@ == "status"@ || n@
            == "type"@ || n@ == "start_date"@ || n@ == "end_date"@ || n@ == "image"@),
        ListError::XMLConversionFailed(n) => spec_child_present(e, n@) && ((n@ == "id"@
            && !spec_child_unsigned_ok(e, "id"@, u32::MAX as nat)) || (n@ == "episodes"@
            && !spec_child_unsigned_ok(e, "episodes"@, u32::MAX as nat))),
        ListError::UnknownStatus(t) => t@ == spec_child_text(e, "status"@)
            && spec_airing_status_from_label(lower_seq(spec_child_text(e, "status"@))) is None,
        ListError::UnknownSeriesType(t) => t@ == spec_child_text(e, "type"@)
            && spec_anime_type_from_label(lower_seq(spec_child_text(e, "type"@))) is None,
        _ => false,
    }
}

impl AnimeInfo {
    /// Decodes one search-result element, with the label-based enum codecs
    /// and the search response's own tag names.
    pub fn parse_search_result(xml: &XmlElement) -> (r: Result<AnimeInfo, ListError>)
        ensures
            match r {
                Ok(info) => spec_anime_search_decodable(xml@) && spec_anime_search_info(xml@, info),
                Err(err) => !spec_anime_search_decodable(xml@) && spec_anime_search_err(xml@, err),
            },
    {
        let id = match child_u32(xml, "id") {
            Ok(v) => v,
            Err(e) => return Err(e),
        };
        let title = match child_string(xml, "title") {
            Ok(v) => v,
            Err(e) => return Err(e),
        };
        let synonyms_text = match child_string(xml, "synonyms") {
            Ok(v) => v,
            Err(e) => return Err(e),
        };
        proof {
            reveal_strlit("; ");
        }
        let synonyms = crate::util::split_into_vec(synonyms_text.as_str(), "; ");
        let episodes = match child_u32(xml, "episodes") {
            Ok(v) => v,
            Err(e) => return Err(e),
        };
        let status_text = match child_string(xml, "status") {
            Ok(v) => v,
            Err(e) => return Err(e),
        };
        let airing_status = match AiringStatus::from_str(status_text.as_str()) {
            Some(s) => s,
            None => return Err(ListError::UnknownStatus(status_text)),
        };
        let type_text = match child_string(xml, "type") {
            Ok(v) => v,
            Err(e) => return Err(e),
        };
        let series_type = match AnimeType::from_str(type_text.as_str()) {
            Some(t) => t,
            None => return Err(ListError::UnknownSeriesType(type_text)),
        };
        let start_text = match child_string(xml, "start_date") {
            Ok(v) => v,
            Err(e) => return Err(e),
        };
        let start_date = crate::util::parse_str_date(start_text.as_str());
        let end_text = match child_string(xml, "end_date") {
            Ok(v) => v,
            Err(e) => return Err(e),
        };
        let end_date = crate::util::parse_str_date(end_text.as_str());
        let image_url = match child_string(xml, "image") {
            Ok(v) => v,
            Err(e) => return Err(e),
        };
        Ok(
            AnimeInfo {
                id,
                title,
                synonyms,
                episodes,
                airing_status,
                series_type,
                start_date,
                end_date,
                image_url,
            },
        )
    }

    /// The category this record belongs to.
    pub fn list_type() -> (r: ListType)
        ensures
            r == ListType::Anime,
    {
        ListType::Anime
    }
}

/// Whether a list-snapshot element holds every descriptive field an
/// [`AnimeInfo`] needs, well-formed, under the snapshot's `series_*` names.
pub open spec fn spec_anime_list_info_decodable(e: Seq<(Seq<char>, Seq<char>)>) -> bool {
    &&& spec_child_unsigned_ok(e, "series_animedb_id"@, u32::MAX as nat)
    &&& spec_child_present(e, "series_title"@)
    &&& spec_child_present(e, "series_synonyms"@)
    &&& spec_child_unsigned_ok(e, "series_episodes"@, u32::MAX as nat)
    &&& spec_child_i32_ok(e, "series_status"@)
    &&& spec_airing_status_from_index(spec_child_i32_val(e, "series_status"@)) is Some
    &&& spec_child_i32_ok(e, "series_type"@)
    &&& spec_anime_type_from_index(spec_child_i32_val(e, "series_type"@)) is Some
    &&& spec_child_present(e, "series_start"@)
    &&& spec_child_present(e, "series_end"@)
    &&& spec_child_present(e, "series_image"@)
}

/// What every field of an [`AnimeInfo`] decoded from a list-snapshot
/// element holds.
pub open spec fn spec_anime_list_info(e: Seq<(Seq<char>, Seq<char>)>, info: AnimeInfo) -> bool {
    &&& info.id == spec_child_unsigned_val(e, "series_animedb_id"@)
    &&& info.title@ == spec_child_text(e, "series_title"@)
    &&& seq_views(info.synonyms@) == trim_empty_edges(
        split_seq(spec_child_text(e, "series_synonyms"@), "; "@),
    )
    &&& info.episodes == spec_child_unsigned_val(e, "series_episodes"@)
    &&& Some(info.airing_status) == spec_airing_status_from_index(
        spec_child_i32_val(e, "series_status"@),
    )
    &&& Some(info.series_type) == spec_anime_type_from_index(
        spec_child_i32_val(e, "series_type"@),
    )
    &&& info.start_date == spec_date_of_text(spec_child_text(e, "series_start"@))
    &&& info.end_date == spec_date_of_text(spec_child_text(e, "series_end"@))
    &&& info.image_url@ == spec_child_text(e, "series_image"@)
}

/// Which error decoding the descriptive part of a list-snapshot element
/// reports, and on what input.
pub open spec fn spec_anime_list_info_err(e: Seq<(Seq<char>, Seq<char>)>, err: ListError) -> bool {
    match err {
        ListError::MissingXMLNode(n) => !spec_child_present(e, n@) && (n@ == "series_animedb_id"@
            || n@ == "series_title"@ || n@ == "series_synonyms"@ || n@ == "series_episodes"@ || n@
            == "series_status"@ || n@ == "series_type"@ || n@ == "series_start"@ || n@
            == "series_end"@ || n@ == "series_image"@),
        ListError::XMLConversionFailed(n) => spec_child_present(e, n@) && ((n@
            == "series_animedb_id"@ && !spec_child_unsigned_ok(e, n@, u32::MAX as nat)) || (n@
            == "series_episodes"@ && !spec_child_unsigned_ok(e, n@, u32::MAX as nat)) || (n@
            == "series_status"@ && !spec_child_i32_ok(e, n@)) || (n@ == "series_type"@
            && !spec_child_i32_ok(e, n@))),
        ListError::UnknownStatus(t) => spec_child_i32_ok(e, "series_status"@)
            && spec_airing_status_from_index(spec_child_i32_val(e, "series_status"@)) is None && t@
            == spec_child_text(e, "series_status"@),
        ListError::UnknownSeriesType(t) => spec_child_i32_ok(e, "series_type"@)
            && spec_anime_type_from_index(spec_child_i32_val(e, "series_type"@)) is None && t@
            == spec_child_text(e, "series_type"@),
        _ => false,
    }
}

/// Decodes the descriptive `series_*` part of one list-snapshot element.
fn parse_list_info(xml: &XmlElement) -> (r: Result<AnimeInfo, ListError>)
    ensures
        match r {
            Ok(info) => spec_anime_list_info_decodable(xml@) && spec_anime_list_info(xml@, info),
            Err(err) => !spec_anime_list_info_decodable(xml@) && spec_anime_list_info_err(
                xml@,
                err,
            ),
        },
{
    let id = match child_u32(xml, "series_animedb_id") {
        Ok(v) => v,
        Err(e) => return Err(e),
    };
    let title = match child_string(xml, "series_title") {
        Ok(v) => v,
        Err(e) => return Err(e),
    };
    let synonyms_text = match child_string(xml, "series_synonyms") {
        Ok(v) => v,
        Err(e) => return Err(e),
    };
    proof {
        reveal_strlit("; ");
    }
    let synonyms = crate::util::split_into_vec(synonyms_text.as_str(), "; ");
    let episodes = match child_u32(xml, "series_episodes") {
        Ok(v) => v,
        Err(e) => return Err(e),
    };
    let status_text = match child_string(xml, "series_status") {
        Ok(v) => v,
        Err(e) => return Err(e),
    };
    let status_num = match child_i32(xml, "series_status") {
        Ok(v) => v,
        Err(e) => return Err(e),
    };
    let airing_status = match AiringStatus::from_i32(status_num) {
        Some(s) => s,
        None => return Err(ListError::UnknownStatus(status_text)),
    };
    let type_text = match child_string(xml, "series_type") {
        Ok(v) => v,
        Err(e) => return Err(e),
    };
    let type_num = match child_i32(xml, "series_type") {
        Ok(v) => v,
        Err(e) => return Err(e),
    };
    let series_type = match AnimeType::from_i32(type_num) {
        Some(t) => t,
        None => return Err(ListError::UnknownSeriesType(type_text)),
    };
    let start_text = match child_string(xml, "series_start") {
        Ok(v) => v,
        Err(e) => return Err(e),
    };
    let start_date = crate::util::parse_str_date(start_text.as_str());
    let end_text = match child_string(xml, "series_end") {
        Ok(v) => v,
        Err(e) => return Err(e),
    };
    let end_date = crate::util::parse_str_date(end_text.as_str());
    let image_url = match child_string(xml, "series_image") {
        Ok(v) => v,
        Err(e) => return Err(e),
    };
    Ok(
        AnimeInfo {
            id,
            title,
            synonyms,
            episodes,
            airing_status,
            series_type,
            start_date,
            end_date,
            image_url,
        },
    )
}

/// Whether a list-snapshot element holds every user field the values need,
/// well-formed.
pub open spec fn spec_anime_values_decodable(e: Seq<(Seq<char>, Seq<char>)>) -> bool {
    &&& spec_child_unsigned_ok(e, "my_watched_episodes"@, u32::MAX as nat)
    &&& spec_child_present(e, "my_start_date"@)
    &&& spec_child_present(e, "my_finish_date"@)
    &&& spec_child_i32_ok(e, "my_status"@)
    &&& spec_status_from_index(spec_child_i32_val(e, "my_status"@)) is Some
    &&& spec_child_unsigned_ok(e, "my_score"@, u8::MAX as nat)
    &&& spec_child_present(e, "my_tags"@)
}

/// What every field of values decoded from a list-snapshot element holds:
/// the snapshot reflects server truth, so nothing is marked modified.
pub open spec fn spec_anime_values_from(e: Seq<(Seq<char>, Seq<char>)>, v: AnimeValues) -> bool {
    &&& v.watched_episodes.value == spec_child_unsigned_val(e, "my_watched_episodes"@)
    &&& v.start_date.value == spec_date_of_text(spec_child_text(e, "my_start_date"@))
    &&& v.finish_date.value == spec_date_of_text(spec_child_text(e, "my_finish_date"@))
    &&& Some(v.status.value) == spec_status_from_index(spec_child_i32_val(e, "my_status"@))
    &&& v.score.value == spec_child_unsigned_val(e, "my_score"@)
    &&& v.rewatching.value == spec_child_flag(e, "my_rewatching"@)
    &&& seq_views(v.tags.value@) == trim_empty_edges(
        split_seq(spec_child_text(e, "my_tags"@), ","@),
    )
    &&& spec_anime_values_clean(v)
}

/// Which error decoding the user values of a list-snapshot element reports,
/// and on what input.
pub open spec fn spec_anime_values_err(e: Seq<(Seq<char>, Seq<char>)>, err: ListError) -> bool {
    match err {
        ListError::MissingXMLNode(n) => !spec_child_present(e, n@) && (n@
            == "my_watched_episodes"@ || n@ == "my_start_date"@ || n@ == "my_finish_date"@ || n@
            == "my_status"@ || n@ == "my_score"@ || n@ == "my_tags"@),
        ListError::XMLConversionFailed(n) => spec_child_present(e, n@) && ((n@
            == "my_watched_episodes"@ && !spec_child_unsigned_ok(e, n@, u32::MAX as nat)) || (n@
            == "my_status"@ && !spec_child_i32_ok(e, n@)) || (n@ == "my_score"@
            && !spec_child_unsigned_ok(e, n@, u8::MAX as nat))),
        ListError::UnknownStatus(t) => spec_child_i32_ok(e, "my_status"@) && spec_status_from_index(
            spec_child_i32_val(e, "my_status"@),
        ) is None && t@ == spec_child_text(e, "my_status"@),
        _ => false,
    }
}

impl AnimeValues {
    /// Decodes the user fields of one list-snapshot element. The
    /// re-watching flag is the one field decoded leniently: the service
    /// sometimes sends it blank, and any undecodable value counts as
    /// `false`. Everything comes back unmodified: a snapshot is server
    /// truth, not caller intent.
    pub fn from_xml(xml: &XmlElement) -> (r: Result<AnimeValues, ListError>)
        ensures
            match r {
                Ok(v) => spec_anime_values_decodable(xml@) && spec_anime_values_from(xml@, v),
                Err(err) => !spec_anime_values_decodable(xml@) && spec_anime_values_err(xml@, err),
            },
    {
        let watched_episodes = match child_u32(xml, "my_watched_episodes") {
            Ok(v) => v,
            Err(e) => return Err(e),
        };
        let start_date = match child_date(xml, "my_start_date") {
            Ok(v) => v,
            Err(e) => return Err(e),
        };
        let finish_date = match child_date(xml, "my_finish_date") {
            Ok(v) => v,
            Err(e) => return Err(e),
        };
        let status = match child_status(xml, "my_status") {
            Ok(v) => v,
            Err(e) => return Err(e),
        };
        let score = match child_u8(xml, "my_score") {
            Ok(v) => v,
            Err(e) => return Err(e),
        };
        let rewatching = child_flag_lenient(xml, "my_rewatching");
        let tags_text = match child_string(xml, "my_tags") {
            Ok(v) => v,
            Err(e) => return Err(e),
        };
        proof {
            reveal_strlit(",");
        }
        let tags = crate::util::split_into_vec(tags_text.as_str(), ",");
        Ok(
            AnimeValues {
                watched_episodes: ChangeTracker::new(watched_episodes),
                start_date: ChangeTracker::new(start_date),
                finish_date: ChangeTracker::new(finish_date),
                status: ChangeTracker::new(status),
                score: ChangeTracker::new(score),
                rewatching: ChangeTracker::new(rewatching),
                tags: ChangeTracker::new(tags),
            },
        )
    }
}

/// One membership record of a user's anime list: the descriptive snapshot,
/// the time of the last sync, and the user's editable values.
#[derive(Debug)]
pub struct AnimeEntry {
    /// The general series information.
    pub series_info: AnimeInfo,
    /// The last time the entry was synced, as a Unix timestamp.
    pub last_updated_time: i64,
    /// Contains values that can be set / updated on a user's list.
    pub values: AnimeValues,
}

impl PartialEq for AnimeEntry {
    /// Entries are equal exactly when their series records are, which is by
    /// numeric identity.
    fn eq(&self, other: &AnimeEntry) -> bool {
        self.series_info.id == other.series_info.id
    }
}

impl vstd::std_specs::cmp::PartialEqSpecImpl for AnimeEntry {
    open spec fn obeys_eq_spec() -> bool {
        true
    }

    open spec fn eq_spec(&self, other: &AnimeEntry) -> bool {
        self.series_info.id == other.series_info.id
    }
}

/// Whether a list-snapshot element holds a whole entry, well-formed.
pub open spec fn spec_anime_entry_decodable(e: Seq<(Seq<char>, Seq<char>)>) -> bool {
    &&& spec_anime_list_info_decodable(e)
    &&& spec_child_i64_ok(e, "my_last_updated"@)
    &&& spec_anime_values_decodable(e)
}

/// What every part of an entry decoded from a list-snapshot element holds.
pub open spec fn spec_anime_entry_from(e: Seq<(Seq<char>, Seq<char>)>, entry: AnimeEntry) -> bool {
    &&& spec_anime_list_info(e, entry.series_info)
    &&& entry.last_updated_time == signed_text_value(spec_child_text(e, "my_last_updated"@))
    &&& spec_anime_values_from(e, entry.values)
}

/// Which error decoding a whole entry reports, and on what input.
pub open spec fn spec_anime_entry_err(e: Seq<(Seq<char>, Seq<char>)>, err: ListError) -> bool {
    ||| spec_anime_list_info_err(e, err)
    ||| (err matches ListError::MissingXMLNode(n) && n@ == "my_last_updated"@
        && !spec_child_present(e, n@))
    ||| (err matches ListError::XMLConversionFailed(n) && n@ == "my_last_updated"@
        && spec_child_present(e, n@) && !spec_child_i64_ok(e, n@))
    ||| spec_anime_values_err(e, err)
}

impl AnimeEntry {
    /// A fresh, never-synced entry for a series: default values, nothing
    /// marked modified, and the sync time stamped with the time now.
    pub fn new(info: AnimeInfo) -> (r: AnimeEntry)
        ensures
            r.series_info == info,
            r.values.watched_episodes.value == 0,
            r.values.start_date.value is None,
            r.values.finish_date.value is None,
            r.values.status.value == Status::PlanToWatchOrRead,
            r.values.score.value == 0,
            r.values.rewatching.value == false,
            r.values.tags.value@.len() == 0,
            spec_anime_values_clean(r.values),
    {
        AnimeEntry {
            series_info: info,
            last_updated_time: crate::list::current_unix_time(),
            values: AnimeValues::new(),
        }
    }

    /// Decodes one list-snapshot element into a whole entry, with the
    /// index-based enum codecs and the snapshot's `series_*` / `my_*` names.
    pub fn from_xml(xml: &XmlElement) -> (r: Result<AnimeEntry, ListError>)
        ensures
            match r {
                Ok(entry) => spec_anime_entry_decodable(xml@) && spec_anime_entry_from(xml@, entry),
                Err(err) => !spec_anime_entry_decodable(xml@) && spec_anime_entry_err(xml@, err),
            },
    {
        let series_info = match parse_list_info(xml) {
            Ok(v) => v,
            Err(e) => return Err(e),
        };
        let last_updated_time = match child_i64(xml, "my_last_updated") {
            Ok(v) => v,
            Err(e) => return Err(e),
        };
        let values = match AnimeValues::from_xml(xml) {
            Ok(v) => v,
            Err(e) => return Err(e),
        };
        Ok(AnimeEntry { series_info, last_updated_time, values })
    }

    /// Mutable access to the entry's values; the rest of the entry is
    /// untouched.
    pub fn values_mut(&mut self) -> (r: &mut AnimeValues)
        ensures
            *r == old(self).values,
            final(self).values == *final(r),
            final(self).series_info == old(self).series_info,
            final(self).last_updated_time == old(self).last_updated_time,
    {
        &mut self.values
    }

    /// Stamps the last-synced time with the time now; for the orchestrator,
    /// after a confirmed successful write. Everything else is untouched.
    pub fn set_last_updated_time(&mut self)
        ensures
            final(self).series_info == old(self).series_info,
            final(self).values == old(self).values,
    {
        self.last_updated_time = crate::list::current_unix_time();
    }

    /// The stable numeric key used for add / update / delete addressing.
    pub fn id(&self) -> (r: u32)
        ensures
            r == self.series_info.id,
    {
        self.series_info.id
    }

    /// The category this record belongs to.
    pub fn list_type() -> (r: ListType)
        ensures
            r == ListType::Anime,
    {
        ListType::Anime
    }
}

/// Aggregate statistics about a user's anime list, the leading element of
/// every list snapshot.
#[derive(Debug)]
pub struct AnimeUserInfo {
    /// The user's ID.
    pub user_id: u32,
    /// The number of anime being watched.
    pub watching: u32,
    /// The number of anime that have been completed.
    pub completed: u32,
    /// The number of anime on hold.
    pub on_hold: u32,
    /// The number of anime dropped.
    pub dropped: u32,
    /// The number of anime that are planning to be watched.
    pub plan_to_watch: u32,
    /// The total days spent watching, as the service sent it: the service
    /// reports a fractional number, which this library checks for numeric
    /// shape and then carries as raw text.
    pub days_spent_watching: String,
}

/// Whether a statistics element holds every field, well-formed.
pub open spec fn spec_anime_user_info_decodable(e: Seq<(Seq<char>, Seq<char>)>) -> bool {
    &&& spec_child_unsigned_ok(e, "user_id"@, u32::MAX as nat)
    &&& spec_child_unsigned_ok(e, "user_watching"@, u32::MAX as nat)
    &&& spec_child_unsigned_ok(e, "user_completed"@, u32::MAX as nat)
    &&& spec_child_unsigned_ok(e, "user_onhold"@, u32::MAX as nat)
    &&& spec_child_unsigned_ok(e, "user_dropped"@, u32::MAX as nat)
    &&& spec_child_unsigned_ok(e, "user_plantowatch"@, u32::MAX as nat)
    &&& spec_child_decimal_ok(e, "user_days_spent_watching"@)
}

/// What every field of decoded statistics holds.
pub open spec fn spec_anime_user_info_from(
    e: Seq<(Seq<char>, Seq<char>)>,
    info: AnimeUserInfo,
) -> bool {
    &&& info.user_id == spec_child_unsigned_val(e, "user_id"@)
    &&& info.watching == spec_child_unsigned_val(e, "user_watching"@)
    &&& info.completed == spec_child_unsigned_val(e, "user_completed"@)
    &&& info.on_hold == spec_child_unsigned_val(e, "user_onhold"@)
    &&& info.dropped == spec_child_unsigned_val(e, "user_dropped"@)
    &&& info.plan_to_watch == spec_child_unsigned_val(e, "user_plantowatch"@)
    &&& info.days_spent_watching@ == spec_child_text(e, "user_days_spent_watching"@)
}

/// Which error decoding statistics reports, and on what input.
pub open spec fn spec_anime_user_info_err(e: Seq<(Seq<char>, Seq<char>)>, err: ListError) -> bool {
    match err {
        ListError::MissingXMLNode(n) => !spec_child_present(e, n@) && (n@ == "user_id"@ || n@
            == "user_watching"@ || n@ == "user_completed"@ || n@ == "user_onhold"@ || n@
            == "user_dropped"@ || n@ == "user_plantowatch"@ || n@ == "user_days_spent_watching"@),
        ListError::XMLConversionFailed(n) => spec_child_present(e, n@) && {
            ||| (!spec_child_unsigned_ok(e, n@, u32::MAX as nat) && (n@ == "user_id"@ || n@
                == "user_watching"@ || n@ == "user_completed"@ || n@ == "user_onhold"@ || n@
                == "user_dropped"@ || n@ == "user_plantowatch"@))
            ||| (n@ == "user_days_spent_watching"@ && !is_decimal_fraction_text(
                spec_child_text(e, n@),
            ))
        },
        _ => false,
    }
}

impl AnimeUserInfo {
    /// Decodes the leading statistics element of an anime list snapshot.
    pub fn from_xml(xml: &XmlElement) -> (r: Result<AnimeUserInfo, ListError>)
        ensures
            match r {
                Ok(info) => spec_anime_user_info_decodable(xml@) && spec_anime_user_info_from(
                    xml@,
                    info,
                ),
                Err(err) => !spec_anime_user_info_decodable(xml@) && spec_anime_user_info_err(
                    xml@,
                    err,
                ),
            },
    {
        let user_id = match child_u32(xml, "user_id") {
            Ok(v) => v,
            Err(e) => return Err(e),
        };
        let watching = match child_u32(xml, "user_watching") {
            Ok(v) => v,
            Err(e) => return Err(e),
        };
        let completed = match child_u32(xml, "user_completed") {
            Ok(v) => v,
            Err(e) => return Err(e),
        };
        let on_hold = match child_u32(xml, "user_onhold") {
            Ok(v) => v,
            Err(e) => return Err(e),
        };
        let dropped = match child_u32(xml, "user_dropped") {
            Ok(v) => v,
            Err(e) => return Err(e),
        };
        let plan_to_watch = match child_u32(xml, "user_plantowatch") {
            Ok(v) => v,
            Err(e) => return Err(e),
        };
        let days_spent_watching = match child_decimal_text(xml, "user_days_spent_watching") {
            Ok(v) => v,
            Err(e) => return Err(e),
        };
        Ok(
            AnimeUserInfo {
                user_id,
                watching,
                completed,
                on_hold,
                dropped,
                plan_to_watch,
                days_spent_watching,
            },
        )
    }
}

/// Decodes every element of a search response document into series records.
pub fn decode_search_document(doc: &XmlDocument) -> (r: Result<Vec<AnimeInfo>, MALError>)
    ensures
        match r {
            Ok(infos) => infos@.len() == doc@.len() && (forall|i: int|
                0 <= i < doc@.len() ==> spec_anime_search_decodable(#[trigger] doc@[i])
                    && spec_anime_search_info(doc@[i], infos@[i])),
            Err(e) => e matches MALError::List(le) && (exists|i: int|
                0 <= i < doc@.len() && !spec_anime_search_decodable(#[trigger] doc@[i])
                    && spec_anime_search_err(doc@[i], le)),
        },
{
    let n = doc.elements.len();
    let mut out: Vec<AnimeInfo> = Vec::new();
    let mut i: usize = 0;
    while i < n
        invariant
            n == doc.elements@.len(),
            i <= n,
            out@.len() == i,
            forall|j: int| 0 <= j < i ==> spec_anime_search_decodable(#[trigger] doc@[j])
                && spec_anime_search_info(doc@[j], out@[j]),
        decreases n - i,
    {
        proof {
            assert(doc@[i as int] == doc.elements@[i as int]@);
        }
        match AnimeInfo::parse_search_result(&doc.elements[i]) {
            Ok(info) => out.push(info),
            Err(e) => {
                return Err(MALError::List(e));
            },
        }
        i += 1;
    }
    Ok(out)
}

/// Turns a search transport outcome into series records: a body is parsed
/// and decoded; the no-content status means an empty result, not an error;
/// any other failure is passed through.
pub fn search_outcome_to_results(outcome: Result<String, RequestError>) -> (r: Result<
    Vec<AnimeInfo>,
    MALError,
>)
    ensures
        match outcome {
            Ok(text) => match r {
                Ok(infos) => xml_parses(text@) && infos@.len() == xml_document_content(
                    text@,
                ).len() && (forall|i: int|
                    0 <= i < xml_document_content(text@).len() ==> spec_anime_search_decodable(
                        #[trigger] xml_document_content(text@)[i],
                    ) && spec_anime_search_info(xml_document_content(text@)[i], infos@[i])),
                Err(MALError::Minidom(_)) => !xml_parses(text@),
                Err(MALError::List(le)) => xml_parses(text@) && (exists|i: int|
                    0 <= i < xml_document_content(text@).len() && !spec_anime_search_decodable(
                        #[trigger] xml_document_content(text@)[i],
                    ) && spec_anime_search_err(xml_document_content(text@)[i], le)),
                Err(MALError::Request(_)) => false,
            },
            Err(e) => if e matches RequestError::BadResponseCode(c) && c == 204 {
                r matches Ok(infos) && infos@.len() == 0
            } else {
                r matches Err(MALError::Request(e2)) && e2 == e
            },
        },
{
    match outcome {
        Ok(text) => match crate::xml::parse_xml_document(text.as_str()) {
            Ok(doc) => decode_search_document(&doc),
            Err(me) => Err(MALError::Minidom(me)),
        },
        Err(e) => {
            let no_content = match &e {
                RequestError::BadResponseCode(c) => *c == 204,
                _ => false,
            };
            if no_content {
                Ok(Vec::new())
            } else {
                Err(MALError::Request(e))
            }
        },
    }
}

/// Decodes a whole list snapshot: the first element is always the user's
/// aggregate statistics — a document without it is its own failure, not an
/// empty list — and every element after it is one entry.
pub fn decode_list_document(doc: &XmlDocument) -> (r: Result<
    ListEntries<AnimeUserInfo, AnimeEntry>,
    MALError,
>)
    ensures
        match r {
            Ok(le) => {
                &&& doc@.len() >= 1
                &&& spec_anime_user_info_decodable(doc@[0])
                &&& spec_anime_user_info_from(doc@[0], le.user_info)
                &&& le.entries@.len() == doc@.len() - 1
                &&& forall|i: int| 1 <= i < doc@.len() ==> spec_anime_entry_decodable(
                    #[trigger] doc@[i],
                ) && spec_anime_entry_from(doc@[i], le.entries@[i - 1])
            },
            Err(e) => e matches MALError::List(le) && if doc@.len() == 0 {
                le is NoUserInfoFound
            } else {
                ||| (!spec_anime_user_info_decodable(doc@[0]) && spec_anime_user_info_err(
                    doc@[0],
                    le,
                ))
                ||| (exists|i: int| 1 <= i < doc@.len() && !spec_anime_entry_decodable(
                    #[trigger] doc@[i],
                ) && spec_anime_entry_err(doc@[i], le))
            },
        },
{
    let n = doc.elements.len();
    if n == 0 {
        return Err(MALError::List(ListError::NoUserInfoFound));
    }
    proof {
        assert(doc@[0] == doc.elements@[0]@);
    }
    let user_info = match AnimeUserInfo::from_xml(&doc.elements[0]) {
        Ok(v) => v,
        Err(e) => return Err(MALError::List(e)),
    };
    let mut entries: Vec<AnimeEntry> = Vec::new();
    let mut i: usize = 1;
    while i < n
        invariant
            n == doc.elements@.len(),
            1 <= i <= n,
            entries@.len() == i - 1,
            forall|j: int| 1 <= j < i ==> spec_anime_entry_decodable(#[trigger] doc@[j])
                && spec_anime_entry_from(doc@[j], entries@[j - 1]),
        decreases n - i,
    {
        proof {
            assert(doc@[i as int] == doc.elements@[i as int]@);
        }
        match AnimeEntry::from_xml(&doc.elements[i]) {
            Ok(entry) => entries.push(entry),
            Err(e) => {
                return Err(MALError::List(e));
            },
        }
        i += 1;
    }
    Ok(ListEntries { user_info, entries })
}

/// Turns a list-read transport outcome into the decoded snapshot; any
/// transport failure is passed through.
pub fn list_outcome_to_entries(outcome: Result<String, RequestError>) -> (r: Result<
    ListEntries<AnimeUserInfo, AnimeEntry>,
    MALError,
>)
    ensures
        match outcome {
            Ok(text) => match r {
                Ok(le) => {
                    &&& xml_parses(text@)
                    &&& xml_document_content(text@).len() >= 1
                    &&& spec_anime_user_info_decodable(xml_document_content(text@)[0])
                    &&& spec_anime_user_info_from(xml_document_content(text@)[0], le.user_info)
                    &&& le.entries@.len() == xml_document_content(text@).len() - 1
                    &&& forall|i: int| 1 <= i < xml_document_content(text@).len()
                        ==> spec_anime_entry_decodable(#[trigger] xml_document_content(text@)[i])
                            && spec_anime_entry_from(
                            xml_document_content(text@)[i],
                            le.entries@[i - 1],
                        )
                },
                Err(MALError::Minidom(_)) => !xml_parses(text@),
                Err(MALError::List(le)) => xml_parses(text@) && if xml_document_content(
                    text@,
                ).len() == 0 {
                    le is NoUserInfoFound
                } else {
                    ||| (!spec_anime_user_info_decodable(xml_document_content(text@)[0])
                        && spec_anime_user_info_err(xml_document_content(text@)[0], le))
                    ||| (exists|i: int| 1 <= i < xml_document_content(text@).len()
                        && !spec_anime_entry_decodable(#[trigger] xml_document_content(text@)[i])
                        && spec_anime_entry_err(xml_document_content(text@)[i], le))
                },
                Err(MALError::Request(_)) => false,
            },
            Err(e) => r matches Err(MALError::Request(e2)) && e2 == e,
        },
{
    match outcome {
        Ok(text) => match crate::xml::parse_xml_document(text.as_str()) {
            Ok(doc) => decode_list_document(&doc),
            Err(me) => Err(MALError::Minidom(me)),
        },
        Err(e) => Err(MALError::Request(e)),
    }
}

/// Settles an add or update against the transport's answer: only a
/// confirmed success clears the modified flags; on any failure the values
/// are left completely untouched, so the caller can safely retry.
pub fn apply_sync_outcome(values: &mut AnimeValues, outcome: Result<(), RequestError>) -> (r:
    Result<(), MALError>)
    ensures
        match outcome {
            Ok(_) => *final(values) == spec_anime_values_reset(*old(values)) && r is Ok,
            Err(e) => *final(values) == *old(values) && (r matches Err(MALError::Request(e2)) && e2
                == e),
        },
{
    match outcome {
        Ok(_) => {
            values.reset_changed_fields();
            Ok(())
        },
        Err(e) => Err(MALError::Request(e)),
    }
}

/// Settles an add or update of a whole entry against the transport's
/// answer: only a confirmed success clears the modified flags and stamps
/// the sync time; on any failure the entry is left completely untouched.
pub fn apply_entry_sync_outcome(entry: &mut AnimeEntry, outcome: Result<(), RequestError>) -> (r:
    Result<(), MALError>)
    ensures
        match outcome {
            Ok(_) => final(entry).values == spec_anime_values_reset(old(entry).values)
                && final(entry).series_info == old(entry).series_info && r is Ok,
            Err(e) => *final(entry) == *old(entry) && (r matches Err(MALError::Request(e2)) && e2
                == e),
        },
{
    match outcome {
        Ok(_) => {
            entry.values.reset_changed_fields();
            entry.set_last_updated_time();
            Ok(())
        },
        Err(e) => Err(MALError::Request(e)),
    }
}

} // verus!
