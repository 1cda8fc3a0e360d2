//! Manga-list data structures and codecs: the per-category enums with their
//! two wire codecs, the descriptive series record, the list entry, and the
//! change-tracked user values with their write-body emitter.

use vstd::prelude::*;
use crate::date::{Date, spec_date_wire};
use crate::list::{
    ListEntries, ChangeTracker, Status, spec_status_index, spec_status_from_index, child_date,
    child_decimal_text, child_i32, child_i64, child_flag_lenient, child_status, child_string,
    child_u32, child_u8, spec_child_decimal_ok, spec_child_flag, spec_child_i32_ok,
    spec_child_i32_val, spec_child_i64_ok,
    spec_child_present, spec_child_text, spec_child_unsigned_ok, spec_child_unsigned_val,
    spec_date_of_text,
};
use crate::request::ListType;
use crate::text::{
    concat_delim, dec_str, is_decimal_fraction_text, lower_seq, seq_views, split_seq,
    trim_empty_edges, u32_to_string, u64_to_string, ascii_lower, str_eq, push_char,
    signed_text_value,
};
use crate::xml::{
    XmlChild, XmlDocument, XmlElement, children_views, entry_render_ok, has_tag,
    lemma_children_views_push, lemma_has_tag_concat, xml_document_content, xml_entry_rendering,
    xml_parses,
};
use crate::error::{ListError, MALError, RequestError};

verus! {

broadcast use vstd::string::group_string_axioms;

/// The kind of a manga series. Unlike the anime family, zero is not a valid
/// wire index here.
#[derive(Debug, Copy, Clone, PartialEq, Eq, Structural)]
pub enum MangaType {
    /// A traditional manga series.
    Manga,
    /// A type of manga that usually has less than 500 pages and few
    /// illustrations.
    Novel,
    /// A manga series with a single chapter.
    OneShot,
    /// A South Korean manga series.
    Manhwa,
    /// A Chinese / Taiwanese manga series.
    Manhua,
}

/// The wire index of a manga type.
pub open spec fn spec_manga_type_index(t: MangaType) -> int {
    match t {
        MangaType::Manga => 1,
        MangaType::Novel => 2,
        MangaType::OneShot => 3,
        MangaType::Manhwa => 4,
        MangaType::Manhua => 5,
    }
}

/// The manga type a wire index denotes, if any.
pub open spec fn spec_manga_type_from_index(value: int) -> Option<MangaType> {
    if value == 1 {
        Some(MangaType::Manga)
    } else if value == 2 {
        Some(MangaType::Novel)
    } else if value == 3 {
        Some(MangaType::OneShot)
    } else if value == 4 {
        Some(MangaType::Manhwa)
    } else if value == 5 {
        Some(MangaType::Manhua)
    } else {
        None
    }
}

/// The manga type a lowercased search label denotes, if any.
pub open spec fn spec_manga_type_from_label(t: Seq<char>) -> Option<MangaType> {
    if t == "manga"@ {
        Some(MangaType::Manga)
    } else if t == "novel"@ {
        Some(MangaType::Novel)
    } else if t == "one-shot"@ {
        Some(MangaType::OneShot)
    } else if t == "manhwa"@ {
        Some(MangaType::Manhwa)
    } else if t == "manhua"@ {
        Some(MangaType::Manhua)
    } else {
        None
    }
}

impl MangaType {
    /// Decodes the wire index of a manga type, as list snapshots carry it.
    pub fn from_i32(value: i32) -> (r: Option<MangaType>)
        ensures
            r == spec_manga_type_from_index(value as int),
    {
        match value {
            1 => Some(MangaType::Manga),
            2 => Some(MangaType::Novel),
            3 => Some(MangaType::OneShot),
            4 => Some(MangaType::Manhwa),
            5 => Some(MangaType::Manhua),
            _ => None,
        }
    }

    /// Decodes the free-text label of a manga type, as search results carry
    /// it; matching is case-insensitive.
    pub fn from_str(input: &str) -> (r: Option<MangaType>)
        ensures
            r == spec_manga_type_from_label(lower_seq(input@)),
    {
        let lowered = ascii_lower(input);
        let l = lowered.as_str();
        if str_eq(l, "manga") {
            Some(MangaType::Manga)
        } else if str_eq(l, "novel") {
            Some(MangaType::Novel)
        } else if str_eq(l, "one-shot") {
            Some(MangaType::OneShot)
        } else if str_eq(l, "manhwa") {
            Some(MangaType::Manhwa)
        } else if str_eq(l, "manhua") {
            Some(MangaType::Manhua)
        } else {
            None
        }
    }

    /// Encodes a manga type as its wire index.
    pub fn to_index(&self) -> (r: i32)
        ensures
            r == spec_manga_type_index(*self),
    {
        match *self {
            MangaType::Manga => 1,
            MangaType::Novel => 2,
            MangaType::OneShot => 3,
            MangaType::Manhwa => 4,
            MangaType::Manhua => 5,
        }
    }
}

/// Decoding a manga type's own wire index yields the type back, for every
/// member.
pub proof fn lemma_manga_type_index_round_trip(t: MangaType)
    ensures
        spec_manga_type_from_index(spec_manga_type_index(t)) == Some(t),
{
}

/// The publishing status of a manga series.
#[derive(Debug, Copy, Clone, PartialEq, Eq, Structural)]
pub enum PublishingStatus {
    /// A manga that is currently publishing.
    Publishing,
    /// A manga series that has finished publishing.
    Finished,
    /// A manga series that hasn't begun being published yet.
    NotYetPublished,
}

/// The wire index of a publishing status.
pub open spec fn spec_publishing_status_index(s: PublishingStatus) -> int {
    match s {
        PublishingStatus::Publishing => 1,
        PublishingStatus::Finished => 2,
        PublishingStatus::NotYetPublished => 3,
    }
}

/// The publishing status a wire index denotes, if any.
pub open spec fn spec_publishing_status_from_index(value: int) -> Option<PublishingStatus> {
    if value == 1 {
        Some(PublishingStatus::Publishing)
    } else if value == 2 {
        Some(PublishingStatus::Finished)
    } else if value == 3 {
        Some(PublishingStatus::NotYetPublished)
    } else {
        None
    }
}

/// The publishing status a lowercased search label denotes, if any.
pub open spec fn spec_publishing_status_from_label(t: Seq<char>) -> Option<PublishingStatus> {
    if t == "publishing"@ {
        Some(PublishingStatus::Publishing)
    } else if t == "finished"@ {
        Some(PublishingStatus::Finished)
    } else if t == "not yet published"@ {
        Some(PublishingStatus::NotYetPublished)
    } else {
        None
    }
}

impl PublishingStatus {
    /// Decodes the wire index of a publishing status, as list snapshots
    /// carry it.
    pub fn from_i32(value: i32) -> (r: Option<PublishingStatus>)
        ensures
            r == spec_publishing_status_from_index(value as int),
    {
        match value {
            1 => Some(PublishingStatus::Publishing),
            2 => Some(PublishingStatus::Finished),
            3 => Some(PublishingStatus::NotYetPublished),
            _ => None,
        }
    }

    /// Decodes the free-text label of a publishing status, as search results
    /// carry it; matching is case-insensitive.
    pub fn from_str(input: &str) -> (r: Option<PublishingStatus>)
        ensures
            r == spec_publishing_status_from_label(lower_seq(input@)),
    {
        let lowered = ascii_lower(input);
        let l = lowered.as_str();
        if str_eq(l, "publishing") {
            Some(PublishingStatus::Publishing)
        } else if str_eq(l, "finished") {
            Some(PublishingStatus::Finished)
        } else if str_eq(l, "not yet published") {
            Some(PublishingStatus::NotYetPublished)
        } else {
            None
        }
    }

    /// Encodes a publishing status as its wire index.
    pub fn to_index(&self) -> (r: i32)
        ensures
            r == spec_publishing_status_index(*self),
    {
        match *self {
            PublishingStatus::Publishing => 1,
            PublishingStatus::Finished => 2,
            PublishingStatus::NotYetPublished => 3,
        }
    }
}

/// Decoding a publishing status's own wire index yields the status back,
/// for every member.
pub proof fn lemma_publishing_status_index_round_trip(s: PublishingStatus)
    ensures
        spec_publishing_status_from_index(spec_publishing_status_index(s)) == Some(s),
{
}

/// The user-editable values of one manga list entry, each field tracking
/// whether the caller has set it since the last successful sync.
#[derive(Debug)]
pub struct MangaValues {
    pub chapter: ChangeTracker<u32>,
    pub volume: ChangeTracker<u32>,
    pub status: ChangeTracker<Status>,
    pub score: ChangeTracker<u8>,
    pub start_date: ChangeTracker<Option<Date>>,
    pub finish_date: ChangeTracker<Option<Date>>,
    pub rereading: ChangeTracker<bool>,
    pub tags: ChangeTracker<Vec<String>>,
}

/// Whether no field of the values is marked modified.
pub open spec fn spec_manga_values_clean(v: MangaValues) -> bool {
    &&& !v.chapter.changed
    &&& !v.volume.changed
    &&& !v.status.changed
    &&& !v.score.changed
    &&& !v.start_date.changed
    &&& !v.finish_date.changed
    &&& !v.rereading.changed
    &&& !v.tags.changed
}

impl MangaValues {
    /// Fresh values for a never-synced entry: zero progress, no dates, the
    /// planning status, no score, not rereading, no tags — and nothing
    /// marked modified.
    pub fn new() -> (r: MangaValues)
        ensures
            r.chapter.value == 0,
            r.volume.value == 0,
            r.status.value == Status::PlanToWatchOrRead,
            r.score.value == 0,
            r.start_date.value is None,
            r.finish_date.value is None,
            r.rereading.value == false,
            r.tags.value@.len() == 0,
            spec_manga_values_clean(r),
    {
        MangaValues {
            chapter: ChangeTracker::new(0),
            volume: ChangeTracker::new(0),
            status: ChangeTracker::new(Status::PlanToWatchOrRead),
            score: ChangeTracker::new(0),
            start_date: ChangeTracker::new(None),
            finish_date: ChangeTracker::new(None),
            rereading: ChangeTracker::new(false),
            tags: ChangeTracker::new(Vec::new()),
        }
    }

    /// Returns the number of read chapters.
    pub fn chapter(&self) -> (r: u32)
        ensures
            r == self.chapter.value,
    {
        self.chapter.value
    }

    /// Sets the number of read chapters.
    pub fn set_read_chapters(&mut self, chapter: u32) -> (r: &mut MangaValues)
        ensures
            *r == (MangaValues {
                chapter: ChangeTracker { value: chapter, changed: true },
                ..*old(self)
            }),
            *final(self) == *final(r),
    {
        self.chapter.set(chapter);
        self
    }

    /// Returns the number of read volumes.
    pub fn volume(&self) -> (r: u32)
        ensures
            r == self.volume.value,
    {
        self.volume.value
    }

    /// Sets the number of read volumes.
    pub fn set_read_volumes(&mut self, volume: u32) -> (r: &mut MangaValues)
        ensures
            *r == (MangaValues {
                volume: ChangeTracker { value: volume, changed: true },
                ..*old(self)
            }),
            *final(self) == *final(r),
    {
        self.volume.set(volume);
        self
    }

    /// Returns the current reading status of the series.
    pub fn status(&self) -> (r: Status)
        ensures
            r == self.status.value,
    {
        self.status.value
    }

    /// Sets the current reading status of the series.
    pub fn set_status(&mut self, status: Status) -> (r: &mut MangaValues)
        ensures
            *r == (MangaValues {
                status: ChangeTracker { value: status, changed: true },
                ..*old(self)
            }),
            *final(self) == *final(r),
    {
        self.status.set(status);
        self
    }

    /// Returns the user's rating of the series.
    pub fn score(&self) -> (r: u8)
        ensures
            r == self.score.value,
    {
        self.score.value
    }

    /// Sets the user's rating of the series.
    pub fn set_score(&mut self, score: u8) -> (r: &mut MangaValues)
        ensures
            *r == (MangaValues { score: ChangeTracker { value: score, changed: true }, ..*old(self) }),
            *final(self) == *final(r),
    {
        self.score.set(score);
        self
    }

    /// Returns the date the user started reading the series.
    pub fn start_date(&self) -> (r: Option<Date>)
        ensures
            r == self.start_date.value,
    {
        self.start_date.value
    }

    /// Sets the date the user started reading the series.
    pub fn set_start_date(&mut self, start_date: Option<Date>) -> (r: &mut MangaValues)
        ensures
            *r == (MangaValues {
                start_date: ChangeTracker { value: start_date, changed: true },
                ..*old(self)
            }),
            *final(self) == *final(r),
    {
        self.start_date.set(start_date);
        self
    }

    /// Returns the date the user finished reading the series.
    pub fn finish_date(&self) -> (r: Option<Date>)
        ensures
            r == self.finish_date.value,
    {
        self.finish_date.value
    }

    /// Sets the date the user finished reading the series.
    pub fn set_finish_date(&mut self, finish_date: Option<Date>) -> (r: &mut MangaValues)
        ensures
            *r == (MangaValues {
                finish_date: ChangeTracker { value: finish_date, changed: true },
                ..*old(self)
            }),
            *final(self) == *final(r),
    {
        self.finish_date.set(finish_date);
        self
    }

    /// Returns the current re-reading status of the series.
    pub fn rereading(&self) -> (r: bool)
        ensures
            r == self.rereading.value,
    {
        self.rereading.value
    }

    /// Sets the current re-reading status of the series.
    pub fn set_rereading(&mut self, rereading: bool) -> (r: &mut MangaValues)
        ensures
            *r == (MangaValues {
                rereading: ChangeTracker { value: rereading, changed: true },
                ..*old(self)
            }),
            *final(self) == *final(r),
    {
        self.rereading.set(rereading);
        self
    }

    /// Returns the tags the user has set for the manga.
    pub fn tags(&self) -> (r: &Vec<String>)
        ensures
            r == self.tags.value,
    {
        &self.tags.value
    }

    /// Returns mutable access to the tags. Whoever asks for this is assumed
    /// to intend mutation, so the field is marked modified at acquisition —
    /// over-reporting is acceptable, failing to transmit a real edit is not.
    pub fn tags_mut(&mut self) -> (r: &mut Vec<String>)
        ensures
            *r == old(self).tags.value,
            final(self).tags.value == *final(r),
            final(self).tags.changed,
            final(self).chapter == old(self).chapter,
            final(self).volume == old(self).volume,
            final(self).status == old(self).status,
            final(self).score == old(self).score,
            final(self).start_date == old(self).start_date,
            final(self).finish_date == old(self).finish_date,
            final(self).rereading == old(self).rereading,
    {
        self.tags.get_mut()
    }

    /// Clears every modified flag, keeping every value; for the
    /// orchestrator, after a confirmed successful write.
    pub fn reset_changed_fields(&mut self)
        ensures
            *final(self) == spec_manga_values_reset(*old(self)),
    {
        self.chapter.reset();
        self.volume.reset();
        self.status.reset();
        self.score.reset();
        self.start_date.reset();
        self.finish_date.reset();
        self.rereading.reset();
        self.tags.reset();
    }
}

impl Default for MangaValues {
    /// The same values as [`MangaValues::new`].
    fn default() -> (r: MangaValues)
        ensures
            r.chapter.value == 0,
            r.volume.value == 0,
            r.status.value == Status::PlanToWatchOrRead,
            r.score.value == 0,
            r.start_date.value is None,
            r.finish_date.value is None,
            r.rereading.value == false,
            r.tags.value@.len() == 0,
            spec_manga_values_clean(r),
    {
        MangaValues::new()
    }
}

/// The values with every modified flag cleared and every value kept.
pub open spec fn spec_manga_values_reset(v: MangaValues) -> MangaValues {
    MangaValues {
        chapter: ChangeTracker { value: v.chapter.value, changed: false },
        volume: ChangeTracker { value: v.volume.value, changed: false },
        status: ChangeTracker { value: v.status.value, changed: false },
        score: ChangeTracker { value: v.score.value, changed: false },
        start_date: ChangeTracker { value: v.start_date.value, changed: false },
        finish_date: ChangeTracker { value: v.finish_date.value, changed: false },
        rereading: ChangeTracker { value: v.rereading.value, changed: false },
        tags: ChangeTracker { value: v.tags.value, changed: false },
    }
}

/// The write-body children of the values: one child per modified field, in
/// the fixed wire order, each rendered by its own field formatter; fields
/// not marked modified are omitted entirely.
pub open spec fn spec_manga_dirty_children(v: MangaValues) -> Seq<(Seq<char>, Seq<char>)> {
    crate::list::anime::opt_child(v.chapter.changed, "chapter"@, dec_str(v.chapter.value as nat))
        + crate::list::anime::opt_child(v.volume.changed, "volume"@, dec_str(v.volume.value as nat))
        + crate::list::anime::opt_child(
        v.status.changed,
        "status"@,
        dec_str(spec_status_index(v.status.value) as nat),
    ) + crate::list::anime::opt_child(v.score.changed, "score"@, dec_str(v.score.value as nat))
        + crate::list::anime::opt_child(
        v.start_date.changed,
        "date_start"@,
        spec_date_wire(v.start_date.value),
    ) + crate::list::anime::opt_child(
        v.finish_date.changed,
        "date_finish"@,
        spec_date_wire(v.finish_date.value),
    ) + crate::list::anime::opt_child(
        v.rereading.changed,
        "enable_rereading"@,
        crate::list::anime::spec_flag_text(v.rereading.value),
    ) + crate::list::anime::opt_child(
        v.tags.changed,
        "tags"@,
        concat_delim(seq_views(v.tags.value@), ','),
    )
}

impl MangaValues {
    /// Builds the write-body children: exactly one child per modified field,
    /// in the fixed wire order.
    #[verifier::rlimit(100)]
    #[verifier::spinoff_prover]
    pub fn dirty_children(&self) -> (r: Vec<XmlChild>)
        ensures
            children_views(r@) == spec_manga_dirty_children(*self),
    {
        let mut out: Vec<XmlChild> = Vec::new();
        let ghost s0 = Seq::<(Seq<char>, Seq<char>)>::empty();
        proof {
            assert(children_views(out@) =~= s0);
        }
        if self.chapter.dirty() {
            let child = XmlChild {
                name: String::from_str("chapter"),
                text: u32_to_string(self.chapter.value),
            };
            let ghost before = out@;
            let ghost gc = child;
            out.push(child);
            proof {
                lemma_children_views_push(before, gc);
            }
        }
        let ghost s1 = s0 + crate::list::anime::opt_child(
            self.chapter.changed,
            "chapter"@,
            dec_str(self.chapter.value as nat),
        );
        proof {
            if self.chapter.changed {
                assert(children_views(out@) =~= s1);
            } else {
                assert(children_views(out@) =~= s1);
            }
        }
        if self.volume.dirty() {
            let child = XmlChild {
                name: String::from_str("volume"),
                text: u32_to_string(self.volume.value),
            };
            let ghost before = out@;
            let ghost gc = child;
            out.push(child);
            proof {
                lemma_children_views_push(before, gc);
            }
        }
        let ghost s2 = s1 + crate::list::anime::opt_child(
            self.volume.changed,
            "volume"@,
            dec_str(self.volume.value as nat),
        );
        proof {
            if self.volume.changed {
                assert(children_views(out@) =~= s2);
            } else {
                assert(children_views(out@) =~= s2);
            }
        }
        if self.status.dirty() {
            let idx = self.status.value.to_index();
            let child = XmlChild {
                name: String::from_str("status"),
                text: u64_to_string(idx as u64),
            };
            let ghost before = out@;
            let ghost gc = child;
            out.push(child);
            proof {
                lemma_children_views_push(before, gc);
            }
        }
        let ghost s3 = s2 + crate::list::anime::opt_child(
            self.status.changed,
            "status"@,
            dec_str(spec_status_index(self.status.value) as nat),
        );
        proof {
            if self.status.changed {
                assert(children_views(out@) =~= s3);
            } else {
                assert(children_views(out@) =~= s3);
            }
        }
        if self.score.dirty() {
            let child = XmlChild {
                name: String::from_str("score"),
                text: u64_to_string(self.score.value as u64),
            };
            let ghost before = out@;
            let ghost gc = child;
            out.push(child);
            proof {
                lemma_children_views_push(before, gc);
            }
        }
        let ghost s4 = s3 + crate::list::anime::opt_child(
            self.score.changed,
            "score"@,
            dec_str(self.score.value as nat),
        );
        proof {
            if self.score.changed {
                assert(children_views(out@) =~= s4);
            } else {
                assert(children_views(out@) =~= s4);
            }
        }
        if self.start_date.dirty() {
            let child = XmlChild {
                name: String::from_str("date_start"),
                text: crate::util::date_to_str(self.start_date.value),
            };
            let ghost before = out@;
            let ghost gc = child;
            out.push(child);
            proof {
                lemma_children_views_push(before, gc);
            }
        }
        let ghost s5 = s4 + crate::list::anime::opt_child(
            self.start_date.changed,
            "date_start"@,
            spec_date_wire(self.start_date.value),
        );
        proof {
            if self.start_date.changed {
                assert(children_views(out@) =~= s5);
            } else {
                assert(children_views(out@) =~= s5);
            }
        }
        if self.finish_date.dirty() {
            let child = XmlChild {
                name: String::from_str("date_finish"),
                text: crate::util::date_to_str(self.finish_date.value),
            };
            let ghost before = out@;
            let ghost gc = child;
            out.push(child);
            proof {
                lemma_children_views_push(before, gc);
            }
        }
        let ghost s6 = s5 + crate::list::anime::opt_child(
            self.finish_date.changed,
            "date_finish"@,
            spec_date_wire(self.finish_date.value),
        );
        proof {
            if self.finish_date.changed {
                assert(children_views(out@) =~= s6);
            } else {
                assert(children_views(out@) =~= s6);
            }
        }
        if self.rereading.dirty() {
            let mut flag = String::new();
            push_char(&mut flag, if self.rereading.value { '1' } else { '0' });
            proof {
                assert(flag@ =~= crate::list::anime::spec_flag_text(self.rereading.value));
            }
            let child = XmlChild { name: String::from_str("enable_rereading"), text: flag };
            let ghost before = out@;
            let ghost gc = child;
            out.push(child);
            proof {
                lemma_children_views_push(before, gc);
            }
        }
        let ghost s7 = s6 + crate::list::anime::opt_child(
            self.rereading.changed,
            "enable_rereading"@,
            crate::list::anime::spec_flag_text(self.rereading.value),
        );
        proof {
            if self.rereading.changed {
                assert(children_views(out@) =~= s7);
            } else {
                assert(children_views(out@) =~= s7);
            }
        }
        if self.tags.dirty() {
            let child = XmlChild {
                name: String::from_str("tags"),
                text: crate::text::join_with_delim(self.tags.value.as_slice(), ','),
            };
            let ghost before = out@;
            let ghost gc = child;
            out.push(child);
            proof {
                lemma_children_views_push(before, gc);
            }
        }
        let ghost s8 = s7 + crate::list::anime::opt_child(
            self.tags.changed,
            "tags"@,
            concat_delim(seq_views(self.tags.value@), ','),
        );
        proof {
            if self.tags.changed {
                assert(children_views(out@) =~= s8);
            } else {
                assert(children_views(out@) =~= s8);
            }
            assert(s8 =~= spec_manga_dirty_children(*self));
        }
        out
    }

    /// Serializes the modified fields as the write body: one `entry`
    /// element whose children are exactly the modified fields. Whether
    /// serialization succeeds, like its rendering, depends on the modified
    /// fields alone.
    pub fn generate_xml(&self) -> (r: Result<String, ListError>)
        ensures
            r is Ok == entry_render_ok(spec_manga_dirty_children(*self)),
            r matches Ok(s) ==> s@ == xml_entry_rendering(spec_manga_dirty_children(*self)),
    {
        let children = self.dirty_children();
        crate::xml::render_entry_element(&children)
    }
}

/// Whether a tag is one of the write-body tags of manga values.
pub open spec fn is_manga_wire_tag(t: Seq<char>) -> bool {
    ||| t == "chapter"@
    ||| t == "volume"@
    ||| t == "status"@
    ||| t == "score"@
    ||| t == "date_start"@
    ||| t == "date_finish"@
    ||| t == "enable_rereading"@
    ||| t == "tags"@
}

/// Which tags the write body holds, for any tag: a field's own tag occurs
/// exactly when that field is marked modified.
pub proof fn lemma_manga_has_tag(v: MangaValues, t: Seq<char>)
    ensures
        has_tag(spec_manga_dirty_children(v), t) == {
            ||| (v.chapter.changed && t == "chapter"@)
            ||| (v.volume.changed && t == "volume"@)
            ||| (v.status.changed && t == "status"@)
            ||| (v.score.changed && t == "score"@)
            ||| (v.start_date.changed && t == "date_start"@)
            ||| (v.finish_date.changed && t == "date_finish"@)
            ||| (v.rereading.changed && t == "enable_rereading"@)
            ||| (v.tags.changed && t == "tags"@)
        },
{
    let c1 = crate::list::anime::opt_child(
        v.chapter.changed,
        "chapter"@,
        dec_str(v.chapter.value as nat),
    );
    let c2 = crate::list::anime::opt_child(
        v.volume.changed,
        "volume"@,
        dec_str(v.volume.value as nat),
    );
    let c3 = crate::list::anime::opt_child(
        v.status.changed,
        "status"@,
        dec_str(spec_status_index(v.status.value) as nat),
    );
    let c4 = crate::list::anime::opt_child(v.score.changed, "score"@, dec_str(v.score.value as nat));
    let c5 = crate::list::anime::opt_child(
        v.start_date.changed,
        "date_start"@,
        spec_date_wire(v.start_date.value),
    );
    let c6 = crate::list::anime::opt_child(
        v.finish_date.changed,
        "date_finish"@,
        spec_date_wire(v.finish_date.value),
    );
    let c7 = crate::list::anime::opt_child(
        v.rereading.changed,
        "enable_rereading"@,
        crate::list::anime::spec_flag_text(v.rereading.value),
    );
    let c8 = crate::list::anime::opt_child(
        v.tags.changed,
        "tags"@,
        concat_delim(seq_views(v.tags.value@), ','),
    );
    crate::list::anime::lemma_opt_child_has_tag(
        v.chapter.changed,
        "chapter"@,
        dec_str(v.chapter.value as nat),
        t,
    );
    crate::list::anime::lemma_opt_child_has_tag(
        v.volume.changed,
        "volume"@,
        dec_str(v.volume.value as nat),
        t,
    );
    crate::list::anime::lemma_opt_child_has_tag(
        v.status.changed,
        "status"@,
        dec_str(spec_status_index(v.status.value) as nat),
        t,
    );
    crate::list::anime::lemma_opt_child_has_tag(
        v.score.changed,
        "score"@,
        dec_str(v.score.value as nat),
        t,
    );
    crate::list::anime::lemma_opt_child_has_tag(
        v.start_date.changed,
        "date_start"@,
        spec_date_wire(v.start_date.value),
        t,
    );
    crate::list::anime::lemma_opt_child_has_tag(
        v.finish_date.changed,
        "date_finish"@,
        spec_date_wire(v.finish_date.value),
        t,
    );
    crate::list::anime::lemma_opt_child_has_tag(
        v.rereading.changed,
        "enable_rereading"@,
        crate::list::anime::spec_flag_text(v.rereading.value),
        t,
    );
    crate::list::anime::lemma_opt_child_has_tag(
        v.tags.changed,
        "tags"@,
        concat_delim(seq_views(v.tags.value@), ','),
        t,
    );
    lemma_has_tag_concat(c1, c2, t);
    lemma_has_tag_concat(c1 + c2, c3, t);
    lemma_has_tag_concat(c1 + c2 + c3, c4, t);
    lemma_has_tag_concat(c1 + c2 + c3 + c4, c5, t);
    lemma_has_tag_concat(c1 + c2 + c3 + c4 + c5, c6, t);
    lemma_has_tag_concat(c1 + c2 + c3 + c4 + c5 + c6, c7, t);
    lemma_has_tag_concat(c1 + c2 + c3 + c4 + c5 + c6 + c7, c8, t);
}

/// The write body holds exactly the tags of the modified fields: each
/// field's tag occurs if and only if that field is marked modified, and no
/// other tag occurs at all.
pub proof fn lemma_manga_dirty_children_exact(v: MangaValues)
    ensures
        has_tag(spec_manga_dirty_children(v), "chapter"@) == v.chapter.changed,
        has_tag(spec_manga_dirty_children(v), "volume"@) == v.volume.changed,
        has_tag(spec_manga_dirty_children(v), "status"@) == v.status.changed,
        has_tag(spec_manga_dirty_children(v), "score"@) == v.score.changed,
        has_tag(spec_manga_dirty_children(v), "date_start"@) == v.start_date.changed,
        has_tag(spec_manga_dirty_children(v), "date_finish"@) == v.finish_date.changed,
        has_tag(spec_manga_dirty_children(v), "enable_rereading"@) == v.rereading.changed,
        has_tag(spec_manga_dirty_children(v), "tags"@) == v.tags.changed,
        forall|t: Seq<char>| #[trigger] has_tag(spec_manga_dirty_children(v), t)
            ==> is_manga_wire_tag(t),
{
    reveal_strlit("chapter");
    reveal_strlit("volume");
    reveal_strlit("status");
    reveal_strlit("score");
    reveal_strlit("date_start");
    reveal_strlit("date_finish");
    reveal_strlit("enable_rereading");
    reveal_strlit("tags");
    assert("chapter"@.len() == 7);
    assert("volume"@.len() == 6);
    assert("status"@.len() == 6);
    assert("score"@.len() == 5);
    assert("date_start"@.len() == 10);
    assert("date_finish"@.len() == 11);
    assert("enable_rereading"@.len() == 16);
    assert("tags"@.len() == 4);
    assert("volume"@[0] == 'v' && "status"@[0] == 's');
    lemma_manga_has_tag(v, "chapter"@);
    lemma_manga_has_tag(v, "volume"@);
    lemma_manga_has_tag(v, "status"@);
    lemma_manga_has_tag(v, "score"@);
    lemma_manga_has_tag(v, "date_start"@);
    lemma_manga_has_tag(v, "date_finish"@);
    lemma_manga_has_tag(v, "enable_rereading"@);
    lemma_manga_has_tag(v, "tags"@);
    assert forall|t: Seq<char>| #[trigger] has_tag(spec_manga_dirty_children(v), t)
        implies is_manga_wire_tag(t) by {
        lemma_manga_has_tag(v, t);
    }
}

/// Server-owned descriptive metadata of a manga series. Replaced wholesale
/// on every read; equality is by numeric identity alone.
#[derive(Debug)]
pub struct MangaInfo {
    /// The ID of the series.
    pub id: u32,
    /// The title of the series.
    pub title: String,
    /// The English title of the series. It is not available on list entries.
    pub english_title: Option<String>,
    /// The alternative titles for the series.
    pub synonyms: Vec<String>,
    /// The number of chapters in the series.
    pub chapters: u32,
    /// The number of volumes in the series.
    pub volumes: u32,
    /// The type of series that this is.
    pub series_type: MangaType,
    /// The current publishing status of the series.
    pub publishing_status: PublishingStatus,
    /// The date the series started publishing.
    pub start_date: Option<Date>,
    /// The date the series finished publishing.
    pub end_date: Option<Date>,
    /// The description of the series. It is not available on list entries,
    /// and it is formatted as HTML.
    pub synopsis: Option<String>,
    /// The URL to the cover image of the series.
    pub image_url: String,
}

impl PartialEq for MangaInfo {
    /// Two records are equal exactly when they name the same series, however
    /// stale the rest of either snapshot is.
    fn eq(&self, other: &MangaInfo) -> bool {
        self.id == other.id
    }
}

impl vstd::std_specs::cmp::PartialEqSpecImpl for MangaInfo {
    open spec fn obeys_eq_spec() -> bool {
        true
    }

    open spec fn eq_spec(&self, other: &MangaInfo) -> bool {
        self.id == other.id
    }
}

/// Whether a search-result element holds every field a [`MangaInfo`] needs,
/// well-formed.
pub open spec fn spec_manga_search_decodable(e: Seq<(Seq<char>, Seq<char>)>) -> bool {
    &&& spec_child_unsigned_ok(e, "id"@, u32::MAX as nat)
    &&& spec_child_present(e, "title"@)
    &&& spec_child_present(e, "english"@)
    &&& spec_child_present(e, "synonyms"@)
    &&& spec_child_unsigned_ok(e, "chapters"@, u32::MAX as nat)
    &&& spec_child_unsigned_ok(e, "volumes"@, u32::MAX as nat)
    &&& spec_child_present(e, "type"@)
    &&& spec_manga_type_from_label(lower_seq(spec_child_text(e, "type"@))) is Some
    &&& spec_child_present(e, "status"@)
    &&& spec_publishing_status_from_label(lower_seq(spec_child_text(e, "status"@))) is Some
    &&& spec_child_present(e, "start_date"@)
    &&& spec_child_present(e, "end_date"@)
    &&& spec_child_present(e, "synopsis"@)
    &&& spec_child_present(e, "image"@)
}

/// What every field of a [`MangaInfo`] decoded from a search-result element
/// holds; an empty English title comes back as its absence.
pub open spec fn spec_manga_search_info(e: Seq<(Seq<char>, Seq<char>)>, info: MangaInfo) -> bool {
    &&& info.id == spec_child_unsigned_val(e, "id"@)
    &&& info.title@ == spec_child_text(e, "title"@)
    &&& (if spec_child_text(e, "english"@).len() == 0 {
        info.english_title is None
    } else {
        info.english_title matches Some(t) && t@ == spec_child_text(e, "english"@)
    })
    &&& seq_views(info.synonyms@) == trim_empty_edges(
        split_seq(spec_child_text(e, "synonyms"@), "; "@),
    )
    &&& info.chapters == spec_child_unsigned_val(e, "chapters"@)
    &&& info.volumes == spec_child_unsigned_val(e, "volumes"@)
    &&& Some(info.series_type) == spec_manga_type_from_label(
        lower_seq(spec_child_text(e, "type"@)),
    )
    &&& Some(info.publishing_status) == spec_publishing_status_from_label(
        lower_seq(spec_child_text(e, "status"@)),
    )
    &&& info.start_date == spec_date_of_text(spec_child_text(e, "start_date"@))
    &&& info.end_date == spec_date_of_text(spec_child_text(e, "end_date"@))
    &&& (info.synopsis matches Some(t) && t@ == spec_child_text(e, "synopsis"@))
    &&& info.image_url@ == spec_child_text(e, "image"@)
}

/// Which error decoding a search-result element reports, and on what input.
pub open spec fn spec_manga_search_err(e: Seq<(Seq<char>, Seq<char>)>, err: ListError) -> bool {
    match err {
        ListError::MissingXMLNode(n) => !spec_child_present(e, n@) && (n@ == "id"@ || n@
            == "title"@ || n@ == "english"@ || n@ == "synonyms"@ || n@ == "chapters"@ || n@
            == "volumes"@ || n@ == "type"@ || n@ == "status"@ || n@ == "start_date"@ || n@
            == "end_date"@ || n@ == "synopsis"@ || n@ == "image"@),
        ListError::XMLConversionFailed(n) => spec_child_present(e, n@) && ((n@ == "id"@
            && !spec_child_unsigned_ok(e, "id"@, u32::MAX as nat)) || (n@ == "chapters"@
            && !spec_child_unsigned_ok(e, "chapters"@, u32::MAX as nat)) || (n@ == "volumes"@
            && !spec_child_unsigned_ok(e, "volumes"@, u32::MAX as nat))),
        ListError::UnknownStatus(t) => t@ == spec_child_text(e, "status"@)
            && spec_publishing_status_from_label(lower_seq(spec_child_text(e, "status"@))) is None,
        ListError::UnknownSeriesType(t) => t@ == spec_child_text(e, "type"@)
            && spec_manga_type_from_label(lower_seq(spec_child_text(e, "type"@))) is None,
        _ => false,
    }
}

impl MangaInfo {
    /// Decodes one search-result element, with the label-based enum codecs
    /// and the search response's own tag names.
    pub fn parse_search_result(xml: &XmlElement) -> (r: Result<MangaInfo, ListError>)
        ensures
            match r {
                Ok(info) => spec_manga_search_decodable(xml@) && spec_manga_search_info(xml@, info),
                Err(err) => !spec_manga_search_decodable(xml@) && spec_manga_search_err(xml@, err),
            },
    {
        let id = match child_u32(xml, "id") {
            Ok(v) => v,
            Err(e) => return Err(e),
        };
        let title = match child_string(xml, "title") {
            Ok(v) => v,
            Err(e) => return Err(e),
        };
        let english_text = match child_string(xml, "english") {
            Ok(v) => v,
            Err(e) => return Err(e),
        };
        let english_title = if english_text.as_str().unicode_len() == 0 {
            None
        } else {
            Some(english_text)
        };
        let synonyms_text = match child_string(xml, "synonyms") {
            Ok(v) => v,
            Err(e) => return Err(e),
        };
        proof {
            reveal_strlit("; ");
        }
        let synonyms = crate::util::split_into_vec(synonyms_text.as_str(), "; ");
        let chapters = match child_u32(xml, "chapters") {
            Ok(v) => v,
            Err(e) => return Err(e),
        };
        let volumes = match child_u32(xml, "volumes") {
            Ok(v) => v,
            Err(e) => return Err(e),
        };
        let type_text = match child_string(xml, "type") {
            Ok(v) => v,
            Err(e) => return Err(e),
        };
        let series_type = match MangaType::from_str(type_text.as_str()) {
            Some(t) => t,
            None => return Err(ListError::UnknownSeriesType(type_text)),
        };
        let status_text = match child_string(xml, "status") {
            Ok(v) => v,
            Err(e) => return Err(e),
        };
        let publishing_status = match PublishingStatus::from_str(status_text.as_str()) {
            Some(s) => s,
            None => return Err(ListError::UnknownStatus(status_text)),
        };
        let start_text = match child_string(xml, "start_date") {
            Ok(v) => v,
            Err(e) => return Err(e),
        };
        let start_date = crate::util::parse_str_date(start_text.as_str());
        let end_text = match child_string(xml, "end_date") {
            Ok(v) => v,
            Err(e) => return Err(e),
        };
        let end_date = crate::util::parse_str_date(end_text.as_str());
        let synopsis_text = match child_string(xml, "synopsis") {
            Ok(v) => v,
            Err(e) => return Err(e),
        };
        let synopsis = Some(synopsis_text);
        let image_url = match child_string(xml, "image") {
            Ok(v) => v,
            Err(e) => return Err(e),
        };
        Ok(
            MangaInfo {
                id,
                title,
                english_title,
                synonyms,
                chapters,
                volumes,
                series_type,
                publishing_status,
                start_date,
                end_date,
                synopsis,
                image_url,
            },
        )
    }

    /// The category this record belongs to.
    pub fn list_type() -> (r: ListType)
        ensures
            r == ListType::Manga,
    {
        ListType::Manga
    }
}

/// Whether a list-snapshot element holds every descriptive field a
/// [`MangaInfo`] needs, well-formed, under the snapshot's `series_*` names.
pub open spec fn spec_manga_list_info_decodable(e: Seq<(Seq<char>, Seq<char>)>) -> bool {
    &&& spec_child_unsigned_ok(e, "series_mangadb_id"@, u32::MAX as nat)
    &&& spec_child_present(e, "series_title"@)
    &&& spec_child_present(e, "series_synonyms"@)
    &&& spec_child_unsigned_ok(e, "series_chapters"@, u32::MAX as nat)
    &&& spec_child_unsigned_ok(e, "series_volumes"@, u32::MAX as nat)
    &&& spec_child_i32_ok(e, "series_type"@)
    &&& spec_manga_type_from_index(spec_child_i32_val(e, "series_type"@)) is Some
    &&& spec_child_i32_ok(e, "series_status"@)
    &&& spec_publishing_status_from_index(spec_child_i32_val(e, "series_status"@)) is Some
    &&& spec_child_present(e, "series_start"@)
    &&& spec_child_present(e, "series_end"@)
    &&& spec_child_present(e, "series_image"@)
}

/// What every field of a [`MangaInfo`] decoded from a list-snapshot element
/// holds; a snapshot carries no English title and no synopsis.
pub open spec fn spec_manga_list_info(e: Seq<(Seq<char>, Seq<char>)>, info: MangaInfo) -> bool {
    &&& info.id == spec_child_unsigned_val(e, "series_mangadb_id"@)
    &&& info.title@ == spec_child_text(e, "series_title"@)
    &&& info.english_title is None
    &&& seq_views(info.synonyms@) == trim_empty_edges(
        split_seq(spec_child_text(e, "series_synonyms"@), "; "@),
    )
    &&& info.chapters == spec_child_unsigned_val(e, "series_chapters"@)
    &&& info.volumes == spec_child_unsigned_val(e, "series_volumes"@)
    &&& Some(info.series_type) == spec_manga_type_from_index(
        spec_child_i32_val(e, "series_type"@),
    )
    &&& Some(info.publishing_status) == spec_publishing_status_from_index(
        spec_child_i32_val(e, "series_status"@),
    )
    &&& info.start_date == spec_date_of_text(spec_child_text(e, "series_start"@))
    &&& info.end_date == spec_date_of_text(spec_child_text(e, "series_end"@))
    &&& info.synopsis is None
    &&& info.image_url@ == spec_child_text(e, "series_image"@)
}

/// Which error decoding the descriptive part of a list-snapshot element
/// reports, and on what input.
pub open spec fn spec_manga_list_info_err(e: Seq<(Seq<char>, Seq<char>)>, err: ListError) -> bool {
    match err {
        ListError::MissingXMLNode(n) => !spec_child_present(e, n@) && (n@ == "series_mangadb_id"@
            || n@ == "series_title"@ || n@ == "series_synonyms"@ || n@ == "series_chapters"@ || n@
            == "series_volumes"@ || n@ == "series_type"@ || n@ == "series_status"@ || n@
            == "series_start"@ || n@ == "series_end"@ || n@ == "series_image"@),
        ListError::XMLConversionFailed(n) => spec_child_present(e, n@) && ((n@
            == "series_mangadb_id"@ && !spec_child_unsigned_ok(e, n@, u32::MAX as nat)) || (n@
            == "series_chapters"@ && !spec_child_unsigned_ok(e, n@, u32::MAX as nat)) || (n@
            == "series_volumes"@ && !spec_child_unsigned_ok(e, n@, u32::MAX as nat)) || (n@
            == "series_type"@ && !spec_child_i32_ok(e, n@)) || (n@ == "series_status"@
            && !spec_child_i32_ok(e, n@))),
        ListError::UnknownStatus(t) => spec_child_i32_ok(e, "series_status"@)
            && spec_publishing_status_from_index(
            spec_child_i32_val(e, "series_status"@),
        ) is None && t@ == spec_child_text(e, "series_status"@),
        ListError::UnknownSeriesType(t) => spec_child_i32_ok(e, "series_type"@)
            && spec_manga_type_from_index(spec_child_i32_val(e, "series_type"@)) is None && t@
            == spec_child_text(e, "series_type"@),
        _ => false,
    }
}

/// Decodes the descriptive `series_*` part of one list-snapshot element.
fn parse_list_info(xml: &XmlElement) -> (r: Result<MangaInfo, ListError>)
    ensures
        match r {
            Ok(info) => spec_manga_list_info_decodable(xml@) && spec_manga_list_info(xml@, info),
            Err(err) => !spec_manga_list_info_decodable(xml@) && spec_manga_list_info_err(
                xml@,
                err,
            ),
        },
{
    let id = match child_u32(xml, "series_mangadb_id") {
        Ok(v) => v,
        Err(e) => return Err(e),
    };
    let title = match child_string(xml, "series_title") {
        Ok(v) => v,
        Err(e) => return Err(e),
    };
    let synonyms_text = match child_string(xml, "series_synonyms") {
        Ok(v) => v,
        Err(e) => return Err(e),
    };
    proof {
        reveal_strlit("; ");
    }
    let synonyms = crate::util::split_into_vec(synonyms_text.as_str(), "; ");
    let chapters = match child_u32(xml, "series_chapters") {
        Ok(v) => v,
        Err(e) => return Err(e),
    };
    let volumes = match child_u32(xml, "series_volumes") {
        Ok(v) => v,
        Err(e) => return Err(e),
    };
    let type_text = match child_string(xml, "series_type") {
        Ok(v) => v,
        Err(e) => return Err(e),
    };
    let type_num = match child_i32(xml, "series_type") {
        Ok(v) => v,
        Err(e) => return Err(e),
    };
    let series_type = match MangaType::from_i32(type_num) {
        Some(t) => t,
        None => return Err(ListError::UnknownSeriesType(type_text)),
    };
    let status_text = match child_string(xml, "series_status") {
        Ok(v) => v,
        Err(e) => return Err(e),
    };
    let status_num = match child_i32(xml, "series_status") {
        Ok(v) => v,
        Err(e) => return Err(e),
    };
    let publishing_status = match PublishingStatus::from_i32(status_num) {
        Some(s) => s,
        None => return Err(ListError::UnknownStatus(status_text)),
    };
    let start_text = match child_string(xml, "series_start") {
        Ok(v) => v,
        Err(e) => return Err(e),
    };
    let start_date = crate::util::parse_str_date(start_text.as_str());
    let end_text = match child_string(xml, "series_end") {
        Ok(v) => v,
        Err(e) => return Err(e),
    };
    let end_date = crate::util::parse_str_date(end_text.as_str());
    let image_url = match child_string(xml, "series_image") {
        Ok(v) => v,
        Err(e) => return Err(e),
    };
    Ok(
        MangaInfo {
            id,
            title,
            english_title: None,
            synonyms,
            chapters,
            volumes,
            series_type,
            publishing_status,
            start_date,
            end_date,
            synopsis: None,
            image_url,
        },
    )
}

/// Whether a list-snapshot element holds every user field the values need,
/// well-formed.
pub open spec fn spec_manga_values_decodable(e: Seq<(Seq<char>, Seq<char>)>) -> bool {
    &&& spec_child_unsigned_ok(e, "my_read_chapters"@, u32::MAX as nat)
    &&& spec_child_unsigned_ok(e, "my_read_volumes"@, u32::MAX as nat)
    &&& spec_child_i32_ok(e, "my_status"@)
    &&& spec_status_from_index(spec_child_i32_val(e, "my_status"@)) is Some
    &&& spec_child_unsigned_ok(e, "my_score"@, u8::MAX as nat)
    &&& spec_child_present(e, "my_start_date"@)
    &&& spec_child_present(e, "my_finish_date"@)
    &&& spec_child_present(e, "my_tags"@)
}

/// What every field of values decoded from a list-snapshot element holds:
/// the snapshot reflects server truth, so nothing is marked modified. The
/// re-reading flag is read from the tag name with the service's own
/// double-g misspelling, reproduced here on purpose.
pub open spec fn spec_manga_values_from(e: Seq<(Seq<char>, Seq<char>)>, v: MangaValues) -> bool {
    &&& v.chapter.value == spec_child_unsigned_val(e, "my_read_chapters"@)
    &&& v.volume.value == spec_child_unsigned_val(e, "my_read_volumes"@)
    &&& Some(v.status.value) == spec_status_from_index(spec_child_i32_val(e, "my_status"@))
    &&& v.score.value == spec_child_unsigned_val(e, "my_score"@)
    &&& v.start_date.value == spec_date_of_text(spec_child_text(e, "my_start_date"@))
    &&& v.finish_date.value == spec_date_of_text(spec_child_text(e, "my_finish_date"@))
    &&& v.rereading.value == spec_child_flag(e, "my_rereadingg"@)
    &&& seq_views(v.tags.value@) == trim_empty_edges(
        split_seq(spec_child_text(e, "my_tags"@), ","@),
    )
    &&& spec_manga_values_clean(v)
}

/// Which error decoding the user values of a list-snapshot element reports,
/// and on what input.
pub open spec fn spec_manga_values_err(e: Seq<(Seq<char>, Seq<char>)>, err: ListError) -> bool {
    match err {
        ListError::MissingXMLNode(n) => !spec_child_present(e, n@) && (n@ == "my_read_chapters"@
            || n@ == "my_read_volumes"@ || n@ == "my_status"@ || n@ == "my_score"@ || n@
            == "my_start_date"@ || n@ == "my_finish_date"@ || n@ == "my_tags"@),
        ListError::XMLConversionFailed(n) => spec_child_present(e, n@) && ((n@
            == "my_read_chapters"@ && !spec_child_unsigned_ok(e, n@, u32::MAX as nat)) || (n@
            == "my_read_volumes"@ && !spec_child_unsigned_ok(e, n@, u32::MAX as nat)) || (n@
            == "my_status"@ && !spec_child_i32_ok(e, n@)) || (n@ == "my_score"@
            && !spec_child_unsigned_ok(e, n@, u8::MAX as nat))),
        ListError::UnknownStatus(t) => spec_child_i32_ok(e, "my_status"@) && spec_status_from_index(
            spec_child_i32_val(e, "my_status"@),
        ) is None && t@ == spec_child_text(e, "my_status"@),
        _ => false,
    }
}

impl MangaValues {
    /// Decodes the user fields of one list-snapshot element. The re-reading
    /// flag is the one field decoded leniently — the service sometimes
    /// sends it blank, and any undecodable value counts as `false` — and it
    /// is read under the wire's misspelled double-g tag name, reproduced
    /// exactly. Everything comes back unmodified: a snapshot is server
    /// truth, not caller intent.
    pub fn from_xml(xml: &XmlElement) -> (r: Result<MangaValues, ListError>)
        ensures
            match r {
                Ok(v) => spec_manga_values_decodable(xml@) && spec_manga_values_from(xml@, v),
                Err(err) => !spec_manga_values_decodable(xml@) && spec_manga_values_err(xml@, err),
            },
    {
        let chapter = match child_u32(xml, "my_read_chapters") {
            Ok(v) => v,
            Err(e) => return Err(e),
        };
        let volume = match child_u32(xml, "my_read_volumes") {
            Ok(v) => v,
            Err(e) => return Err(e),
        };
        let status = match child_status(xml, "my_status") {
            Ok(v) => v,
            Err(e) => return Err(e),
        };
        let score = match child_u8(xml, "my_score") {
            Ok(v) => v,
            Err(e) => return Err(e),
        };
        let start_date = match child_date(xml, "my_start_date") {
            Ok(v) => v,
            Err(e) => return Err(e),
        };
        let finish_date = match child_date(xml, "my_finish_date") {
            Ok(v) => v,
            Err(e) => return Err(e),
        };
        let rereading = child_flag_lenient(xml, "my_rereadingg");
        let tags_text = match child_string(xml, "my_tags") {
            Ok(v) => v,
            Err(e) => return Err(e),
        };
        proof {
            reveal_strlit(",");
        }
        let tags = crate::util::split_into_vec(tags_text.as_str(), ",");
        Ok(
            MangaValues {
                chapter: ChangeTracker::new(chapter),
                volume: ChangeTracker::new(volume),
                status: ChangeTracker::new(status),
                score: ChangeTracker::new(score),
                start_date: ChangeTracker::new(start_date),
                finish_date: ChangeTracker::new(finish_date),
                rereading: ChangeTracker::new(rereading),
                tags: ChangeTracker::new(tags),
            },
        )
    }
}

/// One membership record of a user's manga list: the descriptive snapshot,
/// the time of the last sync, and the user's editable values.
#[derive(Debug)]
pub struct MangaEntry {
    /// The general series information.
    pub series_info: MangaInfo,
    /// The last time the entry was synced, as a Unix timestamp.
    pub last_updated_time: i64,
    /// Contains values that can be set / updated on a user's list.
    pub values: MangaValues,
}

impl PartialEq for MangaEntry {
    /// Entries are equal exactly when their series records are, which is by
    /// numeric identity.
    fn eq(&self, other: &MangaEntry) -> bool {
        self.series_info.id == other.series_info.id
    }
}

impl vstd::std_specs::cmp::PartialEqSpecImpl for MangaEntry {
    open spec fn obeys_eq_spec() -> bool {
        true
    }

    open spec fn eq_spec(&self, other: &MangaEntry) -> bool {
        self.series_info.id == other.series_info.id
    }
}

/// Whether a list-snapshot element holds a whole entry, well-formed.
pub open spec fn spec_manga_entry_decodable(e: Seq<(Seq<char>, Seq<char>)>) -> bool {
    &&& spec_manga_list_info_decodable(e)
    &&& spec_child_i64_ok(e, "my_last_updated"@)
    &&& spec_manga_values_decodable(e)
}

/// What every part of an entry decoded from a list-snapshot element holds.
pub open spec fn spec_manga_entry_from(e: Seq<(Seq<char>, Seq<char>)>, entry: MangaEntry) -> bool {
    &&& spec_manga_list_info(e, entry.series_info)
    &&& entry.last_updated_time == signed_text_value(spec_child_text(e, "my_last_updated"@))
    &&& spec_manga_values_from(e, entry.values)
}

/// Which error decoding a whole entry reports, and on what input.
pub open spec fn spec_manga_entry_err(e: Seq<(Seq<char>, Seq<char>)>, err: ListError) -> bool {
    ||| spec_manga_list_info_err(e, err)
    ||| (err matches ListError::MissingXMLNode(n) && n@ == "my_last_updated"@
        && !spec_child_present(e, n@))
    ||| (err matches ListError::XMLConversionFailed(n) && n@ == "my_last_updated"@
        && spec_child_present(e, n@) && !spec_child_i64_ok(e, n@))
    ||| spec_manga_values_err(e, err)
}

impl MangaEntry {
    /// A fresh, never-synced entry for a series: default values, nothing
    /// marked modified, and the sync time stamped with the time now.
    pub fn new(info: MangaInfo) -> (r: MangaEntry)
        ensures
            r.series_info == info,
            r.values.chapter.value == 0,
            r.values.volume.value == 0,
            r.values.status.value == Status::PlanToWatchOrRead,
            r.values.score.value == 0,
            r.values.start_date.value is None,
            r.values.finish_date.value is None,
            r.values.rereading.value == false,
            r.values.tags.value@.len() == 0,
            spec_manga_values_clean(r.values),
    {
        MangaEntry {
            series_info: info,
            last_updated_time: crate::list::current_unix_time(),
            values: MangaValues::new(),
        }
    }

    /// Decodes one list-snapshot element into a whole entry, with the
    /// index-based enum codecs and the snapshot's `series_*` / `my_*` names.
    pub fn from_xml(xml: &XmlElement) -> (r: Result<MangaEntry, ListError>)
        ensures
            match r {
                Ok(entry) => spec_manga_entry_decodable(xml@) && spec_manga_entry_from(xml@, entry),
                Err(err) => !spec_manga_entry_decodable(xml@) && spec_manga_entry_err(xml@, err),
            },
    {
        let series_info = match parse_list_info(xml) {
            Ok(v) => v,
            Err(e) => return Err(e),
        };
        let last_updated_time = match child_i64(xml, "my_last_updated") {
            Ok(v) => v,
            Err(e) => return Err(e),
        };
        let values = match MangaValues::from_xml(xml) {
            Ok(v) => v,
            Err(e) => return Err(e),
        };
        Ok(MangaEntry { series_info, last_updated_time, values })
    }

    /// Mutable access to the entry's values; the rest of the entry is
    /// untouched.
    pub fn values_mut(&mut self) -> (r: &mut MangaValues)
        ensures
            *r == old(self).values,
            final(self).values == *final(r),
            final(self).series_info == old(self).series_info,
            final(self).last_updated_time == old(self).last_updated_time,
    {
        &mut self.values
    }

    /// Stamps the last-synced time with the time now; for the orchestrator,
    /// after a confirmed successful write. Everything else is untouched.
    pub fn set_last_updated_time(&mut self)
        ensures
            final(self).series_info == old(self).series_info,
            final(self).values == old(self).values,
    {
        self.last_updated_time = crate::list::current_unix_time();
    }

    /// The stable numeric key used for add / update / delete addressing.
    pub fn id(&self) -> (r: u32)
        ensures
            r == self.series_info.id,
    {
        self.series_info.id
    }

    /// The category this record belongs to.
    pub fn list_type() -> (r: ListType)
        ensures
            r == ListType::Manga,
    {
        ListType::Manga
    }
}

/// Aggregate statistics about a user's manga list, the leading element of
/// every list snapshot.
#[derive(Debug)]
pub struct MangaUserInfo {
    /// The user's ID.
    pub user_id: u32,
    /// The number of manga being read.
    pub reading: u32,
    /// The number of manga completed.
    pub completed: u32,
    /// The number of manga on hold.
    pub on_hold: u32,
    /// The number of manga dropped.
    pub dropped: u32,
    /// The number of manga that are planning to be read.
    pub plan_to_read: u32,
    /// The total days spent reading, as the service sent it: the service
    /// reports a fractional number, which this library checks for numeric
    /// shape and then carries as raw text.
    pub days_spent_watching: String,
}

/// Whether a statistics element holds every field, well-formed.
pub open spec fn spec_manga_user_info_decodable(e: Seq<(Seq<char>, Seq<char>)>) -> bool {
    &&& spec_child_unsigned_ok(e, "user_id"@, u32::MAX as nat)
    &&& spec_child_unsigned_ok(e, "user_reading"@, u32::MAX as nat)
    &&& spec_child_unsigned_ok(e, "user_completed"@, u32::MAX as nat)
    &&& spec_child_unsigned_ok(e, "user_onhold"@, u32::MAX as nat)
    &&& spec_child_unsigned_ok(e, "user_dropped"@, u32::MAX as nat)
    &&& spec_child_unsigned_ok(e, "user_plantoread"@, u32::MAX as nat)
    &&& spec_child_decimal_ok(e, "user_days_spent_watching"@)
}

/// What every field of decoded statistics holds.
pub open spec fn spec_manga_user_info_from(
    e: Seq<(Seq<char>, Seq<char>)>,
    info: MangaUserInfo,
) -> bool {
    &&& info.user_id == spec_child_unsigned_val(e, "user_id"@)
    &&& info.reading == spec_child_unsigned_val(e, "user_reading"@)
    &&& info.completed == spec_child_unsigned_val(e, "user_completed"@)
    &&& info.on_hold == spec_child_unsigned_val(e, "user_onhold"@)
    &&& info.dropped == spec_child_unsigned_val(e, "user_dropped"@)
    &&& info.plan_to_read == spec_child_unsigned_val(e, "user_plantoread"@)
    &&& info.days_spent_watching@ == spec_child_text(e, "user_days_spent_watching"@)
}

/// Which error decoding statistics reports, and on what input.
pub open spec fn spec_manga_user_info_err(e: Seq<(Seq<char>, Seq<char>)>, err: ListError) -> bool {
    match err {
        ListError::MissingXMLNode(n) => !spec_child_present(e, n@) && (n@ == "user_id"@ || n@
            == "user_reading"@ || n@ == "user_completed"@ || n@ == "user_onhold"@ || n@
            == "user_dropped"@ || n@ == "user_plantoread"@ || n@ == "user_days_spent_watching"@),
        ListError::XMLConversionFailed(n) => spec_child_present(e, n@) && {
            ||| (!spec_child_unsigned_ok(e, n@, u32::MAX as nat) && (n@ == "user_id"@ || n@
                == "user_reading"@ || n@ == "user_completed"@ || n@ == "user_onhold"@ || n@
                == "user_dropped"@ || n@ == "user_plantoread"@))
            ||| (n@ == "user_days_spent_watching"@ && !is_decimal_fraction_text(
                spec_child_text(e, n@),
            ))
        },
        _ => false,
    }
}

impl MangaUserInfo {
    /// Decodes the leading statistics element of a manga list snapshot.
    pub fn from_xml(xml: &XmlElement) -> (r: Result<MangaUserInfo, ListError>)
        ensures
            match r {
                Ok(info) => spec_manga_user_info_decodable(xml@) && spec_manga_user_info_from(
                    xml@,
                    info,
                ),
                Err(err) => !spec_manga_user_info_decodable(xml@) && spec_manga_user_info_err(
                    xml@,
                    err,
                ),
            },
    {
        let user_id = match child_u32(xml, "user_id") {
            Ok(v) => v,
            Err(e) => return Err(e),
        };
        let reading = match child_u32(xml, "user_reading") {
            Ok(v) => v,
            Err(e) => return Err(e),
        };
        let completed = match child_u32(xml, "user_completed") {
            Ok(v) => v,
            Err(e) => return Err(e),
        };
        let on_hold = match child_u32(xml, "user_onhold") {
            Ok(v) => v,
            Err(e) => return Err(e),
        };
        let dropped = match child_u32(xml, "user_dropped") {
            Ok(v) => v,
            Err(e) => return Err(e),
        };
        let plan_to_read = match child_u32(xml, "user_plantoread") {
            Ok(v) => v,
            Err(e) => return Err(e),
        };
        let days_spent_watching = match child_decimal_text(xml, "user_days_spent_watching") {
            Ok(v) => v,
            Err(e) => return Err(e),
        };
        Ok(
            MangaUserInfo {
                user_id,
                reading,
                completed,
                on_hold,
                dropped,
                plan_to_read,
                days_spent_watching,
            },
        )
    }
}

/// Decodes every element of a search response document into series records.
pub fn decode_search_document(doc: &XmlDocument) -> (r: Result<Vec<MangaInfo>, MALError>)
    ensures
        match r {
            Ok(infos) => infos@.len() == doc@.len() && (forall|i: int|
                0 <= i < doc@.len() ==> spec_manga_search_decodable(#[trigger] doc@[i])
                    && spec_manga_search_info(doc@[i], infos@[i])),
            Err(e) => e matches MALError::List(le) && (exists|i: int|
                0 <= i < doc@.len() && !spec_manga_search_decodable(#[trigger] doc@[i])
                    && spec_manga_search_err(doc@[i], le)),
        },
{
    let n = doc.elements.len();
    let mut out: Vec<MangaInfo> = Vec::new();
    let mut i: usize = 0;
    while i < n
        invariant
            n == doc.elements@.len(),
            i <= n,
            out@.len() == i,
            forall|j: int| 0 <= j < i ==> spec_manga_search_decodable(#[trigger] doc@[j])
                && spec_manga_search_info(doc@[j], out@[j]),
        decreases n - i,
    {
        proof {
            assert(doc@[i as int] == doc.elements@[i as int]@);
        }
        match MangaInfo::parse_search_result(&doc.elements[i]) {
            Ok(info) => out.push(info),
            Err(e) => {
                return Err(MALError::List(e));
            },
        }
        i += 1;
    }
    Ok(out)
}

/// Turns a search transport outcome into series records: a body is parsed
/// and decoded; the no-content status means an empty result, not an error;
/// any other failure is passed through.
pub fn search_outcome_to_results(outcome: Result<String, RequestError>) -> (r: Result<
    Vec<MangaInfo>,
    MALError,
>)
    ensures
        match outcome {
            Ok(text) => match r {
                Ok(infos) => xml_parses(text@) && infos@.len() == xml_document_content(
                    text@,
                ).len() && (forall|i: int|
                    0 <= i < xml_document_content(text@).len() ==> spec_manga_search_decodable(
                        #[trigger] xml_document_content(text@)[i],
                    ) && spec_manga_search_info(xml_document_content(text@)[i], infos@[i])),
                Err(MALError::Minidom(_)) => !xml_parses(text@),
                Err(MALError::List(le)) => xml_parses(text@) && (exists|i: int|
                    0 <= i < xml_document_content(text@).len() && !spec_manga_search_decodable(
                        #[trigger] xml_document_content(text@)[i],
                    ) && spec_manga_search_err(xml_document_content(text@)[i], le)),
                Err(MALError::Request(_)) => false,
            },
            Err(e) => if e matches RequestError::BadResponseCode(c) && c == 204 {
                r matches Ok(infos) && infos@.len() == 0
            } else {
                r matches Err(MALError::Request(e2)) && e2 == e
            },
        },
{
    match outcome {
        Ok(text) => match crate::xml::parse_xml_document(text.as_str()) {
            Ok(doc) => decode_search_document(&doc),
            Err(me) => Err(MALError::Minidom(me)),
        },
        Err(e) => {
            let no_content = match &e {
                RequestError::BadResponseCode(c) => *c == 204,
                _ => false,
            };
            if no_content {
                Ok(Vec::new())
            } else {
                Err(MALError::Request(e))
            }
        },
    }
}

/// Decodes a whole list snapshot: the first element is always the user's
/// aggregate statistics — a document without it is its own failure, not an
/// empty list — and every element after it is one entry.
pub fn decode_list_document(doc: &XmlDocument) -> (r: Result<
    ListEntries<MangaUserInfo, MangaEntry>,
    MALError,
>)
    ensures
        match r {
            Ok(le) => {
                &&& doc@.len() >= 1
                &&& spec_manga_user_info_decodable(doc@[0])
                &&& spec_manga_user_info_from(doc@[0], le.user_info)
                &&& le.entries@.len() == doc@.len() - 1
                &&& forall|i: int| 1 <= i < doc@.len() ==> spec_manga_entry_decodable(
                    #[trigger] doc@[i],
                ) && spec_manga_entry_from(doc@[i], le.entries@[i - 1])
            },
            Err(e) => e matches MALError::List(le) && if doc@.len() == 0 {
                le is NoUserInfoFound
            } else {
                ||| (!spec_manga_user_info_decodable(doc@[0]) && spec_manga_user_info_err(
                    doc@[0],
                    le,
                ))
                ||| (exists|i: int| 1 <= i < doc@.len() && !spec_manga_entry_decodable(
                    #[trigger] doc@[i],
                ) && spec_manga_entry_err(doc@[i], le))
            },
        },
{
    let n = doc.elements.len();
    if n == 0 {
        return Err(MALError::List(ListError::NoUserInfoFound));
    }
    proof {
        assert(doc@[0] == doc.elements@[0]@);
    }
    let user_info = match MangaUserInfo::from_xml(&doc.elements[0]) {
        Ok(v) => v,
        Err(e) => return Err(MALError::List(e)),
    };
    let mut entries: Vec<MangaEntry> = Vec::new();
    let mut i: usize = 1;
    while i < n
        invariant
            n == doc.elements@.len(),
            1 <= i <= n,
            entries@.len() == i - 1,
            forall|j: int| 1 <= j < i ==> spec_manga_entry_decodable(#[trigger] doc@[j])
                && spec_manga_entry_from(doc@[j], entries@[j - 1]),
        decreases n - i,
    {
        proof {
            assert(doc@[i as int] == doc.elements@[i as int]@);
        }
        match MangaEntry::from_xml(&doc.elements[i]) {
            Ok(entry) => entries.push(entry),
            Err(e) => {
                return Err(MALError::List(e));
            },
        }
        i += 1;
    }
    Ok(ListEntries { user_info, entries })
}

/// Turns a list-read transport outcome into the decoded snapshot; any
/// transport failure is passed through.
pub fn list_outcome_to_entries(outcome: Result<String, RequestError>) -> (r: Result<
    ListEntries<MangaUserInfo, MangaEntry>,
    MALError,
>)
    ensures
        match outcome {
            Ok(text) => match r {
                Ok(le) => {
                    &&& xml_parses(text@)
                    &&& xml_document_content(text@).len() >= 1
                    &&& spec_manga_user_info_decodable(xml_document_content(text@)[0])
                    &&& spec_manga_user_info_from(xml_document_content(text@)[0], le.user_info)
                    &&& le.entries@.len() == xml_document_content(text@).len() - 1
                    &&& forall|i: int| 1 <= i < xml_document_content(text@).len()
                        ==> spec_manga_entry_decodable(#[trigger] xml_document_content(text@)[i])
                            && spec_manga_entry_from(
                            xml_document_content(text@)[i],
                            le.entries@[i - 1],
                        )
                },
                Err(MALError::Minidom(_)) => !xml_parses(text@),
                Err(MALError::List(le)) => xml_parses(text@) && if xml_document_content(
                    text@,
                ).len() == 0 {
                    le is NoUserInfoFound
                } else {
                    ||| (!spec_manga_user_info_decodable(xml_document_content(text@)[0])
                        && spec_manga_user_info_err(xml_document_content(text@)[0], le))
                    ||| (exists|i: int| 1 <= i < xml_document_content(text@).len()
                        && !spec_manga_entry_decodable(#[trigger] xml_document_content(text@)[i])
                        && spec_manga_entry_err(xml_document_content(text@)[i], le))
                },
                Err(MALError::Request(_)) => false,
            },
            Err(e) => r matches Err(MALError::Request(e2)) && e2 == e,
        },
{
    match outcome {
        Ok(text) => match crate::xml::parse_xml_document(text.as_str()) {
            Ok(doc) => decode_list_document(&doc),
            Err(me) => Err(MALError::Minidom(me)),
        },
        Err(e) => Err(MALError::Request(e)),
    }
}

/// Settles an add or update against the transport's answer: only a
/// confirmed success clears the modified flags; on any failure the values
/// are left completely untouched, so the caller can safely retry.
pub fn apply_sync_outcome(values: &mut MangaValues, outcome: Result<(), RequestError>) -> (r:
    Result<(), MALError>)
    ensures
        match outcome {
            Ok(_) => *final(values) == spec_manga_values_reset(*old(values)) && r is Ok,
            Err(e) => *final(values) == *old(values) && (r matches Err(MALError::Request(e2)) && e2
                == e),
        },
{
    match outcome {
        Ok(_) => {
            values.reset_changed_fields();
            Ok(())
        },
        Err(e) => Err(MALError::Request(e)),
    }
}

/// Settles an add or update of a whole entry against the transport's
/// answer: only a confirmed success clears the modified flags and stamps
/// the sync time; on any failure the entry is left completely untouched.
pub fn apply_entry_sync_outcome(entry: &mut MangaEntry, outcome: Result<(), RequestError>) -> (r:
    Result<(), MALError>)
    ensures
        match outcome {
            Ok(_) => final(entry).values == spec_manga_values_reset(old(entry).values)
                && final(entry).series_info == old(entry).series_info && r is Ok,
            Err(e) => *final(entry) == *old(entry) && (r matches Err(MALError::Request(e2)) && e2
                == e),
        },
{
    match outcome {
        Ok(_) => {
            entry.values.reset_changed_fields();
            entry.set_last_updated_time();
            Ok(())
        },
        Err(e) => Err(MALError::Request(e)),
    }
}

} // verus!
