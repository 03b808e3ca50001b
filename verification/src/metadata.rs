//! Caption and date metadata of one photo, and the rule that makes a photo
//! eligible.

use vstd::prelude::*;

verus! {

/// Name of the metadata file, which lies beside the source image.
pub const METADATA_FILE_NAME: &'static str = "i.json";

/// The caption of a photo in each of the three languages.
#[derive(Clone, Debug, PartialEq, Eq)]
pub struct Title {
    pub en: String,
    pub fi: String,
    pub fr: String,
}

/// What is known of a photo: its captions and the moment it was taken, as an
/// ISO 8601 date and time.
#[derive(Clone, Debug, PartialEq, Eq)]
pub struct PhotoInfo {
    pub title: Title,
    pub date_taken: String,
}

/// Why a photo's metadata could not be had.
#[derive(Clone, Copy, Debug, PartialEq, Eq, Structural)]
pub enum MetadataError {
    /// The metadata file is missing or cannot be read.
    Unreadable,
    /// The file is not JSON, or lacks a caption or the date.
    Malformed,
}

pub struct TitleText {
    pub en: Seq<char>,
    pub fi: Seq<char>,
    pub fr: Seq<char>,
}

pub struct PhotoInfoText {
    pub title: TitleText,
    pub date_taken: Seq<char>,
}

impl View for Title {
    type V = TitleText;

    open spec fn view(&self) -> TitleText {
        TitleText { en: self.en@, fi: self.fi@, fr: self.fr@ }
    }
}

impl View for PhotoInfo {
    type V = PhotoInfoText;

    open spec fn view(&self) -> PhotoInfoText {
        PhotoInfoText { title: self.title@, date_taken: self.date_taken@ }
    }
}

/// A photo is eligible when it has a caption in every language.
pub open spec fn is_complete(info: PhotoInfoText) -> bool {
    &&& info.title.en.len() > 0
    &&& info.title.fi.len() > 0
    &&& info.title.fr.len() > 0
}

/// Hands the metadata on where the photo is eligible, and drops it where a
/// caption is empty.
pub fn get_metadata(info: PhotoInfo) -> (checked: Option<PhotoInfo>)
    ensures
        checked == if is_complete(info@) {
            Some(info)
        } else {
            None
        },
{
    if info.title.en.as_str().is_empty() || info.title.fi.as_str().is_empty()
        || info.title.fr.as_str().is_empty() {
        None
    } else {
        Some(info)
    }
}

/// The calendar date of an ISO 8601 date and time: what stands before the
/// first `T`, or all of it where there is none.
pub open spec fn calendar_date(date_taken: Seq<char>) -> Seq<char>
    decreases date_taken.len(),
{
    if date_taken.len() == 0 || date_taken[0] == 'T' {
        Seq::empty()
    } else {
        seq![date_taken[0]] + calendar_date(date_taken.drop_first())
    }
}

/// The calendar date is the longest start of the text that holds no `T`.
pub proof fn lemma_calendar_date_is_prefix(date_taken: Seq<char>, n: int)
    requires
        0 <= n <= date_taken.len(),
        forall|i: int| 0 <= i < n ==> date_taken[i] != 'T',
        n == date_taken.len() || date_taken[n] == 'T',
    ensures
        calendar_date(date_taken) == date_taken.take(n),
    decreases n,
{
    if n == 0 {
        assert(date_taken.take(0) =~= Seq::<char>::empty());
    } else {
        let rest = date_taken.drop_first();
        assert forall|i: int| 0 <= i < n - 1 implies rest[i] != 'T' by {
            assert(rest[i] == date_taken[i + 1]);
        }
        lemma_calendar_date_is_prefix(rest, n - 1);
        assert(seq![date_taken[0]] + rest.take(n - 1) =~= date_taken.take(n));
    }
}

/// Cuts the time of day off a date and time.
pub fn date_part(date_taken: &str) -> (date: String)
    ensures
        date@ == calendar_date(date_taken@),
{
    broadcast use vstd::string::axiom_spec_iter;

    let mut date = String::new();
    for c in it: date_taken.chars()
        invariant
            it.seq() == date_taken@,
            date@ == date_taken@.take(it.index()),
            forall|i: int| 0 <= i < it.index() ==> date_taken@[i] != 'T',
    {
        if c == 'T' {
            proof {
                lemma_calendar_date_is_prefix(date_taken@, it.index());
            }
            return date;
        }
        date.push(c);
        proof {
            assert(date_taken@.take(it.index()).push(c) =~= date_taken@.take(it.index() + 1));
        }
    }
    proof {
        lemma_calendar_date_is_prefix(date_taken@, date_taken@.len() as int);
        assert(date_taken@.take(date_taken@.len() as int) =~= date_taken@);
    }
    date
}

} // verus!
