//! Reviews of dating profiles: a profile's photo is scored by a language
//! model, and the score decides between a like and a dislike.
use vstd::prelude::*;
use crate::entities::task::Task;
use crate::error::BotError;
use crate::ids::{is_uuid_v4, new_uuid_v4, uuid_text, uuid_to_string};
use crate::keys::{RequestKeys, ResponseKeys};
use crate::status::{ProcessingStatus, TaskStatus};
use crate::td::read::{profile_image_file, profile_image_path};
use crate::td::requests::{download_file_members, is_td_request};
use crate::td::td_file::{LIMIT, PRIORITY, td_file_download};
use crate::text::{decimal_parses_back, int_decimal, parse_i32, parse_integer, trim, trim_spec};

verus! {

/// The time now, in nanoseconds since the Unix epoch
/// (`SystemTime::now().duration_since(UNIX_EPOCH)`). Trusted for nothing:
/// the clock's reading is not stated (a clock before the epoch reads 0).
#[verifier::external_body]
pub fn now_unix_nanos() -> (r: u128) {
    std::time::SystemTime::now().duration_since(std::time::UNIX_EPOCH).map(|d| d.as_nanos()).unwrap_or(0)
}

/// The review of one profile: its chat, text, photos, status and score.
#[derive(Debug)]
pub struct ProfileReviewer {
    id: u128,
    chat_id: i64,
    score: Option<i32>,
    text: String,
    status: ProcessingStatus,
    file_ids: Option<Vec<i32>>,
    updated_at: u128,
}

/// How long a review may go without change before the bot restarts.
pub open spec fn stuck_after_nanos() -> int {
    180_000_000_000
}

/// The first file of a profile, its main photo.
pub open spec fn main_file_of(file_ids: Option<Seq<i32>>) -> Option<i32> {
    match file_ids {
        Some(ids) => if ids.len() > 0 {
            Some(ids[0])
        } else {
            None
        },
        None => None,
    }
}

/// Where a reviewed photo is kept, by review id.
pub open spec fn reviewed_image_path(id: u128) -> Seq<char> {
    "reviewed_images/"@ + uuid_text(id) + ".png"@
}

/// The score a model's answer gives: the answer without surrounding
/// white space, read as an `i32`.
pub open spec fn score_of_answer(answer: Seq<char>) -> Option<int> {
    parse_integer(trim_spec(answer), true, i32::MIN as int, i32::MAX as int)
}

/// What a review ends with.
#[derive(Debug)]
pub enum ReviewOutcome {
    /// The model scored the photo: store the score (the review is then
    /// complete) and move the photo to the reviewed photos.
    Scored { score: i32, from: String, to: String },
    /// The model gave no answer: dislike the profile.
    Dislike,
}

/// What starting a review does.
#[derive(Debug)]
pub enum StartStep {
    /// The photo is here: review it.
    Review,
    /// The photo is not here yet: queue its download.
    Download(Task),
}

impl ProfileReviewer {
    pub closed spec fn spec_id(&self) -> u128 {
        self.id
    }

    pub closed spec fn spec_chat_id(&self) -> i64 {
        self.chat_id
    }

    pub closed spec fn spec_score(&self) -> Option<i32> {
        self.score
    }

    pub closed spec fn spec_text(&self) -> Seq<char> {
        self.text@
    }

    pub closed spec fn spec_status(&self) -> ProcessingStatus {
        self.status
    }

    pub closed spec fn spec_file_ids(&self) -> Option<Seq<i32>> {
        match self.file_ids {
            Some(v) => Some(v@),
            None => None,
        }
    }

    pub closed spec fn spec_updated_at(&self) -> u128 {
        self.updated_at
    }

    /// A new review of a profile, with a fresh random id, no score and
    /// no files, updated now.
    pub fn new(chat_id: i64, text: &String, status: ProcessingStatus) -> (r: ProfileReviewer)
        ensures
            r.spec_chat_id() == chat_id,
            r.spec_text() == text@,
            r.spec_status() == status,
            r.spec_score() is None,
            r.spec_file_ids() is None,
            is_uuid_v4(r.spec_id()),
    {
        ProfileReviewer {
            id: new_uuid_v4(),
            chat_id,
            text: text.clone(),
            status,
            score: None,
            file_ids: None,
            updated_at: now_unix_nanos(),
        }
    }

    /// A review as read back from its database row.
    pub fn from_row(
        id: u128,
        chat_id: i64,
        score: i32,
        text: String,
        status: ProcessingStatus,
        file_ids: Vec<i32>,
        updated_at: u128,
    ) -> (r: ProfileReviewer)
        ensures
            r.spec_id() == id,
            r.spec_chat_id() == chat_id,
            r.spec_score() == Some(score),
            r.spec_text() == text@,
            r.spec_status() == status,
            r.spec_file_ids() == Some(file_ids@),
            r.spec_updated_at() == updated_at,
    {
        ProfileReviewer {
            id,
            chat_id,
            score: Some(score),
            text,
            status,
            file_ids: Some(file_ids),
            updated_at,
        }
    }

    /// The score.
    pub fn score(&self) -> (r: &Option<i32>)
        ensures
            *r == self.spec_score(),
    {
        &self.score
    }

    /// The status.
    pub fn _status(&self) -> (r: &ProcessingStatus)
        ensures
            *r == self.spec_status(),
    {
        &self.status
    }

    /// The id.
    pub fn id(&self) -> (r: u128)
        ensures
            r == self.spec_id(),
    {
        self.id
    }

    /// The chat of the profile.
    pub fn chat_id(&self) -> (r: i64)
        ensures
            r == self.spec_chat_id(),
    {
        self.chat_id
    }

    /// The profile text.
    pub fn text(&self) -> (r: &String)
        ensures
            r@ == self.spec_text(),
    {
        &self.text
    }

    /// The files.
    pub fn _file_ids(&self) -> (r: &Option<Vec<i32>>)
        ensures
            match *r {
                Some(v) => self.spec_file_ids() == Some(v@),
                None => self.spec_file_ids() is None,
            },
    {
        &self.file_ids
    }

    /// Sets the files.
    pub fn set_file_ids(&mut self, file_ids: Vec<i32>)
        ensures
            final(self).spec_file_ids() == Some(file_ids@),
            final(self).spec_id() == old(self).spec_id(),
            final(self).spec_chat_id() == old(self).spec_chat_id(),
            final(self).spec_score() == old(self).spec_score(),
            final(self).spec_text() == old(self).spec_text(),
            final(self).spec_status() == old(self).spec_status(),
            final(self).spec_updated_at() == old(self).spec_updated_at(),
    {
        self.file_ids = Some(file_ids);
    }

    /// The main photo: the first file, if any.
    pub fn main_file(&self) -> (r: Option<i32>)
        ensures
            r == main_file_of(self.spec_file_ids()),
    {
        match &self.file_ids {
            Some(ids) => if ids.len() > 0 {
                Some(ids[0])
            } else {
                None
            },
            None => None,
        }
    }

    /// Where the main photo is downloaded to.
    pub fn main_file_path(&self) -> (r: String)
        requires
            main_file_of(self.spec_file_ids()) is Some,
        ensures
            r@ == profile_image_path(main_file_of(self.spec_file_ids())->0),
    {
        let file_id = match self.main_file() {
            Some(f) => f,
            None => 0,
        };
        profile_image_file(file_id)
    }

    /// Where the photo goes once reviewed.
    pub fn reviewed_file_path(&self) -> (r: String)
        ensures
            r@ == reviewed_image_path(self.spec_id()),
    {
        let mut r = String::from_str("reviewed_images/");
        r.append(uuid_to_string(self.id).as_str());
        r.append(".png");
        r
    }

    /// Whether a new review may start: only where no review is running.
    pub fn acquire(running_review_found: bool) -> (r: Option<()>)
        ensures
            r is Some <==> !running_review_found,
    {
        if running_review_found {
            return None;
        }
        Some(())
    }

    /// Starting the review of a waiting profile: review the main photo
    /// where it is downloaded, else download it first.
    pub fn start_step(&self, photo_present: bool) -> (r: StartStep)
        requires
            main_file_of(self.spec_file_ids()) is Some,
        ensures
            photo_present ==> r is Review,
            !photo_present ==> (r matches StartStep::Download(t) && t.spec_request()
                == RequestKeys::DownloadFile && t.spec_response() == ResponseKeys::UpdateFile
                && t.spec_status() == TaskStatus::Waiting && is_td_request(
                t.spec_message(),
                download_file_members(main_file_of(self.spec_file_ids())->0, PRIORITY, LIMIT),
                "downloadFile"@,
            )),
    {
        if photo_present {
            StartStep::Review
        } else {
            let file_id = match self.main_file() {
                Some(f) => f,
                None => 0,
            };
            StartStep::Download(td_file_download(file_id))
        }
    }

    /// What the model's answer means for the review: with an answer, its
    /// score (an error where the trimmed answer is not an `i32`) and the
    /// move of the photo to the reviewed photos; without one, a dislike.
    pub fn review_outcome(&self, answer: Option<&str>) -> (r: Result<ReviewOutcome, BotError>)
        requires
            main_file_of(self.spec_file_ids()) is Some,
        ensures
            match answer {
                None => r matches Ok(ReviewOutcome::Dislike),
                Some(a) => match score_of_answer(a@) {
                    None => r == Err::<ReviewOutcome, BotError>(BotError::InvalidInteger),
                    Some(s) => r matches Ok(ReviewOutcome::Scored { score, from, to }) && score == s
                        && from@ == profile_image_path(main_file_of(self.spec_file_ids())->0) && to@
                        == reviewed_image_path(self.spec_id()),
                },
            },
    {
        match answer {
            None => Ok(ReviewOutcome::Dislike),
            Some(a) => {
                let trimmed = trim(a);
                match parse_i32(trimmed.as_str()) {
                    None => Err(BotError::InvalidInteger),
                    Some(score) => Ok(
                        ReviewOutcome::Scored {
                            score,
                            from: self.main_file_path(),
                            to: self.reviewed_file_path(),
                        },
                    ),
                }
            },
        }
    }
}

/// Whether the review pipeline is stuck: some review is not processed,
/// no restart of the dating bot is queued, and that review has not
/// changed for more than three minutes.
pub fn reviewer_stuck(latest_unprocessed_updated_at: Option<u128>, start_queued: bool, now: u128) -> (r:
    bool)
    requires
        latest_unprocessed_updated_at matches Some(t) ==> t <= now,
    ensures
        r == (latest_unprocessed_updated_at matches Some(t) && !start_queued && now - t
            > stuck_after_nanos()),
{
    match latest_unprocessed_updated_at {
        Some(updated_at) => {
            if !start_queued {
                let time_passed = now - updated_at;
                return time_passed > 180_000_000_000u128;
            }
            false
        },
        None => false,
    }
}


/// A model's answer that is the decimal text of an `i32` (zero and
/// negative scores included) is read as exactly that score, so the review
/// ends `Scored` with it.
pub proof fn printed_score_is_read(score: i32)
    ensures
        score_of_answer(int_decimal(score as int)) == Some(score as int),
{
    decimal_parses_back(score as int, i32::MIN as int, i32::MAX as int);
}

} // verus!
