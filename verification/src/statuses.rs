//! The words with which the database keeps the states of sessions, parts and jobs.

use crate::text::same;
use vstd::prelude::*;
use vstd::std_specs::cmp::PartialEqSpecImpl;

verus! {

/// The state of a session, as the database keeps it.
#[derive(Debug)]
pub enum SessionStatus {
    Recording,
    Retrying,
    RecordingComplete,
    Complete,
    Conflict,
    SubmissionUncertain,
    /// A word that stands for none of these.
    Other(String),
}

impl SessionStatus {
    /// The word that stands for this value in the database.
    pub open spec fn word(self) -> Seq<char> {
        match self {
            SessionStatus::Recording => "recording"@,
            SessionStatus::Retrying => "retrying"@,
            SessionStatus::RecordingComplete => "recording_complete"@,
            SessionStatus::Complete => "complete"@,
            SessionStatus::Conflict => "conflict"@,
            SessionStatus::SubmissionUncertain => "submission_uncertain"@,
            SessionStatus::Other(word) => word@,
        }
    }

    /// A word that stands for one of the named values.
    pub open spec fn known(word: Seq<char>) -> bool {
        ||| word == "recording"@
        ||| word == "retrying"@
        ||| word == "recording_complete"@
        ||| word == "complete"@
        ||| word == "conflict"@
        ||| word == "submission_uncertain"@
    }

    /// A word of a named value is kept as that value.
    pub open spec fn wf(self) -> bool {
        self matches SessionStatus::Other(word) ==> !Self::known(word@)
    }

    /// Two values are the same one.
    pub open spec fn same_as(self, other: Self) -> bool {
        match (self, other) {
            (SessionStatus::Other(a), SessionStatus::Other(b)) => a@ == b@,
            _ => self == other,
        }
    }

    /// The word that stands for this value in the database.
    pub fn text(&self) -> (r: &str)
        ensures
            r@ == self.word(),
    {
        match self {
            SessionStatus::Recording => "recording",
            SessionStatus::Retrying => "retrying",
            SessionStatus::RecordingComplete => "recording_complete",
            SessionStatus::Complete => "complete",
            SessionStatus::Conflict => "conflict",
            SessionStatus::SubmissionUncertain => "submission_uncertain",
            SessionStatus::Other(word) => word.as_str(),
        }
    }

    /// The value that a word from the database stands for.
    pub fn parse(text: &str) -> (r: Self)
        ensures
            r.word() == text@,
            r.wf(),
    {
        if same(text, "recording") {
            return SessionStatus::Recording;
        }
        if same(text, "retrying") {
            return SessionStatus::Retrying;
        }
        if same(text, "recording_complete") {
            return SessionStatus::RecordingComplete;
        }
        if same(text, "complete") {
            return SessionStatus::Complete;
        }
        if same(text, "conflict") {
            return SessionStatus::Conflict;
        }
        if same(text, "submission_uncertain") {
            return SessionStatus::SubmissionUncertain;
        }
        SessionStatus::Other(text.to_owned())
    }
}

impl Clone for SessionStatus {
    fn clone(&self) -> (r: Self)
        ensures
            r == *self,
    {
        match self {
            SessionStatus::Recording => SessionStatus::Recording,
            SessionStatus::Retrying => SessionStatus::Retrying,
            SessionStatus::RecordingComplete => SessionStatus::RecordingComplete,
            SessionStatus::Complete => SessionStatus::Complete,
            SessionStatus::Conflict => SessionStatus::Conflict,
            SessionStatus::SubmissionUncertain => SessionStatus::SubmissionUncertain,
            SessionStatus::Other(word) => SessionStatus::Other(word.clone()),
        }
    }
}

impl PartialEq for SessionStatus {
    fn eq(&self, other: &Self) -> (r: bool) {
        match (self, other) {
            (SessionStatus::Recording, SessionStatus::Recording) => true,
            (SessionStatus::Retrying, SessionStatus::Retrying) => true,
            (SessionStatus::RecordingComplete, SessionStatus::RecordingComplete) => true,
            (SessionStatus::Complete, SessionStatus::Complete) => true,
            (SessionStatus::Conflict, SessionStatus::Conflict) => true,
            (SessionStatus::SubmissionUncertain, SessionStatus::SubmissionUncertain) => true,
            (SessionStatus::Other(a), SessionStatus::Other(b)) => same(a.as_str(), b.as_str()),
            _ => false,
        }
    }
}

impl PartialEqSpecImpl for SessionStatus {
    open spec fn obeys_eq_spec() -> bool {
        true
    }

    open spec fn eq_spec(&self, other: &Self) -> bool {
        self.same_as(*other)
    }
}

impl Eq for SessionStatus {

}

/// The state of the submission of a session, as the database keeps it.
#[derive(Debug)]
pub enum SubmitState {
    New,
    Submitting,
    Uncertain,
    Created,
    /// A word that stands for none of these.
    Other(String),
}

impl SubmitState {
    /// The word that stands for this value in the database.
    pub open spec fn word(self) -> Seq<char> {
        match self {
            SubmitState::New => "new"@,
            SubmitState::Submitting => "submitting"@,
            SubmitState::Uncertain => "uncertain"@,
            SubmitState::Created => "created"@,
            SubmitState::Other(word) => word@,
        }
    }

    /// A word that stands for one of the named values.
    pub open spec fn known(word: Seq<char>) -> bool {
        ||| word == "new"@
        ||| word == "submitting"@
        ||| word == "uncertain"@
        ||| word == "created"@
    }

    /// A word of a named value is kept as that value.
    pub open spec fn wf(self) -> bool {
        self matches SubmitState::Other(word) ==> !Self::known(word@)
    }

    /// Two values are the same one.
    pub open spec fn same_as(self, other: Self) -> bool {
        match (self, other) {
            (SubmitState::Other(a), SubmitState::Other(b)) => a@ == b@,
            _ => self == other,
        }
    }

    /// The word that stands for this value in the database.
    pub fn text(&self) -> (r: &str)
        ensures
            r@ == self.word(),
    {
        match self {
            SubmitState::New => "new",
            SubmitState::Submitting => "submitting",
            SubmitState::Uncertain => "uncertain",
            SubmitState::Created => "created",
            SubmitState::Other(word) => word.as_str(),
        }
    }

    /// The value that a word from the database stands for.
    pub fn parse(text: &str) -> (r: Self)
        ensures
            r.word() == text@,
            r.wf(),
    {
        if same(text, "new") {
            return SubmitState::New;
        }
        if same(text, "submitting") {
            return SubmitState::Submitting;
        }
        if same(text, "uncertain") {
            return SubmitState::Uncertain;
        }
        if same(text, "created") {
            return SubmitState::Created;
        }
        SubmitState::Other(text.to_owned())
    }
}

impl Clone for SubmitState {
    fn clone(&self) -> (r: Self)
        ensures
            r == *self,
    {
        match self {
            SubmitState::New => SubmitState::New,
            SubmitState::Submitting => SubmitState::Submitting,
            SubmitState::Uncertain => SubmitState::Uncertain,
            SubmitState::Created => SubmitState::Created,
            SubmitState::Other(word) => SubmitState::Other(word.clone()),
        }
    }
}

impl PartialEq for SubmitState {
    fn eq(&self, other: &Self) -> (r: bool) {
        match (self, other) {
            (SubmitState::New, SubmitState::New) => true,
            (SubmitState::Submitting, SubmitState::Submitting) => true,
            (SubmitState::Uncertain, SubmitState::Uncertain) => true,
            (SubmitState::Created, SubmitState::Created) => true,
            (SubmitState::Other(a), SubmitState::Other(b)) => same(a.as_str(), b.as_str()),
            _ => false,
        }
    }
}

impl PartialEqSpecImpl for SubmitState {
    open spec fn obeys_eq_spec() -> bool {
        true
    }

    open spec fn eq_spec(&self, other: &Self) -> bool {
        self.same_as(*other)
    }
}

impl Eq for SubmitState {

}

/// The state of a part, as the database keeps it.
#[derive(Debug)]
pub enum SegmentStatus {
    Queued,
    Uploading,
    RetryWait,
    UploadedToStorage,
    Submitting,
    SubmissionUncertain,
    RemoteProcessing,
    Conflict,
    RemoteVerified,
    CleanupPending,
    Deleted,
    Retained,
    /// A word that stands for none of these.
    Other(String),
}

impl SegmentStatus {
    /// The word that stands for this value in the database.
    pub open spec fn word(self) -> Seq<char> {
        match self {
            SegmentStatus::Queued => "queued"@,
            SegmentStatus::Uploading => "uploading"@,
            SegmentStatus::RetryWait => "retry_wait"@,
            SegmentStatus::UploadedToStorage => "uploaded_to_storage"@,
            SegmentStatus::Submitting => "submitting"@,
            SegmentStatus::SubmissionUncertain => "submission_uncertain"@,
            SegmentStatus::RemoteProcessing => "remote_processing"@,
            SegmentStatus::Conflict => "conflict"@,
            SegmentStatus::RemoteVerified => "remote_verified"@,
            SegmentStatus::CleanupPending => "cleanup_pending"@,
            SegmentStatus::Deleted => "deleted"@,
            SegmentStatus::Retained => "retained"@,
            SegmentStatus::Other(word) => word@,
        }
    }

    /// A word that stands for one of the named values.
    pub open spec fn known(word: Seq<char>) -> bool {
        ||| word == "queued"@
        ||| word == "uploading"@
        ||| word == "retry_wait"@
        ||| word == "uploaded_to_storage"@
        ||| word == "submitting"@
        ||| word == "submission_uncertain"@
        ||| word == "remote_processing"@
        ||| word == "conflict"@
        ||| word == "remote_verified"@
        ||| word == "cleanup_pending"@
        ||| word == "deleted"@
        ||| word == "retained"@
    }

    /// A word of a named value is kept as that value.
    pub open spec fn wf(self) -> bool {
        self matches SegmentStatus::Other(word) ==> !Self::known(word@)
    }

    /// Two values are the same one.
    pub open spec fn same_as(self, other: Self) -> bool {
        match (self, other) {
            (SegmentStatus::Other(a), SegmentStatus::Other(b)) => a@ == b@,
            _ => self == other,
        }
    }

    /// The word that stands for this value in the database.
    pub fn text(&self) -> (r: &str)
        ensures
            r@ == self.word(),
    {
        match self {
            SegmentStatus::Queued => "queued",
            SegmentStatus::Uploading => "uploading",
            SegmentStatus::RetryWait => "retry_wait",
            SegmentStatus::UploadedToStorage => "uploaded_to_storage",
            SegmentStatus::Submitting => "submitting",
            SegmentStatus::SubmissionUncertain => "submission_uncertain",
            SegmentStatus::RemoteProcessing => "remote_processing",
            SegmentStatus::Conflict => "conflict",
            SegmentStatus::RemoteVerified => "remote_verified",
            SegmentStatus::CleanupPending => "cleanup_pending",
            SegmentStatus::Deleted => "deleted",
            SegmentStatus::Retained => "retained",
            SegmentStatus::Other(word) => word.as_str(),
        }
    }

    /// The value that a word from the database stands for.
    pub fn parse(text: &str) -> (r: Self)
        ensures
            r.word() == text@,
            r.wf(),
    {
        if same(text, "queued") {
            return SegmentStatus::Queued;
        }
        if same(text, "uploading") {
            return SegmentStatus::Uploading;
        }
        if same(text, "retry_wait") {
            return SegmentStatus::RetryWait;
        }
        if same(text, "uploaded_to_storage") {
            return SegmentStatus::UploadedToStorage;
        }
        if same(text, "submitting") {
            return SegmentStatus::Submitting;
        }
        if same(text, "submission_uncertain") {
            return SegmentStatus::SubmissionUncertain;
        }
        if same(text, "remote_processing") {
            return SegmentStatus::RemoteProcessing;
        }
        if same(text, "conflict") {
            return SegmentStatus::Conflict;
        }
        if same(text, "remote_verified") {
            return SegmentStatus::RemoteVerified;
        }
        if same(text, "cleanup_pending") {
            return SegmentStatus::CleanupPending;
        }
        if same(text, "deleted") {
            return SegmentStatus::Deleted;
        }
        if same(text, "retained") {
            return SegmentStatus::Retained;
        }
        SegmentStatus::Other(text.to_owned())
    }
}

impl Clone for SegmentStatus {
    fn clone(&self) -> (r: Self)
        ensures
            r == *self,
    {
        match self {
            SegmentStatus::Queued => SegmentStatus::Queued,
            SegmentStatus::Uploading => SegmentStatus::Uploading,
            SegmentStatus::RetryWait => SegmentStatus::RetryWait,
            SegmentStatus::UploadedToStorage => SegmentStatus::UploadedToStorage,
            SegmentStatus::Submitting => SegmentStatus::Submitting,
            SegmentStatus::SubmissionUncertain => SegmentStatus::SubmissionUncertain,
            SegmentStatus::RemoteProcessing => SegmentStatus::RemoteProcessing,
            SegmentStatus::Conflict => SegmentStatus::Conflict,
            SegmentStatus::RemoteVerified => SegmentStatus::RemoteVerified,
            SegmentStatus::CleanupPending => SegmentStatus::CleanupPending,
            SegmentStatus::Deleted => SegmentStatus::Deleted,
            SegmentStatus::Retained => SegmentStatus::Retained,
            SegmentStatus::Other(word) => SegmentStatus::Other(word.clone()),
        }
    }
}

impl PartialEq for SegmentStatus {
    fn eq(&self, other: &Self) -> (r: bool) {
        match (self, other) {
            (SegmentStatus::Queued, SegmentStatus::Queued) => true,
            (SegmentStatus::Uploading, SegmentStatus::Uploading) => true,
            (SegmentStatus::RetryWait, SegmentStatus::RetryWait) => true,
            (SegmentStatus::UploadedToStorage, SegmentStatus::UploadedToStorage) => true,
            (SegmentStatus::Submitting, SegmentStatus::Submitting) => true,
            (SegmentStatus::SubmissionUncertain, SegmentStatus::SubmissionUncertain) => true,
            (SegmentStatus::RemoteProcessing, SegmentStatus::RemoteProcessing) => true,
            (SegmentStatus::Conflict, SegmentStatus::Conflict) => true,
            (SegmentStatus::RemoteVerified, SegmentStatus::RemoteVerified) => true,
            (SegmentStatus::CleanupPending, SegmentStatus::CleanupPending) => true,
            (SegmentStatus::Deleted, SegmentStatus::Deleted) => true,
            (SegmentStatus::Retained, SegmentStatus::Retained) => true,
            (SegmentStatus::Other(a), SegmentStatus::Other(b)) => same(a.as_str(), b.as_str()),
            _ => false,
        }
    }
}

impl PartialEqSpecImpl for SegmentStatus {
    open spec fn obeys_eq_spec() -> bool {
        true
    }

    open spec fn eq_spec(&self, other: &Self) -> bool {
        self.same_as(*other)
    }
}

impl Eq for SegmentStatus {

}

/// The state of an upload job, as the database keeps it.
#[derive(Debug)]
pub enum JobStatus {
    Queued,
    Uploading,
    RetryWait,
    SubmissionUncertain,
    Conflict,
    RemoteProcessing,
    RemoteVerified,
    Complete,
    /// A word that stands for none of these.
    Other(String),
}

impl JobStatus {
    /// The word that stands for this value in the database.
    pub open spec fn word(self) -> Seq<char> {
        match self {
            JobStatus::Queued => "queued"@,
            JobStatus::Uploading => "uploading"@,
            JobStatus::RetryWait => "retry_wait"@,
            JobStatus::SubmissionUncertain => "submission_uncertain"@,
            JobStatus::Conflict => "conflict"@,
            JobStatus::RemoteProcessing => "remote_processing"@,
            JobStatus::RemoteVerified => "remote_verified"@,
            JobStatus::Complete => "complete"@,
            JobStatus::Other(word) => word@,
        }
    }

    /// A word that stands for one of the named values.
    pub open spec fn known(word: Seq<char>) -> bool {
        ||| word == "queued"@
        ||| word == "uploading"@
        ||| word == "retry_wait"@
        ||| word == "submission_uncertain"@
        ||| word == "conflict"@
        ||| word == "remote_processing"@
        ||| word == "remote_verified"@
        ||| word == "complete"@
    }

    /// A word of a named value is kept as that value.
    pub open spec fn wf(self) -> bool {
        self matches JobStatus::Other(word) ==> !Self::known(word@)
    }

    /// Two values are the same one.
    pub open spec fn same_as(self, other: Self) -> bool {
        match (self, other) {
            (JobStatus::Other(a), JobStatus::Other(b)) => a@ == b@,
            _ => self == other,
        }
    }

    /// The word that stands for this value in the database.
    pub fn text(&self) -> (r: &str)
        ensures
            r@ == self.word(),
    {
        match self {
            JobStatus::Queued => "queued",
            JobStatus::Uploading => "uploading",
            JobStatus::RetryWait => "retry_wait",
            JobStatus::SubmissionUncertain => "submission_uncertain",
            JobStatus::Conflict => "conflict",
            JobStatus::RemoteProcessing => "remote_processing",
            JobStatus::RemoteVerified => "remote_verified",
            JobStatus::Complete => "complete",
            JobStatus::Other(word) => word.as_str(),
        }
    }

    /// The value that a word from the database stands for.
    pub fn parse(text: &str) -> (r: Self)
        ensures
            r.word() == text@,
            r.wf(),
    {
        if same(text, "queued") {
            return JobStatus::Queued;
        }
        if same(text, "uploading") {
            return JobStatus::Uploading;
        }
        if same(text, "retry_wait") {
            return JobStatus::RetryWait;
        }
        if same(text, "submission_uncertain") {
            return JobStatus::SubmissionUncertain;
        }
        if same(text, "conflict") {
            return JobStatus::Conflict;
        }
        if same(text, "remote_processing") {
            return JobStatus::RemoteProcessing;
        }
        if same(text, "remote_verified") {
            return JobStatus::RemoteVerified;
        }
        if same(text, "complete") {
            return JobStatus::Complete;
        }
        JobStatus::Other(text.to_owned())
    }
}

impl Clone for JobStatus {
    fn clone(&self) -> (r: Self)
        ensures
            r == *self,
    {
        match self {
            JobStatus::Queued => JobStatus::Queued,
            JobStatus::Uploading => JobStatus::Uploading,
            JobStatus::RetryWait => JobStatus::RetryWait,
            JobStatus::SubmissionUncertain => JobStatus::SubmissionUncertain,
            JobStatus::Conflict => JobStatus::Conflict,
            JobStatus::RemoteProcessing => JobStatus::RemoteProcessing,
            JobStatus::RemoteVerified => JobStatus::RemoteVerified,
            JobStatus::Complete => JobStatus::Complete,
            JobStatus::Other(word) => JobStatus::Other(word.clone()),
        }
    }
}

impl PartialEq for JobStatus {
    fn eq(&self, other: &Self) -> (r: bool) {
        match (self, other) {
            (JobStatus::Queued, JobStatus::Queued) => true,
            (JobStatus::Uploading, JobStatus::Uploading) => true,
            (JobStatus::RetryWait, JobStatus::RetryWait) => true,
            (JobStatus::SubmissionUncertain, JobStatus::SubmissionUncertain) => true,
            (JobStatus::Conflict, JobStatus::Conflict) => true,
            (JobStatus::RemoteProcessing, JobStatus::RemoteProcessing) => true,
            (JobStatus::RemoteVerified, JobStatus::RemoteVerified) => true,
            (JobStatus::Complete, JobStatus::Complete) => true,
            (JobStatus::Other(a), JobStatus::Other(b)) => same(a.as_str(), b.as_str()),
            _ => false,
        }
    }
}

impl PartialEqSpecImpl for JobStatus {
    open spec fn obeys_eq_spec() -> bool {
        true
    }

    open spec fn eq_spec(&self, other: &Self) -> bool {
        self.same_as(*other)
    }
}

impl Eq for JobStatus {

}

/// How far the local files of a part have been cleaned up, as the database keeps it.
#[derive(Debug)]
pub enum CleanupState {
    Pending,
    CleanupPending,
    Deleted,
    Retained,
    /// A word that stands for none of these.
    Other(String),
}

impl CleanupState {
    /// The word that stands for this value in the database.
    pub open spec fn word(self) -> Seq<char> {
        match self {
            CleanupState::Pending => "pending"@,
            CleanupState::CleanupPending => "cleanup_pending"@,
            CleanupState::Deleted => "deleted"@,
            CleanupState::Retained => "retained"@,
            CleanupState::Other(word) => word@,
        }
    }

    /// A word that stands for one of the named values.
    pub open spec fn known(word: Seq<char>) -> bool {
        ||| word == "pending"@
        ||| word == "cleanup_pending"@
        ||| word == "deleted"@
        ||| word == "retained"@
    }

    /// A word of a named value is kept as that value.
    pub open spec fn wf(self) -> bool {
        self matches CleanupState::Other(word) ==> !Self::known(word@)
    }

    /// Two values are the same one.
    pub open spec fn same_as(self, other: Self) -> bool {
        match (self, other) {
            (CleanupState::Other(a), CleanupState::Other(b)) => a@ == b@,
            _ => self == other,
        }
    }

    /// The word that stands for this value in the database.
    pub fn text(&self) -> (r: &str)
        ensures
            r@ == self.word(),
    {
        match self {
            CleanupState::Pending => "pending",
            CleanupState::CleanupPending => "cleanup_pending",
            CleanupState::Deleted => "deleted",
            CleanupState::Retained => "retained",
            CleanupState::Other(word) => word.as_str(),
        }
    }

    /// The value that a word from the database stands for.
    pub fn parse(text: &str) -> (r: Self)
        ensures
            r.word() == text@,
            r.wf(),
    {
        if same(text, "pending") {
            return CleanupState::Pending;
        }
        if same(text, "cleanup_pending") {
            return CleanupState::CleanupPending;
        }
        if same(text, "deleted") {
            return CleanupState::Deleted;
        }
        if same(text, "retained") {
            return CleanupState::Retained;
        }
        CleanupState::Other(text.to_owned())
    }
}

impl Clone for CleanupState {
    fn clone(&self) -> (r: Self)
        ensures
            r == *self,
    {
        match self {
            CleanupState::Pending => CleanupState::Pending,
            CleanupState::CleanupPending => CleanupState::CleanupPending,
            CleanupState::Deleted => CleanupState::Deleted,
            CleanupState::Retained => CleanupState::Retained,
            CleanupState::Other(word) => CleanupState::Other(word.clone()),
        }
    }
}

impl PartialEq for CleanupState {
    fn eq(&self, other: &Self) -> (r: bool) {
        match (self, other) {
            (CleanupState::Pending, CleanupState::Pending) => true,
            (CleanupState::CleanupPending, CleanupState::CleanupPending) => true,
            (CleanupState::Deleted, CleanupState::Deleted) => true,
            (CleanupState::Retained, CleanupState::Retained) => true,
            (CleanupState::Other(a), CleanupState::Other(b)) => same(a.as_str(), b.as_str()),
            _ => false,
        }
    }
}

impl PartialEqSpecImpl for CleanupState {
    open spec fn obeys_eq_spec() -> bool {
        true
    }

    open spec fn eq_spec(&self, other: &Self) -> bool {
        self.same_as(*other)
    }
}

impl Eq for CleanupState {

}

/// Reading back the word of a session state gives the state, so no two states share a word.
pub proof fn law_session_words_differ(a: SessionStatus, b: SessionStatus)
    requires
        a.wf() && b.wf(),
        a.word() == b.word(),
    ensures
        a.same_as(b),
{
    reveal_strlit("recording");
    assert("recording"@.len() == 9);
    assert("recording"@[2] == 'c');
    reveal_strlit("retrying");
    assert("retrying"@.len() == 8);
    assert("retrying"@[2] == 't');
    reveal_strlit("recording_complete");
    assert("recording_complete"@.len() == 18);
    assert("recording_complete"@[2] == 'c');
    reveal_strlit("complete");
    assert("complete"@.len() == 8);
    assert("complete"@[2] == 'm');
    reveal_strlit("conflict");
    assert("conflict"@.len() == 8);
    assert("conflict"@[2] == 'n');
    reveal_strlit("submission_uncertain");
    assert("submission_uncertain"@.len() == 20);
    assert("submission_uncertain"@[2] == 'b');
    assert(a.word().len() == b.word().len());
    assert(a.word()[2] == b.word()[2]);
}

/// Reading back the word of a submission state gives the state, so no two states share a word.
pub proof fn law_submit_words_differ(a: SubmitState, b: SubmitState)
    requires
        a.wf() && b.wf(),
        a.word() == b.word(),
    ensures
        a.same_as(b),
{
    reveal_strlit("new");
    assert("new"@.len() == 3);
    reveal_strlit("submitting");
    assert("submitting"@.len() == 10);
    reveal_strlit("uncertain");
    assert("uncertain"@.len() == 9);
    reveal_strlit("created");
    assert("created"@.len() == 7);
    assert(a.word().len() == b.word().len());
}

/// Reading back the word of a part state gives the state, so no two states share a word.
pub proof fn law_segment_words_differ(a: SegmentStatus, b: SegmentStatus)
    requires
        a.wf() && b.wf(),
        a.word() == b.word(),
    ensures
        a.same_as(b),
{
    reveal_strlit("queued");
    assert("queued"@.len() == 6);
    assert("queued"@[0] == 'q');
    reveal_strlit("uploading");
    assert("uploading"@.len() == 9);
    assert("uploading"@[0] == 'u');
    reveal_strlit("retry_wait");
    assert("retry_wait"@.len() == 10);
    assert("retry_wait"@[0] == 'r');
    reveal_strlit("uploaded_to_storage");
    assert("uploaded_to_storage"@.len() == 19);
    assert("uploaded_to_storage"@[0] == 'u');
    reveal_strlit("submitting");
    assert("submitting"@.len() == 10);
    assert("submitting"@[0] == 's');
    reveal_strlit("submission_uncertain");
    assert("submission_uncertain"@.len() == 20);
    assert("submission_uncertain"@[0] == 's');
    reveal_strlit("remote_processing");
    assert("remote_processing"@.len() == 17);
    assert("remote_processing"@[0] == 'r');
    reveal_strlit("conflict");
    assert("conflict"@.len() == 8);
    assert("conflict"@[0] == 'c');
    reveal_strlit("remote_verified");
    assert("remote_verified"@.len() == 15);
    assert("remote_verified"@[0] == 'r');
    reveal_strlit("cleanup_pending");
    assert("cleanup_pending"@.len() == 15);
    assert("cleanup_pending"@[0] == 'c');
    reveal_strlit("deleted");
    assert("deleted"@.len() == 7);
    assert("deleted"@[0] == 'd');
    reveal_strlit("retained");
    assert("retained"@.len() == 8);
    assert("retained"@[0] == 'r');
    assert(a.word().len() == b.word().len());
    assert(a.word()[0] == b.word()[0]);
}

/// Reading back the word of a job state gives the state, so no two states share a word.
pub proof fn law_job_words_differ(a: JobStatus, b: JobStatus)
    requires
        a.wf() && b.wf(),
        a.word() == b.word(),
    ensures
        a.same_as(b),
{
    reveal_strlit("queued");
    assert("queued"@.len() == 6);
    assert("queued"@[2] == 'e');
    reveal_strlit("uploading");
    assert("uploading"@.len() == 9);
    assert("uploading"@[2] == 'l');
    reveal_strlit("retry_wait");
    assert("retry_wait"@.len() == 10);
    assert("retry_wait"@[2] == 't');
    reveal_strlit("submission_uncertain");
    assert("submission_uncertain"@.len() == 20);
    assert("submission_uncertain"@[2] == 'b');
    reveal_strlit("conflict");
    assert("conflict"@.len() == 8);
    assert("conflict"@[2] == 'n');
    reveal_strlit("remote_processing");
    assert("remote_processing"@.len() == 17);
    assert("remote_processing"@[2] == 'm');
    reveal_strlit("remote_verified");
    assert("remote_verified"@.len() == 15);
    assert("remote_verified"@[2] == 'm');
    reveal_strlit("complete");
    assert("complete"@.len() == 8);
    assert("complete"@[2] == 'm');
    assert(a.word().len() == b.word().len());
    assert(a.word()[2] == b.word()[2]);
}

} // verus!
