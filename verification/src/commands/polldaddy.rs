//! Polldaddy voting jobs: who may start one, how far one has come, and the
//! replies of the command.

use crate::util::{
    decimal,
    format_u64,
    instant_now,
    nanos_since,
    parse_usize,
    parse_usize_spec,
    push_str,
    string_from_chars,
};
use std::collections::HashMap;
use std::time::Instant;
use vstd::prelude::*;

verus! {

/// The votes a job sends.
pub const VOTES_PER_JOB: u64 = 100;

/// The seconds between two votes.
pub const DELAY_PER_VOTE: u64 = 10;

/// How long, in nanoseconds, a job waits for its answer before it expires:
/// ten minutes.
pub const JOB_TIMEOUT_NANOS: u64 = 600_000_000_000;

/// Why a job could not be started.
#[derive(Debug, Clone, Copy, PartialEq, Eq, Structural)]
pub enum JobError {
    /// The user already has a job, for the quiz with this id.
    QuotaUsed(u32),
    /// Another job for the quiz is running.
    Occupied,
}

/// Decide whether `user` may start a job for a quiz. `user_job` is the quiz
/// of the user's job, if they have one; `quiz_job_expired` says, if the quiz
/// has a job, whether it has expired. A user has one job at a time, and a
/// quiz one job that has not expired.
pub fn check_new_job(user_job: Option<u32>, quiz_job_expired: Option<bool>) -> (res: Result<
    (),
    JobError,
>)
    ensures
        user_job matches Some(id) ==> res == Err::<(), JobError>(JobError::QuotaUsed(id)),
        user_job is None && quiz_job_expired == Some(false) ==> res == Err::<(), JobError>(
            JobError::Occupied,
        ),
        user_job is None && quiz_job_expired != Some(false) ==> res == Ok::<(), JobError>(()),
{
    if let Some(id) = user_job {
        return Err(JobError::QuotaUsed(id));
    }
    if let Some(expired) = quiz_job_expired {
        if !expired {
            return Err(JobError::Occupied);
        }
    }
    Ok(())
}

/// A voting job of a user for a quiz.
#[derive(Debug)]
pub struct Job {
    quiz_id: u32,
    answer_count: usize,
    answer_index: Option<usize>,
    start: Instant,
    user: u64,
    count: u64,
    response: Option<String>,
    in_progress: bool,
}

/// A job as plain values: the quiz id, the number of answers, the chosen
/// answer, the user, the votes sent, the summary of the last response, and
/// whether voting has started.
pub type JobView = (u32, usize, Option<usize>, u64, u64, Option<Seq<char>>, bool);

impl View for Job {
    type V = JobView;

    /// The job as plain values.
    closed spec fn view(&self) -> JobView {
        (
            self.quiz_id,
            self.answer_count,
            self.answer_index,
            self.user,
            self.count,
            match self.response {
                Some(r) => Some(r@),
                None => None,
            },
            self.in_progress,
        )
    }
}

impl Job {
    /// A job never sends more than its votes.
    #[verifier::type_invariant]
    closed spec fn wf(self) -> bool {
        self.count <= VOTES_PER_JOB
    }

    /// The votes sent so far.
    pub closed spec fn votes_sent(&self) -> u64 {
        self.count
    }

    /// A new job of `user` for the quiz `quiz_id`, which has `answer_count`
    /// answers: no vote sent, not started.
    pub fn new(quiz_id: u32, answer_count: usize, user: u64) -> (res: Self)
        ensures
            res.view() == (quiz_id, answer_count, None::<usize>, user, 0u64, None::<Seq<char>>, false),
    {
        Job {
            quiz_id,
            answer_count,
            answer_index: None,
            start: instant_now(),
            user,
            count: 0,
            response: None,
            in_progress: false,
        }
    }

    /// The quiz's id.
    pub fn quiz_id(&self) -> (res: u32)
        ensures
            res == self.view().0,
    {
        self.quiz_id
    }

    /// The number of answers of the quiz.
    pub fn answer_count(&self) -> (res: usize)
        ensures
            res == self.view().1,
    {
        self.answer_count
    }

    /// The user of the job.
    pub fn user(&self) -> (res: u64)
        ensures
            res == self.view().3,
    {
        self.user
    }

    /// Voting has started.
    pub fn in_progress(&self) -> (res: bool)
        ensures
            res == self.view().6,
    {
        self.in_progress
    }

    /// The job has expired `elapsed` nanoseconds after it was made: no
    /// answer was chosen, and more than ten minutes have passed.
    pub fn expired_after(&self, elapsed: u64) -> (res: bool)
        ensures
            res == (self.view().2 is None && elapsed > JOB_TIMEOUT_NANOS),
    {
        self.answer_index.is_none() && elapsed > JOB_TIMEOUT_NANOS
    }

    /// The job has expired: no answer was chosen, and more than ten minutes
    /// have passed since it was made.
    pub fn expired(&self) -> (res: bool)
        ensures
            res ==> self.view().2 is None,
    {
        let elapsed = nanos_since(&self.start);
        self.expired_after(elapsed)
    }

    /// The votes left to send.
    pub fn get_votes_remaining(&self) -> (res: u64)
        ensures
            res == VOTES_PER_JOB - self.view().4,
    {
        proof {
            use_type_invariant(self);
        }
        VOTES_PER_JOB - self.count
    }

    /// The seconds left until every vote is sent.
    pub fn get_estimated_time_remaining(&self) -> (res: u64)
        ensures
            res == (VOTES_PER_JOB - self.view().4) * DELAY_PER_VOTE,
    {
        let remaining = self.get_votes_remaining();
        remaining * DELAY_PER_VOTE
    }

    /// Mark the job as started.
    pub fn start(&mut self)
        ensures
            final(self).view() == (
                old(self).view().0,
                old(self).view().1,
                old(self).view().2,
                old(self).view().3,
                old(self).view().4,
                old(self).view().5,
                true,
            ),
    {
        proof {
            use_type_invariant(&*self);
        }
        self.in_progress = true;
    }

    /// Count one vote sent, and keep the summary of its response if it
    /// brought one.
    pub fn record_vote(&mut self, response: Option<String>)
        requires
            old(self).view().4 < VOTES_PER_JOB,
        ensures
            final(self).view() == (
                old(self).view().0,
                old(self).view().1,
                old(self).view().2,
                old(self).view().3,
                (old(self).view().4 + 1) as u64,
                match response {
                    Some(r) => Some(r@),
                    None => old(self).view().5,
                },
                old(self).view().6,
            ),
    {
        proof {
            use_type_invariant(&*self);
        }
        if let Some(r) = response {
            self.response = Some(r);
        }
        self.count = self.count + 1;
    }

    /// The job described in chat: the votes sent, the time left as
    /// minutes and seconds, and the last results, if any.
    pub fn info_text(&self) -> (res: String)
        ensures
            res@ == job_info_text(self.view()),
    {
        proof {
            use_type_invariant(self);
        }
        let secs = self.get_estimated_time_remaining();
        let mut out: Vec<char> = Vec::new();
        push_str(&mut out, "**Job Info**\nVotes sent: ");
        let sent = format_u64(self.count);
        push_str(&mut out, sent.as_str());
        push_str(&mut out, "\nEstimated time remaining: ");
        push_two_digits(&mut out, secs / 60);
        push_str(&mut out, ":");
        push_two_digits(&mut out, secs % 60);
        push_str(&mut out, "\n\n");
        match &self.response {
            Some(r) => {
                push_str(&mut out, r.as_str());
                push_str(&mut out, "\n");
            },
            None => {},
        }
        string_from_chars(&out)
    }
}

/// `n` in decimal with at least two digits, as `{:02}` writes it.
pub open spec fn two_digits(n: nat) -> Seq<char> {
    if n < 10 {
        "0"@ + decimal(n)
    } else {
        decimal(n)
    }
}

fn push_two_digits(out: &mut Vec<char>, n: u64)
    ensures
        final(out)@ == old(out)@ + two_digits(n as nat),
{
    if n < 10 {
        push_str(out, "0");
    }
    let d = format_u64(n);
    push_str(out, d.as_str());
    assert(out@ =~= old(out)@ + two_digits(n as nat));
}

/// The text of a job's description.
pub open spec fn job_info_text(j: JobView) -> Seq<char> {
    let secs = (VOTES_PER_JOB - j.4) * DELAY_PER_VOTE;
    "**Job Info**\nVotes sent: "@ + decimal(j.4 as nat) + "\nEstimated time remaining: "@
        + two_digits((secs / 60) as nat) + ":"@ + two_digits((secs % 60) as nat) + "\n\n"@
        + match j.5 {
        Some(r) => r + "\n"@,
        None => Seq::empty(),
    }
}

/// What the argument of the command is.
#[derive(Debug, Clone, Copy, PartialEq, Eq, Structural)]
pub enum PollInput {
    /// It reads both as a url and as a number.
    Both,
    /// A quiz's url: scan it.
    Url,
    /// An answer's number: vote for it.
    Answer(usize),
    /// Neither a url nor a number.
    Neither,
}

/// Tell apart the argument of the command, given whether it reads as a url.
pub fn classify_input(arg: &str, is_url: bool) -> (res: PollInput)
    ensures
        res == match (is_url, parse_usize_spec(arg@)) {
            (true, Some(_)) => PollInput::Both,
            (true, None) => PollInput::Url,
            (false, Some(n)) => PollInput::Answer(n),
            (false, None) => PollInput::Neither,
        },
{
    match (is_url, parse_usize(arg)) {
        (true, Some(_)) => PollInput::Both,
        (true, None) => PollInput::Url,
        (false, Some(n)) => PollInput::Answer(n),
        (false, None) => PollInput::Neither,
    }
}

/// Check an answer's number, `1` to `answer_count`, and give its index; or
/// the reply that says which numbers are valid.
pub fn check_answer(answer_index: usize, answer_count: usize) -> (res: Result<usize, String>)
    ensures
        1 <= answer_index <= answer_count ==> res == Ok::<usize, String>(
            (answer_index - 1) as usize,
        ),
        !(1 <= answer_index <= answer_count) ==> (res matches Err(msg) && msg@
            == "Invalid Option. Choose an option from 1 to "@ + decimal(answer_count as nat)),
{
    if answer_index < 1 || answer_index > answer_count {
        let mut out: Vec<char> = Vec::new();
        push_str(&mut out, "Invalid Option. Choose an option from 1 to ");
        let d = format_u64(answer_count as u64);
        push_str(&mut out, d.as_str());
        return Err(string_from_chars(&out));
    }
    Ok(answer_index - 1)
}

/// The reply when the user has no job to vote with.
pub const NO_JOB_MSG: &'static str = "You do not have a job yet, use `polldaddy <url>` to start.";

/// The reply when the user's job is already voting.
pub const JOB_ALREADY_STARTED_MSG: &'static str = "You have already started a job. Use `polldaddy info` to view the progress.";

/// The reply when a job starts voting.
pub const STARTING_JOB_MSG: &'static str = "Starting job. Use `polldaddy info` to view the progress.";

/// The reply when the user asks about a job they do not have.
pub const NO_RUNNING_JOBS_MSG: &'static str = "You have no running jobs.";

/// Decide a request to vote for answer number `answer_index` with the
/// user's job: refused without a job, or if the job is already voting, or if
/// the number is not one of the quiz's answers; else the index of the
/// answer to vote for.
pub fn spam_request(job: Option<&Job>, answer_index: usize) -> (res: Result<usize, String>)
    ensures
        match job {
            None => res matches Err(m) && m@ == NO_JOB_MSG@,
            Some(j) => if j.view().6 {
                res matches Err(m) && m@ == JOB_ALREADY_STARTED_MSG@
            } else if 1 <= answer_index <= j.view().1 {
                res == Ok::<usize, String>((answer_index - 1) as usize)
            } else {
                res matches Err(m) && m@ == "Invalid Option. Choose an option from 1 to "@
                    + decimal(j.view().1 as nat)
            },
        },
{
    match job {
        None => Err(String::from_str(NO_JOB_MSG)),
        Some(j) => {
            if j.in_progress() {
                Err(String::from_str(JOB_ALREADY_STARTED_MSG))
            } else {
                check_answer(answer_index, j.answer_count())
            }
        },
    }
}

/// The reply to a request for a job's progress.
pub fn info_reply(job: Option<&Job>) -> (res: String)
    ensures
        match job {
            None => res@ == NO_RUNNING_JOBS_MSG@,
            Some(j) => res@ == job_info_text(j.view()),
        },
{
    match job {
        None => String::from_str(NO_RUNNING_JOBS_MSG),
        Some(j) => j.info_text(),
    }
}

/// The line added below a scanned quiz, after asking for a job.
pub fn job_request_reply(res: Result<(), JobError>) -> (msg: &'static str)
    ensures
        msg@ == match res {
            Ok(()) => "Use `polldaddy <option_number>` to select an answer."@,
            Err(JobError::QuotaUsed(_)) => "You have reached your quota; wait for your jobs to finish"@,
            Err(JobError::Occupied) => "A job is already running for this quiz for another user, so you cannot request another."@,
        },
{
    match res {
        Ok(()) => "Use `polldaddy <option_number>` to select an answer.",
        Err(JobError::QuotaUsed(_)) => "You have reached your quota; wait for your jobs to finish",
        Err(JobError::Occupied) => "A job is already running for this quiz for another user, so you cannot request another.",
    }
}

/// The reply once every vote of a job is sent.
pub fn votes_sent_message() -> (res: String)
    ensures
        res@ == "Sent "@ + decimal(VOTES_PER_JOB as nat) + " votes"@,
{
    let mut out: Vec<char> = Vec::new();
    push_str(&mut out, "Sent ");
    let d = format_u64(VOTES_PER_JOB);
    push_str(&mut out, d.as_str());
    push_str(&mut out, " votes");
    string_from_chars(&out)
}

/// A quiz, with its values already written out: its id, hash, whether it is
/// closed, its referer, its `va` value, and each answer's text and code.
#[derive(Debug, Clone)]
pub struct QuizText {
    pub id: u32,
    pub hash: String,
    pub closed: bool,
    pub referer: String,
    pub va: String,
    pub answers: Vec<(String, String)>,
}

/// The lines that list the answers, numbered from one.
pub open spec fn answer_lines(answers: Seq<(String, String)>) -> Seq<char>
    decreases answers.len(),
{
    if answers.len() == 0 {
        Seq::empty()
    } else {
        answer_lines(answers.drop_last()) + decimal(answers.len()) + ") "@ + answers.last().0@
            + " | Code "@ + answers.last().1@ + "\n"@
    }
}

/// The text of a quiz as the command shows it.
pub open spec fn quiz_text(q: QuizText) -> Seq<char> {
    "\nQuiz\nQuiz Id: "@ + decimal(q.id as nat) + "\nQuiz Hash: "@ + q.hash@ + "\nQuiz Closed: "@
        + (if q.closed {
        "true"@
    } else {
        "false"@
    }) + "\nQuiz Referer: "@ + q.referer@ + "\nQuiz Va: "@ + q.va@ + "\n\nAnswers: \n"@
        + answer_lines(q.answers@) + "\n"@
}

/// Describe a quiz: its id, hash, state, referer and `va`, then its answers
/// numbered from one with their codes.
pub fn format_quiz(q: &QuizText) -> (res: String)
    ensures
        res@ == quiz_text(*q),
{
    let mut out: Vec<char> = Vec::new();
    push_str(&mut out, "\nQuiz\nQuiz Id: ");
    push_str(&mut out, format_u64(q.id as u64).as_str());
    push_str(&mut out, "\nQuiz Hash: ");
    push_str(&mut out, q.hash.as_str());
    push_str(&mut out, "\nQuiz Closed: ");
    push_str(&mut out, if q.closed {
        "true"
    } else {
        "false"
    });
    push_str(&mut out, "\nQuiz Referer: ");
    push_str(&mut out, q.referer.as_str());
    push_str(&mut out, "\nQuiz Va: ");
    push_str(&mut out, q.va.as_str());
    push_str(&mut out, "\n\nAnswers: \n");
    let ghost head = out@;
    let mut i: usize = 0;
    while i < q.answers.len()
        invariant
            0 <= i <= q.answers.len(),
            out@ == head + answer_lines(q.answers@.take(i as int)),
        decreases q.answers.len() - i,
    {
        proof {
            assert(q.answers@.take(i + 1).drop_last() =~= q.answers@.take(i as int));
        }
        push_str(&mut out, format_u64((i + 1) as u64).as_str());
        push_str(&mut out, ") ");
        push_str(&mut out, q.answers[i].0.as_str());
        push_str(&mut out, " | Code ");
        push_str(&mut out, q.answers[i].1.as_str());
        push_str(&mut out, "\n");
        assert(out@ =~= head + answer_lines(q.answers@.take(i + 1)));
        i = i + 1;
    }
    assert(q.answers@.take(q.answers.len() as int) =~= q.answers@);
    push_str(&mut out, "\n");
    string_from_chars(&out)
}

/// The results of a vote, with their values already written out: for each
/// answer its text, votes and percentage, or the error met reading it; and
/// the total of votes.
#[derive(Debug, Clone)]
pub struct VoteResultsText {
    pub answers: Vec<Result<(String, String, String), String>>,
    pub total_votes: String,
}

/// The lines of the results, numbered from one.
pub open spec fn result_lines(answers: Seq<Result<(String, String, String), String>>) -> Seq<char>
    decreases answers.len(),
{
    if answers.len() == 0 {
        Seq::empty()
    } else {
        let n = decimal(answers.len());
        result_lines(answers.drop_last()) + match answers.last() {
            Ok((text, votes, percent)) => n + ") "@ + text@ + " | "@ + votes@ + " votes | "@
                + percent@ + "%\n"@,
            Err(e) => n + ") Failed to parse, got error: "@ + e@ + "\n"@,
        }
    }
}

/// Describe the results of a vote: one line per answer, then the total.
pub fn format_html_response(r: &VoteResultsText) -> (res: String)
    ensures
        res@ == result_lines(r.answers@) + "\nTotal Votes: "@ + r.total_votes@ + " votes\n"@,
{
    let mut out: Vec<char> = Vec::new();
    let mut i: usize = 0;
    while i < r.answers.len()
        invariant
            0 <= i <= r.answers.len(),
            out@ == result_lines(r.answers@.take(i as int)),
        decreases r.answers.len() - i,
    {
        proof {
            assert(r.answers@.take(i + 1).drop_last() =~= r.answers@.take(i as int));
        }
        push_str(&mut out, format_u64((i + 1) as u64).as_str());
        match &r.answers[i] {
            Ok((text, votes, percent)) => {
                push_str(&mut out, ") ");
                push_str(&mut out, text.as_str());
                push_str(&mut out, " | ");
                push_str(&mut out, votes.as_str());
                push_str(&mut out, " votes | ");
                push_str(&mut out, percent.as_str());
                push_str(&mut out, "%\n");
            },
            Err(e) => {
                push_str(&mut out, ") Failed to parse, got error: ");
                push_str(&mut out, e.as_str());
                push_str(&mut out, "\n");
            },
        }
        assert(out@ =~= result_lines(r.answers@.take(i + 1)));
        i = i + 1;
    }
    assert(r.answers@.take(r.answers.len() as int) =~= r.answers@);
    push_str(&mut out, "\nTotal Votes: ");
    push_str(&mut out, r.total_votes.as_str());
    push_str(&mut out, " votes\n");
    string_from_chars(&out)
}

/// The jobs of all users, as plain values: the jobs by quiz id, and the quiz
/// of each user's job.
pub type RegistryView = (Map<u32, JobView>, Map<u64, u32>);

/// The view of a new job of `user` for quiz `quiz_id` with `answer_count`
/// answers.
pub open spec fn new_job_view(quiz_id: u32, answer_count: usize, user: u64) -> JobView {
    (quiz_id, answer_count, None, user, 0, None, false)
}

/// The job of `user`, if they have one and it is registered.
pub open spec fn job_of_user(r: RegistryView, user: u64) -> Option<JobView> {
    if r.1.contains_key(user) && r.0.contains_key(r.1[user]) {
        Some(r.0[r.1[user]])
    } else {
        None
    }
}

/// The registry once `user` has started a job for quiz `quiz_id`.
pub open spec fn registry_insert(r: RegistryView, quiz_id: u32, answer_count: usize, user: u64) -> RegistryView {
    (r.0.insert(quiz_id, new_job_view(quiz_id, answer_count, user)), r.1.insert(user, quiz_id))
}

/// The registry once the job of `user` is removed: the user's entry, and the
/// job of the quiz it names.
pub open spec fn registry_remove_user(r: RegistryView, user: u64) -> RegistryView {
    if r.1.contains_key(user) {
        (r.0.remove(r.1[user]), r.1.remove(user))
    } else {
        r
    }
}

/// A job just registered for a user is the job found for that user, and a
/// user whose job was removed has no job.
pub proof fn lemma_registry_user_job(r: RegistryView, quiz_id: u32, answer_count: usize, user: u64)
    ensures
        job_of_user(registry_insert(r, quiz_id, answer_count, user), user) == Some(
            new_job_view(quiz_id, answer_count, user),
        ),
        job_of_user(registry_remove_user(r, user), user) is None,
{
}

/// The running polldaddy jobs: each quiz has at most one job, each user at
/// most one.
#[derive(Debug)]
pub struct JobRegistry {
    jobs: HashMap<u32, Job>,
    user_jobs: HashMap<u64, u32>,
}

impl View for JobRegistry {
    type V = RegistryView;

    /// The registry as plain values.
    closed spec fn view(&self) -> RegistryView {
        (self.jobs@.map_values(|j: Job| j.view()), self.user_jobs@)
    }
}

impl JobRegistry {
    /// An empty registry.
    pub fn new() -> (res: Self)
        ensures
            res.view().0 == Map::<u32, JobView>::empty(),
            res.view().1 == Map::<u64, u32>::empty(),
    {
        let res = JobRegistry { jobs: HashMap::new(), user_jobs: HashMap::new() };
        assert(res.jobs@.map_values(|j: Job| j.view()) =~= Map::<u32, JobView>::empty());
        res
    }

    /// Register a job of `user` for quiz `quiz_id`, given whether the quiz's
    /// current job, if it has one, has expired. A user with a job may not
    /// start another; a quiz whose job has not expired may not get another.
    pub fn insert_job_given(
        &mut self,
        quiz_id: u32,
        answer_count: usize,
        user: u64,
        quiz_job_expired: bool,
    ) -> (res: Result<(), JobError>)
        ensures
            old(self).view().1.contains_key(user) ==> res == Err::<(), JobError>(
                JobError::QuotaUsed(old(self).view().1[user]),
            ) && final(self).view() == old(self).view(),
            !old(self).view().1.contains_key(user) && old(self).view().0.contains_key(quiz_id)
                && !quiz_job_expired ==> res == Err::<(), JobError>(JobError::Occupied)
                && final(self).view() == old(self).view(),
            !old(self).view().1.contains_key(user) && !(old(self).view().0.contains_key(quiz_id)
                && !quiz_job_expired) ==> res == Ok::<(), JobError>(()) && final(self).view()
                == registry_insert(old(self).view(), quiz_id, answer_count, user),
    {
        broadcast use vstd::std_specs::hash::group_hash_axioms;

        match self.user_jobs.get(&user) {
            Some(id) => {
                return Err(JobError::QuotaUsed(*id));
            },
            None => {},
        }
        if self.jobs.contains_key(&quiz_id) && !quiz_job_expired {
            return Err(JobError::Occupied);
        }
        self.user_jobs.insert(user, quiz_id);
        let job = Job::new(quiz_id, answer_count, user);
        let ghost jv = job.view();
        self.jobs.insert(quiz_id, job);
        assert(self.jobs@.map_values(|j: Job| j.view()) =~= old(self).jobs@.map_values(
            |j: Job| j.view(),
        ).insert(quiz_id, jv));
        Ok(())
    }

    /// Register a job of `user` for quiz `quiz_id`. Whether the quiz's
    /// current job has expired is read from the clock.
    pub fn insert_job(&mut self, quiz_id: u32, answer_count: usize, user: u64) -> (res: Result<
        (),
        JobError,
    >)
        ensures
            old(self).view().1.contains_key(user) ==> res == Err::<(), JobError>(
                JobError::QuotaUsed(old(self).view().1[user]),
            ) && final(self).view() == old(self).view(),
            !old(self).view().1.contains_key(user) && !old(self).view().0.contains_key(quiz_id)
                ==> res == Ok::<(), JobError>(()) && final(self).view() == registry_insert(
                old(self).view(),
                quiz_id,
                answer_count,
                user,
            ),
            res is Ok ==> final(self).view() == registry_insert(
                old(self).view(),
                quiz_id,
                answer_count,
                user,
            ),
            res is Err ==> final(self).view() == old(self).view(),
            res == Err::<(), JobError>(JobError::Occupied) ==> old(self).view().0.contains_key(
                quiz_id,
            ),
    {
        broadcast use vstd::std_specs::hash::group_hash_axioms;

        let expired = match self.jobs.get(&quiz_id) {
            Some(job) => job.expired(),
            None => true,
        };
        self.insert_job_given(quiz_id, answer_count, user, expired)
    }

    /// The job of `user`.
    pub fn get_job_by_user(&self, user: u64) -> (res: Option<&Job>)
        ensures
            match res {
                Some(j) => job_of_user(self.view(), user) == Some(j.view()),
                None => job_of_user(self.view(), user) is None,
            },
    {
        broadcast use vstd::std_specs::hash::group_hash_axioms;

        match self.user_jobs.get(&user) {
            Some(id) => self.jobs.get(id),
            None => None,
        }
    }

    /// Mark the job of `user` as started. Returns whether they have one.
    pub fn start_job_of(&mut self, user: u64) -> (res: bool)
        ensures
            res == job_of_user(old(self).view(), user) is Some,
            final(self).view().1 == old(self).view().1,
            match job_of_user(old(self).view(), user) {
                Some(j) => final(self).view().0 == old(self).view().0.insert(
                    old(self).view().1[user],
                    (j.0, j.1, j.2, j.3, j.4, j.5, true),
                ),
                None => final(self).view() == old(self).view(),
            },
    {
        broadcast use vstd::std_specs::hash::group_hash_axioms;

        let id = match self.user_jobs.get(&user) {
            Some(id) => *id,
            None => {
                return false;
            },
        };
        match self.jobs.remove(&id) {
            Some(job) => {
                let mut job = job;
                job.start();
                let ghost jv = job.view();
                self.jobs.insert(id, job);
                assert(self.jobs@.map_values(|j: Job| j.view()) =~= old(self).jobs@.map_values(
                    |j: Job| j.view(),
                ).insert(id, jv));
                true
            },
            None => {
                assert(self.jobs@ =~= old(self).jobs@);
                false
            },
        }
    }

    /// Count one vote sent by the job of `user`, keeping the summary of its
    /// response if it brought one. Returns whether they have a job.
    pub fn record_vote_of(&mut self, user: u64, response: Option<String>) -> (res: bool)
        requires
            job_of_user(old(self).view(), user) matches Some(j) ==> j.4 < VOTES_PER_JOB,
        ensures
            res == job_of_user(old(self).view(), user) is Some,
            final(self).view().1 == old(self).view().1,
            match job_of_user(old(self).view(), user) {
                Some(j) => final(self).view().0 == old(self).view().0.insert(
                    old(self).view().1[user],
                    (
                        j.0,
                        j.1,
                        j.2,
                        j.3,
                        (j.4 + 1) as u64,
                        match response {
                            Some(r) => Some(r@),
                            None => j.5,
                        },
                        j.6,
                    ),
                ),
                None => final(self).view() == old(self).view(),
            },
    {
        broadcast use vstd::std_specs::hash::group_hash_axioms;

        let id = match self.user_jobs.get(&user) {
            Some(id) => *id,
            None => {
                return false;
            },
        };
        match self.jobs.remove(&id) {
            Some(job) => {
                let mut job = job;
                job.record_vote(response);
                let ghost jv = job.view();
                self.jobs.insert(id, job);
                assert(self.jobs@.map_values(|j: Job| j.view()) =~= old(self).jobs@.map_values(
                    |j: Job| j.view(),
                ).insert(id, jv));
                true
            },
            None => {
                assert(self.jobs@ =~= old(self).jobs@);
                false
            },
        }
    }

    /// Remove the job of `user`: the user's entry goes, then the job of the
    /// quiz it names. Returns the quiz id and the job, if both were there.
    pub fn remove_job_by_user(&mut self, user: u64) -> (res: Option<(u32, Job)>)
        ensures
            final(self).view() == registry_remove_user(old(self).view(), user),
            match res {
                Some((id, j)) => old(self).view().1.contains_key(user) && old(self).view().1[user]
                    == id && job_of_user(old(self).view(), user) == Some(j.view()),
                None => job_of_user(old(self).view(), user) is None,
            },
    {
        broadcast use vstd::std_specs::hash::group_hash_axioms;

        let id = match self.user_jobs.remove(&user) {
            Some(id) => id,
            None => {
                return None;
            },
        };
        let removed = self.jobs.remove(&id);
        assert(self.jobs@.map_values(|j: Job| j.view()) =~= old(self).jobs@.map_values(
            |j: Job| j.view(),
        ).remove(id));
        match removed {
            Some(job) => Some((id, job)),
            None => None,
        }
    }
}

} // verus!
