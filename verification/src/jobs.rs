//! Background jobs: what is known of each, and the store that keeps them.

use vstd::hash_map::StringHashMap;
use vstd::prelude::*;
use vstd::string::*;

use crate::text::{write_decimal, write_signed_decimal};

verus! {

/// How many background jobs a store takes in.
pub const MAX_JOBS: usize = 64;

/// What is known of a background job.
#[derive(Debug)]
pub struct JobStatus {
    pub state: &'static str,
    pub exit_code: Option<i32>,
    pub stdout: String,
    pub stderr: String,
}

/// What a `JobStatus` says.
pub ghost struct Job {
    pub state: Seq<char>,
    pub exit_code: Option<i32>,
    pub stdout: Seq<char>,
    pub stderr: Seq<char>,
}

impl View for JobStatus {
    type V = Job;

    open spec fn view(&self) -> Job {
        Job {
            state: self.state@,
            exit_code: self.exit_code,
            stdout: self.stdout@,
            stderr: self.stderr@,
        }
    }
}

impl Clone for JobStatus {
    fn clone(&self) -> (copy: Self)
        ensures
            copy@ == self@,
    {
        JobStatus {
            state: self.state,
            exit_code: self.exit_code,
            stdout: self.stdout.clone(),
            stderr: self.stderr.clone(),
        }
    }
}

/// A job that has not ended.
pub open spec fn running_job() -> Job {
    Job {
        state: "running"@,
        exit_code: None,
        stdout: Seq::empty(),
        stderr: Seq::empty(),
    }
}

/// A job whose command ran to its end.
pub open spec fn completed_job(exit_code: i32, stdout: Seq<char>, stderr: Seq<char>) -> Job {
    Job { state: "completed"@, exit_code: Some(exit_code), stdout, stderr }
}

/// A job whose command did not run to its end.
pub open spec fn failed_job(message: Seq<char>) -> Job {
    Job { state: "failed"@, exit_code: None, stdout: Seq::empty(), stderr: message }
}

/// The job that a command's end makes of a running one.
pub open spec fn ended_job(result: Result<(i32, String, String), String>) -> Job {
    match result {
        Ok((exit_code, stdout, stderr)) => completed_job(exit_code, stdout@, stderr@),
        Err(message) => failed_job(message@),
    }
}

impl JobStatus {
    /// The status of a job that has not ended.
    pub fn running() -> (status: JobStatus)
        ensures
            status@ == running_job(),
    {
        JobStatus {
            state: "running",
            exit_code: None,
            stdout: String::new(),
            stderr: String::new(),
        }
    }

    /// The status of a job whose command has ended: `completed` with the exit
    /// code and what was written, or `failed` with the reason in place of the
    /// error output.
    pub fn ended(result: Result<(i32, String, String), String>) -> (status: JobStatus)
        ensures
            status@ == ended_job(result),
    {
        match result {
            Ok((exit_code, stdout, stderr)) => JobStatus {
                state: "completed",
                exit_code: Some(exit_code),
                stdout,
                stderr,
            },
            Err(message) => JobStatus {
                state: "failed",
                exit_code: None,
                stdout: String::new(),
                stderr: message,
            },
        }
    }

    /// The status as a client sees it.
    pub fn report(&self) -> (text: String)
        ensures
            text@ == job_report(self@),
    {
        let mut text = "state=".to_owned();
        text.append(self.state);
        text.append("\nexit_code=");
        match self.exit_code {
            Some(code) => {
                text.append("Some(");
                text.append(write_signed_decimal(code).as_str());
                text.append(")");
            },
            None => {
                text.append("None");
            },
        }
        text.append("\nSTDOUT:\n");
        text.append(self.stdout.as_str());
        text.append("\nSTDERR:\n");
        text.append(self.stderr.as_str());
        assert(text@ =~= job_report(self@));
        text
    }
}

/// An exit code as a client sees it.
pub open spec fn exit_code_text(exit_code: Option<i32>) -> Seq<char> {
    match exit_code {
        Some(code) => "Some("@ + crate::text::signed_decimal(code as int) + ")"@,
        None => "None"@,
    }
}

/// A status as a client sees it.
pub open spec fn job_report(job: Job) -> Seq<char> {
    "state="@ + job.state + "\nexit_code="@ + exit_code_text(job.exit_code) + "\nSTDOUT:\n"@
        + job.stdout + "\nSTDERR:\n"@ + job.stderr
}

/// The name of the job with a number.
pub open spec fn job_id(number: nat) -> Seq<char> {
    "job-"@ + crate::text::decimal(number)
}

/// Writes the name of the job with a number.
fn write_job_id(number: u64) -> (id: String)
    ensures
        id@ == job_id(number as nat),
{
    let mut id = "job-".to_owned();
    id.append(write_decimal(number).as_str());
    id
}

/// Jobs with different numbers have different names.
pub proof fn law_job_id_injective(a: nat, b: nat)
    requires
        job_id(a) == job_id(b),
    ensures
        a == b,
{
    let start = "job-"@.len() as int;
    assert(job_id(a).skip(start) == crate::text::decimal(a));
    assert(job_id(b).skip(start) == crate::text::decimal(b));
    crate::text::law_decimal_injective(a, b);
}

/// The names that jobs get when `count` of them are started.
pub open spec fn first_ids(count: nat) -> Set<Seq<char>> {
    Set::new(|id: Seq<char>| exists|n: nat| 1 <= n <= count && id == #[trigger] job_id(n))
}

/// The next job gets a name that no job before it has.
pub proof fn law_next_id(count: nat)
    ensures
        !first_ids(count).contains(job_id(count + 1)),
        first_ids(count + 1) == first_ids(count).insert(job_id(count + 1)),
{
    let next = job_id(count + 1);
    if first_ids(count).contains(next) {
        let n = choose|n: nat| 1 <= n <= count && next == #[trigger] job_id(n);
        law_job_id_injective(n, count + 1);
    }
    assert forall|id: Seq<char>|
        first_ids(count + 1).contains(id) == first_ids(count).insert(next).contains(id) by {
        if first_ids(count).contains(id) {
            let n = choose|n: nat| 1 <= n <= count && id == #[trigger] job_id(n);
            assert(1 <= n <= count + 1);
        }
    }
    assert(first_ids(count + 1) =~= first_ids(count).insert(next));
}

/// The jobs that a server started, by name. A job stays until the server ends.
pub struct JobStore {
    jobs: StringHashMap<JobStatus>,
    next_id: u64,
}

impl View for JobStore {
    type V = Map<Seq<char>, Job>;

    closed spec fn view(&self) -> Map<Seq<char>, Job> {
        self.jobs@.map_values(|status: JobStatus| status@)
    }
}

impl JobStore {
    /// The jobs are numbered from one without a gap, and the store is not
    /// over its limit.
    pub closed spec fn well_formed(&self) -> bool {
        &&& self.jobs@.dom().finite()
        &&& self.jobs@.len() <= MAX_JOBS
        &&& self.next_id == self.jobs@.len() + 1
        &&& self.jobs@.dom() == first_ids(self.jobs@.len())
    }

    /// A store without jobs.
    pub fn new() -> (store: Self)
        ensures
            store.well_formed(),
            store@ == Map::<Seq<char>, Job>::empty(),
    {
        let store = JobStore { jobs: StringHashMap::new(), next_id: 1 };
        assert(store.jobs@.dom() =~= first_ids(0));
        assert(store@ =~= Map::empty());
        store
    }

    /// Takes in a new running job and returns its name and status; returns
    /// nothing, and changes nothing, where the store is full.
    pub fn create(&mut self) -> (created: Option<(String, JobStatus)>)
        requires
            old(self).well_formed(),
        ensures
            final(self).well_formed(),
            match created {
                Some((id, status)) => {
                    &&& old(self)@.len() < MAX_JOBS
                    &&& id@ == job_id(old(self)@.len() + 1)
                    &&& status@ == running_job()
                    &&& !old(self)@.contains_key(id@)
                    &&& final(self)@ == old(self)@.insert(id@, running_job())
                },
                None => old(self)@.len() >= MAX_JOBS && final(self)@ == old(self)@,
            },
    {
        proof {
            self.lemma_view();
        }
        if self.jobs.len() >= MAX_JOBS {
            return None;
        }
        let id = write_job_id(self.next_id);
        let status = JobStatus::running();
        let ghost count = self.jobs@.len();
        proof {
            law_next_id(count);
        }
        self.jobs.insert(id.clone(), status.clone());
        self.next_id = self.next_id + 1;
        proof {
            self.lemma_view();
            assert(self@ =~= old(self)@.insert(id@, running_job()));
        }
        Some((id, status))
    }

    /// Records what is now known of a job; changes nothing where there is no
    /// such job.
    pub fn update(&mut self, id: &str, status: JobStatus)
        requires
            old(self).well_formed(),
        ensures
            final(self).well_formed(),
            final(self)@ == (if old(self)@.contains_key(id@) {
                old(self)@.insert(id@, status@)
            } else {
                old(self)@
            }),
    {
        if self.jobs.contains_key(id) {
            let ghost dom = self.jobs@.dom();
            self.jobs.insert(id.to_owned(), status);
            assert(self.jobs@.dom() =~= dom);
            assert(self@ =~= old(self)@.insert(id@, status@));
        }
    }

    /// What is known of a job.
    pub fn get(&self, id: &str) -> (status: Option<JobStatus>)
        ensures
            match status {
                Some(status) => self@.contains_key(id@) && status@ == self@[id@],
                None => !self@.contains_key(id@),
            },
    {
        match self.jobs.get(id) {
            Some(status) => Some(status.clone()),
            None => None,
        }
    }

    proof fn lemma_view(&self)
        ensures
            self@.dom() == self.jobs@.dom(),
            self@.len() == self.jobs@.len(),
    {
        assert(self@.dom() =~= self.jobs@.dom());
    }

    /// A store holds at most `MAX_JOBS` jobs, and they are numbered from one
    /// without a gap.
    pub proof fn law_numbered(&self)
        requires
            self.well_formed(),
        ensures
            self@.dom().finite(),
            self@.len() <= MAX_JOBS,
            self@.dom() == first_ids(self@.len()),
    {
        self.lemma_view();
    }
}

/// A status says what it holds.
pub proof fn law_status_view(status: JobStatus)
    ensures
        status@.state == status.state@,
        status@.exit_code == status.exit_code,
        status@.stdout == status.stdout@,
        status@.stderr == status.stderr@,
{
}

/// A job that has not ended has no exit code and no output. One whose command ran
/// to its end has the command's exit code, whatever it is, and all it wrote. One
/// whose command did not, has the reason in the place of what was written to the
/// error output.
pub proof fn law_job_states(exit_code: i32, stdout: String, stderr: String, message: String)
    ensures
        running_job().state == "running"@,
        running_job().exit_code is None,
        running_job().stdout.len() == 0,
        running_job().stderr.len() == 0,
        ended_job(Ok((exit_code, stdout, stderr))).state == "completed"@,
        ended_job(Ok((exit_code, stdout, stderr))).exit_code == Some(exit_code),
        ended_job(Ok((exit_code, stdout, stderr))).stdout == stdout@,
        ended_job(Ok((exit_code, stdout, stderr))).stderr == stderr@,
        ended_job(Err(message)).state == "failed"@,
        ended_job(Err(message)).exit_code is None,
        ended_job(Err(message)).stdout.len() == 0,
        ended_job(Err(message)).stderr == message@,
        completed_job(exit_code, stdout@, stderr@) == ended_job(Ok((exit_code, stdout, stderr))),
        failed_job(message@) == ended_job(Err(message)),
{
}

/// A report tells the state, then the exit code on a line of its own, then all
/// that was written to the output and to the error output. On the line of the exit
/// code stands `None` where there is none, and otherwise the code, whatever it is.
pub proof fn law_report(job: Job)
    ensures
        ({
            let text = job_report(job);
            let code = 17 + job.state.len() as int;
            let line = crate::text::rest_of_line(text, code);
            let out = code + line.len();
            let err = out + 9 + job.stdout.len();
            &&& text.take(6) == "state="@
            &&& text.subrange(6, code - 11) == job.state
            &&& text.subrange(code - 11, code) == "\nexit_code="@
            &&& job.exit_code is None ==> line == "None"@
            &&& job.exit_code matches Some(value) ==> {
                &&& line.len() > 6
                &&& line.take(5) == "Some("@
                &&& line.last() == ')'
                &&& crate::text::signed_number(line.subrange(5, line.len() - 1)) == value
                &&& line.subrange(5, line.len() - 1) == crate::text::signed_decimal(value as int)
            }
            &&& text.subrange(out, out + 9) == "\nSTDOUT:\n"@
            &&& text.subrange(out + 9, err) == job.stdout
            &&& text.subrange(err, err + 9) == "\nSTDERR:\n"@
            &&& text.skip(err + 9) == job.stderr
        }),
{
    reveal_strlit("state=");
    reveal_strlit("\nexit_code=");
    reveal_strlit("None");
    reveal_strlit("Some(");
    reveal_strlit(")");
    reveal_strlit("\nSTDOUT:\n");
    reveal_strlit("\nSTDERR:\n");
    let text = job_report(job);
    let word = exit_code_text(job.exit_code);
    let before = "state="@ + job.state + "\nexit_code="@;
    let after = "\nSTDOUT:\n"@ + job.stdout + "\nSTDERR:\n"@ + job.stderr;
    if let Some(value) = job.exit_code {
        let digits = crate::text::signed_decimal(value as int);
        crate::text::law_number_is_on_one_line(value as int);
        crate::text::law_signed_decimal_reads_back(value as int);
        assert(word.subrange(5, word.len() - 1) =~= digits);
        assert(word.take(5) =~= "Some("@);
        assert forall|i: int| 0 <= i < word.len() implies #[trigger] word[i] != '\n' by {
            if 5 <= i < word.len() - 1 {
                assert(digits[i - 5] == word[i]);
                assert(digits.contains(digits[i - 5]));
            }
        }
    } else {
        assert forall|i: int| 0 <= i < word.len() implies #[trigger] word[i] != '\n' by {}
    }
    assert(text =~= before + word + after);
    crate::text::law_rest_of_line(before, word, after);
    let code = 17 + job.state.len() as int;
    let out = code + word.len();
    let err = out + 9 + job.stdout.len();
    assert(text.take(6) =~= "state="@);
    assert(text.subrange(6, code - 11) =~= job.state);
    assert(text.subrange(code - 11, code) =~= "\nexit_code="@);
    assert(text.subrange(out, out + 9) =~= "\nSTDOUT:\n"@);
    assert(text.subrange(out + 9, err) =~= job.stdout);
    assert(text.subrange(err, err + 9) =~= "\nSTDERR:\n"@);
    assert(text.skip(err + 9) =~= job.stderr);
}

/// Reports of jobs in one state tell their exit codes apart; with the same code
/// and output, they tell the error outputs apart.
pub proof fn law_reports_differ(a: Job, b: Job)
    requires
        a.state == b.state,
        job_report(a) == job_report(b),
    ensures
        a.exit_code == b.exit_code,
        a.stdout == b.stdout ==> a.stderr == b.stderr,
{
    law_report(a);
    law_report(b);
    reveal_strlit("None");
    assert("None"@.len() == 4);
}

/// The name of a job is told apart from other texts by how it starts, and its
/// number can be read in it.
pub proof fn law_job_id(value: nat)
    ensures
        job_id(value).take(4) == "job-"@,
        job_id(value).len() > 4,
        crate::text::all_digits(job_id(value).skip(4)),
        crate::text::number(job_id(value).skip(4)) == value,
        value > 0 ==> job_id(value)[4] != '0',
{
    reveal_strlit("job-");
    crate::text::law_decimal_reads_back(value);
    assert(job_id(value).take(4) =~= "job-"@);
    assert(job_id(value).skip(4) =~= crate::text::decimal(value));
}

/// The first names are those of the numbers from one on, up to the count.
pub proof fn law_first_ids(count: nat, id: Seq<char>)
    ensures
        first_ids(count).contains(id) <==> exists|n: nat|
            1 <= n <= count && id == #[trigger] job_id(n),
        first_ids(0) == Set::<Seq<char>>::empty(),
{
    assert(first_ids(0) =~= Set::<Seq<char>>::empty());
}

} // verus!
