use vstd::prelude::*;
use crate::authentication::{AuthError, AuthQuery, AuthResp, url_encoded, fingerprint_text};
use crate::files::{
    FileDescription, LocalFile, UploadJob, ValidationError, copy_descriptions, first_fault,
    storage_key, validate_files, validation_text,
};

verus! {

/// A student's submission: who submits, for which test set, which files.
#[derive(Debug, Clone)]
pub struct Config {
    pub test_set_id: String,
    pub phone: String,
    pub files: Vec<LocalFile>,
}

impl Config {
    /// The submission, once every file has passed the checks.
    pub fn build(test_set_id: String, phone: String, files: Vec<LocalFile>) -> (r: Result<
        Config,
        ValidationError,
    >)
        ensures
            first_fault(files@) is None ==> r == Ok::<Config, ValidationError>(
                (Config { test_set_id, phone, files }),
            ),
            first_fault(files@) is Some ==> r == Err::<Config, ValidationError>(
                first_fault(files@).unwrap(),
            ),
    {
        match validate_files(&files) {
            Ok(()) => Ok(Config { test_set_id, phone, files }),
            Err(e) => Err(e),
        }
    }
}

/// The JSON body sent to the test runner.
#[derive(Debug, Clone)]
pub struct TestRequestBody {
    pub files: Vec<FileDescription>,
    pub test_env: Vec<FileDescription>,
    pub test_entry: String,
}

/// A request to the test runner named by a credential bundle.
#[derive(Debug, Clone)]
pub struct TestRequest {
    pub url: String,
    pub body: TestRequestBody,
}

impl TestRequest {
    /// The request runs the tests of `params` on the stored `files`.
    pub open spec fn runs(&self, params: AuthResp, files: Seq<FileDescription>) -> bool {
        &&& self.url == params.runner_location.unwrap()
        &&& self.body.files@ == files
        &&& self.body.test_env@ == params.test_env.unwrap()@
        &&& self.body.test_entry == params.test_entry.unwrap()
    }

    pub fn build(params: &AuthResp, files: &Vec<FileDescription>) -> (r: TestRequest)
        requires
            params.granted(),
        ensures
            r.runs(*params, files@),
    {
        TestRequest {
            url: params.runner_location().clone(),
            body: TestRequestBody {
                files: copy_descriptions(files),
                test_env: copy_descriptions(params.test_env()),
                test_entry: params.test_entry().clone(),
            },
        }
    }
}

/// The summary of a finished submission, for the analytics service.
#[derive(Debug, Clone)]
pub struct AnalyticBody {
    pub files: Vec<FileDescription>,
    pub submission_id: String,
    pub result: String,
}

/// Why a submission stopped.
#[derive(Debug, Clone)]
pub enum RunError {
    /// A local file was missing or too large; nothing was sent.
    Validation(ValidationError),
    /// The authentication service refused the submission.
    Authorization(AuthError),
    /// The authentication service granted the submission but left out a
    /// field of the credential bundle, or refused it without a message.
    MalformedResponse,
    /// A request could not be carried out.
    Transport(String),
    /// The object store answered an upload with a status outside 2xx.
    Server(String),
    /// An event came that the session was not waiting for.
    OutOfOrder,
}

/// The explanation given when an upload is refused.
pub open spec fn upload_refused() -> Seq<char> {
    "Impeded communication, please try again later."@
}

/// The text shown for an incomplete reply of the authentication service.
pub open spec fn malformed_text() -> Seq<char> {
    "The authentication service sent an incomplete reply."@
}

/// The text shown for an event that the session was not waiting for.
pub open spec fn out_of_order_text() -> Seq<char> {
    "Unexpected reply."@
}

impl RunError {
    /// A text for the user.
    pub fn message(&self) -> (r: String)
        ensures
            self matches RunError::Validation(e) ==> r@ == validation_text(*e),
            self matches RunError::MalformedResponse ==> r@ == malformed_text(),
            self matches RunError::OutOfOrder ==> r@ == out_of_order_text(),
            self matches RunError::Authorization(e) ==> r == e.reason,
            self matches RunError::Transport(m) ==> r == m,
            self matches RunError::Server(m) ==> r == m,
    {
        match self {
            RunError::Validation(e) => String::from_str(e.message()),
            RunError::Authorization(e) => e.reason.clone(),
            RunError::MalformedResponse => String::from_str(
                "The authentication service sent an incomplete reply.",
            ),
            RunError::Transport(m) => m.clone(),
            RunError::Server(m) => m.clone(),
            RunError::OutOfOrder => String::from_str("Unexpected reply."),
        }
    }
}

/// Where a session stands.
#[derive(Debug, Clone, Copy, PartialEq, Eq, Structural)]
pub enum Phase {
    /// Waiting for the reply of the authentication service.
    Authenticating,
    /// Waiting for the reply to the upload of the next file.
    Uploading,
    /// Waiting for the test runner's result.
    Testing,
    /// The result came; the summary was handed out.
    Finished,
    /// The submission failed.
    Stopped,
}

/// What came back from the request that the session last asked for.
#[derive(Debug, Clone)]
pub enum Event {
    /// The authentication service replied.
    Authenticated(AuthResp),
    /// The object store answered an upload with this HTTP status.
    Uploaded(u16),
    /// The test runner replied with this text.
    Tested(String),
    /// The request could not be carried out.
    TransportFailed(String),
}

/// What the session asks to be done next.
#[derive(Debug, Clone)]
pub enum Action {
    /// Ask the authentication service for credentials.
    Authenticate(AuthQuery),
    /// Upload one file to the object store.
    Upload(UploadJob),
    /// Run the tests on the stored files.
    RunTest(TestRequest),
    /// The submission is done: show the result and send the summary to the
    /// analytics service.
    Report(AnalyticBody),
    /// The submission failed; nothing more is sent.
    Abort(RunError),
}

/// Whether an action sends anything over the network.
pub open spec fn is_request(a: Action) -> bool {
    !(a is Abort)
}

/// `d` describes `file` stored under the credential bundle `grant`.
pub open spec fn stored_as(d: FileDescription, grant: AuthResp, file: LocalFile) -> bool {
    &&& d.key@ == storage_key(grant.dir.unwrap()@, file.file_name@)
    &&& d.bucket == grant.bucket.unwrap()
}

pub open spec fn is_success(status: u16) -> bool {
    200 <= status < 300
}

/// The decisions of one submission, from the credential request to the
/// summary. Files are uploaded one by one, in the order given; the first
/// failure ends the submission.
#[derive(Debug, Clone)]
pub struct Session {
    pub config: Config,
    pub phase: Phase,
    /// The credential bundle, once granted.
    pub grant: AuthResp,
    /// The files stored so far, in the order of `config.files`.
    pub uploaded: Vec<FileDescription>,
    /// How many upload requests were handed out.
    pub uploads_issued: usize,
}

impl Session {
    pub open spec fn wf(&self) -> bool {
        let n = self.config.files@.len();
        let k = self.uploaded@.len();
        &&& k <= n
        &&& forall|i: int|
            0 <= i < k ==> #[trigger] stored_as(
                self.uploaded@[i],
                self.grant,
                self.config.files@[i],
            )
        &&& match self.phase {
            Phase::Authenticating => k == 0 && self.uploads_issued == 0,
            Phase::Uploading => self.grant.granted() && k < n && self.uploads_issued == k + 1,
            Phase::Testing | Phase::Finished => self.grant.granted() && k == n
                && self.uploads_issued == n,
            Phase::Stopped => self.uploads_issued <= k + 1 && self.uploads_issued <= n,
        }
    }

    /// `t` is `self` stopped, with nothing else changed.
    pub open spec fn stopped_as(&self, t: Session) -> bool {
        &&& t.phase == Phase::Stopped
        &&& t.config == self.config
        &&& t.grant == self.grant
        &&& t.uploaded == self.uploaded
        &&& t.uploads_issued == self.uploads_issued
    }

    /// What follows the authentication service's reply `resp`.
    pub open spec fn after_auth(&self, resp: AuthResp, t: Session, r: Action) -> bool {
        let files = self.config.files@;
        if resp.submission_id is None {
            &&& self.stopped_as(t)
            &&& r == match resp.message {
                Some(m) => Action::Abort(RunError::Authorization(AuthError { reason: m })),
                None => Action::Abort(RunError::MalformedResponse),
            }
        } else if !resp.granted() {
            self.stopped_as(t) && r == Action::Abort(RunError::MalformedResponse)
        } else {
            &&& t.config == self.config
            &&& t.grant == resp
            &&& t.uploaded@ == self.uploaded@
            &&& if files.len() == 0 {
                &&& t.phase == Phase::Testing
                &&& t.uploads_issued == 0
                &&& r matches Action::RunTest(req) && req.runs(resp, Seq::empty())
            } else {
                &&& t.phase == Phase::Uploading
                &&& t.uploads_issued == 1
                &&& r matches Action::Upload(job) && job.uploads(resp, files[0])
            }
        }
    }

    /// What follows the object store's answer `status` to the pending upload.
    pub open spec fn after_upload(&self, status: u16, t: Session, r: Action) -> bool {
        let files = self.config.files@;
        let k = self.uploaded@.len() as int;
        if !is_success(status) {
            &&& self.stopped_as(t)
            &&& r matches Action::Abort(RunError::Server(m)) && m@ == upload_refused()
        } else {
            &&& t.config == self.config
            &&& t.grant == self.grant
            &&& t.uploaded@.len() == k + 1
            &&& t.uploaded@.subrange(0, k) == self.uploaded@
            &&& stored_as(t.uploaded@[k], self.grant, files[k])
            &&& if k + 1 < files.len() {
                &&& t.phase == Phase::Uploading
                &&& t.uploads_issued == self.uploads_issued + 1
                &&& r matches Action::Upload(job) && job.uploads(self.grant, files[k + 1])
            } else {
                &&& t.phase == Phase::Testing
                &&& t.uploads_issued == self.uploads_issued
                &&& r matches Action::RunTest(req) && req.runs(self.grant, t.uploaded@)
            }
        }
    }

    /// What follows the test runner's reply `text`.
    pub open spec fn after_test(&self, text: String, t: Session, r: Action) -> bool {
        &&& t.phase == Phase::Finished
        &&& t.config == self.config
        &&& t.grant == self.grant
        &&& t.uploaded == self.uploaded
        &&& t.uploads_issued == self.uploads_issued
        &&& r matches Action::Report(body) && body.files@ == self.uploaded@
            && body.submission_id == self.grant.submission_id.unwrap() && body.result == text
    }
}

impl Session {
    /// The session waits for a reply.
    pub open spec fn live(&self) -> bool {
        self.phase == Phase::Authenticating || self.phase == Phase::Uploading || self.phase
            == Phase::Testing
    }

    /// `t` and `r` are the session and the action that follow `event` on
    /// `self`.
    pub open spec fn transition(&self, event: Event, t: Session, r: Action) -> bool {
        if !self.live() {
            t == *self && r == Action::Abort(RunError::OutOfOrder)
        } else {
            match event {
                Event::TransportFailed(m) => self.stopped_as(t) && r == Action::Abort(
                    RunError::Transport(m),
                ),
                Event::Authenticated(resp) if self.phase == Phase::Authenticating => self.after_auth(
                    resp,
                    t,
                    r,
                ),
                Event::Uploaded(status) if self.phase == Phase::Uploading => self.after_upload(
                    status,
                    t,
                    r,
                ),
                Event::Tested(text) if self.phase == Phase::Testing => self.after_test(text, t, r),
                _ => self.stopped_as(t) && r == Action::Abort(RunError::OutOfOrder),
            }
        }
    }

    /// Opens the submission of `config`: asks for credentials, or stops at
    /// once, before any request, where a file is missing or too large.
    pub fn start(config: Config, mac: Option<String>) -> (r: (Session, Action))
        ensures
            r.0.wf(),
            r.0.config == config,
            r.0.uploaded@.len() == 0,
            r.0.uploads_issued == 0,
            first_fault(config.files@) matches Some(e) ==> r.0.phase == Phase::Stopped && r.1
                == Action::Abort(RunError::Validation(e)),
            first_fault(config.files@) is None ==> r.0.phase == Phase::Authenticating,
            first_fault(config.files@) is None ==> (r.1 matches Action::Authenticate(q)
                && q.set_id == config.test_set_id && q.phone == config.phone && q.mac@
                == url_encoded(fingerprint_text(mac))),
    {
        let check = validate_files(&config.files);
        let grant = AuthResp {
            message: None,
            submission_id: None,
            bucket: None,
            dir: None,
            oss_access_key_id: None,
            policy: None,
            signature: None,
            runner_location: None,
            test_entry: None,
            test_env: None,
        };
        match check {
            Err(e) => {
                let s = Session {
                    config,
                    phase: Phase::Stopped,
                    grant,
                    uploaded: Vec::new(),
                    uploads_issued: 0,
                };
                (s, Action::Abort(RunError::Validation(e)))
            },
            Ok(()) => {
                let q = AuthQuery::build(&config.test_set_id, &config.phone, mac);
                let s = Session {
                    config,
                    phase: Phase::Authenticating,
                    grant,
                    uploaded: Vec::new(),
                    uploads_issued: 0,
                };
                (s, Action::Authenticate(q))
            },
        }
    }

    /// Takes the reply to the last request and says what comes next.
    pub fn step(&mut self, event: Event) -> (r: Action)
        requires
            old(self).wf(),
        ensures
            final(self).wf(),
            old(self).transition(event, *final(self), r),
            !old(self).live() ==> !is_request(r) && *final(self) == *old(self),
    {
        match self.phase {
            Phase::Finished | Phase::Stopped => {
                return Action::Abort(RunError::OutOfOrder);
            },
            _ => {},
        }
        match event {
            Event::TransportFailed(m) => {
                self.phase = Phase::Stopped;
                Action::Abort(RunError::Transport(m))
            },
            Event::Authenticated(resp) => {
                if self.phase == Phase::Authenticating {
                    self.on_auth(resp)
                } else {
                    self.phase = Phase::Stopped;
                    Action::Abort(RunError::OutOfOrder)
                }
            },
            Event::Uploaded(status) => {
                if self.phase == Phase::Uploading {
                    self.on_upload(status)
                } else {
                    self.phase = Phase::Stopped;
                    Action::Abort(RunError::OutOfOrder)
                }
            },
            Event::Tested(text) => {
                if self.phase == Phase::Testing {
                    self.on_test(text)
                } else {
                    self.phase = Phase::Stopped;
                    Action::Abort(RunError::OutOfOrder)
                }
            },
        }
    }

    fn on_auth(&mut self, resp: AuthResp) -> (r: Action)
        requires
            old(self).wf(),
            old(self).phase == Phase::Authenticating,
        ensures
            final(self).wf(),
            old(self).after_auth(resp, *final(self), r),
    {
        if resp.failed() {
            self.phase = Phase::Stopped;
            match resp.message {
                Some(m) => Action::Abort(RunError::Authorization(AuthError::new(m))),
                None => Action::Abort(RunError::MalformedResponse),
            }
        } else if !resp.is_granted() {
            self.phase = Phase::Stopped;
            Action::Abort(RunError::MalformedResponse)
        } else {
            self.grant = resp;
            if self.config.files.len() == 0 {
                self.phase = Phase::Testing;
                assert(self.uploaded@ =~= Seq::<FileDescription>::empty());
                Action::RunTest(TestRequest::build(&self.grant, &self.uploaded))
            } else {
                self.phase = Phase::Uploading;
                self.uploads_issued = 1;
                Action::Upload(UploadJob::build(&self.grant, &self.config.files[0]))
            }
        }
    }

    fn on_upload(&mut self, status: u16) -> (r: Action)
        requires
            old(self).wf(),
            old(self).phase == Phase::Uploading,
        ensures
            final(self).wf(),
            old(self).after_upload(status, *final(self), r),
    {
        if status < 200 || status >= 300 {
            self.phase = Phase::Stopped;
            return Action::Abort(
                RunError::Server(String::from_str("Impeded communication, please try again later.")),
            );
        }
        let k = self.uploaded.len();
        let job = UploadJob::build(&self.grant, &self.config.files[k]);
        self.uploaded.push(job.stored());
        assert(self.uploaded@.subrange(0, k as int) =~= old(self).uploaded@);
        assert(forall|i: int| 0 <= i < k ==> self.uploaded@[i] == old(self).uploaded@[i]);
        if k + 1 < self.config.files.len() {
            self.uploads_issued = self.uploads_issued + 1;
            Action::Upload(UploadJob::build(&self.grant, &self.config.files[k + 1]))
        } else {
            self.phase = Phase::Testing;
            Action::RunTest(TestRequest::build(&self.grant, &self.uploaded))
        }
    }

    fn on_test(&mut self, text: String) -> (r: Action)
        requires
            old(self).wf(),
            old(self).phase == Phase::Testing,
        ensures
            final(self).wf(),
            old(self).after_test(text, *final(self), r),
    {
        self.phase = Phase::Finished;
        Action::Report(
            AnalyticBody {
                files: copy_descriptions(&self.uploaded),
                submission_id: self.grant.submission_id().clone(),
                result: text,
            },
        )
    }
}

/// A session that has stopped or finished stays as it is, whatever comes,
/// and sends nothing more.
pub proof fn lemma_ended_session_is_silent(s: Session, event: Event, t: Session, r: Action)
    requires
        !s.live(),
        s.transition(event, t, r),
    ensures
        t == s,
        !is_request(r),
{
}

/// A refusal by the authentication service ends the submission before any
/// upload or test request, and hands on the service's message as it came.
pub proof fn lemma_refusal_stops_submission(
    s: Session,
    resp: AuthResp,
    t: Session,
    r: Action,
)
    requires
        s.wf(),
        s.phase == Phase::Authenticating,
        resp.submission_id is None,
        resp.message is Some,
        s.transition(Event::Authenticated(resp), t, r),
    ensures
        r == Action::Abort(RunError::Authorization(AuthError { reason: resp.message.unwrap() })),
        !t.live(),
        t.uploads_issued == 0,
{
}

/// Once the tests run, exactly one upload was issued for each file, and the
/// stored files are the submitted ones in their order, each under the
/// bundle's directory by its file name, in the bundle's bucket.
pub proof fn lemma_every_file_uploaded_once(s: Session)
    requires
        s.wf(),
        s.phase == Phase::Testing || s.phase == Phase::Finished,
    ensures
        s.uploads_issued == s.config.files@.len(),
        s.uploaded@.len() == s.config.files@.len(),
        forall|i: int|
            0 <= i < s.uploaded@.len() ==> (#[trigger] s.uploaded@[i]).key@ == storage_key(
                s.grant.dir.unwrap()@,
                s.config.files@[i].file_name@,
            ) && s.uploaded@[i].bucket == s.grant.bucket.unwrap(),
{
    assert forall|i: int| 0 <= i < s.uploaded@.len() implies (#[trigger] s.uploaded@[i]).key@
        == storage_key(s.grant.dir.unwrap()@, s.config.files@[i].file_name@)
        && s.uploaded@[i].bucket == s.grant.bucket.unwrap() by {
        assert(stored_as(s.uploaded@[i], s.grant, s.config.files@[i]));
    }
}

/// When the k-th upload is refused, the submission stops with k uploads
/// issued, and no further request follows.
pub proof fn lemma_refused_upload_ends_batch(
    s: Session,
    status: u16,
    t: Session,
    r: Action,
    event: Event,
    t2: Session,
    r2: Action,
)
    requires
        s.wf(),
        s.phase == Phase::Uploading,
        !is_success(status),
        s.transition(Event::Uploaded(status), t, r),
        t.transition(event, t2, r2),
    ensures
        r matches Action::Abort(RunError::Server(m)) && m@ == upload_refused(),
        t.phase == Phase::Stopped,
        t.uploads_issued == s.uploaded@.len() + 1,
        t2 == t,
        !is_request(r2),
{
}

/// The test request that follows the last upload carries the bundle's test
/// environment unchanged, and the stored files in the order submitted.
pub proof fn lemma_test_request_carries_uploads(s: Session, status: u16, t: Session, r: Action)
    requires
        s.wf(),
        s.phase == Phase::Uploading,
        is_success(status),
        s.uploaded@.len() + 1 == s.config.files@.len(),
        s.transition(Event::Uploaded(status), t, r),
    ensures
        r matches Action::RunTest(req) && req.body.test_env@ == s.grant.test_env.unwrap()@
            && req.body.files@ == t.uploaded@ && req.url == s.grant.runner_location.unwrap(),
        t.uploaded@.len() == s.config.files@.len(),
        forall|i: int|
            0 <= i < t.uploaded@.len() ==> #[trigger] stored_as(
                t.uploaded@[i],
                s.grant,
                s.config.files@[i],
            ),
{
    let k = s.uploaded@.len() as int;
    assert forall|i: int| 0 <= i < t.uploaded@.len() implies #[trigger] stored_as(
        t.uploaded@[i],
        s.grant,
        s.config.files@[i],
    ) by {
        if i < k {
            assert(t.uploaded@[i] == t.uploaded@.subrange(0, k)[i]);
            assert(stored_as(s.uploaded@[i], s.grant, s.config.files@[i]));
        }
    }
}

} // verus!
