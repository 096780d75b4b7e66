//! Delivery with a bounded number of attempts and a fixed wait between them.

use crate::controller::EventInfo;
use crate::events::{is_random_uuid, new_uuid};
use vstd::prelude::*;

verus! {

/// The status that counts as a delivery.
pub const STATUS_OK: u16 = 200;

/// The status with which the scripted sender turns an attempt down.
pub const STATUS_UNAUTHORIZED: u16 = 401;

/// An attempt has delivered when the transport answered and the status is 200.
/// Any other status and any transport error are failures alike.
pub open spec fn delivered(outcome: Result<u16, String>) -> bool {
    outcome matches Ok(status) && status == STATUS_OK
}

/// Tests one attempt's outcome.
pub fn is_delivered(outcome: &Result<u16, String>) -> (yes: bool)
    ensures
        yes == delivered(*outcome),
{
    match outcome {
        Ok(status) => *status == STATUS_OK,
        Err(_) => false,
    }
}

/// No attempt from index `from` up to, not including, index `to` delivered.
pub open spec fn all_failed(attempts: Seq<bool>, from: int, to: int) -> bool {
    forall|i: int| from <= i < to && 0 <= i < attempts.len() ==> !attempts[i]
}

/// `after` is `before` followed by one run of the driver with `tries`
/// attempts allowed: attempts are made until one delivers or `tries` of them
/// have failed, and `success` says which of the two ended the run.
pub open spec fn is_run(before: Seq<bool>, after: Seq<bool>, tries: nat, success: bool) -> bool {
    &&& before.len() <= after.len() <= before.len() + tries
    &&& after.subrange(0, before.len() as int) == before
    &&& if success {
        &&& before.len() < after.len()
        &&& after.last()
        &&& all_failed(after, before.len() as int, after.len() - 1)
    } else {
        &&& after.len() == before.len() + tries
        &&& all_failed(after, before.len() as int, after.len() as int)
    }
}

/// Something that can make one delivery attempt, and says how often the
/// driver may ask and how long it waits in between.
///
/// The six functions that come first are for contracts only. A sender that
/// defines them keeps a record of its attempts, and the driver says exactly
/// what a run does to it. A sender that leaves them out keeps none: the
/// driver runs it all the same, and nothing is claimed of the run.
pub trait CanRetry: Sized {
    /// Whether this sender keeps the record that the contracts speak of.
    open spec fn keeps_record(&self) -> bool {
        false
    }

    /// The attempts allowed in one run.
    open spec fn retries(&self) -> u32 {
        0
    }

    /// The milliseconds that the driver waits after a failed attempt.
    open spec fn wait_time(&self) -> u32 {
        0
    }

    /// The sender as it was set up: what no attempt changes.
    open spec fn setup(&self) -> Self {
        *self
    }

    /// Every attempt made through this sender so far, oldest first: `true`
    /// where it delivered.
    open spec fn history(&self) -> Seq<bool> {
        Seq::empty()
    }

    /// Whether what else the sender holds agrees with its history. An
    /// attempt keeps that agreement.
    open spec fn fits_record(&self) -> bool {
        true
    }

    fn get_retries(&self) -> (tries: u32)
        ensures
            self.keeps_record() ==> tries == self.retries(),
    ;

    /// Milliseconds to wait after a failed attempt.
    fn get_wait_time(&self) -> (wait: u32)
        ensures
            self.keeps_record() ==> wait == self.wait_time(),
    ;

    /// Makes one attempt and reports the status, or the transport's error.
    fn send(&mut self) -> (outcome: Result<u16, String>)
        requires
            old(self).keeps_record() ==> old(self).history().len() < u32::MAX,
        ensures
            old(self).keeps_record() ==> {
                &&& final(self).keeps_record()
                &&& final(self).history() == old(self).history().push(delivered(outcome))
                &&& final(self).retries() == old(self).retries()
                &&& final(self).setup() == old(self).setup()
                &&& old(self).fits_record() ==> final(self).fits_record()
            },
    ;
}

#[verifier::external_type_specification]
#[verifier::external_body]
pub struct ExRetryError(retry::RetryError);

/// `retry::retry` with `sender.send()` as the operation and `is_delivered`
/// as the condition. It calls the operation, hands back `Ok` with the first
/// value that meets the condition, sleeps `wait` milliseconds after each that
/// does not, and gives up with `Err` once `tries` values have failed; with
/// `tries` at 0 it gives up before the first call. The sender is touched by
/// its own `send` alone, so that what is claimed of a sender that keeps a
/// record follows from the contract of `send`, call by call: the history
/// grows by the attempts made, and what `send` keeps is kept.
#[verifier::external_body]
fn retry_send<T: CanRetry>(sender: &mut T, tries: u32, wait: u32) -> (r: Result<
    Result<u16, String>,
    retry::RetryError,
>)
    requires
        old(sender).keeps_record() ==> old(sender).history().len() + tries <= u32::MAX,
    ensures
        r matches Ok(outcome) ==> delivered(outcome),
        old(sender).keeps_record() ==> {
            &&& final(sender).keeps_record()
            &&& is_run(old(sender).history(), final(sender).history(), tries as nat, r is Ok)
            &&& final(sender).retries() == old(sender).retries()
            &&& final(sender).setup() == old(sender).setup()
            &&& old(sender).fits_record() ==> final(sender).fits_record()
        },
{
    retry::retry(tries as u64, wait as u64, || sender.send(), |outcome| is_delivered(outcome))
}

/// Which way a scripted sender answers.
#[derive(Clone, Copy, Debug, PartialEq, Eq, Structural)]
pub enum SendResult {
    /// The transport answers: 200 on the chosen attempt, 401 on any other.
    Success,
    /// The transport fails on every attempt.
    Failure,
}

/// A sender that follows a script instead of a network: for tests of the
/// driver.
#[derive(Clone, Copy, Debug, PartialEq, Eq, Structural)]
pub struct MockSendWithRetry {
    pub retries: u32,
    pub wait_time: u32,
    /// Attempts made so far.
    pub attempts: u32,
    /// The attempt, counted from 1, that delivers.
    pub succeed_on_attempt: u32,
    /// The attempt that did deliver; 0 until one has.
    pub succeeded_on_attempt: u32,
    pub result: SendResult,
}

impl MockSendWithRetry {
    /// Whether the script lets the attempt with index `i`, counted from 0,
    /// deliver.
    pub open spec fn scripted(&self, i: int) -> bool {
        self.result == SendResult::Success && i + 1 == self.succeed_on_attempt
    }

    /// Whether one of the attempts made so far delivered.
    pub open spec fn has_delivered(&self) -> bool {
        exists|i: int| 0 <= i < self.attempts && self.scripted(i)
    }
}

impl CanRetry for MockSendWithRetry {
    open spec fn keeps_record(&self) -> bool {
        true
    }

    open spec fn retries(&self) -> u32 {
        self.retries
    }

    open spec fn wait_time(&self) -> u32 {
        self.wait_time
    }

    open spec fn setup(&self) -> MockSendWithRetry {
        MockSendWithRetry { attempts: 0, succeeded_on_attempt: 0, ..*self }
    }

    open spec fn history(&self) -> Seq<bool> {
        Seq::new(self.attempts as nat, |i: int| self.scripted(i))
    }

    /// `succeeded_on_attempt` names the attempt that delivered, and is 0
    /// while none has.
    open spec fn fits_record(&self) -> bool {
        self.succeeded_on_attempt == if self.has_delivered() {
            self.succeed_on_attempt
        } else {
            0
        }
    }

    fn get_retries(&self) -> (tries: u32) {
        self.retries
    }

    fn get_wait_time(&self) -> (wait: u32) {
        self.wait_time
    }

    fn send(&mut self) -> (outcome: Result<u16, String>)
        ensures
            final(self).attempts == old(self).attempts + 1,
            final(self).retries == old(self).retries,
            final(self).wait_time == old(self).wait_time,
            final(self).succeed_on_attempt == old(self).succeed_on_attempt,
            final(self).result == old(self).result,
            final(self).succeeded_on_attempt == if delivered(outcome) {
                final(self).attempts
            } else {
                old(self).succeeded_on_attempt
            },
            outcome is Err <==> old(self).result == SendResult::Failure,
            outcome matches Err(text) ==> text@ == "!!!!!! mock error !!!!!!!"@,
            outcome matches Ok(status) ==> status == if old(self).scripted(
                old(self).attempts as int,
            ) {
                STATUS_OK
            } else {
                STATUS_UNAUTHORIZED
            },
    {
        assert(self.history().len() == self.attempts);
        self.attempts = self.attempts + 1;
        let outcome = match self.result {
            SendResult::Success => {
                if self.succeed_on_attempt == self.attempts {
                    self.succeeded_on_attempt = self.attempts;
                    Ok(STATUS_OK)
                } else {
                    Ok(STATUS_UNAUTHORIZED)
                }
            },
            SendResult::Failure => Err(mock_error()),
        };
        assert(self.history() =~= old(self).history().push(delivered(outcome)));
        proof {
            let last = old(self).attempts as int;
            if old(self).fits_record() {
                if self.has_delivered() {
                    let i = choose|i: int| 0 <= i < self.attempts && self.scripted(i);
                    if i < last {
                        assert(old(self).scripted(i));
                    }
                } else if old(self).has_delivered() {
                    let i = choose|i: int| 0 <= i < old(self).attempts && old(self).scripted(i);
                    assert(self.scripted(i));
                }
                if delivered(outcome) {
                    assert(self.scripted(last));
                }
            }
        }
        outcome
    }
}

/// A run of the driver on a scripted sender that has made no attempt yet:
/// where the script delivers on an attempt within the allowance, the run
/// succeeds and has made exactly that many attempts; in every other case it
/// fails and has used the whole allowance. A sender that still agrees with
/// its history then names the attempt that delivered, or 0 after a failure.
pub proof fn lemma_scripted_run(before: MockSendWithRetry, after: MockSendWithRetry, ok: bool)
    requires
        before.attempts == 0,
        is_run(before.history(), after.history(), before.retries as nat, ok),
        after.setup() == before.setup(),
    ensures
        ok <==> before.result == SendResult::Success && 1 <= before.succeed_on_attempt
            <= before.retries,
        ok ==> after.attempts == before.succeed_on_attempt,
        !ok ==> after.attempts == before.retries,
        after.fits_record() ==> after.succeeded_on_attempt == if ok {
            before.succeed_on_attempt
        } else {
            0
        },
{
    let made = after.attempts as int;
    assert(after.history().len() == made);
    if ok {
        assert(after.history()[made - 1] == after.scripted(made - 1));
        assert(after.has_delivered());
    } else {
        if after.has_delivered() {
            let i = choose|i: int| 0 <= i < after.attempts && after.scripted(i);
            assert(after.history()[i]);
        }
        let k = before.succeed_on_attempt as int;
        if before.result == SendResult::Success && 1 <= k <= before.retries {
            assert(after.history()[k - 1] == after.scripted(k - 1));
        }
    }
}

/// The text of the scripted transport error.
fn mock_error() -> (text: String)
    ensures
        text@ == "!!!!!! mock error !!!!!!!"@,
{
    "!!!!!! mock error !!!!!!!".to_string()
}

/// `post` takes this URL and this body.
pub open spec fn accepts<F: Fn(&str, &str) -> Result<u16, String>>(
    post: F,
    url: Seq<char>,
    body: Seq<char>,
) -> bool {
    forall|u: &str, b: &str| u@ == url && b@ == body ==> call_requires(post, (u, b))
}

/// `outcome` is what `post` answered when it was handed this URL and this
/// body.
pub open spec fn posted<F: Fn(&str, &str) -> Result<u16, String>>(
    post: F,
    url: Seq<char>,
    body: Seq<char>,
    outcome: Result<u16, String>,
) -> bool {
    exists|u: &str, b: &str| u@ == url && b@ == body && call_ensures(post, (u, b), outcome)
}

/// `outcomes` are the answers of one delivery of `body` to `url` through
/// `post`, oldest first: each is an answer of `post` to this URL and this body,
/// and together they are one run of the driver with `tries` attempts allowed.
pub open spec fn is_transmission<F: Fn(&str, &str) -> Result<u16, String>>(
    post: F,
    url: Seq<char>,
    body: Seq<char>,
    tries: nat,
    outcomes: Seq<Result<u16, String>>,
    success: bool,
) -> bool {
    &&& is_run(
        Seq::empty(),
        outcomes.map_values(|outcome: Result<u16, String>| delivered(outcome)),
        tries,
        success,
    )
    &&& forall|i: int| 0 <= i < outcomes.len() ==> posted(post, url, body, #[trigger] outcomes[i])
}

/// A sender bound to one URL and one body. Each attempt hands both to `post`,
/// the function that stands for the transport.
pub struct SendWithRetry<F: Fn(&str, &str) -> Result<u16, String>> {
    post: F,
    url: String,
    body: String,
    retries: u32,
    wait_time: u32,
    sent: Ghost<Seq<Result<u16, String>>>,
}

impl<F: Fn(&str, &str) -> Result<u16, String>> SendWithRetry<F> {
    #[verifier::type_invariant]
    spec fn well_formed(&self) -> bool {
        &&& accepts(self.post, self.url@, self.body@)
        &&& forall|i: int|
            0 <= i < self.sent@.len() ==> posted(
                self.post,
                self.url@,
                self.body@,
                #[trigger] self.sent@[i],
            )
    }

    /// The transport.
    pub closed spec fn transport(&self) -> F {
        self.post
    }

    /// The URL that every attempt goes to.
    pub closed spec fn target(&self) -> Seq<char> {
        self.url@
    }

    /// The body that every attempt carries.
    pub closed spec fn payload(&self) -> Seq<char> {
        self.body@
    }

    /// What the transport answered to each attempt so far, oldest first.
    pub closed spec fn outcomes(&self) -> Seq<Result<u16, String>> {
        self.sent@
    }

    /// No attempt changes the transport, the URL or the body.
    pub proof fn lemma_setup_keeps_binding(&self)
        ensures
            self.setup().transport() == self.transport(),
            self.setup().target() == self.target(),
            self.setup().payload() == self.payload(),
    {
    }

    /// A sender that has made no attempt yet.
    pub fn new(post: F, url: String, body: String, retries: u32, wait_time: u32) -> (sender:
        SendWithRetry<F>)
        requires
            accepts(post, url@, body@),
        ensures
            sender.transport() == post,
            sender.target() == url@,
            sender.payload() == body@,
            sender.retries() == retries,
            sender.wait_time() == wait_time,
            sender.outcomes() == Seq::<Result<u16, String>>::empty(),
            sender.history() == Seq::<bool>::empty(),
            sender.setup() == sender,
    {
        let sender = SendWithRetry { post, url, body, retries, wait_time, sent: Ghost(Seq::empty()) };
        assert(sender.history() =~= Seq::<bool>::empty());
        sender
    }
}

impl<F: Fn(&str, &str) -> Result<u16, String>> CanRetry for SendWithRetry<F> {
    open spec fn keeps_record(&self) -> bool {
        true
    }

    closed spec fn retries(&self) -> u32 {
        self.retries
    }

    closed spec fn wait_time(&self) -> u32 {
        self.wait_time
    }

    closed spec fn setup(&self) -> SendWithRetry<F> {
        SendWithRetry { sent: Ghost(Seq::empty()), ..*self }
    }

    open spec fn history(&self) -> Seq<bool> {
        self.outcomes().map_values(|outcome: Result<u16, String>| delivered(outcome))
    }

    fn get_retries(&self) -> (tries: u32) {
        self.retries
    }

    fn get_wait_time(&self) -> (wait: u32) {
        self.wait_time
    }

    fn send(&mut self) -> (outcome: Result<u16, String>)
        ensures
            final(self).outcomes() == old(self).outcomes().push(outcome),
            final(self).transport() == old(self).transport(),
            final(self).target() == old(self).target(),
            final(self).payload() == old(self).payload(),
    {
        proof {
            use_type_invariant(&*self);
        }
        let outcome = (self.post)(self.url.as_str(), self.body.as_str());
        proof {
            assert(posted(self.post, self.url@, self.body@, outcome));
        }
        self.sent = Ghost(self.sent@.push(outcome));
        proof {
            assert(self.history() =~= old(self).history().push(delivered(outcome)));
        }
        outcome
    }
}

/// The kind of a ping. It picks one segment of the submission URL.
#[derive(Clone, Copy, Debug, PartialEq, Eq, Structural)]
pub enum PingType {
    /// A crash report.
    Crash,
    /// A batch of events.
    Metric,
}

/// The URL segment of a kind of ping.
pub open spec fn ping_segment(ping_type: PingType) -> Seq<char> {
    match ping_type {
        PingType::Crash => "crash"@,
        PingType::Metric => "metrics"@,
    }
}

/// What tells the pings of one process from those of every other: a random
/// identifier, made once and kept while the process runs.
pub struct PingIdentity {
    pub doc_id: String,
}

impl PingIdentity {
    /// A new random identity: a random UUID, written with hyphens.
    pub fn new() -> (identity: PingIdentity)
        ensures
            is_random_uuid(identity.doc_id@),
    {
        PingIdentity { doc_id: new_uuid() }
    }
}

/// Where the pings go.
pub const METRICS_SERVER_URL: &'static str = "https://www.google-analytics.com/batch";

/// The attempts that a delivery gets unless the caller says otherwise.
pub const RETRY_MAX: u32 = 10;

/// The milliseconds between two attempts unless the caller says otherwise.
pub const RETRY_WAIT: u32 = 500;

/// Composes the submission URL of a ping and runs its delivery.
pub struct Transmitter {
    metrics_server_url: String,
    doc_id: String,
    app_name: String,
    app_version: String,
    app_update_channel: String,
    app_build_id: String,
}

/// A path with one more segment behind it.
pub open spec fn with_segment(path: Seq<char>, segment: Seq<char>) -> Seq<char> {
    path.push('/') + segment
}

fn push_segment(path: &mut String, segment: &str)
    ensures
        final(path)@ == with_segment(old(path)@, segment@),
{
    path.push('/');
    path.append(segment);
}

impl Transmitter {
    /// The URL that all submission URLs begin with.
    pub closed spec fn base_url(&self) -> Seq<char> {
        self.metrics_server_url@
    }

    /// The identifier of this process's pings.
    pub closed spec fn doc(&self) -> Seq<char> {
        self.doc_id@
    }

    /// The four parts of the application's identity that the URL names:
    /// name, version, update channel and build id.
    pub closed spec fn app(&self) -> (Seq<char>, Seq<char>, Seq<char>, Seq<char>) {
        (self.app_name@, self.app_version@, self.app_update_channel@, self.app_build_id@)
    }

    /// The submission URL of a ping:
    /// `base/doc_id/kind/app_name/app_version/app_update_channel/app_build_id`.
    pub open spec fn url_for(&self, ping_type: PingType) -> Seq<char> {
        let path = with_segment(self.base_url(), self.doc());
        let path = with_segment(path, ping_segment(ping_type));
        let path = with_segment(path, self.app().0);
        let path = with_segment(path, self.app().1);
        let path = with_segment(path, self.app().2);
        with_segment(path, self.app().3)
    }

    /// A transmitter for one process and one application.
    pub fn new(doc_id: &str, event_info: &EventInfo) -> (transmitter: Transmitter)
        ensures
            transmitter.base_url() == METRICS_SERVER_URL@,
            transmitter.doc() == doc_id@,
            transmitter.app() == (
                event_info.app_name@,
                event_info.app_version@,
                event_info.app_update_channel@,
                event_info.app_build_id@,
            ),
    {
        Transmitter {
            metrics_server_url: METRICS_SERVER_URL.to_owned(),
            doc_id: doc_id.to_owned(),
            app_name: event_info.app_name.clone(),
            app_version: event_info.app_version.clone(),
            app_update_channel: event_info.app_update_channel.clone(),
            app_build_id: event_info.app_build_id.clone(),
        }
    }

    /// Writes out the submission URL of a ping.
    pub fn url(&self, ping_type: PingType) -> (url: String)
        ensures
            url@ == self.url_for(ping_type),
    {
        let mut url = self.metrics_server_url.clone();
        push_segment(&mut url, self.doc_id.as_str());
        match ping_type {
            PingType::Crash => push_segment(&mut url, "crash"),
            PingType::Metric => push_segment(&mut url, "metrics"),
        }
        push_segment(&mut url, self.app_name.as_str());
        push_segment(&mut url, self.app_version.as_str());
        push_segment(&mut url, self.app_update_channel.as_str());
        push_segment(&mut url, self.app_build_id.as_str());
        url
    }

    /// Delivers `body` as a ping of the given kind: hands the submission URL
    /// and the body to `post`, up to `max_attempts` times, until `post`
    /// answers 200, and waits `inter_attempt_delay` milliseconds after each
    /// attempt that fails. Answers whether an attempt delivered.
    pub fn transmit<F: Fn(&str, &str) -> Result<u16, String>>(
        &self,
        ping_type: PingType,
        body: String,
        max_attempts: u32,
        inter_attempt_delay: u32,
        post: F,
    ) -> (ok: bool)
        requires
            accepts(post, self.url_for(ping_type), body@),
        ensures
            max_attempts == 0 ==> !ok,
            exists|outcomes: Seq<Result<u16, String>>|
                is_transmission(
                    post,
                    self.url_for(ping_type),
                    body@,
                    max_attempts as nat,
                    outcomes,
                    ok,
                ),
    {
        let url = self.url(ping_type);
        let mut sender = SendWithRetry::new(post, url, body, max_attempts, inter_attempt_delay);
        let ghost fresh = sender;
        let ok = self.send(&mut sender);
        proof {
            fresh.lemma_setup_keeps_binding();
            sender.lemma_setup_keeps_binding();
            use_type_invariant(&sender);
            assert(is_transmission(
                post,
                self.url_for(ping_type),
                body@,
                max_attempts as nat,
                sender.outcomes(),
                ok,
            ));
        }
        ok
    }

    /// Makes attempts through `sender` until one delivers or the sender's
    /// allowance is used up, waiting the sender's wait time after each
    /// failure. Answers whether one delivered. Of a sender that keeps a
    /// record, the record says afterwards which attempts were made.
    pub fn send<T: CanRetry>(&self, sender: &mut T) -> (ok: bool)
        requires
            old(sender).keeps_record() ==> old(sender).history().len() + old(sender).retries()
                <= u32::MAX,
        ensures
            old(sender).keeps_record() ==> {
                &&& final(sender).keeps_record()
                &&& is_run(
                    old(sender).history(),
                    final(sender).history(),
                    old(sender).retries() as nat,
                    ok,
                )
                &&& final(sender).retries() == old(sender).retries()
                &&& final(sender).setup() == old(sender).setup()
                &&& old(sender).fits_record() ==> final(sender).fits_record()
            },
    {
        let tries: u32 = sender.get_retries();
        let wait: u32 = sender.get_wait_time();
        match retry_send(sender, tries, wait) {
            Ok(_) => true,
            Err(_) => false,
        }
    }
}

} // verus!
