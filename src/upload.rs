//! The uploader: numbers each record and frames the HTTP request that
//! carries it to the collector.

use vstd::prelude::*;
use vstd::string::*;
use crate::record::UploadBody;

verus! {

/// The agent's settings, read once at startup.
#[derive(Clone, Debug)]
pub struct Config {
    pub base_url: String,
    pub car_identifier: String,
    pub access_token: String,
    pub arduino_path: String,
    pub gpsd_addr: String,
}

/// The address a record is posted to:
/// `{base_url}/_telemetry/r0/data/{car_identifier}/upload?access_token={access_token}`.
pub open spec fn upload_url_spec(cfg: Config) -> Seq<char> {
    cfg.base_url@ + "/_telemetry/r0/data/"@ + cfg.car_identifier@ + "/upload?access_token="@
        + cfg.access_token@
}

/// One upload, ready to be sent.
#[derive(Debug)]
pub struct UploadRequest<V> {
    /// The sequence number, for the log only; it is not sent.
    pub seq: u64,
    pub method: String,
    pub uri: String,
    pub content_type: String,
    pub body: UploadBody<V>,
}

/// An upload request as plain values.
pub struct UploadRequestView<V> {
    pub seq: u64,
    pub method: Seq<char>,
    pub uri: Seq<char>,
    pub content_type: Seq<char>,
    pub body: UploadBody<V>,
}

impl<V> View for UploadRequest<V> {
    type V = UploadRequestView<V>;

    open spec fn view(&self) -> UploadRequestView<V> {
        UploadRequestView {
            seq: self.seq,
            method: self.method@,
            uri: self.uri@,
            content_type: self.content_type@,
            body: self.body,
        }
    }
}

/// The request that carries `body` under sequence number `seq`: a POST of
/// JSON to the upload address.
pub open spec fn request_of<V>(cfg: Config, seq: u64, body: UploadBody<V>) -> UploadRequestView<V> {
    UploadRequestView {
        seq,
        method: "POST"@,
        uri: upload_url_spec(cfg),
        content_type: "application/json"@,
        body,
    }
}

/// The requests for `bodies`, taken in order and numbered from `first`.
pub open spec fn requests_of<V>(cfg: Config, first: u64, bodies: Seq<UploadBody<V>>) -> Seq<
    UploadRequestView<V>,
> {
    Seq::new(bodies.len(), |i: int| request_of(cfg, (first + i) as u64, bodies[i]))
}

/// Composes the upload address from the settings.
pub fn upload_url(cfg: &Config) -> (r: String)
    ensures
        r@ == upload_url_spec(*cfg),
{
    let mut s = cfg.base_url.clone();
    s.append("/_telemetry/r0/data/");
    s.append(cfg.car_identifier.as_str());
    s.append("/upload?access_token=");
    s.append(cfg.access_token.as_str());
    proof {
        reveal_strlit("/_telemetry/r0/data/");
        reveal_strlit("/upload?access_token=");
    }
    s
}

/// Hands records to the collector, one request each, numbered from 0 in the
/// order they are taken. The outcome of a request never feeds back: nothing
/// is retried or held.
pub struct TelemetryAgent {
    cfg: Config,
    req: u64,
}

impl TelemetryAgent {
    /// The sequence number the next upload gets.
    pub closed spec fn next_seq(&self) -> u64 {
        self.req
    }

    /// The settings the agent was made with.
    pub closed spec fn config(&self) -> Config {
        self.cfg
    }

    pub fn new(cfg: Config) -> (r: Self)
        ensures
            r.next_seq() == 0,
            r.config() == cfg,
    {
        TelemetryAgent { cfg, req: 0 }
    }

    /// The sequence number the next upload gets.
    pub fn next_sequence(&self) -> (r: u64)
        ensures
            r == self.next_seq(),
    {
        self.req
    }

    /// Takes the next sequence number and frames the request for `body`.
    /// Sending it is left to the caller, without waiting for the answer.
    pub fn upload<V>(&mut self, body: UploadBody<V>) -> (r: UploadRequest<V>)
        requires
            old(self).next_seq() < u64::MAX,
        ensures
            r@ == request_of(old(self).config(), old(self).next_seq(), body),
            final(self).next_seq() == old(self).next_seq() + 1,
            final(self).config() == old(self).config(),
    {
        let seq = self.req;
        self.req = self.req + 1;
        let uri = upload_url(&self.cfg);
        let method = String::from_str("POST");
        let content_type = String::from_str("application/json");
        proof {
            reveal_strlit("POST");
            reveal_strlit("application/json");
        }
        UploadRequest { seq, method, uri, content_type, body }
    }

    /// Frames the requests for records taken from the queue, in the order
    /// they came: each gets the next sequence number.
    pub fn upload_all<V: Copy>(&mut self, bodies: &Vec<UploadBody<V>>) -> (r: Vec<UploadRequest<V>>)
        requires
            old(self).next_seq() + bodies@.len() <= u64::MAX,
        ensures
            r@.map_values(|q: UploadRequest<V>| q@) == requests_of(
                old(self).config(),
                old(self).next_seq(),
                bodies@,
            ),
            final(self).next_seq() == old(self).next_seq() + bodies@.len(),
            final(self).config() == old(self).config(),
    {
        let ghost first = self.req;
        let mut out: Vec<UploadRequest<V>> = Vec::new();
        let mut i: usize = 0;
        assert(bodies@.subrange(0, 0) =~= Seq::<UploadBody<V>>::empty());
        assert(out@.map_values(|q: UploadRequest<V>| q@) =~= requests_of(
            self.cfg,
            first,
            bodies@.subrange(0, 0),
        ));
        while i < bodies.len()
            invariant
                self.cfg == old(self).cfg,
                first == old(self).req,
                i <= bodies@.len(),
                self.req == first + i,
                first + bodies@.len() <= u64::MAX,
                out@.map_values(|q: UploadRequest<V>| q@) == requests_of(
                    self.cfg,
                    first,
                    bodies@.subrange(0, i as int),
                ),
            decreases bodies@.len() - i,
        {
            let ghost before = out@.map_values(|q: UploadRequest<V>| q@);
            let q = self.upload(bodies[i]);
            assert(q@ == request_of(self.cfg, (first + i) as u64, bodies@[i as int]));
            out.push(q);
            assert(out@.map_values(|q: UploadRequest<V>| q@) =~= before.push(q@));
            assert(requests_of(self.cfg, first, bodies@.subrange(0, i + 1)) =~= requests_of(
                self.cfg,
                first,
                bodies@.subrange(0, i as int),
            ).push(q@));
            assert(out@.map_values(|q: UploadRequest<V>| q@) =~= requests_of(
                self.cfg,
                first,
                bodies@.subrange(0, i + 1),
            ));
            i = i + 1;
        }
        assert(bodies@.subrange(0, i as int) =~= bodies@);
        out
    }
}

/// How an upload ended, for the log.
#[derive(Clone, Copy, Debug, PartialEq, Eq)]
pub enum UploadOutcome {
    /// The collector answered with a 2xx status.
    Uploaded { status: u16 },
    /// The collector answered with another status.
    Rejected { status: u16 },
    /// No answer came: the connection failed or timed out.
    TransportFailed,
}

/// A status in the 2xx class.
pub open spec fn is_success(status: u16) -> bool {
    200 <= status < 300
}

/// The outcome for the status that came back, `None` when no answer came.
pub open spec fn outcome_spec(status: Option<u16>) -> UploadOutcome {
    match status {
        Some(s) => if is_success(s) {
            UploadOutcome::Uploaded { status: s }
        } else {
            UploadOutcome::Rejected { status: s }
        },
        None => UploadOutcome::TransportFailed,
    }
}

/// Classifies the answer to an upload: a 2xx status is a success, any other
/// status a rejection, no answer a transport failure. Either failure is only
/// logged.
pub fn response_outcome(status: Option<u16>) -> (r: UploadOutcome)
    ensures
        r == outcome_spec(status),
{
    match status {
        Some(s) => if 200 <= s && s < 300 {
            UploadOutcome::Uploaded { status: s }
        } else {
            UploadOutcome::Rejected { status: s }
        },
        None => UploadOutcome::TransportFailed,
    }
}

/// Records taken in two batches are numbered as if taken in one: numbering
/// goes on from where the previous batch stopped.
pub proof fn lemma_batches_continue_numbering<V>(
    cfg: Config,
    first: u64,
    a: Seq<UploadBody<V>>,
    b: Seq<UploadBody<V>>,
)
    requires
        first + a.len() + b.len() <= u64::MAX,
    ensures
        requests_of(cfg, first, a + b) == requests_of(cfg, first, a) + requests_of(
            cfg,
            (first + a.len()) as u64,
            b,
        ),
{
    assert(requests_of(cfg, first, a + b) =~= requests_of(cfg, first, a) + requests_of(
        cfg,
        (first + a.len()) as u64,
        b,
    ));
}

/// From a fresh agent the sequence numbers are 0, 1, 2, ...: each one more
/// than the one before, whichever feed the record came from.
pub proof fn lemma_sequence_from_zero<V>(cfg: Config, bodies: Seq<UploadBody<V>>)
    requires
        bodies.len() <= u64::MAX,
    ensures
        forall|i: int| 0 <= i < bodies.len() ==> #[trigger] requests_of(cfg, 0, bodies)[i].seq == i,
        forall|i: int|
            0 <= i < bodies.len() - 1 ==> #[trigger] requests_of(cfg, 0, bodies)[i + 1].seq
                == requests_of(cfg, 0, bodies)[i].seq + 1,
{
}

/// A record taken before another is dispatched before it, under a smaller
/// sequence number, and every request goes to the upload address.
pub proof fn lemma_dispatch_keeps_order<V>(
    cfg: Config,
    first: u64,
    bodies: Seq<UploadBody<V>>,
    i: int,
    j: int,
)
    requires
        first + bodies.len() <= u64::MAX,
        0 <= i < j < bodies.len(),
    ensures
        requests_of(cfg, first, bodies)[i].body == bodies[i],
        requests_of(cfg, first, bodies)[j].body == bodies[j],
        requests_of(cfg, first, bodies)[i].seq < requests_of(cfg, first, bodies)[j].seq,
        requests_of(cfg, first, bodies)[i].uri == upload_url_spec(cfg),
        requests_of(cfg, first, bodies)[j].uri == upload_url_spec(cfg),
{
}

/// A failed upload (a status outside 2xx, or no answer) is only reported:
/// the next record still goes out at once under the next number, and the
/// failed one is not sent again.
pub proof fn lemma_failed_upload_not_retried<V>(
    cfg: Config,
    k: u64,
    failed: UploadBody<V>,
    rest: Seq<UploadBody<V>>,
    status: Option<u16>,
)
    requires
        k + 1 + rest.len() <= u64::MAX,
        status matches Some(s) ==> !is_success(s),
    ensures
        !(outcome_spec(status) is Uploaded),
        requests_of(cfg, k, seq![failed] + rest) == seq![request_of(cfg, k, failed)] + requests_of(
            cfg,
            (k + 1) as u64,
            rest,
        ),
        rest.len() > 0 ==> requests_of(cfg, (k + 1) as u64, rest)[0] == request_of(
            cfg,
            (k + 1) as u64,
            rest[0],
        ),
{
    lemma_batches_continue_numbering(cfg, k, seq![failed], rest);
    assert(requests_of(cfg, k, seq![failed]) =~= seq![request_of(cfg, k, failed)]);
}

} // verus!
