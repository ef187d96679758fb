use vstd::prelude::*;

verus! {

/// Seconds to wait after a failed or closed connection before the next
/// attempt. The delay is fixed and attempts are never capped.
pub const BACKOFF_SECS: u64 = 5;

/// Where the feed subscription stands.
#[derive(Debug, Clone, Copy, PartialEq, Eq, Structural)]
pub enum ConnState {
    /// No connection; waiting to (re)connect.
    Disconnected,
    /// A handshake is in progress.
    Connecting,
    /// The handshake succeeded; the subscription message is being sent.
    Subscribed,
    /// Frames are being received and forwarded.
    Receiving,
}

/// What the transport reports to the supervisor.
#[derive(Debug)]
pub enum TransportEvent {
    /// The supervisor may connect: at start, or once the backoff delay is over.
    Ready,
    /// The secure streaming handshake succeeded.
    HandshakeOk,
    /// The handshake failed.
    HandshakeFailed,
    /// The subscription message was written.
    SubscribeSent,
    /// Writing the subscription message failed.
    SubscribeFailed,
    /// A text frame arrived.
    Text(String),
    /// A frame other than text or close arrived (binary, ping, pong).
    OtherFrame,
    /// The peer sent a close frame.
    Closed,
    /// Reading from the connection failed.
    ReadError,
    /// The connection's frame stream ended.
    StreamEnded,
}

/// What the supervisor asks the transport to do next.
#[derive(Debug)]
pub enum Action {
    /// Open the secure streaming connection to the feed endpoint.
    Connect,
    /// Send the subscription message.
    Subscribe,
    /// Wait for the next frame.
    Receive,
    /// Forward this payload to the price-update topic, then wait for the next frame.
    Publish(String),
    /// Tear the connection down, wait this many seconds, then report `Ready`.
    Backoff(u64),
    /// The event does not apply in the current state; nothing to do.
    Idle,
}

/// The state after `e` arrives in state `s`.
pub open spec fn next_state(s: ConnState, e: TransportEvent) -> ConnState {
    match (s, e) {
        (ConnState::Disconnected, TransportEvent::Ready) => ConnState::Connecting,
        (ConnState::Connecting, TransportEvent::HandshakeOk) => ConnState::Subscribed,
        (ConnState::Connecting, TransportEvent::HandshakeFailed) => ConnState::Disconnected,
        (ConnState::Subscribed, TransportEvent::SubscribeSent) => ConnState::Receiving,
        (ConnState::Subscribed, TransportEvent::SubscribeFailed) => ConnState::Disconnected,
        (ConnState::Receiving, TransportEvent::Text(_)) => ConnState::Receiving,
        (ConnState::Receiving, TransportEvent::OtherFrame) => ConnState::Receiving,
        (ConnState::Receiving, TransportEvent::Closed) => ConnState::Disconnected,
        (ConnState::Receiving, TransportEvent::ReadError) => ConnState::Disconnected,
        (ConnState::Receiving, TransportEvent::StreamEnded) => ConnState::Disconnected,
        _ => s,
    }
}

/// The action taken when `e` arrives in state `s`.
pub open spec fn next_action(s: ConnState, e: TransportEvent) -> Action {
    match (s, e) {
        (ConnState::Disconnected, TransportEvent::Ready) => Action::Connect,
        (ConnState::Connecting, TransportEvent::HandshakeOk) => Action::Subscribe,
        (ConnState::Connecting, TransportEvent::HandshakeFailed) => Action::Backoff(BACKOFF_SECS),
        (ConnState::Subscribed, TransportEvent::SubscribeSent) => Action::Receive,
        (ConnState::Subscribed, TransportEvent::SubscribeFailed) => Action::Backoff(BACKOFF_SECS),
        (ConnState::Receiving, TransportEvent::Text(t)) => Action::Publish(t),
        (ConnState::Receiving, TransportEvent::OtherFrame) => Action::Receive,
        (ConnState::Receiving, TransportEvent::Closed) => Action::Backoff(BACKOFF_SECS),
        (ConnState::Receiving, TransportEvent::ReadError) => Action::Backoff(BACKOFF_SECS),
        (ConnState::Receiving, TransportEvent::StreamEnded) => Action::Backoff(BACKOFF_SECS),
        _ => Action::Idle,
    }
}

/// The state reached from `s` after the events `evs`, in order.
pub open spec fn run(s: ConnState, evs: Seq<TransportEvent>) -> ConnState
    decreases evs.len(),
{
    if evs.len() == 0 {
        s
    } else {
        run(next_state(s, evs[0]), evs.drop_first())
    }
}

/// How many backoff delays are taken from `s` over the events `evs`.
pub open spec fn backoffs(s: ConnState, evs: Seq<TransportEvent>) -> nat
    decreases evs.len(),
{
    if evs.len() == 0 {
        0
    } else {
        (if next_action(s, evs[0]) is Backoff {
            1nat
        } else {
            0nat
        }) + backoffs(next_state(s, evs[0]), evs.drop_first())
    }
}

/// `n` connection attempts whose handshake fails, each after its delay.
pub open spec fn failed_attempts(n: nat) -> Seq<TransportEvent>
    decreases n,
{
    if n == 0 {
        Seq::empty()
    } else {
        seq![TransportEvent::Ready, TransportEvent::HandshakeFailed] + failed_attempts(
            (n - 1) as nat,
        )
    }
}

/// One connection attempt that succeeds and subscribes.
pub open spec fn good_attempt() -> Seq<TransportEvent> {
    seq![TransportEvent::Ready, TransportEvent::HandshakeOk, TransportEvent::SubscribeSent]
}

/// Runs compose over concatenated event sequences.
pub proof fn lemma_run_append(s: ConnState, a: Seq<TransportEvent>, b: Seq<TransportEvent>)
    ensures
        run(s, a + b) == run(run(s, a), b),
        backoffs(s, a + b) == backoffs(s, a) + backoffs(run(s, a), b),
    decreases a.len(),
{
    if a.len() == 0 {
        assert(a + b =~= b);
    } else {
        assert((a + b).drop_first() =~= a.drop_first() + b);
        assert((a + b)[0] == a[0]);
        lemma_run_append(next_state(s, a[0]), a.drop_first(), b);
    }
}

/// Any number of failed handshakes leaves the supervisor disconnected,
/// having waited once per failure.
pub proof fn lemma_failed_attempts(n: nat)
    ensures
        run(ConnState::Disconnected, failed_attempts(n)) == ConnState::Disconnected,
        backoffs(ConnState::Disconnected, failed_attempts(n)) == n,
    decreases n,
{
    if n > 0 {
        let head = seq![TransportEvent::Ready, TransportEvent::HandshakeFailed];
        let rest = failed_attempts((n - 1) as nat);
        lemma_failed_attempts((n - 1) as nat);
        lemma_run_append(ConnState::Disconnected, head, rest);
        let t1 = head.drop_first();
        assert(head[0] == TransportEvent::Ready);
        assert(t1 =~= seq![TransportEvent::HandshakeFailed]);
        assert(t1[0] == TransportEvent::HandshakeFailed);
        assert(t1.drop_first() =~= Seq::<TransportEvent>::empty());
        assert(run(ConnState::Disconnected, t1.drop_first()) == ConnState::Disconnected);
        assert(backoffs(ConnState::Disconnected, t1.drop_first()) == 0);
        assert(run(ConnState::Connecting, t1) == ConnState::Disconnected);
        assert(backoffs(ConnState::Connecting, t1) == 1);
        assert(run(ConnState::Disconnected, head) == ConnState::Disconnected);
        assert(backoffs(ConnState::Disconnected, head) == 1);
    }
}

/// Whatever the number of handshakes that fail before one succeeds, the
/// supervisor starting disconnected ends up receiving, after exactly one
/// backoff delay per failure: retries are never capped.
pub proof fn lemma_reconnects_after_failures(n: nat)
    ensures
        run(ConnState::Disconnected, failed_attempts(n) + good_attempt()) == ConnState::Receiving,
        backoffs(ConnState::Disconnected, failed_attempts(n) + good_attempt()) == n,
{
    lemma_failed_attempts(n);
    lemma_run_append(ConnState::Disconnected, failed_attempts(n), good_attempt());
    let g = good_attempt();
    let g1 = g.drop_first();
    let g2 = g1.drop_first();
    assert(g[0] == TransportEvent::Ready);
    assert(g1 =~= seq![TransportEvent::HandshakeOk, TransportEvent::SubscribeSent]);
    assert(g1[0] == TransportEvent::HandshakeOk);
    assert(g2 =~= seq![TransportEvent::SubscribeSent]);
    assert(g2[0] == TransportEvent::SubscribeSent);
    assert(g2.drop_first() =~= Seq::<TransportEvent>::empty());
    assert(run(ConnState::Receiving, g2.drop_first()) == ConnState::Receiving);
    assert(backoffs(ConnState::Receiving, g2.drop_first()) == 0);
    assert(run(ConnState::Subscribed, g2) == ConnState::Receiving);
    assert(backoffs(ConnState::Subscribed, g2) == 0);
    assert(run(ConnState::Connecting, g1) == ConnState::Receiving);
    assert(backoffs(ConnState::Connecting, g1) == 0);
    assert(run(ConnState::Disconnected, g) == ConnState::Receiving);
    assert(backoffs(ConnState::Disconnected, g) == 0);
}

/// Every way a connection can fail or end leads back to `Disconnected`
/// with a backoff delay, and from there `Ready` always starts a new
/// attempt: the supervisor never gives up.
pub proof fn lemma_never_gives_up(s: ConnState, e: TransportEvent)
    ensures
        next_action(s, e) is Backoff ==> next_state(s, e) == ConnState::Disconnected
            && next_action(s, e) == Action::Backoff(BACKOFF_SECS),
        s == ConnState::Disconnected && e is Ready ==> next_state(s, e) == ConnState::Connecting
            && next_action(s, e) is Connect,
        (e is HandshakeFailed || e is SubscribeFailed || e is Closed || e is ReadError
            || e is StreamEnded) && next_state(s, e) != s ==> next_action(s, e) is Backoff,
{
}

/// The supervisor of the feed subscription.
#[derive(Debug)]
pub struct Supervisor {
    state: ConnState,
}

impl View for Supervisor {
    type V = ConnState;

    closed spec fn view(&self) -> ConnState {
        self.state
    }
}

impl Supervisor {
    /// A supervisor with no connection yet; report `Ready` to start it.
    pub fn new() -> (r: Supervisor)
        ensures
            r@ == ConnState::Disconnected,
    {
        Supervisor { state: ConnState::Disconnected }
    }

    /// Where the subscription stands.
    pub fn state(&self) -> (r: ConnState)
        ensures
            r == self@,
    {
        self.state
    }

    /// Takes in one transport event and says what to do next.
    pub fn step(&mut self, e: TransportEvent) -> (r: Action)
        ensures
            final(self)@ == next_state(old(self)@, e),
            r == next_action(old(self)@, e),
    {
        let s = self.state;
        match (s, e) {
            (ConnState::Disconnected, TransportEvent::Ready) => {
                self.state = ConnState::Connecting;
                Action::Connect
            },
            (ConnState::Connecting, TransportEvent::HandshakeOk) => {
                self.state = ConnState::Subscribed;
                Action::Subscribe
            },
            (ConnState::Connecting, TransportEvent::HandshakeFailed) => {
                self.state = ConnState::Disconnected;
                Action::Backoff(BACKOFF_SECS)
            },
            (ConnState::Subscribed, TransportEvent::SubscribeSent) => {
                self.state = ConnState::Receiving;
                Action::Receive
            },
            (ConnState::Subscribed, TransportEvent::SubscribeFailed) => {
                self.state = ConnState::Disconnected;
                Action::Backoff(BACKOFF_SECS)
            },
            (ConnState::Receiving, TransportEvent::Text(t)) => Action::Publish(t),
            (ConnState::Receiving, TransportEvent::OtherFrame) => Action::Receive,
            (ConnState::Receiving, TransportEvent::Closed)
            | (ConnState::Receiving, TransportEvent::ReadError)
            | (ConnState::Receiving, TransportEvent::StreamEnded) => {
                self.state = ConnState::Disconnected;
                Action::Backoff(BACKOFF_SECS)
            },
            _ => Action::Idle,
        }
    }
}

} // verus!
