use vstd::prelude::*;

verus! {

/// The sending end of the std channel by which log lines of the script reach
/// the host.
#[verifier::external_type_specification]
#[verifier::external_body]
#[verifier::reject_recursive_types(T)]
pub struct ExMpscSender<T>(std::sync::mpsc::Sender<T>);

/// A log line written by the script.
#[derive(Debug, Clone)]
pub struct LogEvent {
    pub level: String,
    pub message: String,
}

/// What became of a log line.
#[derive(Debug, Clone, Copy, PartialEq, Eq, Structural)]
pub enum LogDelivery {
    /// The engine's state holds no channel to the host.
    NoSender,
    /// The line was handed to the channel.
    Delivered,
    /// The host has dropped its end of the channel.
    ReceiverGone,
}

/// `std::sync::mpsc::Sender::send`: `true` where the channel accepted the
/// value (std documents that `send` fails only when the receiver is gone,
/// and that an accepted value is queued for the receiver). Whether that
/// happens depends on the receiver, so nothing is stated of the result.
#[verifier::external_body]
fn send_log_event(tx: &std::sync::mpsc::Sender<LogEvent>, evt: LogEvent) -> (sent: bool) {
    tx.send(evt).is_ok()
}

/// A log line as a pair of texts: level, message.
pub type LogLine = (Seq<char>, Seq<char>);

impl View for LogEvent {
    type V = LogLine;

    open spec fn view(&self) -> LogLine {
        (self.level@, self.message@)
    }
}

/// The host's end of the log channel as the engine's state holds it, with
/// the log lines that the channel has accepted through it so far, in order.
pub struct LogSender {
    tx: std::sync::mpsc::Sender<LogEvent>,
    offered: Ghost<Seq<LogLine>>,
    accepted: Ghost<Seq<LogLine>>,
}

impl LogSender {
    /// The log lines the channel accepted through this sender, oldest first.
    pub closed spec fn accepted(&self) -> Seq<LogLine> {
        self.accepted@
    }

    /// The log lines handed to the channel through this sender, oldest
    /// first, whether the channel took them or not.
    pub closed spec fn offered(&self) -> Seq<LogLine> {
        self.offered@
    }

    pub fn new(tx: std::sync::mpsc::Sender<LogEvent>) -> (s: Self)
        ensures
            s.accepted() == Seq::<LogLine>::empty(),
            s.offered() == Seq::<LogLine>::empty(),
    {
        LogSender { tx, offered: Ghost(Seq::empty()), accepted: Ghost(Seq::empty()) }
    }

    /// Hands `evt` to the channel, whatever it holds; `true` where the
    /// channel accepted it, and then it is the newest accepted line.
    pub fn send(&mut self, evt: LogEvent) -> (sent: bool)
        ensures
            final(self).offered() == old(self).offered().push(evt@),
            sent ==> final(self).accepted() == old(self).accepted().push(evt@),
            !sent ==> final(self).accepted() == old(self).accepted(),
    {
        let ghost line = evt@;
        let sent = send_log_event(&self.tx, evt);
        proof {
            self.offered@ = self.offered@.push(line);
        }
        if sent {
            proof {
                self.accepted@ = self.accepted@.push(line);
            }
        }
        sent
    }
}

/// The accepted lines after a delivery with outcome `r` of `line`.
pub open spec fn after_delivery(before: Seq<LogLine>, line: LogLine, r: LogDelivery) -> Seq<LogLine> {
    if r == LogDelivery::Delivered {
        before.push(line)
    } else {
        before
    }
}

/// Log lines delivered one after the other are accepted in call order, each
/// exactly once; a line whose delivery failed leaves no trace.
pub proof fn law_log_lines_keep_call_order(
    before: Seq<LogLine>,
    first: LogLine,
    r1: LogDelivery,
    second: LogLine,
    r2: LogDelivery,
)
    ensures
        r1 == LogDelivery::Delivered && r2 == LogDelivery::Delivered ==> after_delivery(
            after_delivery(before, first, r1),
            second,
            r2,
        ) == before + seq![first, second],
        r1 != LogDelivery::Delivered ==> after_delivery(after_delivery(before, first, r1), second, r2)
            == after_delivery(before, second, r2),
{
    assert(before.push(first).push(second) =~= before + seq![first, second]);
}

/// Every line given to a sender is offered to the channel, in call order and
/// whatever its level or message, and a line counts as accepted only after
/// it was offered: whatever the channel did, what it accepted is what was
/// offered, minus the refused lines.
pub proof fn law_lines_are_offered_before_accepted(
    offered: Seq<LogLine>,
    accepted: Seq<LogLine>,
    line: LogLine,
    r: LogDelivery,
)
    requires
        r != LogDelivery::NoSender,
    ensures
        offered.push(line).last() == line,
        offered.push(line).len() == offered.len() + 1,
        after_delivery(accepted, line, r).len() <= accepted.len() + 1,
        after_delivery(accepted, line, r).len() == accepted.len() + 1 <==> r
            == LogDelivery::Delivered,
        r == LogDelivery::Delivered ==> after_delivery(accepted, line, r).last() == line,
{
}

impl LogEvent {
    pub fn new(level: &str, message: &str) -> (e: Self)
        ensures
            e.level@ == level@,
            e.message@ == message@,
    {
        LogEvent { level: String::from_str(level), message: String::from_str(message) }
    }
}

/// Forwards a log line of the script, at `level` with `message`, to the host
/// over `tx`, the channel found in the engine's state, if any.
pub fn deliver_log(tx: Option<&mut LogSender>, level: &str, message: &str) -> (r: LogDelivery)
    ensures
        tx is None <==> r == LogDelivery::NoSender,
        tx matches Some(t) ==> final(t).offered() == t.offered().push((level@, message@)),
        tx matches Some(t) ==> final(t).accepted() == after_delivery(
            t.accepted(),
            (level@, message@),
            r,
        ),
{
    let evt = LogEvent::new(level, message);
    match tx {
        None => LogDelivery::NoSender,
        Some(tx) => {
            if tx.send(evt) {
                LogDelivery::Delivered
            } else {
                LogDelivery::ReceiverGone
            }
        },
    }
}

} // verus!
