//! The process supervisor: it parses command lines, tracks the children the
//! host application has launched, hands out the identifiers to terminate on
//! shutdown, and produces the lifecycle notifications the UI consumes.
//!
//! The host application owns the operating-system handles and the channels;
//! this module owns every decision: which identifiers are tracked, which
//! notification each event produces, and when the supervisor closes.

use vstd::prelude::*;

verus! {

// ------------------------------------------------------------------
// Command-line parsing
// ------------------------------------------------------------------

/// The segments of `s` split on single spaces: every space ends a segment,
/// so doubled, leading or trailing spaces yield empty segments. There is
/// always at least one segment.
pub open spec fn split_on_spaces(s: Seq<char>) -> Seq<Seq<char>>
    decreases s.len(),
{
    if s.len() == 0 {
        seq![Seq::<char>::empty()]
    } else if s.last() == ' ' {
        split_on_spaces(s.drop_last()).push(Seq::<char>::empty())
    } else {
        let pre = split_on_spaces(s.drop_last());
        pre.update(pre.len() - 1, pre.last().push(s.last()))
    }
}

/// Splitting yields at least one segment, empty input included.
pub proof fn lemma_split_has_a_segment(s: Seq<char>)
    ensures
        split_on_spaces(s).len() >= 1,
    decreases s.len(),
{
    if s.len() > 0 {
        lemma_split_has_a_segment(s.drop_last());
    }
}

/// The views of the strings in `s`.
pub open spec fn seg_views(s: Seq<String>) -> Seq<Seq<char>> {
    s.map_values(|a: String| a@)
}

/// A parsed command line: the program to launch and its arguments.
#[derive(Debug, Clone, PartialEq)]
pub struct CommandLine {
    pub program: String,
    pub args: Vec<String>,
}

impl View for CommandLine {
    type V = Seq<Seq<char>>;

    open spec fn view(&self) -> Seq<Seq<char>> {
        seq![self.program@] + seg_views(self.args@)
    }
}

/// Splits a whitespace-separated command line into the program (the first
/// segment, empty when the line starts with a space or is empty) and its
/// arguments (the remaining segments).
pub fn parse_command(line: &str) -> (r: CommandLine)
    ensures
        r@ == split_on_spaces(line@),
        r.program@ == split_on_spaces(line@)[0],
{
    let n = line.unicode_len();
    let mut segments: Vec<String> = Vec::new();
    let mut start: usize = 0;
    let mut i: usize = 0;
    proof {
        assert(line@.take(0) =~= Seq::<char>::empty());
        assert(line@.subrange(0, 0) =~= Seq::<char>::empty());
        assert(split_on_spaces(line@.take(0)) =~= seg_views(segments@).push(
            line@.subrange(0, 0),
        ));
    }
    while i < n
        invariant
            n == line@.len(),
            start <= i <= n,
            split_on_spaces(line@.take(i as int)) == seg_views(segments@).push(
                line@.subrange(start as int, i as int),
            ),
        decreases n - i,
    {
        let ghost t0 = line@.take(i as int);
        let ghost t1 = line@.take(i + 1 as int);
        proof {
            assert(t1.drop_last() =~= t0);
            assert(t1.last() == line@[i as int]);
        }
        let c = line.get_char(i);
        if c == ' ' {
            let seg = line.substring_char(start, i).to_owned();
            let ghost before = segments@;
            segments.push(seg);
            proof {
                assert(seg_views(segments@) =~= seg_views(before).push(
                    line@.subrange(start as int, i as int),
                ));
                assert(line@.subrange(i + 1 as int, i + 1 as int) =~= Seq::<char>::empty());
                assert(split_on_spaces(t1) =~= seg_views(segments@).push(
                    line@.subrange(i + 1 as int, i + 1 as int),
                ));
            }
            start = i + 1;
        } else {
            proof {
                let pre = split_on_spaces(t0);
                lemma_split_has_a_segment(t0);
                assert(pre.last() == line@.subrange(start as int, i as int));
                assert(line@.subrange(start as int, i as int).push(line@[i as int]) =~= line@.subrange(
                    start as int,
                    i + 1 as int,
                ));
                assert(split_on_spaces(t1) =~= seg_views(segments@).push(
                    line@.subrange(start as int, i + 1 as int),
                ));
            }
        }
        i = i + 1;
    }
    let last = line.substring_char(start, n).to_owned();
    let ghost before = segments@;
    segments.push(last);
    proof {
        assert(line@.take(n as int) =~= line@);
        assert(seg_views(segments@) =~= seg_views(before).push(
            line@.subrange(start as int, n as int),
        ));
        assert(seg_views(segments@) == split_on_spaces(line@));
    }
    let ghost full = seg_views(segments@);
    let program = segments.remove(0);
    let args = segments;
    let r = CommandLine { program, args };
    proof {
        assert forall|k: int| 0 <= k < full.len() implies r@[k] == full[k] by {
            if k >= 1 {
                assert(args@[k - 1] == before.push(last)[k]);
            }
        }
        assert(r@ =~= full);
    }
    r
}

// ------------------------------------------------------------------
// Exit records
// ------------------------------------------------------------------

/// How a child finished.
#[derive(Debug, Clone, Copy, PartialEq, Eq, Structural)]
pub enum ExitStatus {
    /// The child exited on its own with this status code.
    Code(i32),
    /// The child was force-terminated during shutdown.
    Killed,
}

impl ExitStatus {
    /// A plain exit with status code zero counts as success.
    pub fn success(&self) -> (r: bool)
        ensures
            r == (*self == ExitStatus::Code(0)),
    {
        match self {
            ExitStatus::Code(code) => *code == 0,
            ExitStatus::Killed => false,
        }
    }
}

/// The Exit Record of a finished child: its terminal status and the captured
/// output streams. Produced once per process and immutable thereafter.
#[derive(Debug, Clone, PartialEq)]
pub struct Exited {
    pub status: ExitStatus,
    pub stdout: String,
    pub stderr: String,
}

impl Exited {
    /// The captured standard output.
    pub fn stdout(&self) -> (r: &String)
        ensures
            r@ == self.stdout@,
    {
        &self.stdout
    }

    /// The captured standard error.
    pub fn stderr(&self) -> (r: &String)
        ensures
            r@ == self.stderr@,
    {
        &self.stderr
    }
}

/// Reading a record's captured output is idempotent: any two reads of the
/// same record agree, stream by stream.
pub proof fn lemma_capture_idempotent(
    e: &Exited,
    out_a: Seq<char>,
    out_b: Seq<char>,
    err_a: Seq<char>,
    err_b: Seq<char>,
)
    requires
        out_a == e.stdout@,
        out_b == e.stdout@,
        err_a == e.stderr@,
        err_b == e.stderr@,
    ensures
        out_a == out_b,
        err_a == err_b,
{
}

// ------------------------------------------------------------------
// The supervisor
// ------------------------------------------------------------------

/// Where the supervisor stands in its life: it only ever moves forward,
/// and `Closed` is terminal.
#[derive(Debug, Clone, Copy, PartialEq, Eq, Structural)]
pub enum Phase {
    /// Not set up yet; nothing is tracked.
    Idle,
    /// Accepting spawns and exits.
    Active,
    /// Waiting for the force-terminated children to be reaped.
    ShuttingDown,
    /// Shutdown complete; no further input is accepted.
    Closed,
}

/// A command the host loop receives on its channel.
#[derive(Debug, Clone, Copy, PartialEq, Eq, Structural)]
pub enum Event {
    /// A child was launched under this identifier; track it.
    Wait(u32),
    /// Terminate every tracked child and close.
    Close,
}

/// One multiplexed input of the supervisor loop: a channel event or the
/// completed exit of a tracked child.
#[derive(Debug, PartialEq)]
pub enum Input {
    Event(Event),
    /// A child exited; its Exit Record, or the message of the error that
    /// left its status unavailable.
    Process(u32, Result<Exited, String>),
}

/// A lifecycle notification for the consumer.
#[derive(Debug, PartialEq)]
pub enum Message {
    /// The supervisor is up and accepts commands.
    Setup,
    /// A child was registered under this identifier.
    Spawned(u32),
    /// A tracked child finished; its Exit Record or an error message.
    ProcessExited(u32, Result<Exited, String>),
    /// Shutdown is complete; nothing is tracked any more.
    Closed,
}

/// Why a registration was turned down.
#[derive(Debug, Clone, Copy, PartialEq, Eq, Structural)]
pub enum RegisterError {
    /// The supervisor is not in its accepting phase.
    NotAccepting,
    /// The identifier is already tracked, or was tracked once before.
    DuplicateId,
}

/// What one supervisor step asks of the host: notifications to deliver and
/// children to force-terminate.
#[derive(Debug, PartialEq)]
pub struct StepOutput {
    pub notifications: Vec<Message>,
    pub kill: Vec<u32>,
}

/// The Process Supervisor: a registry of the identifiers of the children in
/// flight, the identifiers already reaped, and the current phase.
#[derive(Debug, PartialEq)]
pub struct Supervisor {
    pub phase: Phase,
    pub active: Vec<u32>,
    pub retired: Vec<u32>,
}

impl Supervisor {
    /// The registry invariant: tracked identifiers are pairwise distinct and
    /// never equal to a retired one; nothing is tracked before setup or
    /// after closing.
    pub open spec fn wf(&self) -> bool {
        &&& forall|i: int, j: int|
            0 <= i < j < self.active@.len() ==> self.active@[i] != self.active@[j]
        &&& forall|i: int|
            0 <= i < self.active@.len() ==> !self.retired@.contains(#[trigger] self.active@[i])
        &&& self.phase is Idle ==> self.active@.len() == 0 && self.retired@.len() == 0
        &&& self.phase is Closed ==> self.active@.len() == 0
    }

    /// A fresh supervisor: idle, with an empty registry.
    pub fn new() -> (s: Supervisor)
        ensures
            s.phase is Idle,
            s.active@.len() == 0,
            s.retired@.len() == 0,
            s.wf(),
    {
        Supervisor { phase: Phase::Idle, active: Vec::new(), retired: Vec::new() }
    }

    /// Brings the supervisor up once its channel exists: it starts accepting
    /// commands and announces itself.
    pub fn setup(&mut self) -> (m: Message)
        requires
            old(self).wf(),
            old(self).phase is Idle,
        ensures
            final(self).wf(),
            final(self).phase is Active,
            final(self).active@ == old(self).active@,
            final(self).retired@ == old(self).retired@,
            m == Message::Setup,
    {
        self.phase = Phase::Active;
        Message::Setup
    }

    /// Registers a newly launched child. It succeeds exactly when the
    /// supervisor is accepting and the identifier is fresh: never tracked
    /// now, never tracked before.
    pub fn register(&mut self, id: u32) -> (r: Result<Message, RegisterError>)
        requires
            old(self).wf(),
        ensures
            final(self).wf(),
            final(self).phase == old(self).phase,
            final(self).retired@ == old(self).retired@,
            r is Ok <==> old(self).phase is Active && !old(self).active@.contains(id) && !old(self).retired@.contains(id),
            r is Ok ==> final(self).active@ == old(self).active@.push(id) && r->Ok_0
                == Message::Spawned(id),
            r is Err ==> *final(self) == *old(self),
            r is Err ==> r->Err_0 == (if old(self).phase is Active {
                RegisterError::DuplicateId
            } else {
                RegisterError::NotAccepting
            }),
    {
        if !matches!(self.phase, Phase::Active) {
            return Err(RegisterError::NotAccepting);
        }
        if contains_id(&self.active, id) || contains_id(&self.retired, id) {
            return Err(RegisterError::DuplicateId);
        }
        self.active.push(id);
        Ok(Message::Spawned(id))
    }

    /// Handles the completed exit of the child `id`: it leaves the registry,
    /// its identifier is retired, and its notification is returned. When the
    /// last child of a shutdown is reaped, the supervisor closes and the
    /// completion notification follows. An identifier that is not tracked —
    /// in particular, any identifier after the supervisor has closed — is
    /// ignored and nothing is emitted.
    pub fn handle_exit(&mut self, id: u32, outcome: Result<Exited, String>) -> (out: Vec<Message>)
        requires
            old(self).wf(),
        ensures
            final(self).wf(),
            !old(self).active@.contains(id) ==> *final(self) == *old(self) && out@.len() == 0,
            old(self).active@.contains(id) ==> {
                &&& final(self).active@ == old(self).active@.remove_value(id)
                &&& final(self).retired@ == old(self).retired@.push(id)
                &&& if old(self).phase is ShuttingDown && old(self).active@.len() == 1 {
                    final(self).phase is Closed && out@ == seq![
                        Message::ProcessExited(id, outcome),
                        Message::Closed,
                    ]
                } else {
                    final(self).phase == old(self).phase && out@ == seq![
                        Message::ProcessExited(id, outcome),
                    ]
                }
            },
    {
        let mut out: Vec<Message> = Vec::new();
        let found = find_id(&self.active, id);
        let k = match found {
            Some(k) => k,
            None => {
                return out;
            },
        };
        proof {
            assert(old(self).active@.contains(id)) by {
                assert(old(self).active@[k as int] == id);
            }
            old(self).active@.index_of_first_ensures(id);
            assert(old(self).active@.index_of_first(id) == Some(k as int));
            old(self).active@.remove_ensures(k as int);
        }
        let ghost first_note = Message::ProcessExited(id, outcome);
        self.active.remove(k);
        self.retired.push(id);
        out.push(Message::ProcessExited(id, outcome));
        proof {
            assert(out@ =~= seq![first_note]);
            assert forall|i: int|
                0 <= i < self.active@.len() implies self.active@[i] != id && old(
                self,
            ).active@.contains(#[trigger] self.active@[i]) by {
                if i < k {
                    assert(self.active@[i] == old(self).active@[i]);
                } else {
                    assert(self.active@[i] == old(self).active@[i + 1]);
                }
            }
            assert forall|i: int, j: int|
                0 <= i < j < self.active@.len() implies self.active@[i] != self.active@[j] by {
                let oi: int = if i < k {
                    i
                } else {
                    i + 1
                };
                let oj: int = if j < k {
                    j
                } else {
                    j + 1
                };
                assert(self.active@[i] == old(self).active@[oi]);
                assert(self.active@[j] == old(self).active@[oj]);
            }
            assert forall|i: int|
                0 <= i < self.active@.len() implies !self.retired@.contains(
                #[trigger] self.active@[i],
            ) by {
                let x = self.active@[i];
                assert(!old(self).retired@.contains(x));
                assert forall|j: int| 0 <= j < self.retired@.len() implies self.retired@[j] != x by {
                    if j < old(self).retired@.len() {
                        assert(self.retired@[j] == old(self).retired@[j]);
                    } else {
                        assert(self.retired@[j] == id);
                    }
                }
            }
        }
        if matches!(self.phase, Phase::ShuttingDown) && self.active.is_empty() {
            self.phase = Phase::Closed;
            out.push(Message::Closed);
            proof {
                assert(out@ =~= seq![first_note, Message::Closed]);
            }
        }
        out
    }

    /// Begins shutdown: the result lists every identifier the host must
    /// force-terminate. With nothing tracked the supervisor closes at once
    /// and the completion notification comes with it; a supervisor that is
    /// not accepting ignores the request. Shutdown is not cancellable.
    pub fn request_shutdown(&mut self) -> (r: (Vec<u32>, Option<Message>))
        requires
            old(self).wf(),
        ensures
            final(self).wf(),
            final(self).active@ == old(self).active@,
            final(self).retired@ == old(self).retired@,
            old(self).phase is Active && old(self).active@.len() > 0 ==> final(self).phase is ShuttingDown && r.0@ == old(self).active@ && r.1 is None,
            old(self).phase is Active && old(self).active@.len() == 0 ==> final(self).phase is Closed && r.0@.len() == 0 && r.1 == Some(Message::Closed),
            !(old(self).phase is Active) ==> *final(self) == *old(self) && r.0@.len() == 0
                && r.1 is None,
    {
        if !matches!(self.phase, Phase::Active) {
            return (Vec::new(), None);
        }
        if self.active.is_empty() {
            self.phase = Phase::Closed;
            return (Vec::new(), Some(Message::Closed));
        }
        self.phase = Phase::ShuttingDown;
        (copy_ids(&self.active), None)
    }

    /// One turn of the supervisor loop: applies a multiplexed input and
    /// returns the notifications to deliver and the children to terminate.
    pub fn step(&mut self, input: Input) -> (out: StepOutput)
        requires
            old(self).wf(),
        ensures
            final(self).wf(),
            input matches Input::Event(Event::Wait(id)) ==> {
                &&& out.kill@.len() == 0
                &&& if old(self).phase is Active && !old(self).active@.contains(id) && !old(self).retired@.contains(id) {
                    final(self).active@ == old(self).active@.push(id) && final(self).phase == old(self).phase && final(self).retired@ == old(self).retired@ && out.notifications@
                        == seq![Message::Spawned(id)]
                } else {
                    *final(self) == *old(self) && out.notifications@.len() == 0
                }
            },
            input == Input::Event(Event::Close) ==> {
                &&& final(self).active@ == old(self).active@
                &&& final(self).retired@ == old(self).retired@
                &&& if old(self).phase is Active && old(self).active@.len() > 0 {
                    final(self).phase is ShuttingDown && out.kill@ == old(self).active@
                        && out.notifications@.len() == 0
                } else if old(self).phase is Active {
                    final(self).phase is Closed && out.kill@.len() == 0 && out.notifications@
                        == seq![Message::Closed]
                } else {
                    *final(self) == *old(self) && out.kill@.len() == 0 && out.notifications@.len()
                        == 0
                }
            },
            input matches Input::Process(id, outcome) ==> {
                &&& out.kill@.len() == 0
                &&& if old(self).active@.contains(id) {
                    &&& final(self).active@ == old(self).active@.remove_value(id)
                    &&& final(self).retired@ == old(self).retired@.push(id)
                    &&& if old(self).phase is ShuttingDown && old(self).active@.len() == 1 {
                        final(self).phase is Closed && out.notifications@ == seq![
                            Message::ProcessExited(id, outcome),
                            Message::Closed,
                        ]
                    } else {
                        final(self).phase == old(self).phase && out.notifications@ == seq![
                            Message::ProcessExited(id, outcome),
                        ]
                    }
                } else {
                    *final(self) == *old(self) && out.notifications@.len() == 0
                }
            },
    {
        match input {
            Input::Event(Event::Wait(id)) => {
                match self.register(id) {
                    Ok(m) => {
                        let mut notifications: Vec<Message> = Vec::new();
                        notifications.push(m);
                        proof {
                            assert(notifications@ =~= seq![Message::Spawned(id)]);
                        }
                        StepOutput { notifications, kill: Vec::new() }
                    }
                    Err(_) => StepOutput { notifications: Vec::new(), kill: Vec::new() },
                }
            }
            Input::Event(Event::Close) => {
                let (kill, note) = self.request_shutdown();
                let mut notifications: Vec<Message> = Vec::new();
                if let Some(m) = note {
                    notifications.push(m);
                    proof {
                        assert(notifications@ =~= seq![Message::Closed]);
                    }
                }
                StepOutput { notifications, kill }
            }
            Input::Process(id, outcome) => {
                let notifications = self.handle_exit(id, outcome);
                StepOutput { notifications, kill: Vec::new() }
            }
        }
    }
}

/// No two tracked processes ever share an identifier: two registry slots
/// holding the same identifier are one slot.
pub proof fn lemma_ids_unique(s: &Supervisor, i: int, j: int)
    requires
        s.wf(),
        0 <= i < s.active@.len(),
        0 <= j < s.active@.len(),
        s.active@[i] == s.active@[j],
    ensures
        i == j,
{
}

/// Once shutdown has completed the registry is empty, so — by the contract
/// of `handle_exit` — no exit notification is ever emitted again.
pub proof fn lemma_closed_registry_empty(s: &Supervisor)
    requires
        s.wf(),
        s.phase is Closed,
    ensures
        s.active@.len() == 0,
        forall|id: u32| !s.active@.contains(id),
{
}

/// The position of the first occurrence of `id` in `v`, if any.
fn find_id(v: &Vec<u32>, id: u32) -> (r: Option<usize>)
    ensures
        match r {
            Some(k) => k < v@.len() && v@[k as int] == id && forall|j: int|
                0 <= j < k ==> v@[j] != id,
            None => !v@.contains(id),
        },
{
    let mut k: usize = 0;
    while k < v.len()
        invariant
            k <= v@.len(),
            forall|j: int| 0 <= j < k ==> v@[j] != id,
        decreases v@.len() - k,
    {
        if v[k] == id {
            return Some(k);
        }
        k = k + 1;
    }
    None
}

/// Whether `v` holds `id`.
fn contains_id(v: &Vec<u32>, id: u32) -> (b: bool)
    ensures
        b == v@.contains(id),
{
    let mut k: usize = 0;
    while k < v.len()
        invariant
            k <= v@.len(),
            forall|j: int| 0 <= j < k ==> v@[j] != id,
        decreases v@.len() - k,
    {
        if v[k] == id {
            return true;
        }
        k = k + 1;
    }
    false
}

/// A copy of a list of identifiers.
fn copy_ids(v: &Vec<u32>) -> (r: Vec<u32>)
    ensures
        r@ == v@,
{
    let mut r: Vec<u32> = Vec::new();
    let mut k: usize = 0;
    while k < v.len()
        invariant
            k <= v@.len(),
            r@ == v@.take(k as int),
        decreases v@.len() - k,
    {
        r.push(v[k]);
        proof {
            assert(r@ =~= v@.take(k + 1 as int));
        }
        k = k + 1;
    }
    proof {
        assert(v@.take(v@.len() as int) =~= v@);
    }
    r
}

} // verus!
