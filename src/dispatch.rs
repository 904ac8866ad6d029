use crate::message::{EditMsg, InternalError};
use crate::requester::EditUser;
use vstd::prelude::*;

verus! {

/// One call that the loop makes on the document context.
pub ghost enum Invocation<S, Op> {
    Apply { user: Seq<char>, socket: S, revision: Op },
    Export,
}

/// The call that handling `m` makes on the document context.
pub open spec fn invocation_of<S, Op, RA, RJ>(m: EditMsg<S, Op, RA, RJ>) -> Invocation<S, Op> {
    match m {
        EditMsg::Revision { user, socket, revision, .. } => Invocation::Apply {
            user: user@,
            socket,
            revision,
        },
        EditMsg::DocumentJson { .. } => Invocation::Export,
    }
}

/// Where the loop stands. While a handler runs, its reply handle is held here.
pub enum Phase<RA, RJ> {
    /// Running, waiting for the next message.
    Waiting,
    /// Running, a mutation is in flight.
    Applying(RA),
    /// Running, a snapshot is being computed off the loop.
    Exporting(RJ),
    /// Running, the outcome of the last handler is being delivered.
    Replying,
    /// The mailbox closed and the loop has exited.
    Terminated,
}

/// The phase without the reply handle it may hold.
#[derive(PartialEq, Eq, Structural, Clone, Copy, Debug)]
pub enum Stage {
    Waiting,
    Applying,
    Exporting,
    Replying,
    Terminated,
}

pub open spec fn stage_of<RA, RJ>(p: Phase<RA, RJ>) -> Stage {
    match p {
        Phase::Waiting => Stage::Waiting,
        Phase::Applying(_) => Stage::Applying,
        Phase::Exporting(_) => Stage::Exporting,
        Phase::Replying => Stage::Replying,
        Phase::Terminated => Stage::Terminated,
    }
}

/// The state of the loop together with its history: every call made on the
/// document context, in the order made, and how many of them have returned.
pub ghost struct LoopView<S, Op, RA, RJ> {
    pub phase: Phase<RA, RJ>,
    pub log: Seq<Invocation<S, Op>>,
    pub completed: nat,
}

/// What the driver of the loop does next for a message just taken in.
pub enum Command<S, Op> {
    /// Call the context's apply operation and await it.
    Apply { user: EditUser<S>, revision: Op },
    /// Compute the document's export on the offload pool and await it.
    Export,
}

impl<S, Op, RA, RJ> LoopView<S, Op, RA, RJ> {
    pub open spec fn initial() -> Self {
        LoopView { phase: Phase::Waiting, log: Seq::empty(), completed: 0 }
    }

    /// Every call but the last has returned; the last is in flight exactly
    /// while a handler runs, and is of the handler's kind.
    pub open spec fn wf(self) -> bool {
        match self.phase {
            Phase::Applying(_) => {
                &&& self.log.len() == self.completed + 1
                &&& self.log.last() is Apply
            },
            Phase::Exporting(_) => {
                &&& self.log.len() == self.completed + 1
                &&& self.log.last() is Export
            },
            _ => self.log.len() == self.completed,
        }
    }

    /// How many calls on the document context are in flight.
    pub open spec fn in_flight(self) -> int {
        self.log.len() - self.completed
    }

    pub open spec fn accepts_message(self) -> bool {
        self.phase is Waiting
    }

    pub open spec fn after_message(self, m: EditMsg<S, Op, RA, RJ>) -> Self {
        LoopView {
            phase: match m {
                EditMsg::Revision { ret, .. } => Phase::Applying(ret),
                EditMsg::DocumentJson { ret } => Phase::Exporting(ret),
            },
            log: self.log.push(invocation_of(m)),
            completed: self.completed,
        }
    }

    pub open spec fn after_completion(self) -> Self {
        LoopView { phase: Phase::Replying, log: self.log, completed: self.completed + 1 }
    }

    /// Whether the caller still waited for the reply (`accepted`) has no
    /// bearing on the loop.
    pub open spec fn after_delivery(self, accepted: bool) -> Self {
        LoopView { phase: Phase::Waiting, log: self.log, completed: self.completed }
    }

    pub open spec fn after_close(self) -> Self {
        LoopView { phase: Phase::Terminated, log: self.log, completed: self.completed }
    }
}

/// The decisions of the actor loop, apart from the waiting it does: the
/// driver takes a message from the mailbox, hands it in, performs the
/// command it gets back, hands in the outcome and delivers the reply it gets
/// back. One message is handled at a time, to the end.
pub struct ActorLoop<S, Op, RA, RJ> {
    phase: Phase<RA, RJ>,
    log: Ghost<Seq<Invocation<S, Op>>>,
    completed: Ghost<nat>,
}

impl<S, Op, RA, RJ> View for ActorLoop<S, Op, RA, RJ> {
    type V = LoopView<S, Op, RA, RJ>;

    closed spec fn view(&self) -> LoopView<S, Op, RA, RJ> {
        LoopView { phase: self.phase, log: self.log@, completed: self.completed@ }
    }
}

impl<S, Op, RA, RJ> ActorLoop<S, Op, RA, RJ> {
    pub fn new() -> (r: Self)
        ensures
            r@ == LoopView::<S, Op, RA, RJ>::initial(),
    {
        ActorLoop { phase: Phase::Waiting, log: Ghost(Seq::empty()), completed: Ghost(0) }
    }

    pub fn stage(&self) -> (r: Stage)
        ensures
            r == stage_of(self@.phase),
    {
        match self.phase {
            Phase::Waiting => Stage::Waiting,
            Phase::Applying(_) => Stage::Applying,
            Phase::Exporting(_) => Stage::Exporting,
            Phase::Replying => Stage::Replying,
            Phase::Terminated => Stage::Terminated,
        }
    }

    /// Takes in the next message of the mailbox and says what to do for it.
    pub fn on_message(&mut self, msg: EditMsg<S, Op, RA, RJ>) -> (r: Command<S, Op>)
        requires
            old(self)@.accepts_message(),
        ensures
            final(self)@ == old(self)@.after_message(msg),
            match msg {
                EditMsg::Revision { user, socket, revision, .. } => r matches Command::Apply {
                    user: u,
                    revision: op,
                } && u.identity() == user@ && u.connection() == socket && op == revision,
                EditMsg::DocumentJson { .. } => r is Export,
            },
    {
        proof {
            self.log@ = self.log@.push(invocation_of(msg));
        }
        match msg {
            EditMsg::Revision { user, socket, revision, ret } => {
                self.phase = Phase::Applying(ret);
                Command::Apply { user: EditUser::new(user, socket), revision }
            },
            EditMsg::DocumentJson { ret } => {
                self.phase = Phase::Exporting(ret);
                Command::Export
            },
        }
    }

    /// Takes in what the context's apply operation returned, and hands back
    /// the reply handle of the mutation with the outcome to deliver on it:
    /// the returned value itself, an error included.
    pub fn on_applied<E>(&mut self, outcome: Result<(), E>) -> (r: (RA, Result<(), E>))
        requires
            old(self)@.phase is Applying,
        ensures
            final(self)@ == old(self)@.after_completion(),
            r.0 == old(self)@.phase->Applying_0,
            r.1 == outcome,
    {
        let mut p: Phase<RA, RJ> = Phase::Replying;
        std::mem::swap(&mut self.phase, &mut p);
        proof {
            self.completed@ = self.completed@ + 1;
        }
        match p {
            Phase::Applying(ret) => (ret, outcome),
            _ => vstd::pervasive::unreached(),
        }
    }

    /// Takes in what the offloaded export produced, or the text of the
    /// failure that kept it from running to completion, and hands back the
    /// reply handle of the snapshot with the outcome to deliver on it.
    pub fn on_exported(&mut self, outcome: Result<String, String>) -> (r: (
        RJ,
        Result<String, InternalError>,
    ))
        requires
            old(self)@.phase is Exporting,
        ensures
            final(self)@ == old(self)@.after_completion(),
            r.0 == old(self)@.phase->Exporting_0,
            r.1 == export_reply(outcome),
    {
        let mut p: Phase<RA, RJ> = Phase::Replying;
        std::mem::swap(&mut self.phase, &mut p);
        proof {
            self.completed@ = self.completed@ + 1;
        }
        let reply = match outcome {
            Ok(json) => Ok(json),
            Err(detail) => Err(InternalError::new(detail)),
        };
        match p {
            Phase::Exporting(ret) => (ret, reply),
            _ => vstd::pervasive::unreached(),
        }
    }

    /// Takes in whether the reply was taken by its caller. A caller that gave
    /// up waiting is no fault of the loop: either way it goes back to waiting.
    pub fn on_delivered(&mut self, accepted: bool)
        requires
            old(self)@.phase is Replying,
        ensures
            final(self)@ == old(self)@.after_delivery(accepted),
    {
        self.phase = Phase::Waiting;
    }

    /// Takes in that every producer handle of the mailbox is gone.
    pub fn on_closed(&mut self)
        requires
            old(self)@.accepts_message(),
        ensures
            final(self)@ == old(self)@.after_close(),
    {
        self.phase = Phase::Terminated;
    }
}

/// The outcome delivered for a snapshot: the export itself, or an internal
/// error that carries the failure's text.
pub open spec fn export_reply(outcome: Result<String, String>) -> Result<String, InternalError> {
    match outcome {
        Ok(json) => Ok(json),
        Err(detail) => Err(InternalError { detail }),
    }
}

/// Handling one message to the end: take it in, let its call return, deliver
/// the reply (taken or not).
pub open spec fn serve<S, Op, RA, RJ>(
    v: LoopView<S, Op, RA, RJ>,
    m: EditMsg<S, Op, RA, RJ>,
    accepted: bool,
) -> LoopView<S, Op, RA, RJ> {
    v.after_message(m).after_completion().after_delivery(accepted)
}

/// Handling the messages `msgs` one after another, in the order given.
pub open spec fn serve_all<S, Op, RA, RJ>(
    v: LoopView<S, Op, RA, RJ>,
    msgs: Seq<EditMsg<S, Op, RA, RJ>>,
    accepted: Seq<bool>,
) -> LoopView<S, Op, RA, RJ>
    decreases msgs.len(),
{
    if msgs.len() == 0 {
        v
    } else {
        serve_all(
            serve(v, msgs[0], accepted[0]),
            msgs.subrange(1, msgs.len() as int),
            accepted.subrange(1, accepted.len() as int),
        )
    }
}

/// Every step of the loop keeps it well formed, and well formed it never has
/// more than one call on the document context in flight. A new call starts
/// only from waiting, where none is in flight.
pub proof fn lemma_one_call_at_a_time<S, Op, RA, RJ>(
    v: LoopView<S, Op, RA, RJ>,
    m: EditMsg<S, Op, RA, RJ>,
    accepted: bool,
)
    requires
        v.wf(),
    ensures
        0 <= v.in_flight() <= 1,
        v.accepts_message() ==> v.in_flight() == 0,
        v.accepts_message() ==> v.after_message(m).wf() && v.after_message(m).in_flight() == 1,
        v.accepts_message() ==> v.after_close().wf(),
        (v.phase is Applying || v.phase is Exporting) ==> v.after_completion().wf()
            && v.after_completion().in_flight() == 0,
        v.phase is Replying ==> v.after_delivery(accepted).wf(),
        LoopView::<S, Op, RA, RJ>::initial().wf(),
{
}

/// Messages handled one after another reach the document context as calls
/// in exactly their arrival order, each call returning before the next
/// starts.
pub proof fn lemma_calls_in_arrival_order<S, Op, RA, RJ>(
    v: LoopView<S, Op, RA, RJ>,
    msgs: Seq<EditMsg<S, Op, RA, RJ>>,
    accepted: Seq<bool>,
)
    requires
        v.wf(),
        v.accepts_message(),
        accepted.len() == msgs.len(),
    ensures
        serve_all(v, msgs, accepted).log == v.log + msgs.map_values(
            |m: EditMsg<S, Op, RA, RJ>| invocation_of(m),
        ),
        serve_all(v, msgs, accepted).completed == v.completed + msgs.len(),
        serve_all(v, msgs, accepted).accepts_message(),
        serve_all(v, msgs, accepted).wf(),
    decreases msgs.len(),
{
    let f = |m: EditMsg<S, Op, RA, RJ>| invocation_of(m);
    if msgs.len() == 0 {
        assert(v.log + msgs.map_values(f) =~= v.log);
    } else {
        let v1 = serve(v, msgs[0], accepted[0]);
        let rest = msgs.subrange(1, msgs.len() as int);
        lemma_calls_in_arrival_order(v1, rest, accepted.subrange(1, accepted.len() as int));
        assert(v1.log == v.log.push(f(msgs[0])));
        assert(v.log + msgs.map_values(f) =~= v1.log + rest.map_values(f));
    }
}

/// A caller that gave up on its reply changes nothing: the loop ends up
/// where it would have, had the reply been taken, waiting for the next
/// message with its history unchanged.
pub proof fn lemma_abandoned_reply_is_ignored<S, Op, RA, RJ>(v: LoopView<S, Op, RA, RJ>)
    requires
        v.phase is Replying,
    ensures
        v.after_delivery(false) == v.after_delivery(true),
        v.after_delivery(false).accepts_message(),
        v.after_delivery(false).log == v.log,
        v.after_delivery(false).completed == v.completed,
{
}

/// Once the mailbox has closed, the loop has exited and takes in nothing
/// more: no step leaves the terminated state.
pub proof fn lemma_closed_loop_takes_nothing<S, Op, RA, RJ>(v: LoopView<S, Op, RA, RJ>)
    requires
        v.accepts_message(),
    ensures
        v.after_close().phase is Terminated,
        !v.after_close().accepts_message(),
        !(v.after_close().phase is Applying),
        !(v.after_close().phase is Exporting),
        !(v.after_close().phase is Replying),
        v.after_close().log == v.log,
{
}

} // verus!
