use crate::channel::{MessageReceiver, MessageSender};
use crate::error::{ClusterError, RecvError, SendReplyError};
use crate::message::{Content, Message};
use crate::unit::{handle_message, input_of, next_flow, Flow, Input, Step, Unit};
use crossbeam_channel::{Receiver, Sender};
use vstd::prelude::*;

verus! {

/// An actor handed to the background thread, with the receiving end of its
/// channel.
pub struct MessageEventHandle<H> {
    pub msg_event: H,
    pub rx: MessageReceiver,
}

impl<H> MessageEventHandle<H> {
    pub fn new(obj: H, recv: MessageReceiver) -> (r: Self)
        ensures
            r.msg_event == obj,
            r.rx == recv,
    {
        MessageEventHandle { msg_event: obj, rx: recv }
    }

    /// Receives the next message for this actor.
    pub fn recv(&self) -> Result<Message, RecvError> {
        self.rx.recv_msg()
    }

    /// Pushes a reply from this actor; on failure it comes back.
    pub fn send(&self, data: Content) -> (r: Result<(), SendReplyError>)
        ensures
            r matches Err(e) ==> e.0 == data,
    {
        self.rx.send_reply(data)
    }

    /// The forward queue, for the wait-set of the background thread.
    pub fn inner_recver(&self) -> &Receiver<Message> {
        self.rx.msg_recver()
    }
}

/// What the foreground of a cluster tells its background thread.
pub enum ClusterMessage<H> {
    /// Host this actor from the next wait on.
    NewMessageEvent(MessageEventHandle<H>),
    /// End the background thread.
    Stop,
}

/// The background thread's hosted actors, each tagged with the index its
/// receiver got in the current wait-set.
pub struct HandleList<H> {
    entries: Vec<(usize, MessageEventHandle<H>)>,
}

/// `pos` is the first entry of `s` tagged `idx`.
pub open spec fn first_tagged<H>(s: Seq<(usize, MessageEventHandle<H>)>, idx: usize, pos: int) -> bool {
    &&& 0 <= pos < s.len()
    &&& s[pos].0 == idx
    &&& forall|j: int| 0 <= j < pos ==> s[j].0 != idx
}

/// No entry of `s` is tagged `idx`.
pub open spec fn untagged<H>(s: Seq<(usize, MessageEventHandle<H>)>, idx: usize) -> bool {
    forall|j: int| 0 <= j < s.len() ==> s[j].0 != idx
}

impl<H> View for HandleList<H> {
    type V = Seq<(usize, MessageEventHandle<H>)>;

    closed spec fn view(&self) -> Self::V {
        self.entries@
    }
}

impl<H> HandleList<H> {
    pub fn new() -> (r: Self)
        ensures
            r@ == Seq::<(usize, MessageEventHandle<H>)>::empty(),
    {
        HandleList { entries: Vec::new() }
    }

    pub fn len(&self) -> (r: usize)
        ensures
            r == self@.len(),
    {
        self.entries.len()
    }

    /// The receiver of the entry at `pos`, to be put in a wait-set.
    pub fn receiver_at(&self, pos: usize) -> (r: &Receiver<Message>)
        requires
            pos < self@.len(),
    {
        self.entries[pos].1.inner_recver()
    }

    /// Hosts one more actor; it gets its tag at the next wait.
    pub fn add(&mut self, handle: MessageEventHandle<H>)
        ensures
            final(self)@ == old(self)@.push((0usize, handle)),
    {
        self.entries.push((0, handle));
    }

    /// Gives each entry the index its receiver got in the wait-set.
    pub fn retag(&mut self, tags: &Vec<usize>)
        requires
            tags@.len() == old(self)@.len(),
        ensures
            final(self)@.len() == old(self)@.len(),
            forall|j: int| 0 <= j < final(self)@.len() ==> #[trigger] final(self)@[j] == (tags@[j], old(self)@[j].1),
    {
        let n = self.entries.len();
        let mut rest: Vec<(usize, MessageEventHandle<H>)> = Vec::new();
        std::mem::swap(&mut rest, &mut self.entries);
        let ghost init = rest@;
        let mut i: usize = 0;
        while i < n
            invariant
                0 <= i <= n,
                n == tags@.len(),
                init == old(self)@,
                init.len() == n,
                self.entries@.len() == i,
                rest@ == init.subrange(i as int, n as int),
                forall|j: int| 0 <= j < i ==> #[trigger] self.entries@[j] == (tags@[j], init[j].1),
            decreases n - i,
        {
            let (_, handle) = rest.remove(0);
            self.entries.push((tags[i], handle));
            i = i + 1;
        }
    }

    /// The position of the first entry tagged `idx`.
    pub fn find(&self, idx: usize) -> (r: Option<usize>)
        ensures
            r matches Some(pos) ==> first_tagged(self@, idx, pos as int),
            r is None ==> untagged(self@, idx),
    {
        let mut i: usize = 0;
        while i < self.entries.len()
            invariant
                0 <= i <= self@.len(),
                self@ == self.entries@,
                forall|j: int| 0 <= j < i ==> self@[j].0 != idx,
            decreases self@.len() - i,
        {
            if self.entries[i].0 == idx {
                return Some(i);
            }
            i = i + 1;
        }
        None
    }

    /// Handles a message of the control queue: a new actor is hosted from
    /// now on; `Stop`, or a closed queue, ends the background thread.
    /// Returns whether the thread goes on.
    pub fn on_control(&mut self, msg: Result<ClusterMessage<H>, RecvError>) -> (r: bool)
        ensures
            r <==> msg matches Ok(ClusterMessage::NewMessageEvent(_)),
            msg matches Ok(ClusterMessage::NewMessageEvent(h)) ==> final(self)@ == old(self)@.push((0usize, h)),
            !r ==> final(self)@ == old(self)@,
    {
        match msg {
            Ok(ClusterMessage::NewMessageEvent(handle)) => {
                self.add(handle);
                true
            },
            Ok(ClusterMessage::Stop) => false,
            Err(_) => false,
        }
    }
}

/// Only one position is the first one with a given tag.
proof fn lemma_first_tagged_unique<H>(s: Seq<(usize, MessageEventHandle<H>)>, idx: usize, pos: int)
    requires
        first_tagged(s, idx, pos),
    ensures
        forall|p: int| first_tagged(s, idx, p) ==> p == pos,
{
    assert forall|p: int| first_tagged(s, idx, p) implies p == pos by {
        if p < pos {
            assert(s[p].0 != idx);
        } else if p > pos {
            assert(s[pos].0 != idx);
        }
    }
}

impl<H: Unit> HandleList<H> {
    /// Handles `msg`, received from the entry at `pos`, as in a single
    /// actor's loop; the entry is evicted where that loop would terminate,
    /// and every other entry stays as it was.
    pub fn serve_message(&mut self, pos: usize, msg: Result<Message, RecvError>) -> (r: Step)
        requires
            pos < old(self)@.len(),
        ensures
            r.input == input_of(msg),
            r.pushed is Some <==> r.input == Input::WithReply,
            r.flow == next_flow(r.input, r.pushed matches Some(Ok(_))),
            r.flow == Flow::Terminate ==> final(self)@ == old(self)@.remove(pos as int),
            r.flow == Flow::Continue ==> kept_but_actor(old(self)@, final(self)@, pos as int),
    {
        let (tag, mut handle) = self.entries.remove(pos);
        let step = handle_message(&mut handle.msg_event, &handle.rx, msg);
        if step.flow == Flow::Continue {
            self.entries.insert(pos, (tag, handle));
        }
        step
    }

    /// Serves the actor whose receiver is ready under index `idx`: one
    /// message is received from it and handled by
    /// [`HandleList::serve_message`]. Returns `None` when no entry has that
    /// tag.
    pub fn serve(&mut self, idx: usize) -> (r: Option<Step>)
        ensures
            r is None <==> untagged(old(self)@, idx),
            r is None ==> final(self)@ == old(self)@,
            forall|pos: int| #![trigger first_tagged(old(self)@, idx, pos)]
                first_tagged(old(self)@, idx, pos) ==> (r matches Some(step) ==> {
                    &&& step.pushed is Some <==> step.input == Input::WithReply
                    &&& step.flow == next_flow(step.input, step.pushed matches Some(Ok(_)))
                    &&& step.flow == Flow::Terminate ==> final(self)@ == old(self)@.remove(pos)
                    &&& step.flow == Flow::Continue ==> kept_but_actor(old(self)@, final(self)@, pos)
                }),
    {
        match self.find(idx) {
            None => None,
            Some(pos) => {
                proof {
                    lemma_first_tagged_unique(self@, idx, pos as int);
                }
                let msg = self.entries[pos].1.recv();
                Some(self.serve_message(pos, msg))
            },
        }
    }
}

/// `after` is `before` where only the actor's own state at `pos` may have
/// changed: same length, same tags, same receivers, other entries equal.
pub open spec fn kept_but_actor<H>(
    before: Seq<(usize, MessageEventHandle<H>)>,
    after: Seq<(usize, MessageEventHandle<H>)>,
    pos: int,
) -> bool {
    &&& after.len() == before.len()
    &&& after[pos].0 == before[pos].0
    &&& after[pos].1.rx == before[pos].1.rx
    &&& forall|j: int| 0 <= j < before.len() && j != pos ==> after[j] == before[j]
}

/// The foreground of a cluster: the registry of names and the control
/// queue into the background thread that hosts the actors.
#[verifier::reject_recursive_types(H)]
pub struct Cluster<H> {
    inner_sender: Sender<ClusterMessage<H>>,
    msger_pool: Vec<(String, MessageSender)>,
}

impl<H> Cluster<H> {
    /// The registry: each name with the sender it routes to, in the order
    /// of registration.
    pub closed spec fn entries(&self) -> Seq<(Seq<char>, MessageSender)> {
        self.msger_pool@.map_values(|e: (String, MessageSender)| (e.0@, e.1))
    }

    /// The control queue into the background thread.
    pub closed spec fn control(&self) -> Sender<ClusterMessage<H>> {
        self.inner_sender
    }

    /// The registered names, in the order of registration.
    pub open spec fn names(&self) -> Seq<Seq<char>> {
        self.entries().map_values(|e: (Seq<char>, MessageSender)| e.0)
    }

    /// What a removal of `id` does to the registry: the entry of `id` is
    /// taken out and the others stay in order; an unregistered `id` leaves
    /// the registry as it was.
    pub open spec fn removal(before: Self, after: Self, id: Seq<char>) -> bool {
        if before.names().contains(id) {
            exists|pos: int|
                0 <= pos < before.names().len() && before.names()[pos] == id && after.entries() == before.entries().remove(pos)
        } else {
            after.entries() == before.entries()
        }
    }

    /// The registered names as a set.
    pub open spec fn name_set(&self) -> Set<Seq<char>> {
        self.names().to_set()
    }

    /// Each name is registered once.
    pub open spec fn wf(&self) -> bool {
        self.names().no_duplicates()
    }

    /// A cluster with no actor, that hands new actors to the background
    /// thread over `control`.
    pub fn new(control: Sender<ClusterMessage<H>>) -> (r: Self)
        ensures
            r.wf(),
            r.entries() == Seq::<(Seq<char>, MessageSender)>::empty(),
            r.control() == control,
    {
        let r = Cluster { inner_sender: control, msger_pool: Vec::new() };
        assert(r.entries() =~= Seq::<(Seq<char>, MessageSender)>::empty());
        assert(r.names() =~= Seq::<Seq<char>>::empty());
        r
    }

    /// The position under which `id` is registered.
    fn find(&self, id: &str) -> (r: Option<usize>)
        ensures
            r matches Some(pos) ==> pos < self.names().len() && self.names()[pos as int] == id@,
            r is None ==> !self.names().contains(id@),
    {
        let key = id.to_owned();
        let mut i: usize = 0;
        while i < self.msger_pool.len()
            invariant
                0 <= i <= self.msger_pool@.len(),
                key@ == id@,
                forall|j: int| 0 <= j < i ==> self.names()[j] != id@,
            decreases self.msger_pool@.len() - i,
        {
            if self.msger_pool[i].0 == key {
                return Some(i);
            }
            i = i + 1;
        }
        proof {
            if self.names().contains(id@) {
                let j = choose|j: int| 0 <= j < self.names().len() && self.names()[j] == id@;
                assert(self.names()[j] != id@);
            }
        }
        None
    }

    /// Registers `obj` under `id`, with the two ends of its fresh channel.
    /// A taken name is refused before anything is sent; otherwise the actor
    /// goes to the background thread, and the name is recorded only if that
    /// succeeded.
    pub fn add_unique(&mut self, id: &'static str, obj: H, tx: MessageSender, rx: MessageReceiver) -> (r: Result<(), ClusterError<'static>>)
        requires
            old(self).wf(),
        ensures
            final(self).wf(),
            old(self).names().contains(id@) ==> r == Err::<(), ClusterError<'static>>(ClusterError::IdAlreadyUsed(id)),
            !old(self).names().contains(id@) ==> r is Ok || r == Err::<(), ClusterError<'static>>(ClusterError::RegistrationError),
            r is Ok ==> final(self).entries() == old(self).entries().push((id@, tx)),
            r is Err ==> final(self).entries() == old(self).entries(),
            final(self).control() == old(self).control(),
    {
        match self.find(id) {
            Some(_) => Err(ClusterError::IdAlreadyUsed(id)),
            None => {
                let handle = MessageEventHandle::new(obj, rx);
                match self.inner_sender.send(ClusterMessage::NewMessageEvent(handle)) {
                    Err(_) => Err(ClusterError::RegistrationError),
                    Ok(()) => {
                        let ghost before = self.entries();
                        let ghost names = self.names();
                        self.msger_pool.push((id.to_owned(), tx));
                        assert(self.entries() =~= before.push((id@, tx)));
                        assert(self.names() =~= names.push(id@));
                        Ok(())
                    },
                }
            },
        }
    }

    /// Registers under a name that may be missing: without one the actor is
    /// refused as unnamed, and nothing changes.
    pub fn add_named(&mut self, id: Option<&'static str>, obj: H, tx: MessageSender, rx: MessageReceiver) -> (r: Result<(), ClusterError<'static>>)
        requires
            old(self).wf(),
        ensures
            final(self).wf(),
            id is None ==> r == Err::<(), ClusterError<'static>>(ClusterError::UnsetIdError),
            id matches Some(n) ==> (old(self).names().contains(n@) ==> r == Err::<(), ClusterError<'static>>(ClusterError::IdAlreadyUsed(n))),
            id matches Some(n) ==> (!old(self).names().contains(n@) ==> r is Ok || r == Err::<(), ClusterError<'static>>(ClusterError::RegistrationError)),
            r is Ok ==> id is Some && final(self).entries() == old(self).entries().push((id.unwrap()@, tx)),
            r is Err ==> final(self).entries() == old(self).entries(),
            final(self).control() == old(self).control(),
    {
        match id {
            None => Err(ClusterError::UnsetIdError),
            Some(n) => self.add_unique(n, obj, tx, rx),
        }
    }

    /// Drops the entry of `id` and tells its actor to stop; the background
    /// thread evicts the actor on its own schedule.
    pub fn remove<'a>(&mut self, id: &'a str) -> (r: Result<(), ClusterError<'a>>)
        requires
            old(self).wf(),
        ensures
            final(self).wf(),
            r is Ok <==> old(self).names().contains(id@),
            r is Err ==> r == Err::<(), ClusterError<'a>>(ClusterError::IdNotFound(id)),
            Self::removal(*old(self), *final(self), id@),
            final(self).name_set() == old(self).name_set().remove(id@),
            final(self).control() == old(self).control(),
    {
        match self.find(id) {
            Some(pos) => {
                let ghost before = self.entries();
                let ghost names = self.names();
                let (_, sender) = self.msger_pool.remove(pos);
                sender.disconnect();
                proof {
                    assert(self.entries() =~= before.remove(pos as int));
                    assert(self.names() =~= names.remove(pos as int));
                    lemma_remove_distinct(names, pos as int);
                }
                Ok(())
            },
            None => {
                proof {
                    assert(self.name_set() =~= self.name_set().remove(id@));
                }
                Err(ClusterError::IdNotFound(id))
            },
        }
    }

    /// Sends `data` fire-and-forget to the actor registered as `id`.
    pub fn send_to<'a, T: Send + 'static>(&self, id: &'a str, data: T) -> (r: Result<(), ClusterError<'a>>)
        ensures
            !self.names().contains(id@) ==> r == Err::<(), ClusterError<'a>>(ClusterError::IdNotFound(id)),
            self.names().contains(id@) ==> r is Ok || r == Err::<(), ClusterError<'a>>(ClusterError::AlreadyDisconnected),
    {
        match self.find(id) {
            None => Err(ClusterError::IdNotFound(id)),
            Some(pos) => {
                match self.msger_pool[pos].1.send_msg(data) {
                    Ok(()) => Ok(()),
                    Err(_) => Err(ClusterError::AlreadyDisconnected),
                }
            },
        }
    }

    /// Sends `data` as a request to the actor registered as `id` and blocks
    /// until its reply, narrowed to `R`, comes back.
    pub fn send_to_with_reply<'a, T: Send + 'static, R: 'static>(&self, id: &'a str, data: T) -> (r: Result<R, ClusterError<'a>>)
        ensures
            !self.names().contains(id@) ==> r == Err::<R, ClusterError<'a>>(ClusterError::IdNotFound(id)),
            self.names().contains(id@) ==> r is Ok || r == Err::<R, ClusterError<'a>>(ClusterError::AlreadyDisconnected)
                || r == Err::<R, ClusterError<'a>>(ClusterError::ContentConversionError),
    {
        match self.find(id) {
            None => Err(ClusterError::IdNotFound(id)),
            Some(pos) => {
                let sender = &self.msger_pool[pos].1;
                match sender.send_msg_with_reply(data) {
                    Err(_) => Err(ClusterError::AlreadyDisconnected),
                    Ok(()) => match sender.recv_reply() {
                        Err(_) => Err(ClusterError::AlreadyDisconnected),
                        Ok(reply) => match reply.into::<R>() {
                            Some(v) => Ok(v),
                            None => Err(ClusterError::ContentConversionError),
                        },
                    },
                }
            },
        }
    }

    /// Tells the background thread to end; the caller then joins it.
    pub fn stop(&self) {
        let _ = self.inner_sender.send(ClusterMessage::Stop);
    }
}

/// Removing the element at `pos` from a sequence without duplicates removes
/// exactly that value from its set of elements.
pub(crate) proof fn lemma_remove_distinct<A>(s: Seq<A>, pos: int)
    requires
        s.no_duplicates(),
        0 <= pos < s.len(),
    ensures
        s.remove(pos).no_duplicates(),
        s.remove(pos).to_set() == s.to_set().remove(s[pos]),
{
    let t = s.remove(pos);
    assert forall|i: int, j: int| 0 <= i < t.len() && 0 <= j < t.len() && i != j implies t[i] != t[j] by {
        let si = if i < pos { i } else { i + 1 };
        let sj = if j < pos { j } else { j + 1 };
        assert(t[i] == s[si] && t[j] == s[sj]);
    }
    assert forall|x: A| t.to_set().contains(x) <==> s.to_set().remove(s[pos]).contains(x) by {
        if t.contains(x) {
            let i = choose|i: int| 0 <= i < t.len() && t[i] == x;
            let si = if i < pos { i } else { i + 1 };
            assert(t[i] == s[si]);
            assert(s.contains(x));
        }
        if s.contains(x) && x != s[pos] {
            let k = choose|k: int| 0 <= k < s.len() && s[k] == x;
            let ti = if k < pos { k } else { k - 1 };
            assert(t[ti] == x);
        }
    }
    assert(t.to_set() =~= s.to_set().remove(s[pos]));
}

/// A name stays bound until it is removed: right after `id` was first
/// registered with sender `tx` (`registered`), `id` is taken, so a second
/// registration of it is refused and leaves the registry as it is, with `id`
/// still routed to `tx`; right after `id` was then removed (`removed`), the
/// name is free again and the registry is back to what it was before.
pub proof fn lemma_name_taken_until_removed<H>(
    before: Cluster<H>,
    registered: Cluster<H>,
    removed: Cluster<H>,
    id: Seq<char>,
    tx: MessageSender,
)
    requires
        before.wf(),
        !before.names().contains(id),
        registered.entries() == before.entries().push((id, tx)),
        Cluster::removal(registered, removed, id),
    ensures
        registered.names().contains(id),
        registered.entries().contains((id, tx)),
        !removed.names().contains(id),
        removed.entries() == before.entries(),
{
    let n = before.entries().len() as int;
    assert(registered.names() =~= before.names().push(id));
    assert(registered.entries()[n] == (id, tx));
    assert(registered.names()[n] == id);
    let pos = choose|pos: int|
        0 <= pos < registered.names().len() && registered.names()[pos] == id
            && removed.entries() == registered.entries().remove(pos);
    if pos < n {
        assert(before.names()[pos] == id);
    }
    assert(removed.entries() =~= before.entries());
    assert(removed.names() =~= before.names());
}

/// Removing twice: after `id` was removed once (`first`), it is no longer
/// registered, so a second removal fails as not found and leaves the
/// registry (`second`) exactly as the first removal did; every entry of
/// another name is in the registry exactly when it was at the start, bound
/// to the same sender.
pub proof fn lemma_remove_twice<H>(start: Cluster<H>, first: Cluster<H>, second: Cluster<H>, id: Seq<char>)
    requires
        start.wf(),
        Cluster::removal(start, first, id),
        Cluster::removal(first, second, id),
    ensures
        !first.names().contains(id),
        second.entries() == first.entries(),
        forall|e: (Seq<char>, MessageSender)| e.0 != id ==> (second.entries().contains(e) <==> start.entries().contains(e)),
{
    if start.names().contains(id) {
        let pos = choose|pos: int|
            0 <= pos < start.names().len() && start.names()[pos] == id
                && first.entries() == start.entries().remove(pos);
        assert(first.names() =~= start.names().remove(pos));
        if first.names().contains(id) {
            let k = choose|k: int| 0 <= k < first.names().len() && first.names()[k] == id;
            let sk = if k < pos { k } else { k + 1 };
            assert(start.names()[sk] == id);
        }
        assert forall|e: (Seq<char>, MessageSender)| e.0 != id implies (second.entries().contains(e)
            <==> start.entries().contains(e)) by {
            if second.entries().contains(e) {
                let k = choose|k: int| 0 <= k < second.entries().len() && second.entries()[k] == e;
                let sk = if k < pos { k } else { k + 1 };
                assert(start.entries()[sk] == e);
            }
            if start.entries().contains(e) {
                let k = choose|k: int| 0 <= k < start.entries().len() && start.entries()[k] == e;
                assert(start.names()[k] == e.0);
                assert(k != pos);
                let fk = if k < pos { k } else { k - 1 };
                assert(second.entries()[fk] == e);
            }
        }
    }
}

} // verus!
