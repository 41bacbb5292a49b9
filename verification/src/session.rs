//! Session identity, streamed notifications, and the accumulation of agent
//! message text: only chunks tagged with the active session contribute, in
//! arrival order.

use vstd::prelude::*;
use vstd::string::StringExecFns;

verus! {

/// Opaque token identifying the negotiated protocol session, obtained once
/// at startup and compared by equality to filter notifications.
#[derive(Debug)]
pub struct SessionId {
    pub id: String,
}

impl View for SessionId {
    type V = Seq<char>;

    open spec fn view(&self) -> Seq<char> {
        self.id@
    }
}

impl SessionId {
    pub fn new(id: String) -> (s: SessionId)
        ensures
            s@ == id@,
    {
        SessionId { id }
    }

    /// A second handle on the same session identifier.
    pub fn duplicate(&self) -> (s: SessionId)
        ensures
            s@ == self@,
    {
        SessionId { id: self.id.clone() }
    }

    /// Whether a notification tagged with `other` belongs to this session.
    pub fn same_session(&self, other: &SessionId) -> (r: bool)
        ensures
            r == (self@ == other@),
    {
        self.id == other.id
    }
}

/// Content carried by a streamed update. The protocol has further content
/// kinds; the runtime accumulates text and passes everything else over.
pub enum ContentBlock {
    Text(String),
    Other,
}

/// A streamed update's payload. Only agent message chunks are accumulated;
/// every other update kind is ignored by the runtime.
pub enum SessionUpdate {
    AgentMessageChunk { content: ContentBlock },
    Other,
}

/// An unsolicited message from the agent, tagged with the session it
/// belongs to.
pub struct Notification {
    pub session_id: SessionId,
    pub update: SessionUpdate,
}

/// The text a notification contributes to the transcript of session `sid`:
/// its chunk text when it is an agent message text chunk for that very
/// session, and nothing otherwise.
pub open spec fn chunk_text(sid: Seq<char>, n: Notification) -> Seq<char> {
    match n.update {
        SessionUpdate::AgentMessageChunk { content: ContentBlock::Text(t) } => if n.session_id@
            == sid {
            t@
        } else {
            Seq::empty()
        },
        _ => Seq::empty(),
    }
}

/// The text a whole stream of notifications contributes to session `sid`,
/// in arrival order.
pub open spec fn accumulated(sid: Seq<char>, ns: Seq<Notification>) -> Seq<char>
    decreases ns.len(),
{
    if ns.len() == 0 {
        Seq::empty()
    } else {
        accumulated(sid, ns.drop_last()) + chunk_text(sid, ns.last())
    }
}

/// Append to `agent_text` exactly what `n` contributes to the session
/// identified by `session_id`.
pub fn handle_notification(n: &Notification, session_id: &SessionId, agent_text: &mut String)
    ensures
        final(agent_text)@ == old(agent_text)@ + chunk_text(session_id@, *n),
{
    proof {
        assert(old(agent_text)@ + Seq::<char>::empty() =~= old(agent_text)@);
    }
    if !n.session_id.same_session(session_id) {
        return ;
    }
    match &n.update {
        SessionUpdate::AgentMessageChunk { content } => {
            match content {
                ContentBlock::Text(t) => {
                    agent_text.append(t.as_str());
                },
                ContentBlock::Other => {},
            }
        },
        SessionUpdate::Other => {},
    }
}

/// Drain a buffer of notifications in order, appending everything they
/// contribute to the session. Used after the race concludes, so that
/// trailing chunks delivered concurrently with completion are not lost.
pub fn drain_buffered(buffered: &Vec<Notification>, session_id: &SessionId, agent_text: &mut String)
    ensures
        final(agent_text)@ == old(agent_text)@ + accumulated(session_id@, buffered@),
{
    proof {
        assert(old(agent_text)@ + accumulated(session_id@, buffered@.take(0)) =~= old(
            agent_text,
        )@);
    }
    let mut i: usize = 0;
    while i < buffered.len()
        invariant
            i <= buffered.len(),
            agent_text@ == old(agent_text)@ + accumulated(session_id@, buffered@.take(i as int)),
        decreases buffered.len() - i,
    {
        handle_notification(&buffered[i], session_id, agent_text);
        proof {
            let taken = buffered@.take((i + 1) as int);
            assert(taken.drop_last() =~= buffered@.take(i as int));
            assert(taken.last() == buffered@[i as int]);
            assert(old(agent_text)@ + accumulated(session_id@, buffered@.take(i as int))
                + chunk_text(session_id@, buffered@[i as int]) =~= old(agent_text)@ + accumulated(
                session_id@,
                taken,
            ));
        }
        i += 1;
    }
    proof {
        assert(buffered@.take(buffered@.len() as int) =~= buffered@);
    }
}

/// Law: a notification tagged with another session contributes no text,
/// whatever it carries.
pub proof fn lemma_other_session_ignored(sid: Seq<char>, n: Notification)
    requires
        n.session_id@ != sid,
    ensures
        chunk_text(sid, n) == Seq::<char>::empty(),
{
}

/// Law: accumulation is cumulative. Extending the stream by one
/// notification appends exactly that notification's contribution.
pub proof fn lemma_accumulated_push(sid: Seq<char>, ns: Seq<Notification>, n: Notification)
    ensures
        accumulated(sid, ns.push(n)) == accumulated(sid, ns) + chunk_text(sid, n),
{
    assert(ns.push(n).drop_last() =~= ns);
    assert(ns.push(n).last() == n);
}

/// Law: accumulation is order-preserving across any split of the stream:
/// the text of the whole is the text of the first part followed by the
/// text of the second.
pub proof fn lemma_accumulated_concat(sid: Seq<char>, a: Seq<Notification>, b: Seq<Notification>)
    ensures
        accumulated(sid, a + b) == accumulated(sid, a) + accumulated(sid, b),
    decreases b.len(),
{
    if b.len() == 0 {
        assert(a + b =~= a);
        assert(accumulated(sid, a) + accumulated(sid, b) =~= accumulated(sid, a));
    } else {
        lemma_accumulated_concat(sid, a, b.drop_last());
        assert((a + b).drop_last() =~= a + b.drop_last());
        assert((a + b).last() == b.last());
        assert(accumulated(sid, a) + (accumulated(sid, b.drop_last()) + chunk_text(sid, b.last()))
            =~= (accumulated(sid, a) + accumulated(sid, b.drop_last())) + chunk_text(
            sid,
            b.last(),
        ));
    }
}

/// Law: a notification for another session is never reflected in the
/// accumulated text, wherever in the arrival order it lands.
pub proof fn lemma_foreign_notification_invisible(
    sid: Seq<char>,
    ns: Seq<Notification>,
    i: int,
    n: Notification,
)
    requires
        0 <= i <= ns.len(),
        n.session_id@ != sid,
    ensures
        accumulated(sid, ns.insert(i, n)) == accumulated(sid, ns),
{
    let single = seq![n];
    assert(accumulated(sid, single) =~= accumulated(sid, single.drop_last()) + chunk_text(
        sid,
        single.last(),
    ));
    assert(accumulated(sid, single) =~= Seq::<char>::empty());
    lemma_accumulated_concat(sid, ns.take(i), single);
    lemma_accumulated_concat(sid, ns.take(i) + single, ns.skip(i));
    lemma_accumulated_concat(sid, ns.take(i), ns.skip(i));
    assert(ns.insert(i, n) =~= (ns.take(i) + single) + ns.skip(i));
    assert(ns.take(i) + ns.skip(i) =~= ns);
    assert(accumulated(sid, ns.insert(i, n)) =~= accumulated(sid, ns));
}

} // verus!
