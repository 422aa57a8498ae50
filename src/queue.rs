use crate::toast::ShowToast;
use std::collections::VecDeque;
use vstd::prelude::*;

verus! {

/// Some request in `s` carries `subtitle`.
pub open spec fn has_subtitle(s: Seq<ShowToast>, subtitle: Seq<char>) -> bool {
    exists|i: int| 0 <= i < s.len() && s[i].subtitle@ == subtitle
}

/// No two requests in `s` carry the same subtitle.
pub open spec fn unique_subtitles(s: Seq<ShowToast>) -> bool {
    forall|i: int, j: int| 0 <= i < j < s.len() ==> s[i].subtitle@ != s[j].subtitle@
}

/// The pending requests after `r` is offered to `s`: appended at the back,
/// unless a pending request already carries its subtitle, in which case
/// nothing changes.
pub open spec fn enqueue_spec(s: Seq<ShowToast>, r: ShowToast) -> Seq<ShowToast> {
    if has_subtitle(s, r.subtitle@) {
        s
    } else {
        s.push(r)
    }
}

/// The pending requests after the requests of `evs` are offered to `s`, one
/// after the other, first to last.
pub open spec fn enqueue_all_spec(s: Seq<ShowToast>, evs: Seq<ShowToast>) -> Seq<ShowToast>
    decreases evs.len(),
{
    if evs.len() == 0 {
        s
    } else {
        enqueue_all_spec(enqueue_spec(s, evs[0]), evs.skip(1))
    }
}

/// `s` without its front request, when it has one.
pub open spec fn pop_front_spec(s: Seq<ShowToast>) -> Seq<ShowToast> {
    if s.len() == 0 {
        s
    } else {
        s.drop_first()
    }
}

/// Runs a series of queue operations on the pending requests `s`: `Some(r)`
/// offers `r`, `None` takes the front request out. Gives the pending
/// requests at the end and the requests taken out, in the order they left.
pub open spec fn replay(s: Seq<ShowToast>, ops: Seq<Option<ShowToast>>) -> (Seq<ShowToast>, Seq<ShowToast>)
    decreases ops.len(),
{
    if ops.len() == 0 {
        (s, Seq::empty())
    } else {
        match ops[0] {
            Some(r) => replay(enqueue_spec(s, r), ops.skip(1)),
            None => if s.len() == 0 {
                replay(s, ops.skip(1))
            } else {
                let rest = replay(s.drop_first(), ops.skip(1));
                (rest.0, seq![s[0]] + rest.1)
            },
        }
    }
}

/// The requests offered by `ops` that were not dropped as duplicates, in
/// the order they were offered.
pub open spec fn admitted(s: Seq<ShowToast>, ops: Seq<Option<ShowToast>>) -> Seq<ShowToast>
    decreases ops.len(),
{
    if ops.len() == 0 {
        Seq::empty()
    } else {
        match ops[0] {
            Some(r) => if has_subtitle(s, r.subtitle@) {
                admitted(s, ops.skip(1))
            } else {
                seq![r] + admitted(s.push(r), ops.skip(1))
            },
            None => admitted(pop_front_spec(s), ops.skip(1)),
        }
    }
}

/// Offering a request never lets two pending requests share a subtitle.
pub proof fn lemma_enqueue_keeps_unique(s: Seq<ShowToast>, r: ShowToast)
    requires
        unique_subtitles(s),
    ensures
        unique_subtitles(enqueue_spec(s, r)),
{
    if !has_subtitle(s, r.subtitle@) {
        let t = s.push(r);
        assert forall|i: int, j: int| 0 <= i < j < t.len() implies t[i].subtitle@
            != t[j].subtitle@ by {
            if j == s.len() {
                assert(t[i] == s[i]);
            }
        }
    }
}

/// Whatever mix of offers and removals is applied, pending requests never
/// share a subtitle.
pub proof fn lemma_replay_keeps_unique(s: Seq<ShowToast>, ops: Seq<Option<ShowToast>>)
    requires
        unique_subtitles(s),
    ensures
        unique_subtitles(replay(s, ops).0),
    decreases ops.len(),
{
    if ops.len() > 0 {
        match ops[0] {
            Some(r) => {
                lemma_enqueue_keeps_unique(s, r);
                lemma_replay_keeps_unique(enqueue_spec(s, r), ops.skip(1));
            },
            None => {
                if s.len() == 0 {
                    lemma_replay_keeps_unique(s, ops.skip(1));
                } else {
                    lemma_replay_keeps_unique(s.drop_first(), ops.skip(1));
                }
            },
        }
    }
}

/// First in, first out: over any mix of offers and removals, the requests
/// taken out followed by those still pending are exactly the requests
/// pending at the start followed by the admitted ones, in the order they
/// were offered. A request admitted before another therefore leaves before
/// it.
pub proof fn lemma_fifo(s: Seq<ShowToast>, ops: Seq<Option<ShowToast>>)
    ensures
        replay(s, ops).1 + replay(s, ops).0 == s + admitted(s, ops),
    decreases ops.len(),
{
    if ops.len() == 0 {
        assert(Seq::<ShowToast>::empty() + s =~= s + Seq::<ShowToast>::empty());
    } else {
        let rest = ops.skip(1);
        match ops[0] {
            Some(r) => {
                lemma_fifo(enqueue_spec(s, r), rest);
                if !has_subtitle(s, r.subtitle@) {
                    assert(s.push(r) + admitted(s.push(r), rest) =~= s + (seq![r] + admitted(
                        s.push(r),
                        rest,
                    )));
                }
            },
            None => {
                if s.len() == 0 {
                    lemma_fifo(s, rest);
                } else {
                    let t = s.drop_first();
                    lemma_fifo(t, rest);
                    let (f, p) = replay(t, rest);
                    assert((seq![s[0]] + p) + f =~= seq![s[0]] + (p + f));
                    assert(seq![s[0]] + (t + admitted(t, rest)) =~= s + admitted(t, rest));
                }
            },
        }
    }
}

/// Requests waiting to be displayed, oldest first. No two of them carry the
/// same subtitle.
pub struct ToastQueue {
    queue: VecDeque<ShowToast>,
}

impl View for ToastQueue {
    type V = Seq<ShowToast>;

    closed spec fn view(&self) -> Seq<ShowToast> {
        self.queue@
    }
}

impl ToastQueue {
    /// An empty queue.
    pub fn new() -> (r: ToastQueue)
        ensures
            r@ == Seq::<ShowToast>::empty(),
            unique_subtitles(r@),
    {
        ToastQueue { queue: VecDeque::new() }
    }

    /// Offers a request: it goes to the back of the queue, unless a pending
    /// request already carries its subtitle, in which case it is dropped.
    pub fn enqueue(&mut self, request: ShowToast)
        requires
            unique_subtitles(old(self)@),
        ensures
            final(self)@ == enqueue_spec(old(self)@, request),
            unique_subtitles(final(self)@),
            has_subtitle(old(self)@, request.subtitle@) ==> final(self)@ == old(self)@,
            !has_subtitle(old(self)@, request.subtitle@) ==> final(self)@ == old(self)@.push(
                request,
            ),
    {
        proof {
            lemma_enqueue_keeps_unique(self.queue@, request);
        }
        let n = self.queue.len();
        let mut i: usize = 0;
        while i < n
            invariant
                self.queue@ == old(self).queue@,
                unique_subtitles(self.queue@),
                n == self.queue@.len(),
                0 <= i <= n,
                forall|k: int| 0 <= k < i ==> self.queue@[k].subtitle@ != request.subtitle@,
            decreases n - i,
        {
            if self.queue[i].subtitle == request.subtitle {
                assert(has_subtitle(self.queue@, request.subtitle@)) by {
                    assert(self.queue@[i as int].subtitle@ == request.subtitle@);
                }
                return;
            }
            i += 1;
        }
        self.queue.push_back(request);
    }

    /// Offers each of `events` in turn, first to last, as `enqueue` does.
    pub fn enqueue_all(&mut self, events: Vec<ShowToast>)
        requires
            unique_subtitles(old(self)@),
        ensures
            final(self)@ == enqueue_all_spec(old(self)@, events@),
            unique_subtitles(final(self)@),
    {
        let mut rest = events;
        while rest.len() > 0
            invariant
                unique_subtitles(self@),
                enqueue_all_spec(self@, rest@) == enqueue_all_spec(old(self)@, events@),
            decreases rest.len(),
        {
            let ghost before = rest@;
            let event = rest.remove(0);
            assert(rest@ =~= before.skip(1));
            self.enqueue(event);
        }
    }

    /// Takes the oldest pending request out of the queue; `None` when the
    /// queue is empty.
    pub fn dequeue_front(&mut self) -> (r: Option<ShowToast>)
        requires
            unique_subtitles(old(self)@),
        ensures
            final(self)@ == pop_front_spec(old(self)@),
            unique_subtitles(final(self)@),
            match r {
                Some(t) => old(self)@.len() > 0 && t == old(self)@[0],
                None => old(self)@.len() == 0,
            },
    {
        let r = self.queue.pop_front();
        assert(unique_subtitles(self.queue@)) by {
            assert forall|i: int, j: int| 0 <= i < j < self.queue@.len() implies
                self.queue@[i].subtitle@ != self.queue@[j].subtitle@ by {
                assert(self.queue@[i] == old(self).queue@[i + 1]);
                assert(self.queue@[j] == old(self).queue@[j + 1]);
            }
        }
        r
    }

    /// Whether no request is pending.
    pub fn is_empty(&self) -> (r: bool)
        ensures
            r == (self@.len() == 0),
    {
        self.queue.len() == 0
    }

    /// The number of pending requests.
    pub fn len(&self) -> (r: usize)
        ensures
            r == self@.len(),
    {
        self.queue.len()
    }

    /// The pending request at `index`, counting from the oldest; `None` past
    /// the end.
    pub fn get(&self, index: usize) -> (r: Option<&ShowToast>)
        ensures
            index < self@.len() ==> r == Some(&self@[index as int]),
            index >= self@.len() ==> r is None,
    {
        if index < self.queue.len() {
            Some(&self.queue[index])
        } else {
            None
        }
    }
}

impl Default for ToastQueue {
    fn default() -> (r: ToastQueue)
        ensures
            r@ == Seq::<ShowToast>::empty(),
    {
        ToastQueue::new()
    }
}

} // verus!
