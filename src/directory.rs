//! The subscriber directory: the set of chats that receive notifications.

use vstd::prelude::*;

verus! {

/// Chats subscribed to notifications, each listed once, in order of
/// subscription.
#[derive(Debug)]
pub struct SubscriberDirectory {
    ids: Vec<i64>,
}

impl SubscriberDirectory {
    /// The subscribed chats, as a set.
    pub closed spec fn view(&self) -> Set<i64> {
        Set::new(|x: i64| self.ids@.contains(x))
    }

    /// The subscribed chats, in order of subscription.
    pub closed spec fn listed(&self) -> Seq<i64> {
        self.ids@
    }

    /// No chat is listed twice.
    pub closed spec fn wf(&self) -> bool {
        self.ids@.no_duplicates()
    }

    /// An empty directory.
    pub fn new() -> (r: SubscriberDirectory)
        ensures
            r.wf(),
            r.listed() == Seq::<i64>::empty(),
            r.view() == Set::<i64>::empty(),
    {
        let r = SubscriberDirectory { ids: Vec::new() };
        assert(r.view() =~= Set::<i64>::empty());
        r
    }

    /// Whether `id` is subscribed.
    pub fn contains(&self, id: i64) -> (r: bool)
        ensures
            r == self.view().contains(id),
    {
        let mut i: usize = 0;
        while i < self.ids.len()
            invariant
                0 <= i <= self.ids.len(),
                forall|k: int| 0 <= k < i ==> self.ids@[k] != id,
            decreases self.ids.len() - i,
        {
            if self.ids[i] == id {
                return true;
            }
            i += 1;
        }
        false
    }

    /// Subscribes `id`; subscribing a chat that is already present changes
    /// nothing.
    pub fn subscribe(&mut self, id: i64)
        requires
            old(self).wf(),
        ensures
            final(self).wf(),
            final(self).view() == old(self).view().insert(id),
            old(self).view().contains(id) ==> final(self).listed() == old(self).listed(),
            !old(self).view().contains(id) ==> final(self).listed() == old(self).listed().push(id),
    {
        let ghost before = self.ids@;
        if !self.contains(id) {
            self.ids.push(id);
            proof {
                assert forall|x: i64| self.ids@.contains(x) <==> (before.contains(x) || x == id) by {
                    if self.ids@.contains(x) {
                        let k = choose|k: int| 0 <= k < self.ids@.len() && self.ids@[k] == x;
                        if k < before.len() {
                            assert(before[k] == x);
                        }
                    }
                    if before.contains(x) {
                        let k = choose|k: int| 0 <= k < before.len() && before[k] == x;
                        assert(self.ids@[k] == x);
                    }
                    if x == id {
                        assert(self.ids@[before.len() as int] == x);
                    }
                }
                assert forall|a: int, b: int| 0 <= a < b < self.ids@.len() implies self.ids@[a] != self.ids@[b] by {
                    if b == before.len() {
                        assert(before.contains(self.ids@[a]));
                    }
                }
            }
        }
        assert(self.view() =~= old(self).view().insert(id));
    }

    /// Unsubscribes `id`; unsubscribing a chat that is not present is no
    /// error and changes nothing.
    pub fn unsubscribe(&mut self, id: i64)
        requires
            old(self).wf(),
        ensures
            final(self).wf(),
            final(self).view() == old(self).view().remove(id),
            !old(self).view().contains(id) ==> final(self).listed() == old(self).listed(),
    {
        if !self.contains(id) {
            return;
        }
        let mut kept: Vec<i64> = Vec::new();
        let mut i: usize = 0;
        while i < self.ids.len()
            invariant
                0 <= i <= self.ids.len(),
                self.ids@.no_duplicates(),
                kept@.no_duplicates(),
                forall|x: i64| kept@.contains(x) <==> (self.ids@.subrange(0, i as int).contains(x) && x != id),
            decreases self.ids.len() - i,
        {
            let v = self.ids[i];
            let ghost before = kept@;
            let ghost cur = self.ids@.subrange(0, i + 1);
            let ghost prev = self.ids@.subrange(0, i as int);
            proof {
                assert forall|x: i64| cur.contains(x) <==> (prev.contains(x) || x == v) by {
                    if cur.contains(x) {
                        let k = choose|k: int| 0 <= k < cur.len() && cur[k] == x;
                        if k < i {
                            assert(prev[k] == x);
                        }
                    }
                    if prev.contains(x) {
                        let k = choose|k: int| 0 <= k < prev.len() && prev[k] == x;
                        assert(cur[k] == x);
                    }
                    if x == v {
                        assert(cur[i as int] == x);
                    }
                }
                if prev.contains(v) {
                    let k = choose|k: int| 0 <= k < prev.len() && prev[k] == v;
                    assert(self.ids@[k] == self.ids@[i as int]);
                }
            }
            if v != id {
                kept.push(v);
                proof {
                    assert forall|x: i64| #[trigger] kept@.contains(x) <==> (before.contains(x) || x == v) by {
                        if kept@.contains(x) {
                            let k = choose|k: int| 0 <= k < kept@.len() && kept@[k] == x;
                            if k < before.len() {
                                assert(before[k] == x);
                            }
                        }
                        if before.contains(x) {
                            let k = choose|k: int| 0 <= k < before.len() && before[k] == x;
                            assert(kept@[k] == x);
                        }
                        if x == v {
                            assert(kept@[before.len() as int] == x);
                        }
                    }
                    assert forall|a: int, b: int| 0 <= a < b < kept@.len() implies kept@[a] != kept@[b] by {
                        if b == before.len() {
                            assert(before.contains(kept@[a]));
                        }
                    }
                }
            }
            assert forall|x: i64| kept@.contains(x) <==> (cur.contains(x) && x != id) by {
                assert(before.contains(x) <==> (prev.contains(x) && x != id));
                assert(cur.contains(x) <==> (prev.contains(x) || x == v));
                if v != id {
                    assert(kept@.contains(x) <==> (before.contains(x) || x == v));
                } else {
                    assert(kept@ == before);
                }
            }
            i += 1;
        }
        assert(self.ids@.subrange(0, self.ids.len() as int) =~= self.ids@);
        self.ids = kept;
        assert(self.view() =~= old(self).view().remove(id));
    }

    /// The subscribed chats, in order of subscription.
    pub fn subscribed_chats(&self) -> (r: Vec<i64>)
        ensures
            r@ == self.listed(),
            self.wf() ==> r@.no_duplicates(),
            forall|x: i64| r@.contains(x) <==> self.view().contains(x),
    {
        self.ids.clone()
    }
}

} // verus!
