//! Process-wide shared state: the table of live device handles and the table
//! of per-device cancellation signals, both keyed by device id. In the
//! running program both tables sit behind reader/writer locks; here they are
//! one explicitly passed value whose operations are verified.

use vstd::prelude::*;

verus! {

/// One per-device cooperative cancellation signal. Firing it requests the
/// device task's shutdown.
#[derive(Debug, Clone)]
pub struct CancelSignal {
    pub id: String,
    pub fired: bool,
}

/// The shared tables: device id -> live handle (modelled as membership), and
/// device id -> cancellation signal.
#[derive(Debug, Clone)]
pub struct Registry {
    /// Ids of devices with a live, registered handle.
    pub devices: Vec<String>,
    /// Per-device cancellation signals.
    pub signals: Vec<CancelSignal>,
}

impl Registry {
    /// A device id is registered.
    pub open spec fn has_device(self, id: Seq<char>) -> bool {
        exists|i: int| 0 <= i < self.devices@.len() && self.devices@[i]@ == id
    }

    /// A cancellation signal exists for an id.
    pub open spec fn has_signal(self, id: Seq<char>) -> bool {
        exists|i: int| 0 <= i < self.signals@.len() && self.signals@[i].id@ == id
    }

    /// The signal for an id exists and has been fired.
    pub open spec fn signal_fired(self, id: Seq<char>) -> bool {
        exists|i: int|
            0 <= i < self.signals@.len() && self.signals@[i].id@ == id && self.signals@[i].fired
    }

    /// Each table holds at most one entry per id.
    pub open spec fn wf(self) -> bool {
        &&& forall|i: int, j: int|
            0 <= i < j < self.devices@.len() ==> self.devices@[i]@ != self.devices@[j]@
        &&& forall|i: int, j: int|
            0 <= i < j < self.signals@.len() ==> self.signals@[i].id@ != self.signals@[j].id@
    }

    /// Empty tables.
    pub fn new() -> (r: Registry)
        ensures
            r.wf(),
            r.devices@.len() == 0,
            r.signals@.len() == 0,
    {
        Registry { devices: Vec::new(), signals: Vec::new() }
    }

    fn find_device(&self, id: &String) -> (r: Option<usize>)
        ensures
            match r {
                Some(i) => i < self.devices@.len() && self.devices@[i as int]@ == id@,
                None => !self.has_device(id@),
            },
    {
        let n = self.devices.len();
        for i in 0..n
            invariant
                n == self.devices@.len(),
                forall|j: int| 0 <= j < i ==> self.devices@[j]@ != id@,
        {
            if self.devices[i] == *id {
                return Some(i);
            }
        }
        None
    }

    fn find_signal(&self, id: &String) -> (r: Option<usize>)
        ensures
            match r {
                Some(i) => i < self.signals@.len() && self.signals@[i as int].id@ == id@,
                None => !self.has_signal(id@),
            },
    {
        let n = self.signals.len();
        for i in 0..n
            invariant
                n == self.signals@.len(),
                forall|j: int| 0 <= j < i ==> self.signals@[j].id@ != id@,
        {
            if self.signals[i].id == *id {
                return Some(i);
            }
        }
        None
    }

    /// A device id is registered right now.
    pub fn contains_device(&self, id: &String) -> (r: bool)
        ensures
            r == self.has_device(id@),
    {
        self.find_device(id).is_some()
    }

    /// Registers a live device handle under an id; registering an id twice
    /// keeps one entry.
    pub fn insert_device(&mut self, id: &String)
        requires
            old(self).wf(),
        ensures
            final(self).wf(),
            final(self).has_device(id@),
            forall|x: Seq<char>|
                #[trigger] final(self).has_device(x) == (old(self).has_device(x) || x == id@),
            final(self).signals@ == old(self).signals@,
            forall|x: Seq<char>| #[trigger] final(self).has_signal(x) == old(self).has_signal(x),
            forall|x: Seq<char>|
                #[trigger] final(self).signal_fired(x) == old(self).signal_fired(x),
            old(self).has_device(id@) ==> final(self).devices@ == old(self).devices@,
    {
        match self.find_device(id) {
            Some(_) => {
                assert(self.has_device(id@));
                return ;
            },
            None => {},
        }
        {
            let ghost pre = self.devices@;
            self.devices.push(id.clone());
            assert forall|x: Seq<char>| #[trigger]
                self.has_device(x) == ((exists|i: int|
                    0 <= i < pre.len() && pre[i]@ == x) || x == id@) by {
                if self.has_device(x) {
                    let i = choose|i: int|
                        0 <= i < self.devices@.len() && self.devices@[i]@ == x;
                    if i < pre.len() {
                        assert(pre[i]@ == x);
                    }
                }
                if exists|i: int| 0 <= i < pre.len() && pre[i]@ == x {
                    let i = choose|i: int| 0 <= i < pre.len() && pre[i]@ == x;
                    assert(self.devices@[i]@ == x);
                }
                if x == id@ {
                    assert(self.devices@[pre.len() as int]@ == x);
                }
            }
        }
    }

    /// Removes a device's entry; removing an absent id changes nothing.
    pub fn remove_device(&mut self, id: &String)
        requires
            old(self).wf(),
        ensures
            final(self).wf(),
            !final(self).has_device(id@),
            forall|x: Seq<char>|
                #[trigger] final(self).has_device(x) == (old(self).has_device(x) && x != id@),
            final(self).signals@ == old(self).signals@,
            forall|x: Seq<char>| #[trigger] final(self).has_signal(x) == old(self).has_signal(x),
            forall|x: Seq<char>|
                #[trigger] final(self).signal_fired(x) == old(self).signal_fired(x),
            !old(self).has_device(id@) ==> final(self).devices@ == old(self).devices@,
    {
        match self.find_device(id) {
            Some(i) => {
                let ghost pre = self.devices@;
                self.devices.remove(i);
                assert(self.devices@ =~= pre.subrange(0, i as int) + pre.subrange(
                    i + 1,
                    pre.len() as int,
                ));
                assert forall|x: Seq<char>| #[trigger]
                    self.has_device(x) == ((exists|k: int|
                        0 <= k < pre.len() && pre[k]@ == x) && x != id@) by {
                    if self.has_device(x) {
                        let k = choose|k: int|
                            0 <= k < self.devices@.len() && self.devices@[k]@ == x;
                        if k < i {
                            assert(pre[k]@ == x);
                            assert(x != id@);
                        } else {
                            assert(pre[k + 1]@ == x);
                            assert(x != id@);
                        }
                    }
                    if (exists|k: int| 0 <= k < pre.len() && pre[k]@ == x) && x != id@ {
                        let k = choose|k: int| 0 <= k < pre.len() && pre[k]@ == x;
                        if k < i {
                            assert(self.devices@[k]@ == x);
                        } else {
                            assert(k != i);
                            assert(self.devices@[k - 1]@ == x);
                        }
                    }
                }
            },
            None => {},
        }
    }

    /// Creates (or resets) the cancellation signal for an id: afterwards the
    /// signal exists and is not fired.
    pub fn insert_signal(&mut self, id: &String)
        requires
            old(self).wf(),
        ensures
            final(self).wf(),
            final(self).has_signal(id@),
            !final(self).signal_fired(id@),
            forall|x: Seq<char>|
                #[trigger] final(self).has_signal(x) == (old(self).has_signal(x) || x == id@),
            forall|x: Seq<char>|
                x != id@ ==> #[trigger] final(self).signal_fired(x) == old(self).signal_fired(x),
            final(self).devices@ == old(self).devices@,
            forall|x: Seq<char>| #[trigger] final(self).has_device(x) == old(self).has_device(x),
    {
        let ghost pre = self.signals@;
        match self.find_signal(id) {
            Some(i) => {
                let fresh = CancelSignal { id: id.clone(), fired: false };
                self.signals.set(i, fresh);
                assert forall|x: Seq<char>| #[trigger]
                    self.has_signal(x) == (exists|k: int|
                        0 <= k < pre.len() && pre[k].id@ == x) by {
                    if self.has_signal(x) {
                        let k = choose|k: int|
                            0 <= k < self.signals@.len() && self.signals@[k].id@ == x;
                        assert(pre[k].id@ == if k == i { id@ } else { pre[k].id@ });
                        assert(0 <= k < pre.len() && pre[k].id@ == x || x == id@);
                        if x == id@ {
                            assert(pre[i as int].id@ == x);
                        }
                    }
                    if exists|k: int| 0 <= k < pre.len() && pre[k].id@ == x {
                        let k = choose|k: int| 0 <= k < pre.len() && pre[k].id@ == x;
                        if k == i {
                            assert(self.signals@[k].id@ == id@);
                            assert(pre[k].id@ == id@);
                        } else {
                            assert(self.signals@[k].id@ == x);
                        }
                    }
                }
                assert forall|x: Seq<char>| x != id@ implies #[trigger] self.signal_fired(x)
                    == (exists|k: int|
                    0 <= k < pre.len() && pre[k].id@ == x && pre[k].fired) by {
                    if self.signal_fired(x) {
                        let k = choose|k: int|
                            0 <= k < self.signals@.len() && self.signals@[k].id@ == x
                                && self.signals@[k].fired;
                        assert(k != i);
                        assert(pre[k].id@ == x && pre[k].fired);
                    }
                    if exists|k: int| 0 <= k < pre.len() && pre[k].id@ == x && pre[k].fired {
                        let k = choose|k: int|
                            0 <= k < pre.len() && pre[k].id@ == x && pre[k].fired;
                        assert(k != i);
                        assert(self.signals@[k].id@ == x && self.signals@[k].fired);
                    }
                }
                assert(!self.signal_fired(id@)) by {
                    if self.signal_fired(id@) {
                        let k = choose|k: int|
                            0 <= k < self.signals@.len() && self.signals@[k].id@ == id@
                                && self.signals@[k].fired;
                        assert(k == i);
                    }
                }
            },
            None => {
                self.signals.push(CancelSignal { id: id.clone(), fired: false });
                assert forall|x: Seq<char>| #[trigger]
                    self.has_signal(x) == ((exists|k: int|
                        0 <= k < pre.len() && pre[k].id@ == x) || x == id@) by {
                    if self.has_signal(x) {
                        let k = choose|k: int|
                            0 <= k < self.signals@.len() && self.signals@[k].id@ == x;
                        if k < pre.len() {
                            assert(pre[k].id@ == x);
                        }
                    }
                    if exists|k: int| 0 <= k < pre.len() && pre[k].id@ == x {
                        let k = choose|k: int| 0 <= k < pre.len() && pre[k].id@ == x;
                        assert(self.signals@[k].id@ == x);
                    }
                    if x == id@ {
                        assert(self.signals@[pre.len() as int].id@ == x);
                    }
                }
                assert forall|x: Seq<char>| x != id@ implies #[trigger] self.signal_fired(x)
                    == (exists|k: int|
                    0 <= k < pre.len() && pre[k].id@ == x && pre[k].fired) by {
                    if self.signal_fired(x) {
                        let k = choose|k: int|
                            0 <= k < self.signals@.len() && self.signals@[k].id@ == x
                                && self.signals@[k].fired;
                        assert(k < pre.len());
                        assert(pre[k].id@ == x && pre[k].fired);
                    }
                    if exists|k: int| 0 <= k < pre.len() && pre[k].id@ == x && pre[k].fired {
                        let k = choose|k: int|
                            0 <= k < pre.len() && pre[k].id@ == x && pre[k].fired;
                        assert(self.signals@[k].id@ == x && self.signals@[k].fired);
                    }
                }
                assert(!self.signal_fired(id@)) by {
                    if self.signal_fired(id@) {
                        let k = choose|k: int|
                            0 <= k < self.signals@.len() && self.signals@[k].id@ == id@
                                && self.signals@[k].fired;
                        if k < pre.len() {
                            assert(self.has_signal(id@));
                            assert(pre[k].id@ == id@);
                        }
                    }
                }
            },
        }
    }

    /// Fires the signal for an id, if one exists; firing an already-fired or
    /// absent signal changes nothing.
    pub fn fire_signal(&mut self, id: &String)
        requires
            old(self).wf(),
        ensures
            final(self).wf(),
            old(self).has_signal(id@) ==> final(self).signal_fired(id@),
            forall|x: Seq<char>|
                #[trigger] final(self).has_signal(x) == old(self).has_signal(x),
            forall|x: Seq<char>|
                #[trigger] final(self).signal_fired(x) == (old(self).signal_fired(x) || (x == id@
                    && old(self).has_signal(x))),
            final(self).devices@ == old(self).devices@,
            forall|x: Seq<char>| #[trigger] final(self).has_device(x) == old(self).has_device(x),
            old(self).signal_fired(id@) || !old(self).has_signal(id@) ==> final(self).signals@
                == old(self).signals@,
    {
        let ghost pre = self.signals@;
        match self.find_signal(id) {
            Some(i) => {
                let fired = CancelSignal { id: self.signals[i].id.clone(), fired: true };
                let ghost already = pre[i as int].fired;
                self.signals.set(i, fired);
                assert(self.signals@[i as int].id@ == id@);
                assert forall|x: Seq<char>| #[trigger]
                    self.has_signal(x) == (exists|k: int|
                        0 <= k < pre.len() && pre[k].id@ == x) by {
                    if self.has_signal(x) {
                        let k = choose|k: int|
                            0 <= k < self.signals@.len() && self.signals@[k].id@ == x;
                        assert(pre[k].id@ == x);
                    }
                    if exists|k: int| 0 <= k < pre.len() && pre[k].id@ == x {
                        let k = choose|k: int| 0 <= k < pre.len() && pre[k].id@ == x;
                        assert(self.signals@[k].id@ == x);
                    }
                }
                assert forall|x: Seq<char>| #[trigger]
                    self.signal_fired(x) == ((exists|k: int|
                        0 <= k < pre.len() && pre[k].id@ == x && pre[k].fired) || (x == id@
                        && exists|k: int| 0 <= k < pre.len() && pre[k].id@ == x)) by {
                    if self.signal_fired(x) {
                        let k = choose|k: int|
                            0 <= k < self.signals@.len() && self.signals@[k].id@ == x
                                && self.signals@[k].fired;
                        if k == i {
                            assert(x == id@ && pre[k].id@ == x);
                        } else {
                            assert(pre[k].id@ == x && pre[k].fired);
                        }
                    }
                    if exists|k: int| 0 <= k < pre.len() && pre[k].id@ == x && pre[k].fired {
                        let k = choose|k: int|
                            0 <= k < pre.len() && pre[k].id@ == x && pre[k].fired;
                        if k == i {
                            assert(self.signals@[k].fired && self.signals@[k].id@ == x);
                        } else {
                            assert(self.signals@[k].id@ == x && self.signals@[k].fired);
                        }
                    }
                    if x == id@ && exists|k: int| 0 <= k < pre.len() && pre[k].id@ == x {
                        let k = choose|k: int| 0 <= k < pre.len() && pre[k].id@ == x;
                        assert(k == i);
                        assert(self.signals@[k].id@ == x && self.signals@[k].fired);
                    }
                }
                proof {
                    if already {
                        assert(pre[i as int] == self.signals@[i as int]);
                        assert(self.signals@ =~= pre);
                    }
                }
            },
            None => {
                assert forall|x: Seq<char>| #[trigger]
                    self.signal_fired(x) == (old(self).signal_fired(x) || (x == id@ && old(
                        self,
                    ).has_signal(x))) by {}
            },
        }
    }

    /// Removes the signal for an id, telling whether one existed; used on
    /// hot-unplug, where the caller fires the real signal it removed.
    pub fn remove_signal(&mut self, id: &String) -> (was: bool)
        requires
            old(self).wf(),
        ensures
            final(self).wf(),
            was == old(self).has_signal(id@),
            !final(self).has_signal(id@),
            forall|x: Seq<char>|
                #[trigger] final(self).has_signal(x) == (old(self).has_signal(x) && x != id@),
            forall|x: Seq<char>|
                x != id@ ==> #[trigger] final(self).signal_fired(x) == old(self).signal_fired(x),
            final(self).devices@ == old(self).devices@,
            forall|x: Seq<char>| #[trigger] final(self).has_device(x) == old(self).has_device(x),
            !old(self).has_signal(id@) ==> final(self).signals@ == old(self).signals@,
    {
        match self.find_signal(id) {
            Some(i) => {
                let ghost pre = self.signals@;
                self.signals.remove(i);
                assert forall|x: Seq<char>| #[trigger]
                    self.has_signal(x) == ((exists|k: int|
                        0 <= k < pre.len() && pre[k].id@ == x) && x != id@) by {
                    if self.has_signal(x) {
                        let k = choose|k: int|
                            0 <= k < self.signals@.len() && self.signals@[k].id@ == x;
                        if k < i {
                            assert(pre[k].id@ == x);
                            assert(x != id@);
                        } else {
                            assert(pre[k + 1].id@ == x);
                            assert(x != id@);
                        }
                    }
                    if (exists|k: int| 0 <= k < pre.len() && pre[k].id@ == x) && x != id@ {
                        let k = choose|k: int| 0 <= k < pre.len() && pre[k].id@ == x;
                        if k < i {
                            assert(self.signals@[k].id@ == x);
                        } else {
                            assert(k != i);
                            assert(self.signals@[k - 1].id@ == x);
                        }
                    }
                }
                assert forall|x: Seq<char>| x != id@ implies #[trigger] self.signal_fired(x)
                    == (exists|k: int|
                    0 <= k < pre.len() && pre[k].id@ == x && pre[k].fired) by {
                    if self.signal_fired(x) {
                        let k = choose|k: int|
                            0 <= k < self.signals@.len() && self.signals@[k].id@ == x
                                && self.signals@[k].fired;
                        if k < i {
                            assert(pre[k].id@ == x && pre[k].fired);
                        } else {
                            assert(pre[k + 1].id@ == x && pre[k + 1].fired);
                        }
                    }
                    if exists|k: int| 0 <= k < pre.len() && pre[k].id@ == x && pre[k].fired {
                        let k = choose|k: int|
                            0 <= k < pre.len() && pre[k].id@ == x && pre[k].fired;
                        if k < i {
                            assert(self.signals@[k].id@ == x && self.signals@[k].fired);
                        } else {
                            assert(k != i);
                            assert(self.signals@[k - 1].id@ == x && self.signals@[k - 1].fired);
                        }
                    }
                }
                true
            },
            None => false,
        }
    }
}

} // verus!
