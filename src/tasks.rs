use crate::cluster::lemma_remove_distinct;
use vstd::prelude::*;

verus! {

/// Running tasks by name, at most one per name, in the order they started.
pub struct TaskTable<R> {
    entries: Vec<(String, R)>,
}

impl<R> TaskTable<R> {
    /// The names of the tasks, in the order they started.
    pub closed spec fn names(&self) -> Seq<Seq<char>> {
        self.entries@.map_values(|e: (String, R)| e.0@)
    }

    /// What the table holds, in the order the tasks started.
    pub closed spec fn runners(&self) -> Seq<R> {
        self.entries@.map_values(|e: (String, R)| e.1)
    }

    /// Each name is held once.
    pub open spec fn wf(&self) -> bool {
        self.names().no_duplicates()
    }

    pub fn new() -> (r: Self)
        ensures
            r.wf(),
            r.names() == Seq::<Seq<char>>::empty(),
    {
        let r = TaskTable { entries: Vec::new() };
        assert(r.names() =~= Seq::<Seq<char>>::empty());
        r
    }

    pub fn len(&self) -> (r: usize)
        ensures
            r == self.names().len(),
    {
        self.entries.len()
    }

    fn find(&self, name: &str) -> (r: Option<usize>)
        ensures
            r matches Some(pos) ==> pos < self.names().len() && self.names()[pos as int] == name@,
            r is None ==> !self.names().contains(name@),
    {
        let key = name.to_owned();
        let mut i: usize = 0;
        while i < self.entries.len()
            invariant
                0 <= i <= self.entries@.len(),
                key@ == name@,
                forall|j: int| 0 <= j < i ==> self.names()[j] != name@,
            decreases self.entries@.len() - i,
        {
            if self.entries[i].0 == key {
                return Some(i);
            }
            i = i + 1;
        }
        proof {
            if self.names().contains(name@) {
                let j = choose|j: int| 0 <= j < self.names().len() && self.names()[j] == name@;
                assert(self.names()[j] != name@);
            }
        }
        None
    }

    /// Whether a task of this name is held.
    pub fn contains(&self, name: &str) -> (r: bool)
        ensures
            r == self.names().contains(name@),
    {
        self.find(name).is_some()
    }

    /// Holds a task under a name that no task has yet.
    pub fn insert(&mut self, name: &str, runner: R)
        requires
            old(self).wf(),
            !old(self).names().contains(name@),
        ensures
            final(self).wf(),
            final(self).names() == old(self).names().push(name@),
            final(self).runners() == old(self).runners().push(runner),
    {
        let ghost names = self.names();
        let ghost runners = self.runners();
        self.entries.push((name.to_owned(), runner));
        assert(self.names() =~= names.push(name@));
        assert(self.runners() =~= runners.push(runner));
    }

    /// Takes out the task of this name, if one is held; the others stay in
    /// order.
    pub fn remove(&mut self, name: &str) -> (r: Option<R>)
        requires
            old(self).wf(),
        ensures
            final(self).wf(),
            r is Some <==> old(self).names().contains(name@),
            r is None ==> final(self).names() == old(self).names() && final(self).runners() == old(self).runners(),
            r matches Some(x) ==> exists|pos: int| {
                &&& 0 <= pos < old(self).names().len()
                &&& old(self).names()[pos] == name@
                &&& old(self).runners()[pos] == x
                &&& final(self).names() == old(self).names().remove(pos)
                &&& final(self).runners() == old(self).runners().remove(pos)
            },
            final(self).names().to_set() == old(self).names().to_set().remove(name@),
    {
        match self.find(name) {
            Some(pos) => {
                let ghost names = self.names();
                let ghost runners = self.runners();
                let (_, runner) = self.entries.remove(pos);
                proof {
                    assert(self.names() =~= names.remove(pos as int));
                    assert(self.runners() =~= runners.remove(pos as int));
                    lemma_remove_distinct(names, pos as int);
                }
                Some(runner)
            },
            None => {
                proof {
                    assert(self.names().to_set() =~= self.names().to_set().remove(name@));
                }
                None
            },
        }
    }

    /// Takes out every task, in the order they started.
    pub fn take_all(&mut self) -> (r: Vec<R>)
        ensures
            final(self).wf(),
            final(self).names() == Seq::<Seq<char>>::empty(),
            r@ == old(self).runners(),
    {
        let mut out: Vec<R> = Vec::new();
        let ghost runners = self.runners();
        let mut rest: Vec<(String, R)> = Vec::new();
        std::mem::swap(&mut rest, &mut self.entries);
        let n = rest.len();
        let mut i: usize = 0;
        while i < n
            invariant
                0 <= i <= n,
                n == runners.len(),
                runners == old(self).runners(),
                rest@.len() == n - i,
                forall|j: int| 0 <= j < n - i ==> #[trigger] rest@[j].1 == runners[i + j],
                out@ == runners.subrange(0, i as int),
                self.entries@.len() == 0,
            decreases n - i,
        {
            let (_, runner) = rest.remove(0);
            out.push(runner);
            assert(out@ =~= runners.subrange(0, i + 1));
            i = i + 1;
        }
        assert(out@ =~= runners);
        assert(self.names() =~= Seq::<Seq<char>>::empty());
        out
    }
}

} // verus!
