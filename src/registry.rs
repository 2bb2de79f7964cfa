use vstd::prelude::*;
use crate::backend::Backend;

verus! {

/// Configuration errors of the registry and the runner.
#[derive(Clone, Copy, Debug, PartialEq, Eq, Structural)]
pub enum RegistryError {
    /// A backend is already registered under this id.
    DuplicateBackend,
    /// No backend is registered under this id.
    UnknownBackend,
}

/// Backends by id, in order of registration; no id occurs twice.
pub struct Registry {
    entries: Vec<(String, Backend)>,
}

/// Whether `id` names an entry of `s`.
pub open spec fn has_id(s: Seq<(Seq<char>, Backend)>, id: Seq<char>) -> bool {
    exists|i: int| 0 <= i < s.len() && (#[trigger] s[i]).0 == id
}

/// The backend registered under `id`, if any.
pub open spec fn lookup(s: Seq<(Seq<char>, Backend)>, id: Seq<char>) -> Option<Backend> {
    if has_id(s, id) {
        Some(s[choose|i: int| 0 <= i < s.len() && (#[trigger] s[i]).0 == id].1)
    } else {
        None
    }
}

pub open spec fn ids_unique(s: Seq<(Seq<char>, Backend)>) -> bool {
    forall|i: int, j: int| 0 <= i < s.len() && 0 <= j < s.len() && i != j ==> (#[trigger] s[i]).0
        != (#[trigger] s[j]).0
}

impl View for Registry {
    type V = Seq<(Seq<char>, Backend)>;

    closed spec fn view(&self) -> Seq<(Seq<char>, Backend)> {
        self.entries@.map_values(|e: (String, Backend)| (e.0@, e.1))
    }
}

impl Registry {
    pub open spec fn wf(&self) -> bool {
        ids_unique(self@)
    }

    /// An empty registry.
    pub fn new() -> (r: Registry)
        ensures
            r.wf(),
            r@ == Seq::<(Seq<char>, Backend)>::empty(),
    {
        let r = Registry { entries: Vec::new() };
        assert(r@ =~= Seq::<(Seq<char>, Backend)>::empty());
        r
    }

    /// The position of the entry registered under `id`, if any.
    fn position(&self, id: &String) -> (r: Option<usize>)
        ensures
            match r {
                Some(i) => i < self@.len() && self@[i as int].0 == id@,
                None => !has_id(self@, id@),
            },
    {
        let mut i: usize = 0;
        while i < self.entries.len()
            invariant
                i <= self.entries@.len(),
                forall|k: int| 0 <= k < i ==> (#[trigger] self@[k]).0 != id@,
            decreases self.entries@.len() - i,
        {
            if self.entries[i].0 == *id {
                return Some(i);
            }
            i = i + 1;
        }
        None
    }

    /// Registers `backend` under `id`. An id already in use is refused with
    /// `DuplicateBackend`, and the registry is left as it was.
    pub fn register(&mut self, id: &str, backend: Backend) -> (r: Result<(), RegistryError>)
        requires
            old(self).wf(),
        ensures
            final(self).wf(),
            has_id(old(self)@, id@) ==> r == Err::<(), RegistryError>(
                RegistryError::DuplicateBackend,
            ) && final(self)@ == old(self)@,
            !has_id(old(self)@, id@) ==> r is Ok && final(self)@ == old(self)@.push((id@, backend)),
    {
        let key = id.to_owned();
        match self.position(&key) {
            Some(_) => Err(RegistryError::DuplicateBackend),
            None => {
                let ghost before = self@;
                self.entries.push((key, backend));
                assert(self@ =~= before.push((id@, backend)));
                Ok(())
            },
        }
    }

    /// The backend registered under `id`, or `UnknownBackend`.
    pub fn get(&self, id: &str) -> (r: Result<Backend, RegistryError>)
        requires
            self.wf(),
        ensures
            match lookup(self@, id@) {
                Some(b) => r == Ok::<Backend, RegistryError>(b),
                None => r == Err::<Backend, RegistryError>(RegistryError::UnknownBackend),
            },
    {
        let key = id.to_owned();
        match self.position(&key) {
            Some(i) => {
                proof {
                    let j = choose|j: int| 0 <= j < self@.len() && (#[trigger] self@[j]).0 == id@;
                    assert(self@[j].0 == self@[i as int].0);
                }
                Ok(self.entries[i].1)
            },
            None => Err(RegistryError::UnknownBackend),
        }
    }

    /// The registered ids, in order of registration.
    pub fn list(&self) -> (r: Vec<String>)
        ensures
            r@.len() == self@.len(),
            forall|i: int| 0 <= i < r@.len() ==> (#[trigger] r@[i])@ == self@[i].0,
    {
        let mut out: Vec<String> = Vec::new();
        let mut i: usize = 0;
        while i < self.entries.len()
            invariant
                i <= self.entries@.len(),
                out@.len() == i,
                forall|k: int| 0 <= k < i ==> (#[trigger] out@[k])@ == self@[k].0,
            decreases self.entries@.len() - i,
        {
            out.push(self.entries[i].0.clone());
            i = i + 1;
        }
        out
    }
}

/// After a first registration under a fresh id, the id is in use, so a
/// second registration under it is refused (see `register`) and leaves the
/// registry as it was: the id still looks up to the first backend.
pub proof fn lemma_duplicate_keeps_first(s: Seq<(Seq<char>, Backend)>, id: Seq<char>, first: Backend)
    requires
        ids_unique(s),
        !has_id(s, id),
    ensures
        has_id(s.push((id, first)), id),
        lookup(s.push((id, first)), id) == Some(first),
{
    let t = s.push((id, first));
    assert(t[s.len() as int].0 == id);
    let j = choose|j: int| 0 <= j < t.len() && (#[trigger] t[j]).0 == id;
    if j < s.len() {
        assert(s[j].0 == id);
    }
}

} // verus!
