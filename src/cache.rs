//! An in-memory cache of file contents keyed by path. Reading the files is
//! left to the caller; the cache decides what is stored and what is returned.
use vstd::prelude::*;

verus! {

/// Declares std's I/O error so that a failed read can be carried in `CacheError`.
#[verifier::external_type_specification]
#[verifier::external_body]
pub struct ExIoError(std::io::Error);

pub enum CacheError {
    /// The path is already cached.
    AlreadyPresent { path: String },
    /// Reading the file failed.
    IoError { source: std::io::Error },
}

impl CacheError {
    /// The message of the error, as shown to users.
    pub fn message(&self) -> (r: String)
        ensures
            match self {
                CacheError::AlreadyPresent { path } => r@
                    == "File at specified path `"@ + path@ + "` is already present in the cache"@,
                CacheError::IoError { .. } => r@ == "Io error"@,
            },
    {
        match self {
            CacheError::AlreadyPresent { path } => {
                let mut m = String::from_str("File at specified path `");
                m.append(path.as_str());
                m.append("` is already present in the cache");
                m
            },
            CacheError::IoError { .. } => String::from_str("Io error"),
        }
    }
}

struct Resource {
    path: String,
    data: Vec<u8>,
}

pub struct ResourceCache {
    resources: Vec<Resource>,
}

impl View for ResourceCache {
    type V = Map<Seq<char>, Seq<u8>>;

    closed spec fn view(&self) -> Map<Seq<char>, Seq<u8>> {
        Map::new(
            |p: Seq<char>| exists|i: int| 0 <= i < self.resources.len() && #[trigger] self.resources[i].path@ == p,
            |p: Seq<char>| self.resources[self.slot(p)].data@,
        )
    }
}

impl ResourceCache {
    /// Where the entry for `p` sits.
    closed spec fn slot(&self, p: Seq<char>) -> int {
        choose|i: int| 0 <= i < self.resources.len() && #[trigger] self.resources[i].path@ == p
    }

    /// No path is stored twice.
    pub closed spec fn wf(&self) -> bool {
        forall|i: int, j: int|
            0 <= i < self.resources.len() && 0 <= j < self.resources.len()
                && #[trigger] self.resources[i].path@ == #[trigger] self.resources[j].path@ ==> i == j
    }

    proof fn lemma_slot(&self, i: int)
        requires
            self.wf(),
            0 <= i < self.resources.len(),
        ensures
            self@.contains_key(self.resources[i].path@),
            self.slot(self.resources[i].path@) == i,
            self@[self.resources[i].path@] == self.resources[i].data@,
    {
        let p = self.resources[i].path@;
        assert(self@.contains_key(p));
        let k = self.slot(p);
        assert(self.resources[k].path@ == p);
    }

    /// An empty cache.
    pub fn new() -> (r: Self)
        ensures
            r.wf(),
            r@ == Map::<Seq<char>, Seq<u8>>::empty(),
    {
        let r = ResourceCache { resources: Vec::new() };
        assert(r@ =~= Map::<Seq<char>, Seq<u8>>::empty());
        r
    }

    /// Where `path` is stored, if it is.
    fn find(&self, path: &str) -> (r: Option<usize>)
        requires
            self.wf(),
        ensures
            match r {
                Some(i) => i < self.resources.len() && self.resources[i as int].path@ == path@,
                None => !self@.contains_key(path@),
            },
    {
        let wanted: String = path.to_owned();
        let mut i: usize = 0;
        while i < self.resources.len()
            invariant
                i <= self.resources.len(),
                wanted@ == path@,
                forall|j: int| 0 <= j < i ==> self.resources[j].path@ != path@,
            decreases self.resources.len() - i,
        {
            if self.resources[i].path == wanted {
                return Some(i);
            }
            i = i + 1;
        }
        None
    }

    /// A copy of what is cached under `path`.
    pub fn get(&self, path: &str) -> (r: Option<Vec<u8>>)
        requires
            self.wf(),
        ensures
            match r {
                Some(v) => self@.contains_key(path@) && v@ == self@[path@],
                None => !self@.contains_key(path@),
            },
    {
        match self.find(path) {
            Some(i) => {
                proof {
                    self.lemma_slot(i as int);
                }
                Some(self.resources[i].data.clone())
            },
            None => None,
        }
    }

    /// What is cached under `path`, borrowed.
    pub fn get_ref(&self, path: &str) -> (r: Option<&Vec<u8>>)
        requires
            self.wf(),
        ensures
            match r {
                Some(v) => self@.contains_key(path@) && v@ == self@[path@],
                None => !self@.contains_key(path@),
            },
    {
        match self.find(path) {
            Some(i) => {
                proof {
                    self.lemma_slot(i as int);
                }
                Some(&self.resources[i].data)
            },
            None => None,
        }
    }

    /// Whether `path` is cached.
    pub fn contains(&self, path: &str) -> (r: bool)
        requires
            self.wf(),
        ensures
            r == self@.contains_key(path@),
    {
        match self.find(path) {
            Some(i) => {
                proof {
                    self.lemma_slot(i as int);
                }
                true
            },
            None => false,
        }
    }

    /// Fails with `AlreadyPresent` exactly when `path` is cached: the check
    /// made before a file is read into the cache.
    pub fn ensure_absent(&self, path: &str) -> (r: Result<(), CacheError>)
        requires
            self.wf(),
        ensures
            r is Ok <==> !self@.contains_key(path@),
            r matches Err(e) ==> e matches CacheError::AlreadyPresent { path: p } && p@ == path@,
    {
        if self.contains(path) {
            Err(CacheError::AlreadyPresent { path: path.to_owned() })
        } else {
            Ok(())
        }
    }

    /// Caches `data` under `path`, unless `path` is cached already.
    pub fn store(&mut self, path: &str, data: Vec<u8>) -> (r: Result<(), CacheError>)
        requires
            old(self).wf(),
        ensures
            final(self).wf(),
            r is Ok <==> !old(self)@.contains_key(path@),
            r matches Err(e) ==> e matches CacheError::AlreadyPresent { path: p } && p@ == path@,
            r is Ok ==> final(self)@ == old(self)@.insert(path@, data@),
            r is Err ==> final(self)@ == old(self)@,
    {
        let present = self.ensure_absent(path);
        if present.is_err() {
            return present;
        }
        let ghost before = *self;
        self.resources.push(Resource { path: path.to_owned(), data });
        proof {
            let n = before.resources.len() as int;
            assert forall|i: int, j: int|
                0 <= i < self.resources.len() && 0 <= j < self.resources.len()
                    && #[trigger] self.resources[i].path@ == #[trigger] self.resources[j].path@
                implies i == j by {
                if i < n && j == n {
                    assert(before.resources[i] == self.resources[i]);
                    assert(before@.contains_key(before.resources[i].path@));
                }
                if j < n && i == n {
                    assert(before.resources[j] == self.resources[j]);
                    assert(before@.contains_key(before.resources[j].path@));
                }
                if i < n && j < n {
                    assert(before.resources[i] == self.resources[i]);
                    assert(before.resources[j] == self.resources[j]);
                }
            }
            assert forall|p: Seq<char>| #[trigger] self@.contains_key(p) <==> before@.insert(path@, data@).contains_key(p) by {
                if before@.contains_key(p) {
                    let k = before.slot(p);
                    assert(self.resources[k] == before.resources[k]);
                }
                if self@.contains_key(p) && p != path@ {
                    let k = self.slot(p);
                    if k < n {
                        assert(self.resources[k] == before.resources[k]);
                    }
                }
                if p == path@ {
                    assert(self.resources[n].path@ == p);
                }
            }
            assert forall|p: Seq<char>| #[trigger] self@.contains_key(p)
                implies self@[p] == before@.insert(path@, data@)[p] by {
                let k = self.slot(p);
                self.lemma_slot(k);
                if k < n {
                    assert(self.resources[k] == before.resources[k]);
                    before.lemma_slot(k);
                }
            }
            assert(self@ =~= before@.insert(path@, data@));
        }
        Ok(())
    }

    /// Takes `path` out of the cache and hands back what was stored.
    pub fn drop_from_cache(&mut self, path: &str) -> (r: Option<Vec<u8>>)
        requires
            old(self).wf(),
        ensures
            final(self).wf(),
            final(self)@ == old(self)@.remove(path@),
            match r {
                Some(v) => old(self)@.contains_key(path@) && v@ == old(self)@[path@],
                None => !old(self)@.contains_key(path@),
            },
    {
        match self.find(path) {
            None => {
                assert(self@ =~= old(self)@.remove(path@));
                None
            },
            Some(i) => {
                let ghost before = *self;
                proof {
                    before.lemma_slot(i as int);
                }
                let gone = self.resources.remove(i);
                proof {
                    assert forall|a: int, b: int|
                        0 <= a < self.resources.len() && 0 <= b < self.resources.len()
                            && #[trigger] self.resources[a].path@ == #[trigger] self.resources[b].path@
                        implies a == b by {
                        let a0 = if a < i { a } else { a + 1 };
                        let b0 = if b < i { b } else { b + 1 };
                        assert(self.resources[a] == before.resources[a0]);
                        assert(self.resources[b] == before.resources[b0]);
                    }
                    assert forall|p: Seq<char>| #[trigger] self@.contains_key(p)
                        <==> before@.remove(path@).contains_key(p) by {
                        if self@.contains_key(p) {
                            let k = self.slot(p);
                            let k0 = if k < i { k } else { k + 1 };
                            assert(self.resources[k] == before.resources[k0]);
                            before.lemma_slot(k0);
                        }
                        if before@.contains_key(p) && p != path@ {
                            let k0 = before.slot(p);
                            before.lemma_slot(k0);
                            let k = if k0 < i { k0 } else { k0 - 1 };
                            assert(self.resources[k] == before.resources[k0]);
                        }
                    }
                    assert forall|p: Seq<char>| #[trigger] self@.contains_key(p)
                        implies self@[p] == before@.remove(path@)[p] by {
                        let k = self.slot(p);
                        self.lemma_slot(k);
                        let k0 = if k < i { k } else { k + 1 };
                        assert(self.resources[k] == before.resources[k0]);
                        before.lemma_slot(k0);
                    }
                    assert(self@ =~= before@.remove(path@));
                }
                Some(gone.data)
            },
        }
    }

    /// Empties the cache.
    pub fn clear_cache(&mut self)
        ensures
            final(self).wf(),
            final(self)@ == Map::<Seq<char>, Seq<u8>>::empty(),
    {
        self.resources.clear();
        assert(self@ =~= Map::<Seq<char>, Seq<u8>>::empty());
    }

    /// What a load that ended with `outcome` hands back: the cached contents
    /// when the file was just stored or was cached already, the error otherwise.
    pub fn settle_load(&self, path: &str, outcome: Result<(), CacheError>) -> (r: Result<Vec<u8>, CacheError>)
        requires
            self.wf(),
            (outcome is Ok || outcome matches Err(CacheError::AlreadyPresent { .. }))
                ==> self@.contains_key(path@),
        ensures
            match outcome {
                Ok(()) | Err(CacheError::AlreadyPresent { .. }) => r matches Ok(v) && v@ == self@[path@],
                Err(e) => r == Err::<Vec<u8>, CacheError>(e),
            },
    {
        match outcome {
            Ok(()) | Err(CacheError::AlreadyPresent { .. }) => {
                match self.get(path) {
                    Some(v) => Ok(v),
                    None => {
                        assert(false);
                        Ok(Vec::new())
                    },
                }
            },
            Err(e) => Err(e),
        }
    }
}

} // verus!
