use vstd::prelude::*;

use crate::batch::texts;

verus! {

/// The keys of one bucket, enumerated in full, and the values resolved for
/// them so far: the value of the `i`-th key is the `i`-th value. Values are
/// resolved one at a time, in key order, and the first failure ends the
/// conversion.
pub struct PairsBuilder {
    bkt: String,
    keys: Vec<String>,
    vals: Vec<String>,
}

impl PairsBuilder {
    /// The bucket the keys belong to.
    pub closed spec fn bucket(&self) -> Seq<char> {
        self.bkt@
    }

    /// The keys, in enumeration order.
    pub closed spec fn keys(&self) -> Seq<Seq<char>> {
        texts(self.keys@)
    }

    /// The values resolved so far, one per key from the first.
    pub closed spec fn vals(&self) -> Seq<Seq<char>> {
        texts(self.vals@)
    }

    pub open spec fn wf(&self) -> bool {
        self.vals().len() <= self.keys().len()
    }

    /// Whether every key has its value.
    pub open spec fn is_complete(&self) -> bool {
        self.vals().len() == self.keys().len()
    }

    /// Starts resolving the keys `keys` of the bucket `bkt`.
    pub fn new(bkt: String, keys: Vec<String>) -> (r: PairsBuilder)
        ensures
            r.wf(),
            r.bucket() == bkt@,
            r.keys() == texts(keys@),
            r.vals() == Seq::<Seq<char>>::empty(),
    {
        let r = PairsBuilder { bkt, keys, vals: Vec::new() };
        assert(r.vals() =~= Seq::<Seq<char>>::empty());
        r
    }

    /// The bucket the keys belong to.
    pub fn bucket_name(&self) -> (r: &String)
        ensures
            r@ == self.bucket(),
    {
        &self.bkt
    }

    /// The key whose value comes next, or `None` once every key has one.
    pub fn next_key(&self) -> (r: Option<&String>)
        requires
            self.wf(),
        ensures
            r is None <==> self.is_complete(),
            r matches Some(k) ==> k@ == self.keys()[self.vals().len() as int],
    {
        if self.vals.len() < self.keys.len() {
            Some(&self.keys[self.vals.len()])
        } else {
            None
        }
    }

    /// Takes the outcome of resolving the key that `next_key` named: a value
    /// is recorded for that key; an error ends the conversion, and nothing
    /// resolved so far is kept.
    pub fn accept<E>(self, outcome: Result<String, E>) -> (r: Result<PairsBuilder, E>)
        requires
            self.wf(),
            !self.is_complete(),
        ensures
            outcome matches Err(e) ==> r == Err::<PairsBuilder, E>(e),
            outcome matches Ok(v) ==> r matches Ok(p) && p.wf() && p.bucket() == self.bucket()
                && p.keys() == self.keys() && p.vals() == self.vals().push(v@),
    {
        match outcome {
            Ok(v) => {
                let PairsBuilder { bkt, keys, mut vals } = self;
                vals.push(v);
                let p = PairsBuilder { bkt, keys, vals };
                assert(p.vals() =~= self.vals().push(v@));
                Ok(p)
            },
            Err(e) => Err(e),
        }
    }

    /// Takes the outcomes of resolving every remaining key, in key order; they
    /// may have been resolved concurrently. The first failure ends the
    /// conversion with that failure, and nothing resolved is kept; otherwise
    /// every key has its value.
    pub fn accept_all<E>(self, outcomes: Vec<Result<String, E>>) -> (r: Result<PairsBuilder, E>)
        requires
            self.wf(),
            outcomes@.len() == self.keys().len() - self.vals().len(),
        ensures
            r is Err <==> exists|i: int| 0 <= i < outcomes@.len() && (#[trigger] outcomes@[i]) is Err,
            r matches Err(e) ==> exists|i: int|
                0 <= i < outcomes@.len() && #[trigger] outcomes@[i] == Err::<String, E>(e) && forall|
                    j: int,
                | 0 <= j < i ==> (#[trigger] outcomes@[j]) is Ok,
            r matches Ok(p) ==> p.wf() && p.is_complete() && p.bucket() == self.bucket() && p.keys()
                == self.keys() && p.vals() == self.vals() + outcomes@.map_values(
                |o: Result<String, E>| o->Ok_0@,
            ),
    {
        let ghost vals0 = self.vals();
        let ghost oks = outcomes@.map_values(|o: Result<String, E>| o->Ok_0@);
        let ghost given = outcomes@;
        let mut rest = outcomes;
        let mut p = self;
        let mut i: usize = 0;
        while i < rest.len()
            invariant
                i <= rest@.len(),
                rest@.len() == self.keys().len() - vals0.len(),
                rest@ == given,
                given == outcomes@,
                oks == given.map_values(|o: Result<String, E>| o->Ok_0@),
                vals0 == self.vals(),
                forall|j: int| 0 <= j < i ==> (#[trigger] outcomes@[j]) is Ok,
                p.wf(),
                p.bucket() == self.bucket(),
                p.keys() == self.keys(),
                p.vals() == vals0 + oks.take(i as int),
            decreases rest@.len() - i,
        {
            let v: String = match &rest[i] {
                Ok(v) => v.clone(),
                Err(_) => {
                    let failed = rest.swap_remove(i);
                    assert(failed == given[i as int]);
                    // `failed` is the error just seen; the `Ok` arm cannot run.
                    match failed {
                        Ok(v) => v,
                        Err(e) => {
                            assert(outcomes@[i as int] == Err::<String, E>(e));
                            return Err(e);
                        },
                    }
                },
            };
            p = match p.accept::<E>(Ok(v)) {
                Ok(q) => q,
                Err(e) => return Err(e),
            };
            assert(oks.take(i + 1) =~= oks.take(i as int).push(v@));
            i = i + 1;
        }
        assert(oks.take(i as int) =~= oks);
        assert(forall|j: int| 0 <= j < outcomes@.len() ==> (#[trigger] outcomes@[j]) is Ok);
        Ok(p)
    }

    /// The bucket, the keys and the values, once every key has its value.
    pub fn into_parts(self) -> (r: (String, Vec<String>, Vec<String>))
        requires
            self.wf(),
            self.is_complete(),
        ensures
            r.0@ == self.bucket(),
            texts(r.1@) == self.keys(),
            texts(r.2@) == self.vals(),
            r.1@.len() == r.2@.len(),
    {
        (self.bkt, self.keys, self.vals)
    }
}

} // verus!
