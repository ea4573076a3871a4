use vstd::prelude::*;
use vstd::std_specs::cmp::PartialEqSpec;
use vstd::std_specs::iter::IteratorSpec;

use crate::models::ModelId;
use std::ops::Range;

verus! {

/// The instances of one model that the renderer draws, of type `I`.
pub struct InstanceCollection<I> {
    model: ModelId,
    instances: Vec<I>,
}

/// What the renderer uploads for a frame: every instance turned into its
/// raw form, and for each collection, in order, its model and the range of
/// `data` that holds its instances.
pub struct InstanceRenderData<R> {
    pub data: Vec<R>,
    pub indexes: Vec<(ModelId, Range<u32>)>,
}

impl<I> InstanceCollection<I> {
    /// The model whose instances these are.
    pub closed spec fn model_id(&self) -> ModelId {
        self.model
    }
}

impl<I> View for InstanceCollection<I> {
    type V = Seq<I>;

    closed spec fn view(&self) -> Seq<I> {
        self.instances@
    }
}

/// How many instances the first `c` collections of `cs` hold together.
pub open spec fn count_before<I>(cs: Seq<&InstanceCollection<I>>, c: int) -> nat
    decreases c,
{
    if c <= 0 {
        0
    } else {
        count_before(cs, c - 1) + cs[c - 1]@.len()
    }
}

proof fn lemma_count_before_grows<I>(cs: Seq<&InstanceCollection<I>>, a: int, b: int)
    requires
        0 <= a <= b <= cs.len(),
    ensures
        count_before(cs, a) + cs[a]@.len() <= count_before(cs, b) || a == b,
        count_before(cs, a) <= count_before(cs, b),
    decreases b - a,
{
    if a < b {
        lemma_count_before_grows(cs, a, b - 1);
    }
}

impl<I> InstanceCollection<I> {
    pub fn new(model: ModelId) -> (r: InstanceCollection<I>)
        ensures
            r.model_id() == model,
            r@ == Seq::<I>::empty(),
    {
        InstanceCollection { model, instances: Vec::new() }
    }

    pub fn len(&self) -> (r: usize)
        ensures
            r == self@.len(),
    {
        self.instances.len()
    }

    /// The model whose instances these are.
    pub fn model(&self) -> (r: ModelId)
        ensures
            r == self.model_id(),
    {
        self.model
    }

    pub fn add(&mut self, instance: I)
        ensures
            final(self).model_id() == old(self).model_id(),
            final(self)@ == old(self)@.push(instance),
    {
        self.instances.push(instance);
    }

    /// The instances in the order they were added.
    pub fn iter(&self) -> (r: std::slice::Iter<'_, I>)
        ensures
            r.remaining() == self@.as_ref(),
    {
        self.instances.iter()
    }

    pub fn clear(&mut self)
        ensures
            final(self).model_id() == old(self).model_id(),
            final(self)@ == Seq::<I>::empty(),
    {
        self.instances.clear();
    }

    /// Lays the instances of `collections` out one collection after the
    /// other, each turned into its raw form by `to_raw`, and records where
    /// each collection's run starts and ends.
    pub fn get_instance_render_data<R, F: Fn(&I) -> R>(
        collections: &Vec<&InstanceCollection<I>>,
        to_raw: &F,
    ) -> (r: InstanceRenderData<R>)
        requires
            count_before(collections@, collections@.len() as int) <= u32::MAX,
            forall|x: &I| to_raw.requires((x,)),
        ensures
            r.indexes@.len() == collections@.len(),
            forall|c: int|
                0 <= c < collections@.len() ==> {
                    let (model, range) = #[trigger] r.indexes@[c];
                    &&& model == collections@[c].model_id()
                    &&& range.start == count_before(collections@, c)
                    &&& range.end == count_before(collections@, c + 1)
                },
            r.data@.len() == count_before(collections@, collections@.len() as int),
            forall|c: int, k: int|
                0 <= c < collections@.len() && 0 <= k < collections@[c]@.len() ==> to_raw.ensures(
                    (&collections@[c]@[k],),
                    #[trigger] r.data@[count_before(collections@, c) + k],
                ),
    {
        let ghost cs = collections@;
        let mut data: Vec<R> = Vec::new();
        let mut indexes: Vec<(ModelId, Range<u32>)> = Vec::new();
        let mut start: u32 = 0;
        let mut c: usize = 0;
        while c < collections.len()
            invariant
                cs == collections@,
                count_before(cs, cs.len() as int) <= u32::MAX,
                forall|x: &I| to_raw.requires((x,)),
                c <= cs.len(),
                start == count_before(cs, c as int),
                data@.len() == start,
                indexes@.len() == c,
                forall|d: int|
                    0 <= d < c ==> {
                        let (model, range) = #[trigger] indexes@[d];
                        &&& model == cs[d].model_id()
                        &&& range.start == count_before(cs, d)
                        &&& range.end == count_before(cs, d + 1)
                    },
                forall|d: int, k: int|
                    0 <= d < c && 0 <= k < cs[d]@.len() ==> to_raw.ensures(
                        (&cs[d]@[k],),
                        #[trigger] data@[count_before(cs, d) + k],
                    ),
            decreases cs.len() - c,
        {
            let collection = collections[c];
            proof {
                lemma_count_before_grows(cs, c as int + 1, cs.len() as int);
            }
            let ghost before = data@;
            let mut k: usize = 0;
            while k < collection.instances.len()
                invariant
                    cs == collections@,
                    collection == cs[c as int],
                    c < cs.len(),
                    forall|x: &I| to_raw.requires((x,)),
                    count_before(cs, c as int + 1) <= u32::MAX,
                    start == count_before(cs, c as int),
                    k <= collection@.len(),
                    data@.len() == start + k,
                    forall|j: int| 0 <= j < start ==> data@[j] == before[j],
                    forall|j: int|
                        0 <= j < k ==> to_raw.ensures(
                            (&collection@[j],),
                            #[trigger] data@[start + j],
                        ),
                decreases collection@.len() - k,
            {
                let raw = to_raw(&collection.instances[k]);
                data.push(raw);
                k = k + 1;
            }
            let end: u32 = start + collection.instances.len() as u32;
            indexes.push((collection.model, Range { start, end }));
            proof {
                assert forall|d: int, k2: int|
                    0 <= d < c + 1 && 0 <= k2 < cs[d]@.len() implies to_raw.ensures(
                    (&cs[d]@[k2],),
                    #[trigger] data@[count_before(cs, d) + k2],
                ) by {
                    if d < c {
                        lemma_count_before_grows(cs, d, c as int);
                        assert(data@[count_before(cs, d) + k2] == before[count_before(cs, d) + k2]);
                    }
                }
            }
            start = end;
            c = c + 1;
        }
        InstanceRenderData { data, indexes }
    }
}

impl<I: PartialEq + PartialEqSpec> InstanceCollection<I> {
    /// Removes every instance equal to `instance`.
    pub fn remove(&mut self, instance: I)
        requires
            I::obeys_eq_spec(),
        ensures
            final(self).model_id() == old(self).model_id(),
            final(self)@ == old(self)@.filter(|x: I| !x.eq_spec(&instance)),
    {
        let ghost orig = self.instances@;
        let ghost keep = |x: I| !x.eq_spec(&instance);
        let ghost mut j: int = 0;
        let mut i: usize = 0;
        while i < self.instances.len()
            invariant
                I::obeys_eq_spec(),
                self.model_id() == old(self).model_id(),
                orig == old(self)@,
                keep == (|x: I| !x.eq_spec(&instance)),
                i <= j <= orig.len(),
                i <= self.instances@.len(),
                self.instances@.subrange(0, i as int) == orig.subrange(0, j).filter(keep),
                self.instances@.subrange(i as int, self.instances@.len() as int) == orig.subrange(
                    j,
                    orig.len() as int,
                ),
            decreases self.instances@.len() - i,
        {
            let ghost cur = self.instances@;
            let ghost tail = cur.subrange(i as int, cur.len() as int);
            proof {
                assert(cur[i as int] == tail[0]);
                assert(tail.len() == orig.len() - j);
                assert(orig[j] == orig.subrange(j, orig.len() as int)[0]);
                assert(orig.subrange(0, j + 1).drop_last() =~= orig.subrange(0, j));
                assert(orig.subrange(0, j + 1).last() == orig[j]);
                reveal(Seq::filter);
            }
            if self.instances[i].eq(&instance) {
                self.instances.remove(i);
                proof {
                    assert(self.instances@.subrange(0, i as int) =~= cur.subrange(0, i as int));
                    let rest = self.instances@.subrange(i as int, self.instances@.len() as int);
                    let want = orig.subrange(j + 1, orig.len() as int);
                    assert forall|t: int| 0 <= t < rest.len() implies #[trigger] rest[t] == want[t] by {
                        assert(rest[t] == cur[i + t + 1]);
                        assert(tail[t + 1] == orig.subrange(j, orig.len() as int)[t + 1]);
                    }
                    assert(rest =~= want);
                    j = j + 1;
                }
            } else {
                proof {
                    assert(self.instances@.subrange(0, i as int + 1) =~= cur.subrange(
                        0,
                        i as int,
                    ).push(cur[i as int]));
                    let rest = cur.subrange(i as int + 1, cur.len() as int);
                    let want = orig.subrange(j + 1, orig.len() as int);
                    assert forall|t: int| 0 <= t < rest.len() implies #[trigger] rest[t] == want[t] by {
                        assert(tail[t + 1] == orig.subrange(j, orig.len() as int)[t + 1]);
                    }
                    assert(rest =~= want);
                    j = j + 1;
                }
                i = i + 1;
            }
        }
        proof {
            assert(orig.subrange(j, orig.len() as int).len() == 0);
            assert(orig.subrange(0, j) =~= orig);
            assert(self.instances@ =~= self.instances@.subrange(0, i as int));
        }
    }
}

} // verus!
