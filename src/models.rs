use vstd::prelude::*;
use vstd::std_specs::iter::IteratorSpec;

verus! {

/// Identifier that a model collection hands out to each model it loads.
#[derive(PartialEq, Eq, Structural, Clone, Copy, Debug)]
pub struct ModelId(pub u32);

/// A loaded model: its meshes of type `M` and materials of type `T` come
/// from the renderer; the collection only reads `id` and `path`.
pub struct Model<M, T> {
    pub id: ModelId,
    pub path: String,
    pub meshes: Vec<M>,
    pub materials: Vec<T>,
}

/// Whether no two models of `s` share a path.
pub open spec fn paths_unique<M, T>(s: Seq<Model<M, T>>) -> bool {
    forall|i: int, j: int| 0 <= i < j < s.len() ==> s[i].path@ != s[j].path@
}

/// Whether some model of `s` has the path `path`.
pub open spec fn has_path<M, T>(s: Seq<Model<M, T>>, path: Seq<char>) -> bool {
    exists|k: int| 0 <= k < s.len() && s[k].path@ == path
}

/// `s` without the model whose path is `path`, if there is one.
pub open spec fn without_path<M, T>(s: Seq<Model<M, T>>, path: Seq<char>) -> Seq<Model<M, T>> {
    if has_path(s, path) {
        s.remove(choose|k: int| 0 <= k < s.len() && s[k].path@ == path)
    } else {
        s
    }
}

/// Whether `m` is the first model of `s` with id `id`.
pub open spec fn first_with_id<M, T>(s: Seq<Model<M, T>>, id: ModelId, m: Model<M, T>) -> bool {
    exists|k: int|
        0 <= k < s.len() && s[k] == m && m.id == id && forall|j: int| 0 <= j < k ==> s[j].id != id
}

/// The loaded models, at most one per path, in the order they were added.
pub struct ModelCollection<M, T> {
    models: Vec<Model<M, T>>,
    new_model_id: ModelId,
}

impl<M, T> View for ModelCollection<M, T> {
    type V = Seq<Model<M, T>>;

    closed spec fn view(&self) -> Seq<Model<M, T>> {
        self.models@
    }
}

impl<M, T> ModelCollection<M, T> {
    pub open spec fn wf(&self) -> bool {
        paths_unique(self@)
    }

    /// The id the next added model is offered.
    pub closed spec fn next_id(&self) -> ModelId {
        self.new_model_id
    }

    pub fn new() -> (r: ModelCollection<M, T>)
        ensures
            r.wf(),
            r@ == Seq::<Model<M, T>>::empty(),
            r.next_id() == ModelId(0),
    {
        ModelCollection { models: Vec::new(), new_model_id: ModelId(0) }
    }

    /// The id the next added model is offered.
    pub fn next_model_id(&self) -> (r: ModelId)
        ensures
            r == self.next_id(),
    {
        self.new_model_id
    }

    pub fn len(&self) -> (r: usize)
        ensures
            r == self@.len(),
    {
        self.models.len()
    }

    /// The index of the model with path `path`, if there is one.
    fn index_of_path(&self, path: &String) -> (r: Option<usize>)
        requires
            self.wf(),
        ensures
            match r {
                Some(k) => k < self@.len() && self@[k as int].path@ == path@,
                None => !has_path(self@, path@),
            },
    {
        let mut k: usize = 0;
        while k < self.models.len()
            invariant
                k <= self.models@.len(),
                forall|j: int| 0 <= j < k ==> self.models@[j].path@ != path@,
            decreases self.models@.len() - k,
        {
            if self.models[k].path == *path {
                return Some(k);
            }
            k = k + 1;
        }
        None
    }

    /// Offers the next id to `load_model` and stores the model it returns,
    /// in place of any model with the same path. Returns the id the model
    /// carries.
    pub fn add<F: FnOnce(ModelId) -> Model<M, T>>(&mut self, load_model: F) -> (r: ModelId)
        requires
            old(self).wf(),
            old(self).next_id().0 < u32::MAX,
            load_model.requires((old(self).next_id(),)),
        ensures
            final(self).wf(),
            final(self).next_id() == ModelId((old(self).next_id().0 + 1) as u32),
            exists|m: Model<M, T>|
                load_model.ensures((old(self).next_id(),), m) && r == m.id && final(self)@
                    == without_path(old(self)@, m.path@).push(m),
    {
        let id = self.new_model_id;
        self.new_model_id = ModelId(id.0 + 1);
        let model = load_model(id);
        let ghost before = self.models@;
        let ghost m = model;
        let r = model.id;
        match self.index_of_path(&model.path) {
            Some(k) => {
                self.models.remove(k);
                proof {
                    assert forall|j: int|
                        0 <= j < before.len() && before[j].path@ == m.path@ implies j == k by {
                        if j < k {
                            assert(before[j].path@ != before[k as int].path@);
                        } else if j > k {
                            assert(before[k as int].path@ != before[j].path@);
                        }
                    }
                    assert forall|j: int| 0 <= j < self.models@.len() implies self.models@[j].path@
                        != m.path@ by {
                        let bj = if j < k { j } else { j + 1 };
                        assert(self.models@[j] == before[bj]);
                    }
                    assert forall|i: int, j: int|
                        0 <= i < j < self.models@.len() implies self.models@[i].path@
                        != self.models@[j].path@ by {
                        let bi = if i < k { i } else { i + 1 };
                        let bj = if j < k { j } else { j + 1 };
                        assert(self.models@[i] == before[bi]);
                        assert(self.models@[j] == before[bj]);
                    }
                }
            },
            None => {},
        }
        self.models.push(model);
        r
    }

    /// The first model with id `id`, if there is one.
    pub fn find_by_id(&self, id: &ModelId) -> (r: Option<&Model<M, T>>)
        ensures
            match r {
                Some(m) => first_with_id(self@, *id, *m),
                None => forall|k: int| 0 <= k < self@.len() ==> self@[k].id != *id,
            },
    {
        let mut k: usize = 0;
        while k < self.models.len()
            invariant
                k <= self.models@.len(),
                forall|j: int| 0 <= j < k ==> self.models@[j].id != *id,
            decreases self.models@.len() - k,
        {
            if self.models[k].id == *id {
                return Some(&self.models[k]);
            }
            k = k + 1;
        }
        None
    }

    /// The model loaded from `path`, if there is one.
    pub fn find_by_path(&self, path: &str) -> (r: Option<&Model<M, T>>)
        requires
            self.wf(),
        ensures
            match r {
                Some(m) => self@.contains(*m) && m.path@ == path@,
                None => !has_path(self@, path@),
            },
    {
        let wanted = path.to_owned();
        match self.index_of_path(&wanted) {
            Some(k) => Some(&self.models[k]),
            None => None,
        }
    }

    /// Removes every model with id `model_id`; says whether there was one.
    pub fn remove(&mut self, model_id: ModelId) -> (r: bool)
        requires
            old(self).wf(),
        ensures
            final(self).wf(),
            final(self).next_id() == old(self).next_id(),
            final(self)@ == old(self)@.filter(|m: Model<M, T>| m.id != model_id),
            r == exists|k: int| 0 <= k < old(self)@.len() && old(self)@[k].id == model_id,
    {
        let ghost orig = self.models@;
        let ghost keep = |m: Model<M, T>| m.id != model_id;
        let ghost mut j: int = 0;
        let mut removed = false;
        let mut i: usize = 0;
        while i < self.models.len()
            invariant
                self.new_model_id == old(self).new_model_id,
                orig == old(self)@,
                keep == (|m: Model<M, T>| m.id != model_id),
                paths_unique(orig),
                paths_unique(self.models@),
                i <= j <= orig.len(),
                i <= self.models@.len(),
                self.models@.subrange(0, i as int) == orig.subrange(0, j).filter(keep),
                self.models@.subrange(i as int, self.models@.len() as int) == orig.subrange(
                    j,
                    orig.len() as int,
                ),
                removed == exists|k: int| 0 <= k < j && orig[k].id == model_id,
            decreases self.models@.len() - i,
        {
            let ghost cur = self.models@;
            proof {
                assert(cur[i as int] == cur.subrange(i as int, cur.len() as int)[0]);
                assert(cur.subrange(i as int, cur.len() as int).len() == orig.subrange(
                    j,
                    orig.len() as int,
                ).len());
                assert(j < orig.len());
                assert(orig[j] == orig.subrange(j, orig.len() as int)[0]);
                assert(orig.subrange(0, j + 1).drop_last() =~= orig.subrange(0, j));
                assert(orig.subrange(0, j + 1).last() == orig[j]);
                reveal(Seq::filter);
            }
            if self.models[i].id == model_id {
                self.models.remove(i);
                removed = true;
                proof {
                    assert(self.models@.subrange(0, i as int) =~= cur.subrange(0, i as int));
                    let tail = cur.subrange(i as int, cur.len() as int);
                    assert(tail.len() == orig.len() - j);
                    assert(self.models@.len() == cur.len() - 1);
                    let rest = self.models@.subrange(i as int, self.models@.len() as int);
                    let want = orig.subrange(j + 1, orig.len() as int);
                    assert forall|t: int| 0 <= t < rest.len() implies #[trigger] rest[t] == want[t] by {
                        assert(rest[t] == cur[i + t + 1]);
                        assert(tail[t + 1] == orig.subrange(j, orig.len() as int)[t + 1]);
                    }
                    assert(self.models@.subrange(i as int, self.models@.len() as int)
                        =~= orig.subrange(j + 1, orig.len() as int));
                    assert forall|a: int, b: int|
                        0 <= a < b < self.models@.len() implies self.models@[a].path@
                        != self.models@[b].path@ by {
                        let ca = if a < i { a } else { a + 1 };
                        let cb = if b < i { b } else { b + 1 };
                        assert(self.models@[a] == cur[ca]);
                        assert(self.models@[b] == cur[cb]);
                    }
                    j = j + 1;
                }
            } else {
                proof {
                    assert(self.models@.subrange(0, i as int + 1) =~= cur.subrange(0, i as int).push(
                        cur[i as int],
                    ));
                    let tail = cur.subrange(i as int, cur.len() as int);
                    assert(tail.len() == orig.len() - j);
                    let rest = cur.subrange(i as int + 1, cur.len() as int);
                    let want = orig.subrange(j + 1, orig.len() as int);
                    assert forall|t: int| 0 <= t < rest.len() implies #[trigger] rest[t] == want[t] by {
                        assert(tail[t + 1] == orig.subrange(j, orig.len() as int)[t + 1]);
                    }
                    assert(self.models@.subrange(i as int + 1, self.models@.len() as int)
                        =~= orig.subrange(j + 1, orig.len() as int));
                    j = j + 1;
                }
                i = i + 1;
            }
        }
        proof {
            assert(orig.subrange(j, orig.len() as int).len() == 0);
            assert(orig.subrange(0, j) =~= orig);
            assert(self.models@ =~= self.models@.subrange(0, i as int));
        }
        removed
    }

    /// The models, in the order they were added.
    pub fn iter(&self) -> (r: std::slice::Iter<'_, Model<M, T>>)
        ensures
            r.remaining() == self@.as_ref(),
    {
        self.models.iter()
    }
}

} // verus!
