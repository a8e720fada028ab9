//! A cache of uploaded images, scoped by scene and by the scene's epoch.
//! When a scene moves to a new epoch, or is cleared, its images leave the
//! cache and are handed back so the caller can release them on the backend.

use vstd::prelude::*;

use crate::scenes::SceneId;

verus! {

/// Where a cached image belongs: its scene, the scene's epoch and the
/// scene's own key for the image.
#[derive(Debug, Clone, Copy, PartialEq, Eq, Hash, Structural)]
pub struct ImageKey {
    pub scene_id: SceneId,
    pub epoch: u64,
    pub key: u64,
}

/// The last image stored under `k`, if any.
pub open spec fn image_of<I>(entries: Seq<(ImageKey, I)>, k: ImageKey) -> Option<I>
    decreases entries.len(),
{
    if entries.len() == 0 {
        None
    } else if entries.last().0 == k {
        Some(entries.last().1)
    } else {
        image_of(entries.drop_last(), k)
    }
}

/// The last epoch recorded for `s`, if any.
pub open spec fn epoch_of(entries: Seq<(SceneId, u64)>, s: SceneId) -> Option<u64>
    decreases entries.len(),
{
    if entries.len() == 0 {
        None
    } else if entries.last().0 == s {
        Some(entries.last().1)
    } else {
        epoch_of(entries.drop_last(), s)
    }
}

/// Entries that do not belong to scene `s`.
pub open spec fn image_kept<I>(s: SceneId) -> spec_fn((ImageKey, I)) -> bool {
    |x: (ImageKey, I)| x.0.scene_id != s
}

/// Entries that belong to scene `s`.
pub open spec fn image_dropped<I>(s: SceneId) -> spec_fn((ImageKey, I)) -> bool {
    |x: (ImageKey, I)| x.0.scene_id == s
}

pub open spec fn epoch_kept(s: SceneId) -> spec_fn((SceneId, u64)) -> bool {
    |x: (SceneId, u64)| x.0 != s
}

/// The images of a list of entries, in order.
pub open spec fn images_in<I>(entries: Seq<(ImageKey, I)>) -> Seq<I> {
    entries.map_values(|x: (ImageKey, I)| x.1)
}

/// No key occurs twice among the entries.
pub open spec fn keys_unique<K, V>(entries: Seq<(K, V)>) -> bool {
    forall|i: int, j: int| 0 <= i < j < entries.len() ==> entries[i].0 != entries[j].0
}

/// Some entry has key `k`.
pub open spec fn has_key<K, V>(entries: Seq<(K, V)>, k: K) -> bool {
    exists|i: int| 0 <= i < entries.len() && entries[i].0 == k
}

/// Filtering a sequence with one more element at its end.
pub proof fn lemma_filter_push<A>(s: Seq<A>, x: A, p: spec_fn(A) -> bool)
    ensures
        s.push(x).filter(p) == (if p(x) {
            s.filter(p).push(x)
        } else {
            s.filter(p)
        }),
{
    reveal(Seq::filter);
    assert(s.push(x).drop_last() =~= s);
}

/// The store as a mathematical value.
pub struct StoreView<I> {
    /// Cached images with their keys, oldest first.
    pub entries: Seq<(ImageKey, I)>,
    /// Epochs recorded per scene.
    pub epochs: Seq<(SceneId, u64)>,
}

impl<I> StoreView<I> {
    /// Each key is cached at most once, and each scene has at most one
    /// recorded epoch.
    pub open spec fn unique(self) -> bool {
        keys_unique(self.entries) && keys_unique(self.epochs)
    }

    pub open spec fn image(self, k: ImageKey) -> Option<I> {
        image_of(self.entries, k)
    }

    pub open spec fn epoch(self, s: SceneId) -> Option<u64> {
        epoch_of(self.epochs, s)
    }

    /// The images of scene `s`, in the order they were cached.
    pub open spec fn images_of_scene(self, s: SceneId) -> Seq<I> {
        images_in(self.entries.filter(image_dropped::<I>(s)))
    }

    /// The store without scene `s`.
    pub open spec fn without_scene(self, s: SceneId) -> StoreView<I> {
        StoreView {
            entries: self.entries.filter(image_kept::<I>(s)),
            epochs: self.epochs.filter(epoch_kept(s)),
        }
    }

    /// Whether the recorded epoch of `s` is `epoch`.
    pub open spec fn is_current(self, s: SceneId, epoch: u64) -> bool {
        self.epoch(s) == Some(epoch)
    }

    /// The store after preparing scene `s` for `epoch`.
    pub open spec fn prepared(self, s: SceneId, epoch: u64) -> StoreView<I> {
        if self.is_current(s, epoch) {
            self
        } else {
            let w = self.without_scene(s);
            StoreView { epochs: w.epochs.push((s, epoch)), ..w }
        }
    }

    /// The images released by preparing scene `s` for `epoch`.
    pub open spec fn released_by_prepare(self, s: SceneId, epoch: u64) -> Seq<I> {
        if self.is_current(s, epoch) {
            Seq::empty()
        } else {
            self.images_of_scene(s)
        }
    }
}

/// Images uploaded to a backend, cached per scene and epoch.
#[derive(Debug)]
pub struct ResourceStore<I> {
    scene_epochs: Vec<(SceneId, u64)>,
    images: Vec<(ImageKey, I)>,
}

impl<I> View for ResourceStore<I> {
    type V = StoreView<I>;

    closed spec fn view(&self) -> StoreView<I> {
        StoreView { entries: self.images@, epochs: self.scene_epochs@ }
    }
}

impl<I> ResourceStore<I> {
    #[verifier::type_invariant]
    closed spec fn inv(self) -> bool {
        self@.unique()
    }

    /// An empty store.
    pub fn new() -> (s: Self)
        ensures
            s@.entries.len() == 0,
            s@.epochs.len() == 0,
            s@.unique(),
    {
        ResourceStore { scene_epochs: Vec::new(), images: Vec::new() }
    }

    /// Removes every image of scene `s` and forgets its epoch; returns the
    /// removed images, in the order they were cached.
    pub fn clear_scene(&mut self, scene_id: SceneId) -> (released: Vec<I>)
        ensures
            final(self)@ == old(self)@.without_scene(scene_id),
            final(self)@.unique(),
            released@ == old(self)@.images_of_scene(scene_id),
    {
        proof {
            use_type_invariant(&*self);
            lemma_filter_keeps_keys_unique(self.images@, image_kept::<I>(scene_id));
            lemma_filter_keeps_keys_unique(self.scene_epochs@, epoch_kept(scene_id));
        }
        let ghost orig = self.images@;
        let mut rest: Vec<(ImageKey, I)> = Vec::new();
        std::mem::swap(&mut rest, &mut self.images);
        let mut kept: Vec<(ImageKey, I)> = Vec::new();
        let mut released: Vec<I> = Vec::new();
        let ghost mut taken: int = 0;
        while rest.len() > 0
            invariant
                0 <= taken <= orig.len(),
                rest@ == orig.skip(taken),
                kept@ == orig.take(taken).filter(image_kept::<I>(scene_id)),
                released@ == images_in(orig.take(taken).filter(image_dropped::<I>(scene_id))),
            decreases rest@.len(),
        {
            let ghost before = orig.take(taken);
            let (k, img) = rest.remove(0);
            proof {
                assert(orig.take(taken + 1) =~= before.push((k, img)));
                assert(rest@ =~= orig.skip(taken + 1));
                lemma_filter_push(before, (k, img), image_kept::<I>(scene_id));
                lemma_filter_push(before, (k, img), image_dropped::<I>(scene_id));
            }
            if k.scene_id == scene_id {
                released.push(img);
                proof {
                    assert(images_in(before.filter(image_dropped::<I>(scene_id)).push((k, img)))
                        =~= images_in(before.filter(image_dropped::<I>(scene_id))).push(img));
                }
            } else {
                kept.push((k, img));
            }
            proof {
                taken = taken + 1;
            }
        }
        proof {
            assert(orig.take(taken) =~= orig);
        }
        self.images = kept;

        let ghost orig_epochs = self.scene_epochs@;
        let mut rest_epochs: Vec<(SceneId, u64)> = Vec::new();
        std::mem::swap(&mut rest_epochs, &mut self.scene_epochs);
        let mut kept_epochs: Vec<(SceneId, u64)> = Vec::new();
        let ghost mut seen: int = 0;
        while rest_epochs.len() > 0
            invariant
                0 <= seen <= orig_epochs.len(),
                rest_epochs@ == orig_epochs.skip(seen),
                kept_epochs@ == orig_epochs.take(seen).filter(epoch_kept(scene_id)),
            decreases rest_epochs@.len(),
        {
            let e = rest_epochs.remove(0);
            proof {
                assert(orig_epochs.take(seen + 1) =~= orig_epochs.take(seen).push(e));
                assert(rest_epochs@ =~= orig_epochs.skip(seen + 1));
                lemma_filter_push(orig_epochs.take(seen), e, epoch_kept(scene_id));
            }
            if e.0 != scene_id {
                kept_epochs.push(e);
            }
            proof {
                seen = seen + 1;
            }
        }
        proof {
            assert(orig_epochs.take(seen) =~= orig_epochs);
        }
        self.scene_epochs = kept_epochs;
        released
    }

    /// The epoch recorded for a scene, if any.
    pub fn scene_epoch(&self, scene_id: SceneId) -> (r: Option<u64>)
        ensures
            r == self@.epoch(scene_id),
    {
        let mut i = self.scene_epochs.len();
        assert(self.scene_epochs@.take(i as int) =~= self.scene_epochs@);
        while i > 0
            invariant
                i <= self.scene_epochs@.len(),
                epoch_of(self.scene_epochs@, scene_id) == epoch_of(
                    self.scene_epochs@.take(i as int),
                    scene_id,
                ),
            decreases i,
        {
            let ghost prefix = self.scene_epochs@.take(i as int);
            assert(prefix.drop_last() =~= self.scene_epochs@.take(i - 1));
            i = i - 1;
            let e = self.scene_epochs[i];
            if e.0 == scene_id {
                return Some(e.1);
            }
        }
        assert(self.scene_epochs@.take(0) =~= Seq::<(SceneId, u64)>::empty());
        None
    }

    /// The image cached under a key, if any.
    pub fn cached_image(&self, scene_id: SceneId, epoch: u64, key: u64) -> (r: Option<&I>)
        ensures
            match r {
                Some(img) => self@.image(ImageKey { scene_id, epoch, key }) == Some(*img),
                None => self@.image(ImageKey { scene_id, epoch, key }) is None,
            },
    {
        let k = ImageKey { scene_id, epoch, key };
        let mut i = self.images.len();
        assert(self.images@.take(i as int) =~= self.images@);
        while i > 0
            invariant
                i <= self.images@.len(),
                k == (ImageKey { scene_id, epoch, key }),
                image_of(self.images@, k) == image_of(self.images@.take(i as int), k),
            decreases i,
        {
            let ghost prefix = self.images@.take(i as int);
            assert(prefix.drop_last() =~= self.images@.take(i - 1));
            i = i - 1;
            if self.images[i].0 == k {
                return Some(&self.images[i].1);
            }
        }
        assert(self.images@.take(0) =~= Seq::<(ImageKey, I)>::empty());
        None
    }

    /// Makes `epoch` the current epoch of the scene. When the scene had
    /// another epoch, or none, its images leave the cache and are returned.
    pub fn prepare_scene(&mut self, scene_id: SceneId, epoch: u64) -> (released: Vec<I>)
        ensures
            final(self)@ == old(self)@.prepared(scene_id, epoch),
            final(self)@.unique(),
            released@ == old(self)@.released_by_prepare(scene_id, epoch),
    {
        proof {
            use_type_invariant(&*self);
            lemma_without_scene_has_no_epoch(self.scene_epochs@, scene_id);
        }
        let current = self.scene_epoch(scene_id);
        if current == Some(epoch) {
            return Vec::new();
        }
        let released = self.clear_scene(scene_id);
        proof {
            lemma_keys_unique_push(self.scene_epochs@, (scene_id, epoch));
        }
        let mut epochs: Vec<(SceneId, u64)> = Vec::new();
        std::mem::swap(&mut epochs, &mut self.scene_epochs);
        epochs.push((scene_id, epoch));
        self.scene_epochs = epochs;
        released
    }

    /// Prepares the scene for `epoch` and reports whether the image under
    /// `key` still has to be uploaded. Returns the images released by the
    /// preparation.
    pub fn get_or_upload_image(&mut self, scene_id: SceneId, epoch: u64, key: u64) -> (r: (
        Vec<I>,
        bool,
    ))
        ensures
            final(self)@ == old(self)@.prepared(scene_id, epoch),
            final(self)@.unique(),
            r.0@ == old(self)@.released_by_prepare(scene_id, epoch),
            r.1 == final(self)@.image(ImageKey { scene_id, epoch, key }) is None,
    {
        let released = self.prepare_scene(scene_id, epoch);
        let needs_upload = self.cached_image(scene_id, epoch, key).is_none();
        (released, needs_upload)
    }

    /// Caches a freshly uploaded image under its key. When an image is
    /// already cached there, nothing changes and the new image is returned.
    pub fn insert_uploaded_image(&mut self, scene_id: SceneId, epoch: u64, key: u64, image: I) -> (r:
        Option<I>)
        ensures
            old(self)@.image(ImageKey { scene_id, epoch, key }) is Some ==> {
                &&& final(self)@ == old(self)@
                &&& r == Some(image)
            },
            old(self)@.image(ImageKey { scene_id, epoch, key }) is None ==> {
                &&& final(self)@ == (StoreView {
                    entries: old(self)@.entries.push((ImageKey { scene_id, epoch, key }, image)),
                    ..old(self)@
                })
                &&& r is None
            },
            final(self)@.unique(),
    {
        proof {
            use_type_invariant(&*self);
        }
        if self.cached_image(scene_id, epoch, key).is_some() {
            return Some(image);
        }
        let k = ImageKey { scene_id, epoch, key };
        proof {
            lemma_no_image_no_key(self.images@, k);
            lemma_keys_unique_push(self.images@, (k, image));
        }
        let mut images: Vec<(ImageKey, I)> = Vec::new();
        std::mem::swap(&mut images, &mut self.images);
        images.push((k, image));
        self.images = images;
        None
    }

    /// Empties the cache and forgets every epoch; returns all cached images,
    /// in the order they were cached.
    pub fn clear_all(&mut self) -> (released: Vec<I>)
        ensures
            final(self)@.entries.len() == 0,
            final(self)@.epochs.len() == 0,
            final(self)@.unique(),
            released@ == images_in(old(self)@.entries),
    {
        proof {
            use_type_invariant(&*self);
        }
        let ghost orig = self.images@;
        let mut rest: Vec<(ImageKey, I)> = Vec::new();
        std::mem::swap(&mut rest, &mut self.images);
        let mut released: Vec<I> = Vec::new();
        let ghost mut taken: int = 0;
        while rest.len() > 0
            invariant
                0 <= taken <= orig.len(),
                rest@ == orig.skip(taken),
                released@ == images_in(orig.take(taken)),
            decreases rest@.len(),
        {
            let (k, img) = rest.remove(0);
            proof {
                assert(orig.take(taken + 1) =~= orig.take(taken).push((k, img)));
                assert(rest@ =~= orig.skip(taken + 1));
                assert(images_in(orig.take(taken).push((k, img))) =~= images_in(orig.take(taken)).push(
                    img,
                ));
            }
            released.push(img);
            proof {
                taken = taken + 1;
            }
        }
        proof {
            assert(orig.take(taken) =~= orig);
        }
        self.scene_epochs = Vec::new();
        released
    }
}


proof fn lemma_keys_unique_push<K, V>(entries: Seq<(K, V)>, x: (K, V))
    requires
        keys_unique(entries),
        !has_key(entries, x.0),
    ensures
        keys_unique(entries.push(x)),
{
    let pushed = entries.push(x);
    assert forall|i: int, j: int| 0 <= i < j < pushed.len() implies pushed[i].0 != pushed[j].0 by {
        if j == entries.len() && entries[i].0 == x.0 {
            assert(has_key(entries, x.0));
        }
    }
}

/// A key found among the kept entries was among all entries.
proof fn lemma_filter_has_key<K, V>(entries: Seq<(K, V)>, p: spec_fn((K, V)) -> bool, k: K)
    requires
        has_key(entries.filter(p), k),
    ensures
        has_key(entries, k),
{
    let f = entries.filter(p);
    let i = choose|i: int| 0 <= i < f.len() && f[i].0 == k;
    assert(f.contains(f[i]));
    entries.lemma_filter_contains_rev(p, f[i]);
    let j = choose|j: int| 0 <= j < entries.len() && entries[j] == f[i];
    assert(entries[j].0 == k);
}

proof fn lemma_filter_keeps_keys_unique<K, V>(entries: Seq<(K, V)>, p: spec_fn((K, V)) -> bool)
    requires
        keys_unique(entries),
    ensures
        keys_unique(entries.filter(p)),
    decreases entries.len(),
{
    if entries.len() == 0 {
        reveal(Seq::filter);
    } else {
        let init = entries.drop_last();
        let x = entries.last();
        assert(entries =~= init.push(x));
        assert(keys_unique(init));
        lemma_filter_keeps_keys_unique(init, p);
        lemma_filter_push(init, x, p);
        if p(x) {
            if has_key(init.filter(p), x.0) {
                lemma_filter_has_key(init, p, x.0);
                let i = choose|i: int| 0 <= i < init.len() && init[i].0 == x.0;
                assert(entries[i].0 == entries[entries.len() - 1].0);
            }
            lemma_keys_unique_push(init.filter(p), x);
        }
    }
}

/// No image is found under a key exactly when no entry has that key.
proof fn lemma_no_image_no_key<I>(entries: Seq<(ImageKey, I)>, k: ImageKey)
    ensures
        image_of(entries, k) is None <==> !has_key(entries, k),
    decreases entries.len(),
{
    if entries.len() > 0 {
        let init = entries.drop_last();
        lemma_no_image_no_key(init, k);
        if has_key(init, k) {
            let i = choose|i: int| 0 <= i < init.len() && init[i].0 == k;
            assert(entries[i].0 == k);
        }
        if has_key(entries, k) && entries.last().0 != k {
            let i = choose|i: int| 0 <= i < entries.len() && entries[i].0 == k;
            assert(init[i].0 == k);
        }
        if entries.last().0 == k {
            assert(entries[entries.len() - 1].0 == k);
        }
    }
}

/// A scene's entries once dropped, no entry is left with its scene.
proof fn lemma_without_scene_has_no_epoch(epochs: Seq<(SceneId, u64)>, s: SceneId)
    ensures
        !has_key(epochs.filter(epoch_kept(s)), s),
{
    let f = epochs.filter(epoch_kept(s));
    if has_key(f, s) {
        let i = choose|i: int| 0 <= i < f.len() && f[i].0 == s;
        epochs.lemma_filter_pred(epoch_kept(s), i);
    }
}

/// Dropping a scene, preparing a scene for an epoch and caching an image
/// under a key that holds none keep every key cached at most once and
/// every scene with at most one epoch.
pub proof fn law_keys_stay_unique<I>(v: StoreView<I>, s: SceneId, epoch: u64, k: ImageKey, image: I)
    requires
        v.unique(),
    ensures
        v.without_scene(s).unique(),
        v.prepared(s, epoch).unique(),
        v.image(k) is None ==> (StoreView { entries: v.entries.push((k, image)), ..v }).unique(),
{
    lemma_filter_keeps_keys_unique(v.entries, image_kept::<I>(s));
    lemma_filter_keeps_keys_unique(v.epochs, epoch_kept(s));
    lemma_without_scene_has_no_epoch(v.epochs, s);
    lemma_keys_unique_push(v.epochs.filter(epoch_kept(s)), (s, epoch));
    lemma_no_image_no_key(v.entries, k);
    if v.image(k) is None {
        lemma_keys_unique_push(v.entries, (k, image));
    }
}

/// Dropping the entries of scene `s` leaves the lookups of other scenes as
/// they were and removes every lookup of `s`.
proof fn lemma_image_of_without_scene<I>(entries: Seq<(ImageKey, I)>, s: SceneId, k: ImageKey)
    ensures
        image_of(entries.filter(image_kept::<I>(s)), k) == (if k.scene_id == s {
            None
        } else {
            image_of(entries, k)
        }),
    decreases entries.len(),
{
    if entries.len() > 0 {
        let init = entries.drop_last();
        let x = entries.last();
        assert(entries =~= init.push(x));
        lemma_filter_push(init, x, image_kept::<I>(s));
        lemma_image_of_without_scene(init, s, k);
        let f = init.filter(image_kept::<I>(s));
        assert(f.push(x).drop_last() =~= f);
    } else {
        reveal(Seq::filter);
    }
}

proof fn lemma_epoch_of_without_scene(entries: Seq<(SceneId, u64)>, s: SceneId, t: SceneId)
    ensures
        epoch_of(entries.filter(epoch_kept(s)), t) == (if t == s {
            None
        } else {
            epoch_of(entries, t)
        }),
    decreases entries.len(),
{
    if entries.len() > 0 {
        let init = entries.drop_last();
        let x = entries.last();
        assert(entries =~= init.push(x));
        lemma_filter_push(init, x, epoch_kept(s));
        lemma_epoch_of_without_scene(init, s, t);
        let f = init.filter(epoch_kept(s));
        assert(f.push(x).drop_last() =~= f);
    } else {
        reveal(Seq::filter);
    }
}

/// After a scene is prepared for an epoch, that is its epoch; the epochs
/// of the other scenes stay as they were.
pub proof fn law_prepare_sets_epoch<I>(v: StoreView<I>, s: SceneId, epoch: u64, t: SceneId)
    ensures
        v.prepared(s, epoch).epoch(s) == Some(epoch),
        t != s ==> v.prepared(s, epoch).epoch(t) == v.epoch(t),
{
    if !v.is_current(s, epoch) {
        let w = v.without_scene(s);
        lemma_epoch_of_without_scene(v.epochs, s, t);
        assert(w.epochs.push((s, epoch)).drop_last() =~= w.epochs);
    }
}

/// Preparing a scene for a new epoch drops every image cached for that
/// scene, and only those: images of other scenes stay cached.
pub proof fn law_prepare_keeps_other_scenes<I>(v: StoreView<I>, s: SceneId, epoch: u64, k: ImageKey)
    ensures
        k.scene_id != s ==> v.prepared(s, epoch).image(k) == v.image(k),
        !v.is_current(s, epoch) && k.scene_id == s ==> v.prepared(s, epoch).image(k) is None,
        v.is_current(s, epoch) ==> v.prepared(s, epoch) == v && v.released_by_prepare(
            s,
            epoch,
        ).len() == 0,
{
    lemma_image_of_without_scene(v.entries, s, k);
}

/// Preparing a scene twice for the same epoch is the same as preparing it
/// once, and the second time releases nothing.
pub proof fn law_prepare_is_idempotent<I>(v: StoreView<I>, s: SceneId, epoch: u64)
    ensures
        v.prepared(s, epoch).prepared(s, epoch) == v.prepared(s, epoch),
        v.prepared(s, epoch).released_by_prepare(s, epoch).len() == 0,
{
    law_prepare_sets_epoch(v, s, epoch, s);
}

/// An image cached under a key is what a later lookup of that key finds;
/// other keys are not affected.
pub proof fn law_read_after_insert<I>(v: StoreView<I>, k: ImageKey, image: I, other: ImageKey)
    ensures
        (StoreView { entries: v.entries.push((k, image)), ..v }).image(k) == Some(image),
        other != k ==> (StoreView { entries: v.entries.push((k, image)), ..v }).image(other)
            == v.image(other),
{
    assert(v.entries.push((k, image)).drop_last() =~= v.entries);
}

/// Clearing a scene hands back each of its images exactly once: the
/// images kept and the images released together are the images cached
/// before, as a multiset.
pub proof fn law_clear_scene_releases_each_image_once<I>(v: StoreView<I>, s: SceneId)
    ensures
        images_in(v.entries).to_multiset() == images_in(v.without_scene(s).entries).to_multiset().add(
            v.images_of_scene(s).to_multiset(),
        ),
    decreases v.entries.len(),
{
    broadcast use vstd::seq_lib::to_multiset_build;
    broadcast use vstd::multiset::group_multiset_axioms;

    let es = v.entries;
    if es.len() == 0 {
        reveal(Seq::filter);
        assert(images_in(es) =~= Seq::<I>::empty());
        assert(images_in(es.filter(image_kept::<I>(s))) =~= Seq::<I>::empty());
        assert(images_in(es.filter(image_dropped::<I>(s))) =~= Seq::<I>::empty());
        broadcast use vstd::seq_lib::group_to_multiset_ensures;

    } else {
        let init = es.drop_last();
        let x = es.last();
        assert(es =~= init.push(x));
        let u = StoreView { entries: init, epochs: v.epochs };
        law_clear_scene_releases_each_image_once(u, s);
        lemma_filter_push(init, x, image_kept::<I>(s));
        lemma_filter_push(init, x, image_dropped::<I>(s));
        assert(images_in(init.push(x)) =~= images_in(init).push(x.1));
        let kf = init.filter(image_kept::<I>(s));
        let df = init.filter(image_dropped::<I>(s));
        assert(images_in(kf.push(x)) =~= images_in(kf).push(x.1));
        assert(images_in(df.push(x)) =~= images_in(df).push(x.1));
        assert(images_in(es).to_multiset() =~= images_in(v.without_scene(s).entries).to_multiset().add(
            v.images_of_scene(s).to_multiset(),
        ));
    }
}

} // verus!
