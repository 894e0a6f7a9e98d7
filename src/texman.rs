use vstd::prelude::*;

verus! {

/// One texel as the device stores it (`A8R8G8B8`, little-endian: blue first).
#[derive(Clone, Copy, PartialEq, Eq, Structural, Debug)]
pub struct TextureColor {
    pub b: u8,
    pub g: u8,
    pub r: u8,
    pub a: u8,
}

impl TextureColor {
    /// Reorders a straight RGBA quadruple into the device's texel layout.
    pub fn from_rgba(r: u8, g: u8, b: u8, a: u8) -> (c: TextureColor)
        ensures
            c.r == r && c.g == g && c.b == b && c.a == a,
    {
        TextureColor { b, g, r, a }
    }
}

/// A full image: `width * height` texels, row by row.
pub struct TextureImage {
    pub width: usize,
    pub height: usize,
    pub pixels: Vec<TextureColor>,
}

impl TextureImage {
    pub open spec fn wf(&self) -> bool {
        self.pixels@.len() == self.width as int * self.height as int
    }

    /// Builds an image, or `None` when the texel count does not match the size.
    pub fn new(width: usize, height: usize, pixels: Vec<TextureColor>) -> (r: Option<TextureImage>)
        ensures
            r.is_some() <==> pixels@.len() == width as int * height as int,
            r matches Some(img) ==> img.wf() && img.width == width && img.height == height
                && img.pixels == pixels,
    {
        let count = pixels.len();
        match width.checked_mul(height) {
            Some(n) => {
                if n == count {
                    Some(TextureImage { width, height, pixels })
                } else {
                    None
                }
            },
            None => {
                None
            },
        }
    }
}

/// A cached texture: the device handle (absent while the device is lost) and the
/// CPU-side copy of its texels, from which the handle is recreated.
pub struct ManagedTexture<H> {
    pub id: u64,
    pub handle: Option<H>,
    pub pixels: Vec<TextureColor>,
    pub width: usize,
    pub height: usize,
}

impl<H> ManagedTexture<H> {
    /// The live device handle, if the device has not been lost since it was made.
    pub fn handle(&self) -> (r: Option<&H>)
        ensures
            r == match self.handle {
                Some(h) => Some(&h),
                None => None::<&H>,
            },
    {
        match &self.handle {
            Some(h) => Some(h),
            None => None,
        }
    }
}

/// What applying one "set" delta takes, given the cache's current contents.
#[derive(Clone, Copy, PartialEq, Eq, Structural, Debug)]
pub enum SetAction {
    /// No entry for the id: create a texture of the image's size.
    Create,
    /// Whole-image update of the same size: upload in place, keep the handle.
    UpdateWhole,
    /// Whole-image update of another size: drop the old texture, create anew.
    Recreate,
    /// Sub-region update at the given origin.
    Patch { x: usize, y: usize },
}

pub open spec fn has_id<H>(s: Seq<ManagedTexture<H>>, id: u64) -> bool {
    exists|i: int| 0 <= i < s.len() && s[i].id == id
}

pub open spec fn index_of<H>(s: Seq<ManagedTexture<H>>, id: u64) -> int {
    choose|i: int| 0 <= i < s.len() && s[i].id == id
}

pub open spec fn ids_unique<H>(s: Seq<ManagedTexture<H>>) -> bool {
    forall|i: int, j: int| 0 <= i < s.len() && 0 <= j < s.len() && i != j ==> s[i].id != s[j].id
}

pub open spec fn entry_wf<H>(e: ManagedTexture<H>) -> bool {
    e.pixels@.len() == e.width as int * e.height as int
}

pub open spec fn cache_wf<H>(s: Seq<ManagedTexture<H>>) -> bool {
    ids_unique(s) && forall|i: int| 0 <= i < s.len() ==> entry_wf(#[trigger] s[i])
}

/// `ids` holds `q` among its first `k` items.
pub open spec fn listed(ids: Seq<u64>, k: int, q: u64) -> bool {
    exists|i: int| 0 <= i < k && ids[i] == q
}

/// Every entry of `t` is, unchanged, the entry of `s` with its id.
pub open spec fn kept_from<H>(t: Seq<ManagedTexture<H>>, s: Seq<ManagedTexture<H>>) -> bool {
    forall|j: int|
        0 <= j < t.len() ==> has_id(s, #[trigger] t[j].id) && s[index_of(s, t[j].id)] == t[j]
}

/// The texels cached for `id`.
pub open spec fn pixels_of<H>(s: Seq<ManagedTexture<H>>, id: u64) -> Seq<TextureColor> {
    s[index_of(s, id)].pixels@
}

/// The cache after an entry is stored: it replaces the entry of the same id, or is appended.
pub open spec fn spec_insert<H>(s: Seq<ManagedTexture<H>>, e: ManagedTexture<H>) -> Seq<
    ManagedTexture<H>,
> {
    if has_id(s, e.id) {
        s.update(index_of(s, e.id), e)
    } else {
        s.push(e)
    }
}

/// The cache after `id` is freed; unknown ids leave it as it is.
pub open spec fn spec_free<H>(s: Seq<ManagedTexture<H>>, id: u64) -> Seq<ManagedTexture<H>> {
    if has_id(s, id) {
        s.remove(index_of(s, id))
    } else {
        s
    }
}

pub open spec fn without_handle<H>(e: ManagedTexture<H>) -> ManagedTexture<H> {
    ManagedTexture { id: e.id, handle: None, pixels: e.pixels, width: e.width, height: e.height }
}

pub open spec fn with_handle<H>(e: ManagedTexture<H>, h: H) -> ManagedTexture<H> {
    ManagedTexture { id: e.id, handle: Some(h), pixels: e.pixels, width: e.width, height: e.height }
}

/// The cache after the device is lost: every handle dropped, every CPU copy kept.
pub open spec fn spec_deallocate<H>(s: Seq<ManagedTexture<H>>) -> Seq<ManagedTexture<H>> {
    Seq::new(s.len(), |i: int| without_handle(s[i]))
}

/// The cache after the device is reset: entry `i` gets the handle `hs[i]`.
pub open spec fn spec_reallocate<H>(s: Seq<ManagedTexture<H>>, hs: Seq<H>) -> Seq<
    ManagedTexture<H>,
> {
    Seq::new(s.len(), |i: int| with_handle(s[i], hs[i]))
}

/// The texels of a `w`-wide image after the `pw` by `ph` patch `p` is written at `(x, y)`.
pub open spec fn patched(
    old: Seq<TextureColor>,
    w: nat,
    x: nat,
    y: nat,
    pw: nat,
    ph: nat,
    p: Seq<TextureColor>,
) -> Seq<TextureColor> {
    Seq::new(
        old.len(),
        |k: int|
            {
                let col = k % (w as int);
                let row = k / (w as int);
                if x <= col < x + pw && y <= row < y + ph {
                    p[(row - y) * pw + (col - x)]
                } else {
                    old[k]
                }
            },
    )
}

/// The action that a "set" delta calls for on the cache `s`.
pub open spec fn set_action_of<H>(
    s: Seq<ManagedTexture<H>>,
    id: u64,
    width: usize,
    height: usize,
    pos: Option<(usize, usize)>,
) -> SetAction {
    if !has_id(s, id) {
        SetAction::Create
    } else {
        match pos {
            Some((x, y)) => SetAction::Patch { x, y },
            None => {
                let e = s[index_of(s, id)];
                if e.width == width && e.height == height {
                    SetAction::UpdateWhole
                } else {
                    SetAction::Recreate
                }
            },
        }
    }
}

/// The cache of managed textures, keyed by texture id.
pub struct TextureManager<H> {
    textures: Vec<ManagedTexture<H>>,
}

impl<H> TextureManager<H> {
    pub closed spec fn entries(&self) -> Seq<ManagedTexture<H>> {
        self.textures@
    }

    pub open spec fn wf(&self) -> bool {
        cache_wf(self.entries())
    }

    pub fn new() -> (r: Self)
        ensures
            r.wf(),
            r.entries().len() == 0,
    {
        TextureManager { textures: Vec::new() }
    }

    pub fn len(&self) -> (r: usize)
        ensures
            r == self.entries().len(),
    {
        self.textures.len()
    }

    /// The entry at position `i`, in the order the entries were first stored.
    pub fn entry(&self, i: usize) -> (r: &ManagedTexture<H>)
        requires
            i < self.entries().len(),
        ensures
            *r == self.entries()[i as int],
    {
        &self.textures[i]
    }

    /// Whether a `width` by `height` patch at `(x, y)` fits inside the texture of
    /// `id`, so that `patch_pixels` accepts it.
    pub fn patch_fits(&self, id: u64, x: usize, y: usize, width: usize, height: usize) -> (r: bool)
        requires
            self.wf(),
        ensures
            r == (has_id(self.entries(), id) && {
                let e = self.entries()[index_of(self.entries(), id)];
                x + width <= e.width && y + height <= e.height
            }),
    {
        match self.position(id) {
            Some(i) => {
                let w = self.textures[i].width;
                let h = self.textures[i].height;
                x <= w && width <= w - x && y <= h && height <= h - y
            },
            None => false,
        }
    }

    /// The position of the entry for `id`.
    pub fn position(&self, id: u64) -> (r: Option<usize>)
        requires
            self.wf(),
        ensures
            r.is_some() <==> has_id(self.entries(), id),
            r matches Some(i) ==> i == index_of(self.entries(), id) && i < self.entries().len(),
    {
        let mut i: usize = 0;
        while i < self.textures.len()
            invariant
                self.wf(),
                i <= self.textures.len(),
                forall|j: int| 0 <= j < i ==> self.textures@[j].id != id,
            decreases self.textures.len() - i,
        {
            if self.textures[i].id == id {
                proof {
                    let s = self.entries();
                    assert(has_id(s, id));
                    let k = index_of(s, id);
                    assert(s[k].id == id);
                    assert(s[i as int].id == id);
                    assert(ids_unique(s));
                    assert(k == i as int);
                }
                return Some(i);
            }
            i = i + 1;
        }
        None
    }

    pub fn contains(&self, id: u64) -> (r: bool)
        requires
            self.wf(),
        ensures
            r == has_id(self.entries(), id),
    {
        self.position(id).is_some()
    }

    /// Decides how a "set" delta for `id` with an image of the given size, and an
    /// origin for a partial update, is applied.
    pub fn plan_set(&self, id: u64, width: usize, height: usize, pos: Option<(usize, usize)>) -> (r:
        SetAction)
        requires
            self.wf(),
        ensures
            r == set_action_of(self.entries(), id, width, height, pos),
    {
        match self.position(id) {
            None => SetAction::Create,
            Some(i) => match pos {
                Some((x, y)) => SetAction::Patch { x, y },
                None => {
                    let e = &self.textures[i];
                    if e.width == width && e.height == height {
                        SetAction::UpdateWhole
                    } else {
                        SetAction::Recreate
                    }
                },
            },
        }
    }

    /// Stores a freshly created texture for `id`, with the image it was made from.
    /// An entry that held `id` before is handed back, so that its handle is released.
    pub fn insert_texture(&mut self, id: u64, handle: H, image: TextureImage) -> (r: Option<
        ManagedTexture<H>,
    >)
        requires
            old(self).wf(),
            image.wf(),
        ensures
            final(self).wf(),
            final(self).entries() == spec_insert(
                old(self).entries(),
                ManagedTexture {
                    id,
                    handle: Some(handle),
                    pixels: image.pixels,
                    width: image.width,
                    height: image.height,
                },
            ),
            has_id(old(self).entries(), id) ==> r == Some(
                old(self).entries()[index_of(old(self).entries(), id)],
            ),
            !has_id(old(self).entries(), id) ==> r.is_none(),
    {
        let e = ManagedTexture {
            id,
            handle: Some(handle),
            pixels: image.pixels,
            width: image.width,
            height: image.height,
        };
        let ghost s = self.entries();
        match self.position(id) {
            Some(i) => {
                let prev = self.textures.remove(i);
                self.textures.insert(i, e);
                assert(self.entries() =~= s.update(i as int, e));
                proof {
                    lemma_wf_update(s, i as int, e);
                }
                Some(prev)
            },
            None => {
                self.textures.push(e);
                assert(self.entries() =~= s.push(e));
                proof {
                    lemma_wf_push(s, e);
                }
                None
            },
        }
    }

    /// Replaces the texels of `id` by a whole image of the same size; the handle is
    /// kept. Returns false, and changes nothing, when `id` has no entry of that size.
    pub fn replace_pixels(&mut self, id: u64, image: TextureImage) -> (r: bool)
        requires
            old(self).wf(),
            image.wf(),
        ensures
            final(self).wf(),
            r == (set_action_of(old(self).entries(), id, image.width, image.height, None)
                == SetAction::UpdateWhole),
            r ==> final(self).entries() == old(self).entries().update(
                index_of(old(self).entries(), id),
                ManagedTexture {
                    pixels: image.pixels,
                    ..old(self).entries()[index_of(old(self).entries(), id)]
                },
            ),
            !r ==> final(self).entries() == old(self).entries(),
    {
        let ghost s = self.entries();
        match self.position(id) {
            Some(i) => {
                if self.textures[i].width == image.width && self.textures[i].height == image.height {
                    let mut e = self.textures.remove(i);
                    let ghost e0 = e;
                    e.pixels = image.pixels;
                    assert(e == ManagedTexture { pixels: image.pixels, ..e0 });
                    self.textures.insert(i, e);
                    assert(self.entries() =~= s.update(i as int, e));
                    proof {
                        assert(entry_wf(e0));
                        lemma_wf_update(s, i as int, e);
                    }
                    true
                } else {
                    false
                }
            },
            None => false,
        }
    }

    /// Removes the entry for `id` and hands it back, so that its handle is released
    /// exactly once. An unknown id is no error: nothing changes and `None` comes back.
    pub fn free(&mut self, id: u64) -> (r: Option<ManagedTexture<H>>)
        requires
            old(self).wf(),
        ensures
            final(self).wf(),
            final(self).entries() == spec_free(old(self).entries(), id),
            has_id(old(self).entries(), id) ==> r == Some(
                old(self).entries()[index_of(old(self).entries(), id)],
            ),
            !has_id(old(self).entries(), id) ==> r.is_none(),
    {
        let ghost s = self.entries();
        match self.position(id) {
            Some(i) => {
                let e = self.textures.remove(i);
                proof {
                    lemma_wf_remove(s, i as int);
                }
                Some(e)
            },
            None => None,
        }
    }

    /// Writes the image `patch` into the texels of `id` with its top-left corner at
    /// `(x, y)`; the handle is kept and the texels outside the patch are unchanged.
    /// Returns false, and changes nothing, when `id` is unknown or the patch does
    /// not fit inside the texture.
    pub fn patch_pixels(&mut self, id: u64, x: usize, y: usize, patch: &TextureImage) -> (r: bool)
        requires
            old(self).wf(),
            patch.wf(),
        ensures
            final(self).wf(),
            r == (has_id(old(self).entries(), id) && {
                let e = old(self).entries()[index_of(old(self).entries(), id)];
                x + patch.width <= e.width && y + patch.height <= e.height
            }),
            r ==> {
                let i = index_of(old(self).entries(), id);
                let e = old(self).entries()[i];
                &&& final(self).entries().len() == old(self).entries().len()
                &&& forall|j: int|
                    0 <= j < old(self).entries().len() && j != i ==> final(self).entries()[j]
                        == old(self).entries()[j]
                &&& final(self).entries()[i].id == e.id
                &&& final(self).entries()[i].handle == e.handle
                &&& final(self).entries()[i].width == e.width
                &&& final(self).entries()[i].height == e.height
                &&& final(self).entries()[i].pixels@ == patched(
                    e.pixels@,
                    e.width as nat,
                    x as nat,
                    y as nat,
                    patch.width as nat,
                    patch.height as nat,
                    patch.pixels@,
                )
            },
            !r ==> final(self).entries() == old(self).entries(),
    {
        let ghost s = self.entries();
        let i = match self.position(id) {
            Some(i) => i,
            None => {
                return false;
            },
        };
        let w = self.textures[i].width;
        let h = self.textures[i].height;
        if x > w || patch.width > w - x || y > h || patch.height > h - y {
            return false;
        }
        let pw = patch.width;
        let ph = patch.height;
        let mut e = self.textures.remove(i);
        let ghost old_px = e.pixels@;
        assert(entry_wf(s[i as int]));
        let n = e.pixels.len();
        let plen = patch.pixels.len();
        let mut out: Vec<TextureColor> = Vec::with_capacity(n);
        let mut k: usize = 0;
        while k < n
            invariant
                n == old_px.len(),
                e.pixels@ == old_px,
                n == w as int * h as int,
                x + pw <= w,
                y + ph <= h,
                patch.wf(),
                pw == patch.width,
                ph == patch.height,
                plen == patch.pixels@.len(),
                k <= n,
                out@.len() == k,
                forall|j: int|
                    0 <= j < k ==> out@[j] == patched(
                        old_px,
                        w as nat,
                        x as nat,
                        y as nat,
                        pw as nat,
                        ph as nat,
                        patch.pixels@,
                    )[j],
            decreases n - k,
        {
            assert(w > 0) by (nonlinear_arith)
                requires
                    k < n,
                    n == w as int * h as int,
            ;
            let col = k % w;
            let row = k / w;
            if col >= x && col < x + pw && row >= y && row < y + ph {
                let pr = row - y;
                let pc = col - x;
                assert(pr * pw + pc < pw * ph) by (nonlinear_arith)
                    requires
                        pr < ph,
                        pc < pw,
                ;
                assert(pr * pw + pc < plen);
                assert(pr * pw <= pr * pw + pc);
                out.push(patch.pixels[pr * pw + pc]);
            } else {
                out.push(e.pixels[k]);
            }
            k = k + 1;
        }
        assert(out@ =~= patched(old_px, w as nat, x as nat, y as nat, pw as nat, ph as nat, patch.pixels@));
        e.pixels = out;
        let ghost e1 = e;
        self.textures.insert(i, e);
        assert(self.entries() =~= s.update(i as int, e1));
        proof {
            lemma_wf_update(s, i as int, e1);
        }
        true
    }

    /// Removes every entry whose id is listed; unknown ids are skipped.
    pub fn process_free_deltas(&mut self, ids: &Vec<u64>)
        requires
            old(self).wf(),
        ensures
            final(self).wf(),
            forall|q: u64|
                has_id(final(self).entries(), q) <==> has_id(old(self).entries(), q)
                    && !ids@.contains(q),
            kept_from(final(self).entries(), old(self).entries()),
    {
        let ghost s = self.entries();
        let mut k: usize = 0;
        while k < ids.len()
            invariant
                self.wf(),
                cache_wf(s),
                k <= ids@.len(),
                forall|q: u64|
                    has_id(self.entries(), q) <==> has_id(s, q) && !listed(ids@, k as int, q),
                kept_from(self.entries(), s),
            decreases ids@.len() - k,
        {
            let ghost before = self.entries();
            let id = ids[k];
            let _ = self.free(id);
            proof {
                let after = self.entries();
                assert forall|q: u64| has_id(after, q) <==> has_id(s, q) && !listed(
                    ids@,
                    k as int + 1,
                    q,
                ) by {
                    if listed(ids@, k as int + 1, q) && q != id {
                        let w = choose|w: int| 0 <= w < k as int + 1 && ids@[w] == q;
                        assert(listed(ids@, k as int, q));
                    }
                    if q == id {
                        assert(ids@[k as int] == q);
                    }
                    if has_id(before, id) {
                        let r = index_of(before, id);
                        if has_id(after, q) {
                            let a = choose|a: int| 0 <= a < after.len() && after[a].id == q;
                            let a0 = if a < r { a } else { a + 1 };
                            assert(after[a] == before[a0]);
                            assert(has_id(before, q));
                            assert(before[r].id == id);
                            assert(q != id);
                        }
                        if has_id(before, q) && q != id {
                            let b = choose|b: int| 0 <= b < before.len() && before[b].id == q;
                            assert(b != r);
                            let b1 = if b < r { b } else { b - 1 };
                            assert(after[b1] == before[b]);
                        }
                    }
                }
                assert forall|j: int| 0 <= j < after.len() implies has_id(s, after[j].id)
                    && s[index_of(s, after[j].id)] == after[j] by {
                    if has_id(before, id) {
                        let r = index_of(before, id);
                        let j0 = if j < r { j } else { j + 1 };
                        assert(after[j] == before[j0]);
                    }
                }
            }
            k = k + 1;
        }
        proof {
            assert forall|q: u64| listed(ids@, ids@.len() as int, q) == ids@.contains(q) by {
                if ids@.contains(q) {
                    let w = choose|w: int| 0 <= w < ids@.len() && ids@[w] == q;
                    assert(listed(ids@, ids@.len() as int, q));
                }
            }
        }
    }

    /// The live handle of the managed texture `id`; `None` when the id is unknown or
    /// the device has been lost since the texture was made.
    pub fn get_by_id(&self, id: u64) -> (r: Option<&H>)
        requires
            self.wf(),
        ensures
            r.is_some() <==> has_id(self.entries(), id) && self.entries()[index_of(
                self.entries(),
                id,
            )].handle.is_some(),
            r matches Some(h) ==> self.entries()[index_of(self.entries(), id)].handle == Some(
                *h,
            ),
    {
        match self.position(id) {
            Some(i) => self.textures[i].handle(),
            None => None,
        }
    }

    /// Drops every device handle and keeps every CPU copy (the device was lost).
    pub fn deallocate_textures(&mut self)
        requires
            old(self).wf(),
        ensures
            final(self).wf(),
            final(self).entries() == spec_deallocate(old(self).entries()),
    {
        let ghost s = self.entries();
        let n = self.textures.len();
        let mut i: usize = 0;
        while i < n
            invariant
                n == s.len(),
                i <= n,
                self.entries().len() == n,
                forall|k: int| 0 <= k < i ==> self.entries()[k] == without_handle(s[k]),
                forall|k: int| i <= k < n ==> self.entries()[k] == s[k],
            decreases n - i,
        {
            let mut e = self.textures.remove(i);
            e.handle = None;
            self.textures.insert(i, e);
            i = i + 1;
        }
        assert(self.entries() =~= spec_deallocate(s));
        proof {
            lemma_wf_same_shape(s, self.entries());
        }
    }

    /// Gives entry `i` the handle `handles[i]`, recreated from its CPU copy after
    /// the device was reset.
    pub fn reallocate_textures(&mut self, handles: Vec<H>)
        requires
            old(self).wf(),
            handles@.len() == old(self).entries().len(),
        ensures
            final(self).wf(),
            final(self).entries() == spec_reallocate(old(self).entries(), handles@),
    {
        let ghost s = self.entries();
        let ghost hs = handles@;
        let mut handles = handles;
        let n = self.textures.len();
        while handles.len() > 0
            invariant
                n == s.len(),
                handles@.len() <= n,
                handles@ == hs.subrange(0, handles@.len() as int),
                hs.len() == n,
                self.entries().len() == n,
                forall|k: int| 0 <= k < handles@.len() ==> self.entries()[k] == s[k],
                forall|k: int|
                    handles@.len() <= k < n ==> self.entries()[k] == with_handle(s[k], hs[k]),
            decreases handles@.len(),
        {
            let h = handles.pop().unwrap();
            let i = handles.len();
            let mut e = self.textures.remove(i);
            e.handle = Some(h);
            self.textures.insert(i, e);
        }
        assert(self.entries() =~= spec_reallocate(s, hs));
        proof {
            lemma_wf_same_shape(s, self.entries());
        }
    }
}

/// Putting at a position an entry with the same id and a consistent texel count
/// keeps the cache well formed.
pub proof fn lemma_wf_update<H>(s: Seq<ManagedTexture<H>>, i: int, e: ManagedTexture<H>)
    requires
        cache_wf(s),
        0 <= i < s.len(),
        e.id == s[i].id,
        entry_wf(e),
    ensures
        cache_wf(s.update(i, e)),
{
    let t = s.update(i, e);
    assert forall|a: int, b: int|
        0 <= a < t.len() && 0 <= b < t.len() && a != b implies t[a].id != t[b].id by {
        assert(t[a].id == s[a].id && t[b].id == s[b].id);
    }
    assert forall|k: int| 0 <= k < t.len() implies entry_wf(#[trigger] t[k]) by {
        if k != i {
            assert(entry_wf(s[k]));
        }
    }
}

/// A cache whose entries keep, position by position, their ids, sizes and texel
/// counts stays well formed, whatever happens to the handles.
pub proof fn lemma_wf_same_shape<H>(s: Seq<ManagedTexture<H>>, t: Seq<ManagedTexture<H>>)
    requires
        cache_wf(s),
        t.len() == s.len(),
        forall|k: int|
            0 <= k < t.len() ==> #[trigger] t[k].id == s[k].id && t[k].width == s[k].width
                && t[k].height == s[k].height && t[k].pixels@.len() == s[k].pixels@.len(),
    ensures
        cache_wf(t),
{
    assert forall|a: int, b: int|
        0 <= a < t.len() && 0 <= b < t.len() && a != b implies t[a].id != t[b].id by {
        assert(t[a].id == s[a].id && t[b].id == s[b].id);
    }
    assert forall|k: int| 0 <= k < t.len() implies entry_wf(#[trigger] t[k]) by {
        assert(entry_wf(s[k]));
        assert(t[k].id == s[k].id);
    }
}

/// Removing an entry keeps the cache well formed.
pub proof fn lemma_wf_remove<H>(s: Seq<ManagedTexture<H>>, i: int)
    requires
        cache_wf(s),
        0 <= i < s.len(),
    ensures
        cache_wf(s.remove(i)),
{
    let t = s.remove(i);
    assert forall|a: int, b: int|
        0 <= a < t.len() && 0 <= b < t.len() && a != b implies t[a].id != t[b].id by {
        let a0 = if a < i { a } else { a + 1 };
        let b0 = if b < i { b } else { b + 1 };
        assert(t[a] == s[a0] && t[b] == s[b0]);
    }
    assert forall|k: int| 0 <= k < t.len() implies entry_wf(#[trigger] t[k]) by {
        let k0 = if k < i { k } else { k + 1 };
        assert(t[k] == s[k0]);
    }
}

/// Appending a well-formed entry with a new id keeps the cache well formed.
pub proof fn lemma_wf_push<H>(s: Seq<ManagedTexture<H>>, e: ManagedTexture<H>)
    requires
        cache_wf(s),
        entry_wf(e),
        !has_id(s, e.id),
    ensures
        cache_wf(s.push(e)),
{
    let t = s.push(e);
    assert forall|a: int, b: int|
        0 <= a < t.len() && 0 <= b < t.len() && a != b implies t[a].id != t[b].id by {
        if a == s.len() {
            assert(!(s[b].id == e.id));
        } else if b == s.len() {
            assert(!(s[a].id == e.id));
        }
    }
    assert forall|k: int| 0 <= k < t.len() implies entry_wf(#[trigger] t[k]) by {
        if k < s.len() {
            assert(entry_wf(s[k]));
        }
    }
}

/// Storing an entry and then freeing its id leaves the cache without that id; the
/// entry that the free hands back (and so releases) is the one stored, and a second
/// free of the id changes nothing, so nothing is released twice.
pub proof fn lemma_set_then_free<H>(s: Seq<ManagedTexture<H>>, e: ManagedTexture<H>)
    requires
        cache_wf(s),
        entry_wf(e),
    ensures
        cache_wf(spec_insert(s, e)),
        has_id(spec_insert(s, e), e.id),
        spec_insert(s, e)[index_of(spec_insert(s, e), e.id)] == e,
        !has_id(spec_free(spec_insert(s, e), e.id), e.id),
        spec_free(spec_free(spec_insert(s, e), e.id), e.id) == spec_free(spec_insert(s, e), e.id),
{
    let t = spec_insert(s, e);
    let pos = if has_id(s, e.id) {
        let i = index_of(s, e.id);
        assert(s[i].id == e.id);
        lemma_wf_update(s, i, e);
        i
    } else {
        lemma_wf_push(s, e);
        s.len() as int
    };
    assert(t[pos] == e);
    lemma_index_of_unique(t, e.id, pos);
    lemma_free_removes(t, e.id);
}

/// In a cache with unique ids, the entry with a given id is found where it stands.
pub proof fn lemma_index_of_unique<H>(s: Seq<ManagedTexture<H>>, id: u64, i: int)
    requires
        ids_unique(s),
        0 <= i < s.len(),
        s[i].id == id,
    ensures
        has_id(s, id),
        index_of(s, id) == i,
{
    assert(has_id(s, id));
    let k = index_of(s, id);
    assert(s[k].id == id);
}

/// Freeing an id removes it for good: the id is gone afterwards, and freeing it
/// again leaves the cache as it is.
pub proof fn lemma_free_removes<H>(s: Seq<ManagedTexture<H>>, id: u64)
    requires
        ids_unique(s),
    ensures
        !has_id(spec_free(s, id), id),
        spec_free(spec_free(s, id), id) == spec_free(s, id),
{
    let t = spec_free(s, id);
    if has_id(s, id) {
        let r = index_of(s, id);
        if has_id(t, id) {
            let a = choose|a: int| 0 <= a < t.len() && t[a].id == id;
            let a0 = if a < r { a } else { a + 1 };
            assert(t[a] == s[a0]);
        }
    }
}

/// After the device is lost and reset, every id keeps its entry and its texels:
/// the CPU copy is the source of the recreated textures.
pub proof fn lemma_device_reset_keeps_pixels<H>(s: Seq<ManagedTexture<H>>, hs: Seq<H>, id: u64)
    requires
        cache_wf(s),
        hs.len() == s.len(),
        has_id(s, id),
    ensures
        has_id(spec_reallocate(spec_deallocate(s), hs), id),
        pixels_of(spec_reallocate(spec_deallocate(s), hs), id) == pixels_of(s, id),
        spec_reallocate(spec_deallocate(s), hs)[index_of(
            spec_reallocate(spec_deallocate(s), hs),
            id,
        )].handle is Some,
{
    let u = spec_reallocate(spec_deallocate(s), hs);
    let i = index_of(s, id);
    assert(u[i].id == id);
    lemma_wf_same_shape(s, u);
    lemma_index_of_unique(u, id, i);
}

/// Storing an image as a new texture and then going through a device loss and reset
/// gives back texels identical to the image that was stored.
pub proof fn lemma_upload_survives_reset<H>(
    s: Seq<ManagedTexture<H>>,
    e: ManagedTexture<H>,
    hs: Seq<H>,
)
    requires
        cache_wf(s),
        entry_wf(e),
        hs.len() == spec_insert(s, e).len(),
    ensures
        pixels_of(spec_reallocate(spec_deallocate(spec_insert(s, e)), hs), e.id) == e.pixels@,
{
    lemma_set_then_free(s, e);
    lemma_device_reset_keeps_pixels(spec_insert(s, e), hs, e.id);
}

} // verus!
