//! The sprite batch: a bounded set of texture-keyed buckets, filled by
//! `draw`/`lower_draw` and emitted in slot order by `present`.
//!
//! Buckets are created lazily, one per distinct texture, in first-seen
//! order, and keep their slot for the batch's whole life.  Submission is a
//! pure capacity-checked multiplexer: no reordering, no merging, no
//! culling.

use vstd::prelude::*;

use crate::geometry::build_quad;
use crate::geometry::quad_args_ok;
use crate::geometry::quad_built;
use crate::geometry::Color;
use crate::geometry::Quad;
use crate::geometry::Rectangle;
use crate::geometry::Rotation;
use crate::geometry::SpriteFlip;
use crate::geometry::Vector2;
use crate::texture::Texture;
use crate::CallResult;
use crate::CapacityKind;
use crate::Error;

verus! {

/// Bit asking for per-present release of bucket storage instead of reuse.
pub const INIT_FLAG_NO_BUFFERING: u32 = 0x1;

/// Batch-creation flags: buffering behavior, as a small bitset.
#[derive(Debug, Clone, Copy, PartialEq, Eq, Structural)]
pub struct InitFlags {
    pub bits: u32,
}

impl InitFlags {
    /// Whether bucket storage is released on present instead of reused.
    pub open spec fn spec_no_buffering(self) -> bool {
        self.bits & INIT_FLAG_NO_BUFFERING != 0
    }

    /// Flags asking for per-present release of bucket storage.
    pub fn no_buffering() -> (r: InitFlags)
        ensures
            r.bits == INIT_FLAG_NO_BUFFERING,
    {
        InitFlags { bits: INIT_FLAG_NO_BUFFERING }
    }

    /// Whether bucket storage is released on present instead of reused.
    pub fn is_no_buffering(&self) -> (r: bool)
        ensures
            r == self.spec_no_buffering(),
    {
        self.bits & INIT_FLAG_NO_BUFFERING != 0
    }

    /// Accepts exactly the combinations of defined flag bits; an undefined
    /// bit is rejected at this boundary.
    pub fn from_bits(bits: u32) -> (r: Option<InitFlags>)
        ensures
            r matches Some(f) ==> f.bits == bits,
            r is Some <==> bits & INIT_FLAG_NO_BUFFERING == bits,
    {
        if bits & INIT_FLAG_NO_BUFFERING == bits {
            Some(InitFlags { bits })
        } else {
            None
        }
    }
}

impl Default for InitFlags {
    /// The default behavior: bucket storage is kept and reused across
    /// presents.
    fn default() -> (r: InitFlags)
        ensures
            r.bits == 0,
    {
        InitFlags { bits: 0 }
    }
}

/// Configuration a batch is created with; both capacities must be positive.
#[derive(Debug, Clone, Copy, PartialEq, Eq, Structural)]
pub struct SpriteBatchOpts {
    pub max_buckets: u32,
    pub max_sprites_per_bucket: u32,
    pub flags: InitFlags,
}

/// One bucket: the quads submitted for one texture, in submission order.
struct Bucket {
    texture: u32,
    quads: Vec<Quad>,
}

/// One backend draw call: a texture and the quad stream to submit with it.
pub struct DrawCall {
    pub texture: u32,
    pub quads: Vec<Quad>,
}

/// The batch: at most `max_buckets` buckets, each keyed by a texture
/// identity and holding at most `max_sprites_per_bucket` quads.
pub struct SpriteBatch {
    buckets: Vec<Bucket>,
    options: SpriteBatchOpts,
}

/// The abstract state of a batch: each bucket's texture key and quads, in
/// slot order.
pub type BatchView = Seq<(u32, Seq<Quad>)>;

/// No two buckets share a texture key.
pub open spec fn keys_distinct(v: BatchView) -> bool {
    forall|i: int, j: int|
        0 <= i < j < v.len() ==> (#[trigger] v[i]).0 != (#[trigger] v[j]).0
}

/// Whether some bucket is keyed by this texture.
pub open spec fn has_key(v: BatchView, texture: u32) -> bool {
    exists|i: int| 0 <= i < v.len() && (#[trigger] v[i]).0 == texture
}

/// The slot of the bucket keyed by this texture (meaningful when
/// `has_key` holds and keys are distinct).
pub open spec fn key_index(v: BatchView, texture: u32) -> int {
    choose|i: int| 0 <= i < v.len() && (#[trigger] v[i]).0 == texture
}

/// With distinct keys, `key_index` is the one slot holding the texture.
pub proof fn lemma_key_index(v: BatchView, texture: u32)
    requires
        keys_distinct(v),
        has_key(v, texture),
    ensures
        0 <= key_index(v, texture) < v.len(),
        v[key_index(v, texture)].0 == texture,
        forall|i: int| 0 <= i < v.len() && (#[trigger] v[i]).0 == texture ==> i == key_index(
            v,
            texture,
        ),
{
    let w = key_index(v, texture);
    assert(0 <= w < v.len() && v[w].0 == texture);
    assert forall|i: int| 0 <= i < v.len() && (#[trigger] v[i]).0 == texture implies i == w by {
        if i < w {
            assert(v[i].0 != v[w].0);
        } else if w < i {
            assert(v[w].0 != v[i].0);
        }
    }
}

/// The invariant of a batch's abstract state under its capacities.
pub open spec fn batch_inv(v: BatchView, max_buckets: int, max_sprites_per_bucket: int) -> bool {
    &&& v.len() <= max_buckets
    &&& keys_distinct(v)
    &&& forall|i: int| 0 <= i < v.len() ==> (#[trigger] v[i]).1.len() <= max_sprites_per_bucket
}

/// What one submission does to the abstract state, and what it returns: an
/// existing bucket takes the quad if it has room; a new texture takes the
/// next slot if one is free; otherwise the state is unchanged and the
/// matching capacity error is reported.
pub open spec fn submit_result(
    v: BatchView,
    max_buckets: int,
    max_sprites_per_bucket: int,
    texture: u32,
    quad: Quad,
) -> (BatchView, Result<(), Error>) {
    if has_key(v, texture) {
        let i = key_index(v, texture);
        if v[i].1.len() < max_sprites_per_bucket {
            (v.update(i, (texture, v[i].1.push(quad))), Ok(()))
        } else {
            (v, Err(Error::CapacityExceeded(CapacityKind::Sprites)))
        }
    } else {
        if v.len() < max_buckets {
            (v.push((texture, seq![quad])), Ok(()))
        } else {
            (v, Err(Error::CapacityExceeded(CapacityKind::Buckets)))
        }
    }
}

/// When a submission is owed success: the texture's bucket exists and has
/// room, or the texture is first-seen and a bucket slot is free.
pub open spec fn submit_accepts(
    v: BatchView,
    max_buckets: int,
    max_sprites_per_bucket: int,
    texture: u32,
) -> bool {
    if has_key(v, texture) {
        v[key_index(v, texture)].1.len() < max_sprites_per_bucket
    } else {
        v.len() < max_buckets
    }
}

/// The draw calls one present issues: the non-empty buckets, in slot order,
/// each with its quads in submission order.
pub open spec fn draw_calls_of(v: BatchView) -> BatchView
    decreases v.len(),
{
    if v.len() == 0 {
        Seq::empty()
    } else if v.last().1.len() > 0 {
        draw_calls_of(v.drop_last()).push(v.last())
    } else {
        draw_calls_of(v.drop_last())
    }
}

/// Every bucket reset to empty, keys and slot order kept.
pub open spec fn cleared(v: BatchView) -> BatchView {
    v.map(|i: int, e: (u32, Seq<Quad>)| (e.0, Seq::<Quad>::empty()))
}

/// The abstract content of a list of draw calls.
pub open spec fn calls_view(calls: Seq<DrawCall>) -> BatchView {
    calls.map(|i: int, c: DrawCall| (c.texture, c.quads@))
}

impl View for SpriteBatch {
    type V = BatchView;

    /// Each bucket's texture key and quad sequence, in slot order.
    closed spec fn view(&self) -> BatchView {
        self.buckets@.map(|i: int, b: Bucket| (b.texture, b.quads@))
    }
}

/// Finds the slot keyed by this texture, scanning in slot order.
fn find_bucket_index(buckets: &Vec<Bucket>, texture: u32) -> (r: Option<usize>)
    ensures
        match r {
            Some(i) => i < buckets@.len() && buckets@[i as int].texture == texture,
            None => forall|k: int|
                0 <= k < buckets@.len() ==> (#[trigger] buckets@[k]).texture != texture,
        },
{
    let mut i: usize = 0;
    while i < buckets.len()
        invariant
            i <= buckets@.len(),
            forall|k: int| 0 <= k < i ==> (#[trigger] buckets@[k]).texture != texture,
        decreases buckets@.len() - i,
    {
        if buckets[i].texture == texture {
            return Some(i);
        }
        i = i + 1;
    }
    None
}

/// Creates a batch after validating its configuration: both capacities must
/// be positive, or nothing is created and `InvalidArgument` is reported.
pub fn create_batch(options: SpriteBatchOpts) -> (r: Result<SpriteBatch, Error>)
    ensures
        r is Ok <==> (options.max_buckets > 0 && options.max_sprites_per_bucket > 0),
        r matches Ok(b) ==> b.wf() && b@ == Seq::<(u32, Seq<Quad>)>::empty() && b.opts() == options,
        r is Err ==> r matches Err(Error::InvalidArgument),
{
    if options.max_buckets == 0 || options.max_sprites_per_bucket == 0 {
        Err(Error::InvalidArgument)
    } else {
        let batch = SpriteBatch { buckets: Vec::new(), options };
        proof {
            assert(batch@ =~= Seq::<(u32, Seq<Quad>)>::empty());
        }
        Ok(batch)
    }
}

impl SpriteBatch {
    /// The configuration this batch was created with.
    pub closed spec fn opts(&self) -> SpriteBatchOpts {
        self.options
    }

    /// The batch invariant: valid capacities, distinct bucket keys, no
    /// bucket over its quad capacity, no bucket slot beyond capacity.
    pub open spec fn wf(&self) -> bool {
        &&& self.opts().max_buckets > 0
        &&& self.opts().max_sprites_per_bucket > 0
        &&& batch_inv(
            self@,
            self.opts().max_buckets as int,
            self.opts().max_sprites_per_bucket as int,
        )
    }

    /// The configuration this batch was created with.
    pub fn get_options(&self) -> (r: &SpriteBatchOpts)
        ensures
            *r == self.opts(),
    {
        &self.options
    }

    /// Bucket-manager submission: appends the quad to the bucket keyed by
    /// the texture, creating the bucket in the next free slot for a
    /// first-seen texture, and reports which capacity stood in the way
    /// otherwise.  The state is exactly `submit_result` of the old state.
    pub fn submit(&mut self, texture: u32, quad: Quad) -> (r: CallResult)
        requires
            old(self).wf(),
        ensures
            final(self).wf(),
            final(self).opts() == old(self).opts(),
            final(self)@ == submit_result(
                old(self)@,
                old(self).opts().max_buckets as int,
                old(self).opts().max_sprites_per_bucket as int,
                texture,
                quad,
            ).0,
            r == submit_result(
                old(self)@,
                old(self).opts().max_buckets as int,
                old(self).opts().max_sprites_per_bucket as int,
                texture,
                quad,
            ).1,
            r is Ok <==> submit_accepts(
                old(self)@,
                old(self).opts().max_buckets as int,
                old(self).opts().max_sprites_per_bucket as int,
                texture,
            ),
    {
        let ghost v0 = self@;
        match find_bucket_index(&self.buckets, texture) {
            Some(i) => {
                proof {
                    assert(v0[i as int].0 == texture);
                    assert(has_key(v0, texture));
                    lemma_key_index(v0, texture);
                    assert(key_index(v0, texture) == i as int);
                }
                if self.buckets[i].quads.len() < self.options.max_sprites_per_bucket as usize {
                    let mut b = self.buckets.remove(i);
                    b.quads.push(quad);
                    self.buckets.insert(i, b);
                    proof {
                        assert(self@ =~~= v0.update(
                            i as int,
                            (texture, v0[i as int].1.push(quad)),
                        ));
                    }
                    Ok(())
                } else {
                    Err(Error::CapacityExceeded(CapacityKind::Sprites))
                }
            },
            None => {
                proof {
                    assert(!has_key(v0, texture));
                }
                if self.buckets.len() < self.options.max_buckets as usize {
                    let mut quads: Vec<Quad> = Vec::new();
                    quads.push(quad);
                    proof {
                        assert(quads@ =~= seq![quad]);
                    }
                    self.buckets.push(Bucket { texture, quads });
                    proof {
                        assert(self@ =~~= v0.push((texture, seq![quad])));
                    }
                    Ok(())
                } else {
                    Err(Error::CapacityExceeded(CapacityKind::Buckets))
                }
            },
        }
    }

    /// Computes the quad for one sprite and submits it keyed by the
    /// texture's identity.  Capacity failures propagate from the bucket
    /// manager; the geometry itself cannot fail.
    pub fn draw(
        &mut self,
        texture: &Texture,
        position: Vector2,
        src_rect: Option<Rectangle>,
        rotation: Rotation,
        origin: Option<Vector2>,
        scale: Option<Vector2>,
        color: Color,
        flip: SpriteFlip,
    ) -> (r: CallResult)
        requires
            old(self).wf(),
            quad_args_ok(texture.width, texture.height, position, src_rect, rotation, origin, scale),
        ensures
            final(self).wf(),
            final(self).opts() == old(self).opts(),
            exists|q: Quad|
                {
                    &&& #[trigger] quad_built(
                        q,
                        texture.width,
                        texture.height,
                        position,
                        src_rect,
                        rotation,
                        origin,
                        scale,
                        color,
                        flip,
                    )
                    &&& final(self)@ == submit_result(
                        old(self)@,
                        old(self).opts().max_buckets as int,
                        old(self).opts().max_sprites_per_bucket as int,
                        texture.id,
                        q,
                    ).0
                    &&& r == submit_result(
                        old(self)@,
                        old(self).opts().max_buckets as int,
                        old(self).opts().max_sprites_per_bucket as int,
                        texture.id,
                        q,
                    ).1
                },
            r is Ok <==> submit_accepts(
                old(self)@,
                old(self).opts().max_buckets as int,
                old(self).opts().max_sprites_per_bucket as int,
                texture.id,
            ),
    {
        let quad = build_quad(
            texture.width,
            texture.height,
            position,
            src_rect,
            rotation,
            origin,
            scale,
            color,
            flip,
        );
        self.submit(texture.id, quad)
    }

    /// Submits a caller-built quad keyed by the texture's identity,
    /// bypassing geometry but subject to the same capacity checks.
    pub fn lower_draw(&mut self, texture: &Texture, quad: &Quad) -> (r: CallResult)
        requires
            old(self).wf(),
        ensures
            final(self).wf(),
            final(self).opts() == old(self).opts(),
            final(self)@ == submit_result(
                old(self)@,
                old(self).opts().max_buckets as int,
                old(self).opts().max_sprites_per_bucket as int,
                texture.id,
                *quad,
            ).0,
            r == submit_result(
                old(self)@,
                old(self).opts().max_buckets as int,
                old(self).opts().max_sprites_per_bucket as int,
                texture.id,
                *quad,
            ).1,
            r is Ok <==> submit_accepts(
                old(self)@,
                old(self).opts().max_buckets as int,
                old(self).opts().max_sprites_per_bucket as int,
                texture.id,
            ),
    {
        self.submit(texture.id, *quad)
    }

    /// Emits one draw call per non-empty bucket, in slot order, then resets
    /// every bucket's quads while keeping its key and slot.  With the
    /// no-buffering flag even an empty bucket's backing storage is released
    /// instead of reused; the abstract state is the same either way.
    pub fn present(&mut self) -> (calls: Vec<DrawCall>)
        requires
            old(self).wf(),
        ensures
            final(self).wf(),
            final(self).opts() == old(self).opts(),
            final(self)@ == cleared(old(self)@),
            calls_view(calls@) == draw_calls_of(old(self)@),
    {
        let ghost v0 = self@;
        let mut calls: Vec<DrawCall> = Vec::new();
        let n = self.buckets.len();
        proof {
            assert(calls_view(calls@) =~= draw_calls_of(v0.take(0)));
        }
        let mut i: usize = 0;
        while i < n
            invariant
                i <= n,
                n == self.buckets@.len(),
                v0.len() == n,
                self.options == old(self).options,
                forall|k: int| i <= k < n ==> self@[k] == v0[k],
                forall|k: int|
                    0 <= k < i ==> (#[trigger] self@[k]).0 == v0[k].0 && self@[k].1.len() == 0,
                calls_view(calls@) == draw_calls_of(v0.take(i as int)),
            decreases n - i,
        {
            let ghost calls0 = calls@;
            let ghost bs0 = self.buckets@;
            let ghost sv0 = self@;
            if self.buckets[i].quads.len() > 0 {
                let mut b = self.buckets.remove(i);
                let mut taken: Vec<Quad> = Vec::new();
                core::mem::swap(&mut b.quads, &mut taken);
                calls.push(DrawCall { texture: b.texture, quads: taken });
                self.buckets.insert(i, b);
                proof {
                    assert(calls_view(calls@) =~= calls_view(calls0).push(
                        (v0[i as int].0, v0[i as int].1),
                    ));
                }
            } else if self.options.flags.is_no_buffering() {
                let mut b = self.buckets.remove(i);
                let mut fresh: Vec<Quad> = Vec::new();
                core::mem::swap(&mut b.quads, &mut fresh);
                self.buckets.insert(i, b);
            }
            proof {
                assert(v0.take(i + 1).drop_last() =~= v0.take(i as int));
                assert(v0.take(i + 1).last() == v0[i as int]);
                assert(calls_view(calls@) =~= draw_calls_of(v0.take(i + 1)));
                assert forall|k: int| 0 <= k < n && k != i as int implies self.buckets@[k]
                    == bs0[k] by {
                    assert(self.buckets@.len() == n);
                }
                assert forall|k: int| i + 1 <= k < n implies #[trigger] self@[k] == v0[k] by {
                    assert(self.buckets@[k] == bs0[k]);
                    assert(sv0[k] == v0[k]);
                }
                assert forall|k: int| 0 <= k < i + 1 implies (#[trigger] self@[k]).0 == v0[k].0
                    && self@[k].1.len() == 0 by {
                    if k == i as int {
                        assert(self@[k].0 == v0[k].0);
                        assert(self@[k].1.len() == 0);
                    } else {
                        assert(self.buckets@[k] == bs0[k]);
                        assert((sv0[k]).0 == v0[k].0 && sv0[k].1.len() == 0);
                    }
                }
            }
            i = i + 1;
        }
        proof {
            assert(v0.take(n as int) =~= v0);
            assert forall|k: int| 0 <= k < n implies self@[k] == cleared(v0)[k] by {
                assert(self@[k].1 =~= Seq::<Quad>::empty());
            }
            assert(self@ =~= cleared(v0));
        }
        calls
    }
}

/// Law: a sprite for a first-seen texture is rejected with the
/// bucket-capacity error, and the state left unchanged, exactly when every
/// bucket slot is already taken; with a slot free it opens a new bucket in
/// the last slot.  Only the number of distinct textures matters, not the
/// order they arrived in.
pub proof fn lemma_new_texture_capacity(
    v: BatchView,
    max_buckets: int,
    max_sprites_per_bucket: int,
    texture: u32,
    quad: Quad,
)
    requires
        !has_key(v, texture),
    ensures
        v.len() < max_buckets ==> submit_result(v, max_buckets, max_sprites_per_bucket, texture, quad)
            == (v.push((texture, seq![quad])), Ok::<(), Error>(())),
        v.len() >= max_buckets ==> submit_result(v, max_buckets, max_sprites_per_bucket, texture, quad)
            == (v, Err::<(), Error>(Error::CapacityExceeded(CapacityKind::Buckets))),
{
}

/// Law: a sprite for a texture whose bucket exists is accepted, and
/// appended to that bucket, exactly while the bucket is under its quad
/// capacity; the submission that would exceed it is rejected with the
/// sprite-capacity error and changes nothing.
pub proof fn lemma_sprite_capacity(
    v: BatchView,
    max_buckets: int,
    max_sprites_per_bucket: int,
    texture: u32,
    quad: Quad,
)
    requires
        keys_distinct(v),
        has_key(v, texture),
    ensures
        v[key_index(v, texture)].1.len() < max_sprites_per_bucket ==> submit_result(
            v,
            max_buckets,
            max_sprites_per_bucket,
            texture,
            quad,
        ) == (
            v.update(key_index(v, texture), (texture, v[key_index(v, texture)].1.push(quad))),
            Ok::<(), Error>(()),
        ),
        v[key_index(v, texture)].1.len() >= max_sprites_per_bucket ==> submit_result(
            v,
            max_buckets,
            max_sprites_per_bucket,
            texture,
            quad,
        ) == (v, Err::<(), Error>(Error::CapacityExceeded(CapacityKind::Sprites))),
{
    lemma_key_index(v, texture);
}

/// Law: a present leaves every bucket empty, and a batch of empty buckets
/// issues no draw calls — so a second present with no intervening draws
/// submits nothing.
pub proof fn lemma_present_idempotent(v: BatchView)
    ensures
        draw_calls_of(cleared(v)) == Seq::<(u32, Seq<Quad>)>::empty(),
    decreases v.len(),
{
    if v.len() == 0 {
        assert(cleared(v) =~= Seq::<(u32, Seq<Quad>)>::empty());
    } else {
        lemma_present_idempotent(v.drop_last());
        assert(cleared(v).drop_last() =~= cleared(v.drop_last()));
        assert(cleared(v).last().1.len() == 0);
    }
}

} // verus!
