//! Laws the registry and surface contracts obey, stated and proved once
//! over the models the contracts speak of.
//!
//! Each law composes the `ensures` clauses of the public operations: the
//! proofs go through from those contracts alone, so every verified caller
//! can rely on them without reopening the bodies.

use vstd::prelude::*;

use crate::paint::Blend;
use crate::scalar::Scalar;
use crate::surface::{ClipV, Layer, SurfaceV};

verus! {

/// Destroying a surface frees its id for immediate reuse: after creating
/// any surface under an id and then destroying that id, no surface is
/// live under it — which is exactly the condition under which
/// [`crate::registry::Registry::create_surface`] promises to succeed
/// again, for any dimensions it accepts.
pub proof fn lemma_id_reuse_after_destroy(m: Map<u32, SurfaceV>, id: u32, v: SurfaceV)
    ensures
        !m.insert(id, v).remove(id).contains_key(id),
{
}

/// Pushing a clip and then popping one restores the clip stack exactly:
/// the surface model after the matching pop is the model before the push.
pub proof fn lemma_clip_push_pop(s: SurfaceV, c: ClipV)
    ensures
        (SurfaceV { clips: s.clips.push(c).drop_last(), ..s }) == s,
{
    assert(s.clips.push(c).drop_last() =~= s.clips);
}

/// The registry-level clip round trip: on a live surface, a clip push
/// (which [`crate::registry::Registry::push_clip_rect`] and
/// [`crate::registry::Registry::push_clip`] promise) followed by the
/// matching pop (which [`crate::registry::Registry::pop_clip`] promises,
/// the pushed stack being non-empty) leaves the whole registry exactly as
/// it was before the push.
pub proof fn lemma_registry_clip_round_trip(m: Map<u32, SurfaceV>, id: u32, c: ClipV)
    requires
        m.contains_key(id),
    ensures
        ({
            let pushed = m.insert(id, SurfaceV { clips: m[id].clips.push(c), ..m[id] });
            &&& pushed.contains_key(id)
            &&& pushed[id].clips.len() > 0
            &&& pushed.insert(
                id,
                SurfaceV { clips: pushed[id].clips.drop_last(), ..pushed[id] },
            ) == m
        }),
{
    let pushed = m.insert(id, SurfaceV { clips: m[id].clips.push(c), ..m[id] });
    assert(pushed[id].clips.drop_last() =~= m[id].clips);
    assert(pushed.insert(id, SurfaceV { clips: pushed[id].clips.drop_last(), ..pushed[id] })
        =~= m);
}

/// Pushing a layer and then popping one restores the layer stack exactly.
pub proof fn lemma_layer_push_pop(s: SurfaceV, opacity: Scalar, blend: Blend)
    ensures
        (SurfaceV {
            layers: s.layers.push(Layer { opacity, blend }).drop_last(),
            ..s
        }) == s,
{
    assert(s.layers.push(Layer { opacity, blend }).drop_last() =~= s.layers);
}

/// The registry-level layer round trip: on a live surface whose clip
/// bounds admit a layer, the push that
/// [`crate::registry::Registry::push_layer_with_blend`] promises followed
/// by the pop that [`crate::registry::Registry::pop_layer`] promises
/// leaves the whole registry exactly as it was before the push.  What the
/// surface's pixels show after a full-opacity source-over round trip is
/// the rasterizer's obligation, outside this model.
pub proof fn lemma_registry_layer_round_trip(
    m: Map<u32, SurfaceV>,
    id: u32,
    opacity: Scalar,
    blend: Blend,
)
    requires
        m.contains_key(id),
    ensures
        ({
            let pushed = m.insert(
                id,
                SurfaceV { layers: m[id].layers.push(Layer { opacity, blend }), ..m[id] },
            );
            &&& pushed.contains_key(id)
            &&& pushed[id].layers.len() > 0
            &&& pushed.insert(
                id,
                SurfaceV { layers: pushed[id].layers.drop_last(), ..pushed[id] },
            ) == m
        }),
{
    let pushed = m.insert(
        id,
        SurfaceV { layers: m[id].layers.push(Layer { opacity, blend }), ..m[id] },
    );
    assert(pushed[id].layers.drop_last() =~= m[id].layers);
    assert(pushed.insert(id, SurfaceV { layers: pushed[id].layers.drop_last(), ..pushed[id] })
        =~= m);
}

} // verus!
