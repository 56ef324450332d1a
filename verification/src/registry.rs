//! The surface registry: the single owner of every live surface, keyed by
//! caller-assigned 32-bit identifier.
//!
//! The registry enforces the one-definition rule (creating a live id again
//! is refused), resolves every operation's target (a stale or unknown id
//! is `NotFound`, never a crash), and guarantees atomicity of rejection:
//! an operation that fails leaves every surface — the addressed one and
//! all others — exactly as it was.
//!
//! Its mathematical value is the map from live ids to surface models;
//! every operation's contract states the new map in terms of the old one.

use std::collections::HashMap;
use vstd::prelude::*;

use crate::paint::{Blend, Color};
use crate::path::PathData;
use crate::scalar::Scalar;
use crate::status::GfxError;
use crate::surface::{
    clip_bounds_seq, dims_ok, image_ok, layer_bounds_ok, ClipV, Layer, Surface, SurfaceV,
};
use crate::transform::{transform_decode, RawTransform};

verus! {

broadcast use vstd::std_specs::hash::group_hash_axioms;

/// The models of a map of surfaces.
pub open spec fn surface_views(m: Map<u32, Surface>) -> Map<u32, SurfaceV> {
    m.map_values(|s: Surface| s@)
}

/// The model of a freshly created surface.
pub open spec fn fresh_surface(width: i32, height: i32) -> SurfaceV {
    SurfaceV {
        width,
        height,
        transform: crate::transform::TransformCmd::Identity,
        clips: Seq::<ClipV>::empty(),
        layers: Seq::<Layer>::empty(),
    }
}

/// The registry of live surfaces.
pub struct Registry {
    surfaces: HashMap<u32, Surface>,
}

impl View for Registry {
    type V = Map<u32, SurfaceV>;

    closed spec fn view(&self) -> Map<u32, SurfaceV> {
        surface_views(self.surfaces@)
    }
}

impl Registry {
    /// An empty registry: no surface is live.
    pub fn new() -> (r: Registry)
        ensures
            r@ == Map::<u32, SurfaceV>::empty(),
    {
        let r = Registry { surfaces: HashMap::new() };
        proof {
            assert(r@ =~= Map::<u32, SurfaceV>::empty());
        }
        r
    }

    /// Creates a surface under a caller-assigned id.  Refused with
    /// `AlreadyExists` while the id is live, and with `InvalidArgument`
    /// for dimensions outside [`dims_ok`] — non-positive, or so large that
    /// the engine's allocation arithmetic would leave `i32`.  On success
    /// the new surface starts with the identity transform and empty clip
    /// and layer stacks.
    pub fn create_surface(&mut self, id: u32, width: i32, height: i32) -> (r: Result<
        (),
        GfxError,
    >)
        ensures
            old(self)@.contains_key(id) ==> r == Err::<(), GfxError>(GfxError::AlreadyExists)
                && final(self)@ == old(self)@,
            !old(self)@.contains_key(id) && !dims_ok(width, height) ==> r == Err::<(), GfxError>(
                GfxError::InvalidArgument,
            ) && final(self)@ == old(self)@,
            !old(self)@.contains_key(id) && dims_ok(width, height) ==> r == Ok::<(), GfxError>(())
                && final(self)@ == old(self)@.insert(id, fresh_surface(width, height)),
    {
        if self.surfaces.contains_key(&id) {
            return Err(GfxError::AlreadyExists);
        }
        let quarter: i32 = i32::MAX / 4;
        if !(width > 0 && height > 0 && width <= quarter && height <= quarter) {
            return Err(GfxError::InvalidArgument);
        }
        proof {
            assert((width as i64) * (height as i64) < 0x4000_0000_0000_0000i64)
                by (nonlinear_arith)
                requires
                    0 < width <= 0x7fff_ffffi32,
                    0 < height <= 0x7fff_ffffi32,
            ;
        }
        if (width as i64) * (height as i64) > (i32::MAX as i64) {
            return Err(GfxError::InvalidArgument);
        }
        let s = Surface::new(width, height);
        let ghost pre = self.surfaces@;
        self.surfaces.insert(id, s);
        proof {
            assert(final(self)@ =~= old(self)@.insert(id, fresh_surface(width, height)));
        }
        Ok(())
    }

    /// Destroys a live surface, releasing its id for immediate reuse;
    /// `NotFound` if the id is not live.
    pub fn destroy_surface(&mut self, id: u32) -> (r: Result<(), GfxError>)
        ensures
            !old(self)@.contains_key(id) ==> r == Err::<(), GfxError>(GfxError::NotFound) && final(self)@ == old(self)@,
            old(self)@.contains_key(id) ==> r == Ok::<(), GfxError>(()) && final(self)@ == old(self)@.remove(id),
    {
        match self.surfaces.remove(&id) {
            None => {
                proof {
                    assert(final(self)@ =~= old(self)@);
                }
                Err(GfxError::NotFound)
            },
            Some(_) => {
                proof {
                    assert(final(self)@ =~= old(self)@.remove(id));
                }
                Ok(())
            },
        }
    }

    /// The width a live surface was created with.
    pub fn get_width(&self, id: u32) -> (r: Result<i32, GfxError>)
        ensures
            r == if self@.contains_key(id) {
                Ok::<i32, GfxError>(self@[id].width)
            } else {
                Err::<i32, GfxError>(GfxError::NotFound)
            },
    {
        match self.surfaces.get(&id) {
            Some(s) => Ok(s.get_width()),
            None => Err(GfxError::NotFound),
        }
    }

    /// The height a live surface was created with.
    pub fn get_height(&self, id: u32) -> (r: Result<i32, GfxError>)
        ensures
            r == if self@.contains_key(id) {
                Ok::<i32, GfxError>(self@[id].height)
            } else {
                Err::<i32, GfxError>(GfxError::NotFound)
            },
    {
        match self.surfaces.get(&id) {
            Some(s) => Ok(s.get_height()),
            None => Err(GfxError::NotFound),
        }
    }

    /// The pixel buffer of a live surface: four bytes per pixel of its
    /// `width * height` buffer.  The bytes' values are the rasterizer's
    /// and are not modeled.
    pub fn get_pixels(&self, id: u32) -> (r: Result<Vec<u8>, GfxError>)
        ensures
            r is Ok <==> self@.contains_key(id),
            r matches Ok(buf) ==> buf@.len() == 4 * self@[id].width * self@[id].height,
            r is Err ==> r == Err::<Vec<u8>, GfxError>(GfxError::NotFound),
    {
        match self.surfaces.get(&id) {
            Some(s) => Ok(s.pixels()),
            None => Err(GfxError::NotFound),
        }
    }

    /// Fills the current clip of a surface with a solid color.  Pixels
    /// change; no modeled state does.
    pub fn clear(&mut self, id: u32, color: Color) -> (r: Result<(), GfxError>)
        ensures
            !old(self)@.contains_key(id) ==> r == Err::<(), GfxError>(GfxError::NotFound) && final(self)@ == old(self)@,
            old(self)@.contains_key(id) ==> r == Ok::<(), GfxError>(()) && final(self)@ == old(self)@,
    {
        let mut s = match self.surfaces.remove(&id) {
            None => {
                proof {
                    assert(final(self)@ =~= old(self)@);
                }
                return Err(GfxError::NotFound);
            },
            Some(s) => s,
        };
        s.clear(color);
        self.surfaces.insert(id, s);
        proof {
            assert(final(self)@ =~= old(self)@);
        }
        Ok(())
    }

    /// Fills a path interior on a surface; the caller supplies the
    /// engine-level path and source realizing the decoded primitives.
    /// The source must realize a decoded paint — in particular a gradient
    /// source carries at least one stop — which cannot be checked of the
    /// opaque engine value; see [`crate::raster::dt_fill`].
    pub fn fill(
        &mut self,
        id: u32,
        engine_path: &raqote::Path,
        engine_source: &raqote::Source,
    ) -> (r: Result<(), GfxError>)
        ensures
            !old(self)@.contains_key(id) ==> r == Err::<(), GfxError>(GfxError::NotFound) && final(self)@ == old(self)@,
            old(self)@.contains_key(id) ==> r == Ok::<(), GfxError>(()) && final(self)@ == old(self)@,
    {
        let mut s = match self.surfaces.remove(&id) {
            None => {
                proof {
                    assert(final(self)@ =~= old(self)@);
                }
                return Err(GfxError::NotFound);
            },
            Some(s) => s,
        };
        s.fill(engine_path, engine_source);
        self.surfaces.insert(id, s);
        proof {
            assert(final(self)@ =~= old(self)@);
        }
        Ok(())
    }

    /// Fills an axis-aligned rectangle on a surface.  The source must
    /// realize a decoded paint, and the coordinates riding in the engine
    /// points are expected to stay well inside the `i32` range; see
    /// [`crate::raster::dt_fill_rect`].
    pub fn fill_rect(
        &mut self,
        id: u32,
        engine_origin: raqote::Point,
        engine_size: raqote::Point,
        engine_source: &raqote::Source,
    ) -> (r: Result<(), GfxError>)
        ensures
            !old(self)@.contains_key(id) ==> r == Err::<(), GfxError>(GfxError::NotFound) && final(self)@ == old(self)@,
            old(self)@.contains_key(id) ==> r == Ok::<(), GfxError>(()) && final(self)@ == old(self)@,
    {
        let mut s = match self.surfaces.remove(&id) {
            None => {
                proof {
                    assert(final(self)@ =~= old(self)@);
                }
                return Err(GfxError::NotFound);
            },
            Some(s) => s,
        };
        s.fill_rect(engine_origin, engine_size, engine_source);
        self.surfaces.insert(id, s);
        proof {
            assert(final(self)@ =~= old(self)@);
        }
        Ok(())
    }

    /// Strokes a path outline on a surface.  The style must realize a
    /// decoded stroke model and the source a decoded paint, and path
    /// coordinates are expected to stay finite; none of this can be
    /// checked of the opaque engine values — see
    /// [`crate::raster::dt_stroke`].
    pub fn stroke(
        &mut self,
        id: u32,
        engine_path: &raqote::Path,
        engine_source: &raqote::Source,
        engine_style: &raqote::StrokeStyle,
    ) -> (r: Result<(), GfxError>)
        ensures
            !old(self)@.contains_key(id) ==> r == Err::<(), GfxError>(GfxError::NotFound) && final(self)@ == old(self)@,
            old(self)@.contains_key(id) ==> r == Ok::<(), GfxError>(()) && final(self)@ == old(self)@,
    {
        let mut s = match self.surfaces.remove(&id) {
            None => {
                proof {
                    assert(final(self)@ =~= old(self)@);
                }
                return Err(GfxError::NotFound);
            },
            Some(s) => s,
        };
        s.stroke(engine_path, engine_source, engine_style);
        self.surfaces.insert(id, s);
        proof {
            assert(final(self)@ =~= old(self)@);
        }
        Ok(())
    }

    /// Composites a decoded image at a position on a surface.  Dimensions
    /// that are not strictly positive, or a buffer whose length does not
    /// match them, are refused with `InvalidArgument` before the engine
    /// sees them.
    pub fn draw_image_at(
        &mut self,
        id: u32,
        engine_pos: raqote::Point,
        width: i32,
        height: i32,
        data: &Vec<u32>,
    ) -> (r: Result<(), GfxError>)
        ensures
            !old(self)@.contains_key(id) ==> r == Err::<(), GfxError>(GfxError::NotFound) && final(self)@ == old(self)@,
            old(self)@.contains_key(id) ==> final(self)@ == old(self)@ && r == if image_ok(
                width,
                height,
                data@.len(),
            ) {
                Ok::<(), GfxError>(())
            } else {
                Err::<(), GfxError>(GfxError::InvalidArgument)
            },
    {
        let mut s = match self.surfaces.remove(&id) {
            None => {
                proof {
                    assert(final(self)@ =~= old(self)@);
                }
                return Err(GfxError::NotFound);
            },
            Some(s) => s,
        };
        let r = s.draw_image_at(engine_pos, width, height, data);
        self.surfaces.insert(id, s);
        proof {
            assert(final(self)@ =~= old(self)@);
        }
        r
    }

    /// Composites a decoded image resampled to a target extent.
    pub fn draw_image_with_size_at(
        &mut self,
        id: u32,
        engine_size: raqote::Point,
        engine_pos: raqote::Point,
        width: i32,
        height: i32,
        data: &Vec<u32>,
    ) -> (r: Result<(), GfxError>)
        ensures
            !old(self)@.contains_key(id) ==> r == Err::<(), GfxError>(GfxError::NotFound) && final(self)@ == old(self)@,
            old(self)@.contains_key(id) ==> final(self)@ == old(self)@ && r == if image_ok(
                width,
                height,
                data@.len(),
            ) {
                Ok::<(), GfxError>(())
            } else {
                Err::<(), GfxError>(GfxError::InvalidArgument)
            },
    {
        let mut s = match self.surfaces.remove(&id) {
            None => {
                proof {
                    assert(final(self)@ =~= old(self)@);
                }
                return Err(GfxError::NotFound);
            },
            Some(s) => s,
        };
        let r = s.draw_image_with_size_at(engine_size, engine_pos, width, height, data);
        self.surfaces.insert(id, s);
        proof {
            assert(final(self)@ =~= old(self)@);
        }
        r
    }

    /// Decodes a transform payload and replaces the surface's current
    /// transform with it.  An unrecognized discriminant is refused with
    /// `InvalidArgument` and leaves the prior transform — and everything
    /// else — unchanged; `engine_transform` is what the caller built from
    /// the same payload and reaches the engine only on success.
    pub fn set_transform(
        &mut self,
        id: u32,
        tag: u8,
        coeffs: RawTransform,
        engine_transform: &raqote::Transform,
    ) -> (r: Result<(), GfxError>)
        ensures
            !old(self)@.contains_key(id) ==> r == Err::<(), GfxError>(GfxError::NotFound) && final(self)@ == old(self)@,
            old(self)@.contains_key(id) ==> match transform_decode(tag, coeffs) {
                Err(e) => r == Err::<(), GfxError>(e) && final(self)@ == old(self)@,
                Ok(cmd) => r == Ok::<(), GfxError>(()) && final(self)@ == old(self)@.insert(
                    id,
                    SurfaceV { transform: cmd, ..old(self)@[id] },
                ),
            },
    {
        let mut s = match self.surfaces.remove(&id) {
            None => {
                proof {
                    assert(final(self)@ =~= old(self)@);
                }
                return Err(GfxError::NotFound);
            },
            Some(s) => s,
        };
        let ghost s0 = s;
        match crate::transform::decode_transform(tag, coeffs) {
            Err(e) => {
                self.surfaces.insert(id, s);
                proof {
                    assert(final(self)@ =~= old(self)@);
                }
                Err(e)
            },
            Ok(cmd) => {
                s.set_transform(cmd, engine_transform);
                self.surfaces.insert(id, s);
                proof {
                    assert(final(self)@ =~= old(self)@.insert(
                        id,
                        SurfaceV { transform: cmd, ..old(self)@[id] },
                    ));
                }
                Ok(())
            },
        }
    }

    /// Pushes a rectangle clip on a surface, intersecting the accumulated
    /// clip region.
    pub fn push_clip_rect(&mut self, id: u32, x1: i32, y1: i32, x2: i32, y2: i32) -> (r: Result<
        (),
        GfxError,
    >)
        ensures
            !old(self)@.contains_key(id) ==> r == Err::<(), GfxError>(GfxError::NotFound) && final(self)@ == old(self)@,
            old(self)@.contains_key(id) ==> r == Ok::<(), GfxError>(()) && final(self)@ == old(self)@.insert(
                id,
                SurfaceV {
                    clips: old(self)@[id].clips.push(ClipV::Rect { x1, y1, x2, y2 }),
                    ..old(self)@[id]
                },
            ),
    {
        let mut s = match self.surfaces.remove(&id) {
            None => {
                proof {
                    assert(final(self)@ =~= old(self)@);
                }
                return Err(GfxError::NotFound);
            },
            Some(s) => s,
        };
        s.push_clip_rect(x1, y1, x2, y2);
        self.surfaces.insert(id, s);
        proof {
            assert(final(self)@ =~= old(self)@.insert(
                id,
                SurfaceV {
                    clips: old(self)@[id].clips.push(ClipV::Rect { x1, y1, x2, y2 }),
                    ..old(self)@[id]
                },
            ));
        }
        Ok(())
    }

    /// Pushes a path clip on a surface; `engine_path` realizes the same
    /// path.
    pub fn push_clip(&mut self, id: u32, shape: PathData, engine_path: &raqote::Path) -> (r:
        Result<(), GfxError>)
        ensures
            !old(self)@.contains_key(id) ==> r == Err::<(), GfxError>(GfxError::NotFound) && final(self)@ == old(self)@,
            old(self)@.contains_key(id) ==> r == Ok::<(), GfxError>(()) && final(self)@ == old(self)@.insert(
                id,
                SurfaceV {
                    clips: old(self)@[id].clips.push(ClipV::Shape(shape@)),
                    ..old(self)@[id]
                },
            ),
    {
        let ghost shape_view = shape@;
        let mut s = match self.surfaces.remove(&id) {
            None => {
                proof {
                    assert(final(self)@ =~= old(self)@);
                }
                return Err(GfxError::NotFound);
            },
            Some(s) => s,
        };
        s.push_clip(shape, engine_path);
        self.surfaces.insert(id, s);
        proof {
            assert(final(self)@ =~= old(self)@.insert(
                id,
                SurfaceV {
                    clips: old(self)@[id].clips.push(ClipV::Shape(shape_view)),
                    ..old(self)@[id]
                },
            ));
        }
        Ok(())
    }

    /// Removes the most recently pushed clip of a surface.  An empty clip
    /// stack is refused with `InvalidArgument`; nothing, the pixels
    /// included, changes then.
    pub fn pop_clip(&mut self, id: u32) -> (r: Result<(), GfxError>)
        ensures
            !old(self)@.contains_key(id) ==> r == Err::<(), GfxError>(GfxError::NotFound) && final(self)@ == old(self)@,
            old(self)@.contains_key(id) && old(self)@[id].clips.len() == 0 ==> r == Err::<
                (),
                GfxError,
            >(GfxError::InvalidArgument) && final(self)@ == old(self)@,
            old(self)@.contains_key(id) && old(self)@[id].clips.len() > 0 ==> r == Ok::<
                (),
                GfxError,
            >(()) && final(self)@ == old(self)@.insert(
                id,
                SurfaceV { clips: old(self)@[id].clips.drop_last(), ..old(self)@[id] },
            ),
    {
        let mut s = match self.surfaces.remove(&id) {
            None => {
                proof {
                    assert(final(self)@ =~= old(self)@);
                }
                return Err(GfxError::NotFound);
            },
            Some(s) => s,
        };
        let r = s.pop_clip();
        self.surfaces.insert(id, s);
        proof {
            if old(self)@[id].clips.len() == 0 {
                assert(final(self)@ =~= old(self)@);
            } else {
                assert(final(self)@ =~= old(self)@.insert(
                    id,
                    SurfaceV { clips: old(self)@[id].clips.drop_last(), ..old(self)@[id] },
                ));
            }
        }
        r
    }

    /// Begins an isolated compositing group on a surface with the default
    /// source-over blend; the opacity rides in `engine_opacity`.  Refused
    /// with `InvalidArgument` while the effective clip bounds are
    /// degenerate, since the engine cannot allocate the layer then.
    pub fn push_layer(&mut self, id: u32, opacity: Scalar, engine_opacity: raqote::Point) -> (r:
        Result<(), GfxError>)
        ensures
            !old(self)@.contains_key(id) ==> r == Err::<(), GfxError>(GfxError::NotFound) && final(self)@ == old(self)@,
            old(self)@.contains_key(id) ==> {
                let s = old(self)@[id];
                if layer_bounds_ok(clip_bounds_seq(s.width, s.height, s.clips)) {
                    r == Ok::<(), GfxError>(()) && final(self)@ == old(self)@.insert(
                        id,
                        SurfaceV {
                            layers: s.layers.push(Layer { opacity, blend: Blend::SrcOver }),
                            ..s
                        },
                    )
                } else {
                    r == Err::<(), GfxError>(GfxError::InvalidArgument) && final(self)@ == old(self)@
                }
            },
    {
        let mut s = match self.surfaces.remove(&id) {
            None => {
                proof {
                    assert(final(self)@ =~= old(self)@);
                }
                return Err(GfxError::NotFound);
            },
            Some(s) => s,
        };
        let r = s.push_layer(opacity, engine_opacity);
        self.surfaces.insert(id, s);
        proof {
            let sv = old(self)@[id];
            if layer_bounds_ok(clip_bounds_seq(sv.width, sv.height, sv.clips)) {
                assert(final(self)@ =~= old(self)@.insert(
                    id,
                    SurfaceV {
                        layers: sv.layers.push(Layer { opacity, blend: Blend::SrcOver }),
                        ..sv
                    },
                ));
            } else {
                assert(final(self)@ =~= old(self)@);
            }
        }
        r
    }

    /// Begins an isolated compositing group with an explicit blend mode;
    /// `engine_blend` realizes the same mode.
    pub fn push_layer_with_blend(
        &mut self,
        id: u32,
        opacity: Scalar,
        blend: Blend,
        engine_opacity: raqote::Point,
        engine_blend: raqote::BlendMode,
    ) -> (r: Result<(), GfxError>)
        ensures
            !old(self)@.contains_key(id) ==> r == Err::<(), GfxError>(GfxError::NotFound) && final(self)@ == old(self)@,
            old(self)@.contains_key(id) ==> {
                let s = old(self)@[id];
                if layer_bounds_ok(clip_bounds_seq(s.width, s.height, s.clips)) {
                    r == Ok::<(), GfxError>(()) && final(self)@ == old(self)@.insert(
                        id,
                        SurfaceV { layers: s.layers.push(Layer { opacity, blend }), ..s },
                    )
                } else {
                    r == Err::<(), GfxError>(GfxError::InvalidArgument) && final(self)@ == old(self)@
                }
            },
    {
        let mut s = match self.surfaces.remove(&id) {
            None => {
                proof {
                    assert(final(self)@ =~= old(self)@);
                }
                return Err(GfxError::NotFound);
            },
            Some(s) => s,
        };
        let r = s.push_layer_with_blend(opacity, blend, engine_opacity, engine_blend);
        self.surfaces.insert(id, s);
        proof {
            let sv = old(self)@[id];
            if layer_bounds_ok(clip_bounds_seq(sv.width, sv.height, sv.clips)) {
                assert(final(self)@ =~= old(self)@.insert(
                    id,
                    SurfaceV { layers: sv.layers.push(Layer { opacity, blend }), ..sv },
                ));
            } else {
                assert(final(self)@ =~= old(self)@);
            }
        }
        r
    }

    /// Composites the most recently pushed layer of a surface back.  An
    /// empty layer stack is refused with `InvalidArgument`; nothing, the
    /// pixels included, changes then.
    pub fn pop_layer(&mut self, id: u32) -> (r: Result<(), GfxError>)
        ensures
            !old(self)@.contains_key(id) ==> r == Err::<(), GfxError>(GfxError::NotFound) && final(self)@ == old(self)@,
            old(self)@.contains_key(id) && old(self)@[id].layers.len() == 0 ==> r == Err::<
                (),
                GfxError,
            >(GfxError::InvalidArgument) && final(self)@ == old(self)@,
            old(self)@.contains_key(id) && old(self)@[id].layers.len() > 0 ==> r == Ok::<
                (),
                GfxError,
            >(()) && final(self)@ == old(self)@.insert(
                id,
                SurfaceV { layers: old(self)@[id].layers.drop_last(), ..old(self)@[id] },
            ),
    {
        let mut s = match self.surfaces.remove(&id) {
            None => {
                proof {
                    assert(final(self)@ =~= old(self)@);
                }
                return Err(GfxError::NotFound);
            },
            Some(s) => s,
        };
        let r = s.pop_layer();
        self.surfaces.insert(id, s);
        proof {
            if old(self)@[id].layers.len() == 0 {
                assert(final(self)@ =~= old(self)@);
            } else {
                assert(final(self)@ =~= old(self)@.insert(
                    id,
                    SurfaceV { layers: old(self)@[id].layers.drop_last(), ..old(self)@[id] },
                ));
            }
        }
        r
    }
}

} // verus!
