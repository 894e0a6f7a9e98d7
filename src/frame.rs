use vstd::prelude::*;

use crate::mesh::{
    Buffers, DEFAULT_CAPACITY, FrameGeometry, TextureId, is_released,
};
use crate::texman::{
    TextureManager, has_id, index_of, spec_deallocate, spec_reallocate,
};

verus! {

/// How a frame begins.
#[derive(Clone, Copy, PartialEq, Eq, Structural, Debug)]
pub enum FrameStart {
    /// The device is not operational: nothing is done this frame.
    Skip,
    /// The frame runs; after a device reset the buffers and textures are
    /// recreated first and the UI is made to repaint.
    Run { reallocate: bool },
}

/// What a frame draws once the UI has run.
#[derive(Clone, Copy, PartialEq, Eq, Structural, Debug)]
pub enum DrawPlan {
    /// No shapes: no draw call, only the freed textures are released.
    Nothing,
    /// Draw the geometry uploaded by an earlier frame again.
    Redraw,
    /// Tessellate the shapes anew, upload them, then draw.
    Retessellate,
}

/// Where a mesh's texture comes from.
pub enum TextureSource<'a, T> {
    Managed(&'a T),
    /// Resolved by the host from the opaque id.
    User(u64),
}

pub open spec fn frame_start_of(device_ok: bool, should_reset: bool) -> FrameStart {
    if !device_ok {
        FrameStart::Skip
    } else {
        FrameStart::Run { reallocate: should_reset }
    }
}

pub open spec fn draw_plan_of(
    reactive: bool,
    has_shapes: bool,
    repaint_requested: bool,
    forced: bool,
) -> DrawPlan {
    if !has_shapes {
        DrawPlan::Nothing
    } else if !reactive || repaint_requested || forced {
        DrawPlan::Retessellate
    } else {
        DrawPlan::Redraw
    }
}

/// The renderer's own state between frames: the texture cache, the buffer pair,
/// the geometry last uploaded, and whether a device reset is pending.
pub struct RenderState<V, VB, IB, T> {
    pub reactive: bool,
    pub should_reset: bool,
    pub tex_man: TextureManager<T>,
    pub buffers: Buffers<VB, IB>,
    pub geometry: FrameGeometry<V>,
}

impl<V, VB, IB, T> RenderState<V, VB, IB, T> {
    pub open spec fn wf(&self) -> bool {
        self.tex_man.wf() && self.geometry.wf()
    }

    /// A renderer with an empty cache and freshly made buffers. With `reactive` the
    /// shapes are tessellated again only when the UI asks for a repaint.
    pub fn new(reactive: bool, buffers: Buffers<VB, IB>) -> (r: Self)
        ensures
            r.wf(),
            r.reactive == reactive,
            !r.should_reset,
            r.tex_man.entries().len() == 0,
            r.buffers == buffers,
            r.geometry.mesh_seq().len() == 0,
    {
        RenderState {
            reactive,
            should_reset: false,
            tex_man: TextureManager::new(),
            buffers,
            geometry: FrameGeometry::new(),
        }
    }

    /// Called before the device is reset: releases the buffers and every texture
    /// handle, keeps the CPU copies, and marks the reset as pending.
    pub fn pre_reset(&mut self)
        requires
            old(self).wf(),
        ensures
            final(self).wf(),
            final(self).should_reset,
            final(self).reactive == old(self).reactive,
            is_released(final(self).buffers),
            final(self).tex_man.entries() == spec_deallocate(old(self).tex_man.entries()),
            final(self).geometry == old(self).geometry,
    {
        self.buffers.delete_buffers();
        self.tex_man.deallocate_textures();
        self.should_reset = true;
    }

    /// Decides whether a frame runs, and whether it must first recreate resources.
    pub fn begin_frame(&self, device_ok: bool) -> (r: FrameStart)
        ensures
            r == frame_start_of(device_ok, self.should_reset),
    {
        if !device_ok {
            FrameStart::Skip
        } else {
            FrameStart::Run { reallocate: self.should_reset }
        }
    }

    /// Recreates what the device reset destroyed: the buffer pair, at the default
    /// capacity, and a handle for every cached texture (`handles[i]` for entry `i`).
    pub fn reallocate(&mut self, vtx: VB, idx: IB, handles: Vec<T>)
        requires
            old(self).wf(),
            handles@.len() == old(self).tex_man.entries().len(),
        ensures
            final(self).wf(),
            !final(self).should_reset,
            final(self).reactive == old(self).reactive,
            final(self).buffers == (Buffers {
                vtx: Some(vtx),
                idx: Some(idx),
                vtx_capacity: DEFAULT_CAPACITY,
                idx_capacity: DEFAULT_CAPACITY,
            }),
            final(self).tex_man.entries() == spec_reallocate(
                old(self).tex_man.entries(),
                handles@,
            ),
            final(self).geometry == old(self).geometry,
    {
        self.buffers = Buffers::create_buffers(vtx, idx, DEFAULT_CAPACITY, DEFAULT_CAPACITY);
        self.tex_man.reallocate_textures(handles);
        self.should_reset = false;
    }

    /// Decides what is drawn, given whether the UI produced shapes, whether it asked
    /// for a repaint, and whether a repaint was forced after a device reset.
    pub fn plan_draw(&self, has_shapes: bool, repaint_requested: bool, forced: bool) -> (r:
        DrawPlan)
        ensures
            r == draw_plan_of(self.reactive, has_shapes, repaint_requested, forced),
    {
        if !has_shapes {
            DrawPlan::Nothing
        } else if !self.reactive || repaint_requested || forced {
            DrawPlan::Retessellate
        } else {
            DrawPlan::Redraw
        }
    }

    /// The texture a mesh is drawn with. A managed id must have a live entry in the
    /// cache; `None` is the missing-resource case. A user id goes to the host.
    pub fn resolve_texture<'a>(&'a self, id: TextureId) -> (r: Option<TextureSource<'a, T>>)
        requires
            self.wf(),
        ensures
            id matches TextureId::User(u) ==> r matches Some(TextureSource::User(v)) && v == u,
            id matches TextureId::Managed(m) ==> {
                &&& r.is_some() <==> has_id(self.tex_man.entries(), m)
                    && self.tex_man.entries()[index_of(self.tex_man.entries(), m)].handle.is_some()
                &&& r matches Some(src) ==> src matches TextureSource::Managed(h)
                    && self.tex_man.entries()[index_of(self.tex_man.entries(), m)].handle
                    == Some(*h)
            },
    {
        match id {
            TextureId::Managed(m) => match self.tex_man.get_by_id(m) {
                Some(h) => Some(TextureSource::Managed(h)),
                None => None,
            },
            TextureId::User(u) => Some(TextureSource::User(u)),
        }
    }
}

/// After a device-lost notification the next operational frame recreates the
/// buffers and textures, and then retessellates whenever there is something to
/// draw, whatever the UI reported.
pub proof fn lemma_reset_forces_repaint<V, VB, IB, T>(
    t: RenderState<V, VB, IB, T>,
    has_shapes: bool,
    repaint_requested: bool,
)
    requires
        t.should_reset,
    ensures
        frame_start_of(true, t.should_reset) == (FrameStart::Run { reallocate: true }),
        has_shapes ==> draw_plan_of(t.reactive, has_shapes, repaint_requested, true)
            == DrawPlan::Retessellate,
{
}

/// A frame without shapes issues no draw call, whatever the mode and the UI's
/// repaint request.
pub proof fn lemma_no_shapes_no_draw(reactive: bool, repaint_requested: bool, forced: bool)
    ensures
        draw_plan_of(reactive, false, repaint_requested, forced) == DrawPlan::Nothing,
{
}

/// The phase of the device-state guard: armed while the host's state is saved and
/// the overlay's pipeline is installed.
#[derive(Clone, Copy, PartialEq, Eq, Structural, Debug)]
pub enum GuardPhase {
    Unarmed,
    Armed,
}

/// Tracks the single device-state guard of a frame; it cannot be armed twice.
pub struct StateGuard {
    pub phase: GuardPhase,
}

impl StateGuard {
    pub fn new() -> (r: Self)
        ensures
            r.phase == GuardPhase::Unarmed,
    {
        StateGuard { phase: GuardPhase::Unarmed }
    }

    /// Arms the guard; returns false, and changes nothing, when it is armed already.
    pub fn arm(&mut self) -> (r: bool)
        ensures
            r == (old(self).phase == GuardPhase::Unarmed),
            final(self).phase == GuardPhase::Armed,
    {
        match self.phase {
            GuardPhase::Unarmed => {
                self.phase = GuardPhase::Armed;
                true
            },
            GuardPhase::Armed => false,
        }
    }

    /// Disarms the guard once the host's state is restored; returns whether it was armed.
    pub fn release(&mut self) -> (r: bool)
        ensures
            r == (old(self).phase == GuardPhase::Armed),
            final(self).phase == GuardPhase::Unarmed,
    {
        match self.phase {
            GuardPhase::Armed => {
                self.phase = GuardPhase::Unarmed;
                true
            },
            GuardPhase::Unarmed => false,
        }
    }
}

} // verus!
