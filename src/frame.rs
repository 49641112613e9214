use vstd::prelude::*;

use crate::mirror::{DynamicBuffer, MirrorView};

verus! {

/// Vertices of the full-screen quad drawn by both passes: two triangles.
pub const QUAD_VERTEX_COUNT: u32 = 6;

/// Instances of each full-screen draw.
pub const QUAD_INSTANCE_COUNT: u32 = 1;

/// Binding slot of the material buffer in the geometry descriptor set.
pub const MATERIAL_SLOT: u32 = 0;

/// Binding slot of the primitive buffer in the geometry descriptor set.
pub const PRIMITIVE_SLOT: u32 = 1;

/// The kernel offset the denoiser uses for a stored one: at least 1.
pub open spec fn clamped_offset(k: int) -> int {
    if k < 1 {
        1
    } else {
        k
    }
}

pub fn effective_kernel_offset(kernel_offset: i32) -> (r: i32)
    ensures
        r == clamped_offset(kernel_offset as int),
{
    if kernel_offset < 1 {
        1
    } else {
        kernel_offset
    }
}

/// The integer fields of the composite pass's uniform block.
#[derive(Debug, Clone, Copy, PartialEq, Eq, Structural)]
pub struct CompositeSettings {
    pub selected_view: i32,
    pub kernel_size: i32,
    pub kernel_offset: i32,
}

/// The composite settings for the scene's stored values.
pub fn composite_settings(selected_view: i32, kernel_size: i32, kernel_offset: i32) -> (r: CompositeSettings)
    ensures
        r.selected_view == selected_view,
        r.kernel_size == kernel_size,
        r.kernel_offset == clamped_offset(kernel_offset as int),
{
    CompositeSettings { selected_view, kernel_size, kernel_offset: effective_kernel_offset(kernel_offset) }
}

/// Whatever offset is stored, the denoiser uses one of at least 1, and a
/// stored offset of at least 1 is used as it is.
pub proof fn law_kernel_offset_at_least_one(kernel_offset: i32)
    ensures
        clamped_offset(kernel_offset as int) >= 1,
        kernel_offset >= 1 ==> clamped_offset(kernel_offset as int) == kernel_offset,
        kernel_offset < 1 ==> clamped_offset(kernel_offset as int) == 1,
{
}

/// Which buffers a rebuilt geometry descriptor set binds.
#[derive(Debug, Clone, Copy, PartialEq, Eq, Structural)]
pub struct GeometryBindings {
    /// The material buffer, at `MATERIAL_SLOT`.
    pub materials: bool,
    /// The primitive buffer, at `PRIMITIVE_SLOT`.
    pub primitives: bool,
}

/// Consumes both buffers' stale signals and says whether the geometry
/// descriptor set must be rebuilt, and with which buffers. Nothing is built
/// when neither buffer was replaced, nor when the pipeline has no geometry set
/// layout (`has_layout`), which is no error.
pub fn geometry_update<M, C>(
    materials: &mut DynamicBuffer<M>,
    primitives: &mut DynamicBuffer<C>,
    has_layout: bool,
) -> (r: Option<GeometryBindings>)
    requires
        old(materials).wf(),
        old(primitives).wf(),
    ensures
        final(materials).wf(),
        final(primitives).wf(),
        final(materials)@ == (MirrorView { stale: false, ..old(materials)@ }),
        final(primitives)@ == (MirrorView { stale: false, ..old(primitives)@ }),
        r == if (old(materials)@.stale || old(primitives)@.stale) && has_layout {
            Some(GeometryBindings { materials: old(materials)@.has_buffer, primitives: old(primitives)@.has_buffer })
        } else {
            None
        },
{
    let materials_stale = materials.take_descriptors_stale();
    let primitives_stale = primitives.take_descriptors_stale();
    if (materials_stale || primitives_stale) && has_layout {
        Some(GeometryBindings { materials: materials.has_buffer(), primitives: primitives.has_buffer() })
    } else {
        None
    }
}

/// The movement keys held down this tick.
#[derive(Debug, Clone, Copy, PartialEq, Eq, Structural)]
pub struct MoveKeys {
    pub w: bool,
    pub a: bool,
    pub s: bool,
    pub d: bool,
    pub q: bool,
    pub e: bool,
}

/// A camera translation direction, one step of -1, 0 or 1 on each axis.
#[derive(Debug, Clone, Copy, PartialEq, Eq, Structural)]
pub struct MoveDirection {
    pub x: i8,
    pub y: i8,
    pub z: i8,
}

/// The step on one axis: `plus` counts 1, `minus` counts -1.
pub open spec fn axis_step(minus: bool, plus: bool) -> int {
    (if plus { 1int } else { 0int }) - (if minus { 1int } else { 0int })
}

fn axis(minus: bool, plus: bool) -> (r: i8)
    ensures
        r == axis_step(minus, plus),
{
    let mut r: i8 = 0;
    if plus {
        r = r + 1;
    }
    if minus {
        r = r - 1;
    }
    r
}

/// The direction the held keys move the camera in: A and D on the first axis,
/// E and Q on the second, W and S on the third; `None` when they cancel out or
/// none is held.
pub fn move_direction(keys: MoveKeys) -> (r: Option<MoveDirection>)
    ensures
        r == if axis_step(keys.a, keys.d) == 0 && axis_step(keys.e, keys.q) == 0 && axis_step(keys.w, keys.s) == 0 {
            None
        } else {
            Some(MoveDirection {
                x: axis_step(keys.a, keys.d) as i8,
                y: axis_step(keys.e, keys.q) as i8,
                z: axis_step(keys.w, keys.s) as i8,
            })
        },
{
    let x = axis(keys.a, keys.d);
    let y = axis(keys.e, keys.q);
    let z = axis(keys.w, keys.s);
    if x == 0 && y == 0 && z == 0 {
        None
    } else {
        Some(MoveDirection { x, y, z })
    }
}

} // verus!
