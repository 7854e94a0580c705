use vstd::prelude::*;

use crate::error::ChartError;
use crate::geometry::{indices_in_range, MAX_POINTS};

verus! {

/// The name of the vertex-position attribute in the vertex shader.
pub const POSITION_ATTRIBUTE: &'static str = "a_position";

/// The name of the transform uniform in the vertex shader.
pub const MATRIX_UNIFORM: &'static str = "u_matrix";

/// The vertex shader: each position `(x, y)` goes to clip space as
/// `u_matrix * (x, y, 1)`.
pub const VERTEX_SHADER_SOURCE: &'static str = r#"
    attribute vec2 a_position;

    uniform mat3 u_matrix;
    void main(void) {
        gl_Position = vec4(u_matrix * vec3(a_position, 1.0), 1.0);
    }
"#;

/// The fragment shader: every pixel of the line is solid white.
pub const FRAGMENT_SHADER_SOURCE: &'static str = r#"
    void main(void) {
        gl_FragColor = vec4(1.0, 1.0, 1.0, 1.0);
    }
"#;

/// One operation on the graphics context, in the order a draw issues them.
#[derive(Debug, Clone, Copy, PartialEq, Eq)]
pub enum GlCommand {
    /// Bind the chart's program.
    UseProgram,
    /// Enable the vertex-position attribute slot.
    EnableAttribute { slot: u32 },
    /// Bind the vertex buffer and replace its contents with the current points.
    UploadVertices,
    /// Bind the index buffer and replace its contents with the current indices.
    UploadIndices,
    /// Set the viewport to the surface's pixel size.
    Viewport { width: i32, height: i32 },
    /// Clear the color buffer.
    Clear,
    /// Point the attribute slot at the bound vertex buffer: tightly packed
    /// float vectors of `components` entries, starting at `offset`.
    AttributePointer { slot: u32, components: i32, stride: i32, offset: i32 },
    /// Load the current transform into the matrix uniform.
    SetMatrix,
    /// Draw `count` indices as one line strip.
    DrawLineStrip { count: i32 },
}

/// A pixel size as the viewport takes it: sizes past `i32::MAX` are held there.
pub open spec fn viewport_size(pixels: u32) -> i32 {
    if pixels > i32::MAX as u32 {
        i32::MAX
    } else {
        pixels as i32
    }
}

/// The commands of one draw over a surface of `width` by `height` pixels.
pub open spec fn draw_commands(slot: u32, width: u32, height: u32, count: nat) -> Seq<GlCommand> {
    seq![
        GlCommand::UseProgram,
        GlCommand::EnableAttribute { slot },
        GlCommand::UploadVertices,
        GlCommand::UploadIndices,
        GlCommand::Viewport { width: viewport_size(width), height: viewport_size(height) },
        GlCommand::Clear,
        GlCommand::AttributePointer { slot, components: 2, stride: 0, offset: 0 },
        GlCommand::SetMatrix,
        GlCommand::DrawLineStrip { count: count as i32 },
    ]
}

/// What the renderer keeps between draws: the program's vertex slot, whether
/// the program has a transform uniform, and the current polyline.
pub struct Renderer {
    vertex_slot: u32,
    uniform_found: bool,
    point_count: usize,
    indices: Vec<u16>,
}

impl Renderer {
    /// Every index names one of the current points, and there are no more
    /// indices than 16-bit indices can address.
    pub closed spec fn wf(&self) -> bool {
        &&& self.indices@.len() <= MAX_POINTS
        &&& indices_in_range(self.point_count as nat, self.indices@)
    }

    pub closed spec fn spec_vertex_slot(&self) -> u32 {
        self.vertex_slot
    }

    pub closed spec fn spec_uniform_found(&self) -> bool {
        self.uniform_found
    }

    pub closed spec fn spec_point_count(&self) -> nat {
        self.point_count as nat
    }

    pub closed spec fn spec_indices(&self) -> Seq<u16> {
        self.indices@
    }

    /// A renderer for a linked program, from what the program reports of its
    /// locations: `attribute_location` is the position attribute's location
    /// (negative where it has none), `uniform_found` whether it has the
    /// transform uniform. It starts with a square of four points.
    ///
    /// A missing attribute is an error at once; a missing uniform only when a
    /// draw needs it.
    pub fn from_locations(attribute_location: i32, uniform_found: bool) -> (r: Result<
        Renderer,
        ChartError,
    >)
        ensures
            attribute_location < 0 <==> r is Err,
            r matches Err(e) ==> e matches ChartError::AttributeLookup { name } && name@
                == POSITION_ATTRIBUTE@,
            r matches Ok(s) ==> {
                &&& s.wf()
                &&& s.spec_vertex_slot() == attribute_location as u32
                &&& s.spec_uniform_found() == uniform_found
                &&& s.spec_point_count() == 4
                &&& s.spec_indices() == seq![0u16, 1, 2, 3]
            },
    {
        if attribute_location < 0 {
            return Err(ChartError::AttributeLookup { name: POSITION_ATTRIBUTE.to_owned() });
        }
        let indices: Vec<u16> = vec![0, 1, 2, 3];
        let s = Renderer {
            vertex_slot: attribute_location as u32,
            uniform_found,
            point_count: 4,
            indices,
        };
        assert(s.indices@ == seq![0u16, 1, 2, 3]);
        Ok(s)
    }

    /// The attribute slot that vertex positions go to.
    pub fn vertex_slot(&self) -> (r: u32)
        ensures
            r == self.spec_vertex_slot(),
    {
        self.vertex_slot
    }

    /// The number of points the current geometry holds.
    pub fn point_count(&self) -> (r: usize)
        ensures
            r as nat == self.spec_point_count(),
    {
        self.point_count
    }

    /// The draw order of the current geometry.
    pub fn indices(&self) -> (r: &Vec<u16>)
        ensures
            r@ == self.spec_indices(),
    {
        &self.indices
    }

    /// Replaces the current polyline: `point_count` points, drawn in the order
    /// `indices` gives. A polyline with an index that names no point, or with
    /// more indices than 16 bits address, is refused and the old one kept.
    pub fn set_geometry(&mut self, point_count: usize, indices: Vec<u16>) -> (r: Result<
        (),
        ChartError,
    >)
        requires
            old(self).wf(),
        ensures
            final(self).wf(),
            r is Ok <==> indices@.len() <= MAX_POINTS && indices_in_range(
                point_count as nat,
                indices@,
            ),
            r is Err ==> r == Err::<(), ChartError>(ChartError::InvalidSampleCount),
            r is Ok ==> final(self).spec_point_count() == point_count
                && final(self).spec_indices() == indices@,
            r is Err ==> final(self).spec_point_count() == old(self).spec_point_count()
                && final(self).spec_indices() == old(self).spec_indices(),
            final(self).spec_vertex_slot() == old(self).spec_vertex_slot(),
            final(self).spec_uniform_found() == old(self).spec_uniform_found(),
    {
        if indices.len() > MAX_POINTS || !all_in_range(point_count, &indices) {
            return Err(ChartError::InvalidSampleCount);
        }
        self.point_count = point_count;
        self.indices = indices;
        Ok(())
    }

    /// The commands of one draw. `surface` is the surface's pixel size, or
    /// `None` where the surface cannot be reached. An unreachable surface, and
    /// then a program without the transform uniform, fails the draw before any
    /// command is issued.
    pub fn draw_plan(&self, surface: Option<(u32, u32)>) -> (r: Result<Vec<GlCommand>, ChartError>)
        requires
            self.wf(),
        ensures
            surface is None ==> r == Err::<Vec<GlCommand>, ChartError>(
                ChartError::SurfaceUnavailable,
            ),
            surface is Some && !self.spec_uniform_found() ==> (r matches Err(e)
                && e matches ChartError::UniformLookup { name } && name@ == MATRIX_UNIFORM@),
            r is Ok <==> self.spec_uniform_found() && surface is Some,
            r matches Ok(cmds) ==> cmds@ == draw_commands(
                self.spec_vertex_slot(),
                surface->Some_0.0,
                surface->Some_0.1,
                self.spec_indices().len(),
            ),
    {
        let (width, height) = match surface {
            Some(size) => size,
            None => {
                return Err(ChartError::SurfaceUnavailable);
            },
        };
        if !self.uniform_found {
            return Err(ChartError::UniformLookup { name: MATRIX_UNIFORM.to_owned() });
        }
        let slot = self.vertex_slot;
        let count = self.indices.len() as i32;
        let cmds: Vec<GlCommand> = vec![
            GlCommand::UseProgram,
            GlCommand::EnableAttribute { slot },
            GlCommand::UploadVertices,
            GlCommand::UploadIndices,
            GlCommand::Viewport { width: clamp_to_i32(width), height: clamp_to_i32(height) },
            GlCommand::Clear,
            GlCommand::AttributePointer { slot, components: 2, stride: 0, offset: 0 },
            GlCommand::SetMatrix,
            GlCommand::DrawLineStrip { count },
        ];
        assert(cmds@ =~= draw_commands(slot, width, height, self.indices@.len()));
        Ok(cmds)
    }
}

fn all_in_range(point_count: usize, indices: &Vec<u16>) -> (r: bool)
    ensures
        r == indices_in_range(point_count as nat, indices@),
{
    let mut i: usize = 0;
    while i < indices.len()
        invariant
            i <= indices@.len(),
            forall|j: int| 0 <= j < i ==> (#[trigger] indices@[j]) < point_count,
        decreases indices@.len() - i,
    {
        if indices[i] as usize >= point_count {
            return false;
        }
        i = i + 1;
    }
    true
}

fn clamp_to_i32(pixels: u32) -> (r: i32)
    ensures
        r == viewport_size(pixels),
{
    if pixels > i32::MAX as u32 {
        i32::MAX
    } else {
        pixels as i32
    }
}

} // verus!
