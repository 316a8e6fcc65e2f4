//! Client-side mesh data and the draw dispatch.

use vstd::prelude::*;
use std::marker::PhantomData;
use crate::command::{GlCall, GlCommand, Handle};
use crate::context::{GlContext, GlFlag, GlState};
use crate::error::CapacityExceeded;
use crate::gl;
use crate::ids::MeshId;
use crate::program::GlProgram;
use crate::surface::Surface;
use crate::uniforms::{GlUniforms, Uniforms};
use crate::vertex::{AttributeSlot, Attributes, VertexData, VertexLayout};

verus! {

/// How often the data of a mesh is expected to change.
#[derive(Clone, Copy, Debug, PartialEq, Eq, Structural)]
pub enum MeshUsage {
    StaticDraw,
    DynamicDraw,
    StreamDraw,
}

impl MeshUsage {
    /// The device's name for this usage hint.
    pub open spec fn spec_as_gl(self) -> u32 {
        match self {
            MeshUsage::StaticDraw => gl::STATIC_DRAW,
            MeshUsage::DynamicDraw => gl::DYNAMIC_DRAW,
            MeshUsage::StreamDraw => gl::STREAM_DRAW,
        }
    }

    /// The device's name for this usage hint.
    pub fn as_gl(self) -> (name: u32)
        ensures
            name == self.spec_as_gl(),
    {
        match self {
            MeshUsage::StaticDraw => gl::STATIC_DRAW,
            MeshUsage::DynamicDraw => gl::DYNAMIC_DRAW,
            MeshUsage::StreamDraw => gl::STREAM_DRAW,
        }
    }
}

/// The coarse raster mode of a draw: flat, or with depth test and culling.
#[derive(Clone, Copy, Debug, PartialEq, Eq, Structural)]
pub enum DrawMode {
    Draw2D,
    Draw3D,
}

impl DrawMode {
    /// The state after `bind`: nothing changes where the mode is the cached
    /// one; otherwise the cache takes the mode, and face culling and the
    /// depth test are switched off for 2D and on for 3D, in that order.
    pub open spec fn bound(self, state: GlState) -> GlState {
        if state.bindings.draw_mode == Some(self) {
            state
        } else {
            let marked = state.with_bindings(state.bindings.with_draw_mode(self));
            match self {
                DrawMode::Draw2D => marked.disable(GlFlag::CullFace).disable(GlFlag::DepthTest),
                DrawMode::Draw3D => marked.enable(GlFlag::CullFace).enable(GlFlag::DepthTest),
            }
        }
    }

    /// Makes this the raster mode of the device, unless it already is.
    pub fn bind(self, context: &mut GlContext)
        ensures
            final(context)@ == self.bound(old(context)@),
    {
        if context.set_draw_mode(self) {
            match self {
                DrawMode::Draw2D => {
                    context.disable(GlFlag::CullFace);
                    context.disable(GlFlag::DepthTest);
                },
                DrawMode::Draw3D => {
                    context.enable(GlFlag::CullFace);
                    context.enable(GlFlag::DepthTest);
                },
            }
        }
    }
}

/// An index into the vertices of a mesh.
pub type MeshIndex = u16;

/// The most vertices that one mesh can hold: as many as a `MeshIndex` can
/// tell apart while one value stays free.
pub const MAX_VERTICES: u16 = 0xFFFF;

/// A kind of primitive that the device assembles from indices.
pub trait Primitive {
    /// The device's name for this kind of primitive.
    spec fn spec_as_gl() -> u32;

    /// The device's name for this kind of primitive.
    fn as_gl() -> (name: u32)
        ensures
            name == Self::spec_as_gl(),
    ;
}

/// Three indices make a triangle.
#[derive(Clone, Copy, Debug)]
pub struct Triangles;

impl Primitive for Triangles {
    open spec fn spec_as_gl() -> u32 {
        gl::TRIANGLES
    }

    fn as_gl() -> (name: u32) {
        gl::TRIANGLES
    }
}

/// Two indices make a line.
#[derive(Clone, Copy, Debug)]
pub struct Lines;

impl Primitive for Lines {
    open spec fn spec_as_gl() -> u32 {
        gl::LINES
    }

    fn as_gl() -> (name: u32) {
        gl::LINES
    }
}

/// Each index makes a point.
#[derive(Clone, Copy, Debug)]
pub struct Points;

impl Primitive for Points {
    open spec fn spec_as_gl() -> u32 {
        gl::POINTS
    }

    fn as_gl() -> (name: u32) {
        gl::POINTS
    }
}

/// The components of all of `records`, one record after the other.
pub open spec fn concat_records(records: Seq<Vec<u32>>) -> Seq<u32>
    decreases records.len(),
{
    if records.len() == 0 {
        Seq::empty()
    } else {
        concat_records(records.drop_last()) + records.last()@
    }
}

/// `indices`, each moved up by `start`.
pub open spec fn rebased(indices: Seq<MeshIndex>, start: MeshIndex) -> Seq<MeshIndex> {
    indices.map_values(|index: MeshIndex| (index + start) as MeshIndex)
}

/// Collects the vertices and primitives of a mesh. It holds the data only;
/// a `Mesh` built from it brings them to the device.
#[derive(Debug)]
pub struct MeshBuilder<P: Primitive> {
    vertices: VertexData,
    indices: Vec<MeshIndex>,
    phantom: PhantomData<P>,
}

impl<P: Primitive> MeshBuilder<P> {
    /// The vertices added so far.
    pub closed spec fn vertices(&self) -> VertexData {
        self.vertices
    }

    /// The indices of the primitives added so far.
    pub closed spec fn index_list(&self) -> Seq<MeshIndex> {
        self.indices@
    }

    /// The components of all vertices added so far.
    pub open spec fn vertex_words(&self) -> Seq<u32> {
        self.vertices().words()
    }

    /// The number of vertices added so far, which is the index that the
    /// next vertex gets.
    pub open spec fn vertex_count(&self) -> nat {
        self.vertices().spec_len()
    }

    /// The number of components of one vertex.
    pub open spec fn spec_stride(&self) -> int {
        self.vertices().spec_stride()
    }

    /// Whether the vertex data are whole vertices, no more of them than
    /// indices can address.
    pub open spec fn wf(&self) -> bool {
        &&& self.vertices().wf()
        &&& self.vertex_count() <= MAX_VERTICES
    }

    /// Whether `other` can be added to `self`: the vertices of both fit
    /// into one mesh, and so does every index of `other` once it is moved
    /// up by the number of vertices of `self`.
    pub open spec fn can_take(&self, other: &MeshBuilder<P>) -> bool {
        &&& self.vertex_count() + other.vertex_count() <= MAX_VERTICES
        &&& forall|i: int|
            0 <= i < other.index_list().len() ==> #[trigger] other.index_list()[i]
                + self.vertex_count() <= MAX_VERTICES
    }

    /// The vertex data of a builder are whole vertices at all times: as
    /// many components as there are vertices times the stride.
    pub proof fn lemma_whole_vertices(&self)
        requires
            self.wf(),
        ensures
            self.vertex_count() * self.spec_stride() == self.vertex_words().len(),
            self.vertex_count() <= MAX_VERTICES,
    {
    }

    /// An empty builder for vertices of the given schema.
    pub fn new(attributes: Attributes) -> (builder: Self)
        requires
            attributes.wf(),
        ensures
            builder.wf(),
            builder.vertices().attributes() == attributes,
            builder.vertex_words() == Seq::<u32>::empty(),
            builder.vertex_count() == 0,
            builder.index_list() == Seq::<MeshIndex>::empty(),
    {
        MeshBuilder { vertices: VertexData::new(attributes), indices: Vec::new(), phantom: PhantomData }
    }

    /// Adds a vertex to the mesh, given by its components in the order of
    /// the schema, and returns its index. The vertex is not drawn unless a
    /// primitive uses it. A mesh that holds `MAX_VERTICES` vertices takes
    /// no more.
    pub fn vert(&mut self, vert: &[u32]) -> (added: Result<MeshIndex, CapacityExceeded>)
        requires
            old(self).wf(),
            vert@.len() == old(self).spec_stride(),
        ensures
            final(self).wf(),
            old(self).vertex_count() < MAX_VERTICES <==> added is Ok,
            added matches Ok(index) ==> {
                &&& index == old(self).vertex_count()
                &&& final(self).vertex_count() == old(self).vertex_count() + 1
                &&& final(self).vertex_words() == old(self).vertex_words() + vert@
                &&& final(self).vertices().attributes() == old(self).vertices().attributes()
                &&& final(self).index_list() == old(self).index_list()
            },
            added is Err ==> *final(self) == *old(self),
    {
        if self.vertices.len() >= MAX_VERTICES as usize {
            return Err(CapacityExceeded);
        }
        let index = self.vertices.len() as MeshIndex;
        self.vertices.push(vert);
        Ok(index)
    }

    /// Adds all of `verts` to the mesh, in order, and returns their
    /// indices. Where the mesh cannot take them all, it takes none.
    pub fn verts(&mut self, verts: &[Vec<u32>]) -> (added: Result<Vec<MeshIndex>, CapacityExceeded>)
        requires
            old(self).wf(),
            forall|i: int| 0 <= i < verts@.len() ==> (#[trigger] verts@[i])@.len() == old(self).spec_stride(),
        ensures
            final(self).wf(),
            old(self).vertex_count() + verts@.len() <= MAX_VERTICES <==> added is Ok,
            added matches Ok(indices) ==> {
                &&& indices@.len() == verts@.len()
                &&& forall|i: int|
                    0 <= i < indices@.len() ==> #[trigger] indices@[i] == old(self).vertex_count() + i
                &&& final(self).vertex_count() == old(self).vertex_count() + verts@.len()
                &&& final(self).vertex_words() == old(self).vertex_words() + concat_records(verts@)
                &&& final(self).vertices().attributes() == old(self).vertices().attributes()
                &&& final(self).index_list() == old(self).index_list()
            },
            added is Err ==> *final(self) == *old(self),
    {
        if verts.len() > MAX_VERTICES as usize - self.vertices.len() {
            return Err(CapacityExceeded);
        }
        let mut res: Vec<MeshIndex> = Vec::with_capacity(verts.len());
        let mut i: usize = 0;
        while i < verts.len()
            invariant
                0 <= i <= verts@.len(),
                self.wf(),
                old(self).wf(),
                old(self).vertex_count() + verts@.len() <= MAX_VERTICES,
                forall|k: int|
                    0 <= k < verts@.len() ==> (#[trigger] verts@[k])@.len() == old(self).spec_stride(),
                self.spec_stride() == old(self).spec_stride(),
                self.vertices().attributes() == old(self).vertices().attributes(),
                self.index_list() == old(self).index_list(),
                self.vertex_count() == old(self).vertex_count() + i,
                self.vertex_words() == old(self).vertex_words() + concat_records(verts@.take(i as int)),
                res@.len() == i,
                forall|k: int| 0 <= k < i ==> #[trigger] res@[k] == old(self).vertex_count() + k,
            decreases verts@.len() - i,
        {
            // There is room for all of them, so there is room for this one.
            let index = self.vert(verts[i].as_slice()).unwrap();
            res.push(index);
            proof {
                assert(verts@.take(i + 1).drop_last() =~= verts@.take(i as int));
                assert(verts@.take(i + 1).last() == verts@[i as int]);
                assert(self.vertex_words() =~= old(self).vertex_words() + concat_records(
                    verts@.take(i + 1),
                ));
            }
            i += 1;
        }
        assert(verts@.take(i as int) =~= verts@);
        Ok(res)
    }

    /// Builds a `Mesh` from this builder on the native vertex array `vao`
    /// and the native buffers `vbo` and `ibo`, to be drawn by `program`.
    /// `locations` tells where the program has the attributes of the
    /// vertices, in the order of their schema.
    pub fn build<U: GlUniforms>(
        &self,
        context: &mut GlContext,
        vao: Handle,
        vbo: Handle,
        ibo: Handle,
        program: &GlProgram<U>,
        usage: MeshUsage,
        draw_mode: DrawMode,
        locations: &[u32],
    ) -> (mesh: Mesh<U, P>)
        requires
            self.wf(),
            self.index_list().len() <= i32::MAX,
            VertexLayout::locations_fit(self.vertices().attributes()@, locations@),
        ensures
            mesh.vao() == vao,
            mesh.vbo() == vbo,
            mesh.ibo() == ibo,
            mesh.program() == *program,
            mesh.draw_mode() == draw_mode,
            mesh.index_count() == self.index_list().len(),
            final(context)@ == if self.index_list().len() == 0 {
                Mesh::<U, P>::created(old(context)@, mesh.id(), vao, vbo, ibo)
            } else {
                mesh.uploaded(
                    Mesh::<U, P>::created(old(context)@, mesh.id(), vao, vbo, ibo),
                    self,
                    usage,
                    locations@,
                )
            },
    {
        let mut mesh = Mesh::new(context, vao, vbo, ibo, program, draw_mode);
        mesh.build_from(context, self, usage, locations);
        mesh
    }

    /// Clears all data from the builder. The schema stays, and so does the
    /// memory, so a builder that is used again need not allocate unless
    /// the new mesh is larger than the old one.
    pub fn clear(&mut self)
        requires
            old(self).wf(),
        ensures
            final(self).wf(),
            final(self).vertices().attributes() == old(self).vertices().attributes(),
            final(self).vertex_words() == Seq::<u32>::empty(),
            final(self).vertex_count() == 0,
            final(self).index_list() == Seq::<MeshIndex>::empty(),
    {
        self.vertices.clear();
        self.indices.clear();
    }

    /// Adds all vertices and primitives of the other builder to this one:
    /// the vertices behind those that are there, and the indices moved up
    /// by as much. Where this builder cannot take them, it takes nothing.
    pub fn extend(&mut self, other: MeshBuilder<P>) -> (extended: Result<(), CapacityExceeded>)
        requires
            old(self).wf(),
            other.wf(),
            other.spec_stride() == old(self).spec_stride(),
        ensures
            final(self).wf(),
            old(self).can_take(&other) <==> extended is Ok,
            extended is Ok ==> {
                &&& final(self).vertex_count() == old(self).vertex_count() + other.vertex_count()
                &&& final(self).vertex_words() == old(self).vertex_words() + other.vertex_words()
                &&& final(self).vertices().attributes() == old(self).vertices().attributes()
                &&& final(self).index_list() == old(self).index_list() + rebased(
                    other.index_list(),
                    old(self).vertex_count() as MeshIndex,
                )
            },
            extended is Err ==> *final(self) == *old(self),
    {
        let start_index = self.vertices.len() as MeshIndex;
        if other.vertices.len() > (MAX_VERTICES - start_index) as usize {
            return Err(CapacityExceeded);
        }
        let mut i: usize = 0;
        while i < other.indices.len()
            invariant
                0 <= i <= other.indices@.len(),
                *self == *old(self),
                self.wf(),
                start_index == self.vertex_count(),
                forall|k: int| 0 <= k < i ==> #[trigger] other.indices@[k] + start_index <= MAX_VERTICES,
            decreases other.indices@.len() - i,
        {
            if other.indices[i] > MAX_VERTICES - start_index {
                assert(other.index_list()[i as int] + self.vertex_count() > MAX_VERTICES);
                return Err(CapacityExceeded);
            }
            i += 1;
        }
        self.vertices.append(&other.vertices);
        let mut i: usize = 0;
        while i < other.indices.len()
            invariant
                0 <= i <= other.indices@.len(),
                self.wf(),
                self.vertex_count() == old(self).vertex_count() + other.vertex_count(),
                self.vertex_words() == old(self).vertex_words() + other.vertex_words(),
                self.vertices().attributes() == old(self).vertices().attributes(),
                start_index == old(self).vertex_count(),
                forall|k: int|
                    0 <= k < other.indices@.len() ==> #[trigger] other.indices@[k] + start_index
                        <= MAX_VERTICES,
                self.indices@ == old(self).indices@ + rebased(other.indices@.take(i as int), start_index),
            decreases other.indices@.len() - i,
        {
            self.indices.push(other.indices[i] + start_index);
            assert(self.indices@ =~= old(self).indices@ + rebased(
                other.indices@.take(i + 1),
                start_index,
            ));
            i += 1;
        }
        assert(other.indices@.take(i as int) =~= other.indices@);
        Ok(())
    }

    /// The index that the next vertex gets.
    pub fn next_index(&self) -> (index: MeshIndex)
        requires
            self.wf(),
        ensures
            index == self.vertex_count(),
    {
        self.vertices.len() as MeshIndex
    }

    /// The schema of the vertices.
    pub fn attributes(&self) -> (attributes: &Attributes)
        ensures
            *attributes == self.vertices().attributes(),
    {
        self.vertices.schema()
    }

    /// The components of all vertices, each an `f32` bit pattern.
    pub fn vertex_data(&self) -> (data: &Vec<u32>)
        ensures
            data@ == self.vertex_words(),
    {
        self.vertices.data()
    }

    /// The indices of all primitives.
    pub fn indices(&self) -> (indices: &Vec<MeshIndex>)
        ensures
            indices@ == self.index_list(),
    {
        &self.indices
    }
}

impl MeshBuilder<Triangles> {
    /// Adds a triangle to the mesh.
    pub fn triangle(&mut self, a: MeshIndex, b: MeshIndex, c: MeshIndex)
        ensures
            final(self).vertices() == old(self).vertices(),
            final(self).index_list() == old(self).index_list().push(a).push(b).push(c),
    {
        self.indices.push(a);
        self.indices.push(b);
        self.indices.push(c);
    }
}

impl MeshBuilder<Lines> {
    /// Adds a line to the mesh.
    pub fn line(&mut self, a: MeshIndex, b: MeshIndex)
        ensures
            final(self).vertices() == old(self).vertices(),
            final(self).index_list() == old(self).index_list().push(a).push(b),
    {
        self.indices.push(a);
        self.indices.push(b);
    }
}

impl MeshBuilder<Points> {
    /// Adds a point to the mesh.
    pub fn point(&mut self, a: MeshIndex)
        ensures
            final(self).vertices() == old(self).vertices(),
            final(self).index_list() == old(self).index_list().push(a),
    {
        self.indices.push(a);
    }
}

/// The calls that make one slot known to the vertex array in use, for
/// records `stride` bytes apart in the bound array buffer: the slot is
/// switched on and pointed at its components, and a slot that advances by
/// instance is told to do so after each instance.
pub open spec fn slot_calls(slot: AttributeSlot, stride: i32) -> Seq<GlCall> {
    let calls = seq![
        GlCall::EnableVertexAttribArray(slot.location),
        GlCall::VertexAttribPointer {
            index: slot.location,
            size: slot.size,
            data_type: gl::FLOAT,
            normalized: false,
            stride,
            offset: slot.offset,
        },
    ];
    if slot.per_instance {
        calls.push(GlCall::VertexAttribDivisor { index: slot.location, divisor: 1 })
    } else {
        calls
    }
}

/// The calls that make all of `slots` known, in their order.
pub open spec fn layout_calls(slots: Seq<AttributeSlot>, stride: i32) -> Seq<GlCall>
    decreases slots.len(),
{
    if slots.len() == 0 {
        Seq::empty()
    } else {
        layout_calls(slots.drop_last(), stride) + slot_calls(slots.last(), stride)
    }
}

/// The calls of `setup_vertex_attribs`.
pub open spec fn attribute_calls(
    attributes: &Attributes,
    locations: Seq<u32>,
    instanced: bool,
) -> Seq<GlCall> {
    layout_calls(
        VertexLayout::slots_of(attributes@, locations, instanced),
        (4 * attributes.spec_stride()) as i32,
    )
}

/// Makes one slot known to the vertex array in use, for records `stride`
/// bytes apart in the bound array buffer.
pub fn setup_vertex_attrib(context: &mut GlContext, slot: &AttributeSlot, stride: i32)
    ensures
        final(context)@ == old(context)@.emit_all(slot_calls(*slot, stride)),
{
    context.emit(GlCommand::EnableVertexAttribArray(slot.location));
    context.emit(
        GlCommand::VertexAttribPointer {
            index: slot.location,
            size: slot.size,
            data_type: gl::FLOAT,
            normalized: false,
            stride,
            offset: slot.offset,
        },
    );
    if slot.per_instance {
        context.emit(GlCommand::VertexAttribDivisor { index: slot.location, divisor: 1 });
    }
    assert(context@.calls =~= old(context)@.calls + slot_calls(*slot, stride));
}

/// Lays out `attributes`, which the program in question has at
/// `locations`, and makes every slot known to the vertex array in use, for
/// records in the bound array buffer. With `instanced` the slots advance
/// once for each instance.
pub fn setup_vertex_attribs(
    context: &mut GlContext,
    attributes: &Attributes,
    locations: &[u32],
    instanced: bool,
)
    requires
        attributes.wf(),
        VertexLayout::locations_fit(attributes@, locations@),
    ensures
        final(context)@ == old(context)@.emit_all(attribute_calls(attributes, locations@, instanced)),
{
    let layout = VertexLayout::new(attributes, locations, instanced);
    let mut i: usize = 0;
    assert(context@.calls =~= old(context)@.calls + layout_calls(layout.slots@.take(0), layout.stride));
    while i < layout.slots.len()
        invariant
            0 <= i <= layout.slots@.len(),
            context@ == old(context)@.emit_all(
                layout_calls(layout.slots@.take(i as int), layout.stride),
            ),
        decreases layout.slots@.len() - i,
    {
        setup_vertex_attrib(context, &layout.slots[i], layout.stride);
        proof {
            assert(layout.slots@.take(i + 1).drop_last() =~= layout.slots@.take(i as int));
            assert(layout.slots@.take(i + 1).last() == layout.slots@[i as int]);
            assert(context@.calls =~= old(context)@.calls + layout_calls(
                layout.slots@.take(i + 1),
                layout.stride,
            ));
        }
        i += 1;
    }
    assert(layout.slots@.take(i as int) =~= layout.slots@);
    proof {
        attributes.lemma_stride_bounds();
    }
}

/// A mesh on the device: a vertex array with a vertex buffer and an index
/// buffer, and the program that draws it. It owns the three native
/// objects, which `release` deletes, and holds the program.
///
/// A mesh is empty until `build_from` has brought it indices, and empty
/// again when it is rebuilt from a builder without indices. An empty mesh
/// does not draw.
#[derive(Debug)]
pub struct Mesh<U: GlUniforms, P: Primitive> {
    vao: Handle,
    vbo: Handle,
    ibo: Handle,
    id: MeshId,
    program: GlProgram<U>,
    num_indices: i32,
    phantom: PhantomData<P>,
    draw_mode: DrawMode,
}

impl<U: GlUniforms, P: Primitive> Mesh<U, P> {
    /// The native vertex array.
    pub closed spec fn vao(&self) -> Handle {
        self.vao
    }

    /// The native vertex buffer.
    pub closed spec fn vbo(&self) -> Handle {
        self.vbo
    }

    /// The native index buffer.
    pub closed spec fn ibo(&self) -> Handle {
        self.ibo
    }

    /// The identity under which the cache knows the mesh.
    pub closed spec fn id(&self) -> MeshId {
        self.id
    }

    /// The program that draws the mesh.
    pub closed spec fn program(&self) -> GlProgram<U> {
        self.program
    }

    /// The number of indices on the device.
    pub closed spec fn index_count(&self) -> i32 {
        self.num_indices
    }

    /// The raster mode in which the mesh is drawn.
    pub closed spec fn draw_mode(&self) -> DrawMode {
        self.draw_mode
    }

    /// Whether the mesh has indices to draw.
    pub open spec fn is_ready(&self) -> bool {
        self.index_count() != 0
    }

    /// The state after `new`: the mesh is bound through the cache, and its
    /// index buffer joins its vertex array.
    pub open spec fn created(
        state: GlState,
        id: MeshId,
        vao: Handle,
        vbo: Handle,
        ibo: Handle,
    ) -> GlState {
        state.bind_mesh(id, vao, vbo).emit(
            GlCall::BindBuffer { target: gl::ELEMENT_ARRAY_BUFFER, buffer: Some(ibo) },
        )
    }

    /// The state after `bind`: unless the cache holds the mesh, its vertex
    /// array is put to use and its vertex buffer becomes the array buffer.
    pub open spec fn bound(&self, state: GlState) -> GlState {
        state.bind_mesh(self.id(), self.vao(), self.vbo())
    }

    /// The state after `build_from` with a builder that has indices: the
    /// mesh is bound, the attributes of the vertices are laid out, and the
    /// vertices and the indices are uploaded.
    pub open spec fn uploaded(
        &self,
        state: GlState,
        builder: &MeshBuilder<P>,
        usage: MeshUsage,
        locations: Seq<u32>,
    ) -> GlState {
        self.bound(state).emit_all(
            attribute_calls(&builder.vertices().attributes(), locations, false),
        ).emit(
            GlCall::BufferDataF32 {
                target: gl::ARRAY_BUFFER,
                data: builder.vertex_words(),
                usage: usage.spec_as_gl(),
            },
        ).emit(
            GlCall::BufferDataU16 {
                target: gl::ELEMENT_ARRAY_BUFFER,
                data: builder.index_list(),
                usage: usage.spec_as_gl(),
            },
        )
    }

    /// The state in which `draw` and `draw_instanced` ask for the
    /// uniforms: the mesh is bound, and its program is in use.
    pub open spec fn prepared(&self, state: GlState) -> GlState {
        self.program().bound(self.bound(state))
    }

    /// The state in which a draw call finds the device: `surface` is the
    /// draw target, and the raster mode is that of the mesh.
    pub open spec fn targeted<S: Surface>(&self, state: GlState, surface: &S) -> GlState {
        self.draw_mode().bound(
            state.bind_draw_target(surface.target_id(), surface.framebuffer(), surface.viewport()),
        )
    }

    /// The state after `end_draw`: one draw call for all indices follows
    /// the binding of target and mode.
    pub open spec fn drawn<S: Surface>(&self, state: GlState, surface: &S) -> GlState {
        self.targeted(state, surface).emit(
            GlCall::DrawElements {
                mode: P::spec_as_gl(),
                count: self.index_count(),
                index_type: gl::UNSIGNED_SHORT,
                offset: 0,
            },
        )
    }

    /// The state after `end_draw_instanced`: the buffer for instances
    /// becomes the array buffer, the attributes of the instances are laid
    /// out on it, the instances are streamed into it, and one instanced
    /// draw call for all indices and all instances follows. The array
    /// buffer is no longer that of the mesh, so the cache forgets the mesh.
    pub open spec fn drawn_instanced<S: Surface>(
        &self,
        state: GlState,
        surface: &S,
        instances: &VertexData,
        locations: Seq<u32>,
    ) -> GlState {
        let targeted = self.targeted(state, surface);
        targeted.with_bindings(targeted.bindings.without_mesh()).emit(
            GlCall::BindBuffer { target: gl::ARRAY_BUFFER, buffer: Some(state.instanced_vbo) },
        ).emit_all(attribute_calls(&instances.attributes(), locations, true)).emit(
            GlCall::BufferDataF32 {
                target: gl::ARRAY_BUFFER,
                data: instances.words(),
                usage: gl::STREAM_DRAW,
            },
        ).emit(
            GlCall::DrawElementsInstanced {
                mode: P::spec_as_gl(),
                count: self.index_count(),
                index_type: gl::UNSIGNED_SHORT,
                offset: 0,
                instance_count: instances.spec_len() as i32,
            },
        )
    }

    /// The calls that give the three native objects of a mesh back.
    pub open spec fn release_calls(&self) -> Seq<GlCall> {
        seq![
            GlCall::DeleteVertexArray(self.vao()),
            GlCall::DeleteBuffer(self.vbo()),
            GlCall::DeleteBuffer(self.ibo()),
        ]
    }

    /// Creates an empty `Mesh` on the native vertex array `vao` and the
    /// native buffers `vbo` and `ibo`, to be drawn by `program`. It must
    /// be given data by `build_from` before it draws anything.
    pub fn new(
        context: &mut GlContext,
        vao: Handle,
        vbo: Handle,
        ibo: Handle,
        program: &GlProgram<U>,
        draw_mode: DrawMode,
    ) -> (mesh: Self)
        ensures
            mesh.vao() == vao,
            mesh.vbo() == vbo,
            mesh.ibo() == ibo,
            mesh.program() == *program,
            mesh.draw_mode() == draw_mode,
            !mesh.is_ready(),
            final(context)@ == Self::created(old(context)@, mesh.id(), vao, vbo, ibo),
    {
        let id = MeshId::new();
        context.bind_mesh(id, vao, vbo);
        context.emit(GlCommand::BindBuffer { target: gl::ELEMENT_ARRAY_BUFFER, buffer: Some(ibo) });
        Mesh {
            vao,
            vbo,
            ibo,
            id,
            program: program.clone(),
            num_indices: 0,
            phantom: PhantomData,
            draw_mode,
        }
    }

    /// Replaces the contents of the mesh by those of the builder.
    /// `locations` tells where the program has the attributes of the
    /// vertices, in the order of their schema. A builder without indices
    /// leaves the device alone and the mesh empty.
    pub fn build_from(
        &mut self,
        context: &mut GlContext,
        builder: &MeshBuilder<P>,
        usage: MeshUsage,
        locations: &[u32],
    )
        requires
            builder.wf(),
            builder.index_list().len() <= i32::MAX,
            VertexLayout::locations_fit(builder.vertices().attributes()@, locations@),
        ensures
            final(self).index_count() == builder.index_list().len(),
            final(self).vao() == old(self).vao(),
            final(self).vbo() == old(self).vbo(),
            final(self).ibo() == old(self).ibo(),
            final(self).id() == old(self).id(),
            final(self).program() == old(self).program(),
            final(self).draw_mode() == old(self).draw_mode(),
            final(context)@ == if builder.index_list().len() == 0 {
                old(context)@
            } else {
                old(self).uploaded(old(context)@, builder, usage, locations@)
            },
    {
        self.num_indices = builder.indices().len() as i32;
        if self.num_indices == 0 {
            return ;
        }
        self.bind(context);

        setup_vertex_attribs(context, builder.attributes(), locations, false);

        context.emit(
            GlCommand::BufferDataF32 {
                target: gl::ARRAY_BUFFER,
                data: builder.vertex_data().clone(),
                usage: usage.as_gl(),
            },
        );
        context.emit(
            GlCommand::BufferDataU16 {
                target: gl::ELEMENT_ARRAY_BUFFER,
                data: builder.indices().clone(),
                usage: usage.as_gl(),
            },
        );
    }

    /// Binds the mesh, unless the cache holds it: puts its vertex array to
    /// use and makes its vertex buffer the array buffer.
    pub fn bind(&self, context: &mut GlContext)
        ensures
            final(context)@ == self.bound(old(context)@),
    {
        context.bind_mesh(self.id, self.vao, self.vbo);
    }

    /// The first half of a draw: binds the mesh and puts its program to
    /// use, so that the uniforms can be set next.
    pub fn begin_draw(&self, context: &mut GlContext)
        ensures
            final(context)@ == self.prepared(old(context)@),
    {
        self.bind(context);
        self.program.bind(context);
    }

    /// The second half of a draw, once the uniforms are set: binds
    /// `surface` and the raster mode of the mesh, each unless the cache
    /// holds it, and issues one draw call.
    pub fn end_draw<S: Surface>(&self, context: &mut GlContext, surface: &S)
        requires
            surface.wf(),
        ensures
            final(context)@ == self.drawn(old(context)@, surface),
    {
        surface.bind(context);
        self.draw_mode.bind(context);
        context.emit(
            GlCommand::DrawElements {
                mode: P::as_gl(),
                count: self.num_indices,
                index_type: gl::UNSIGNED_SHORT,
                offset: 0,
            },
        );
    }

    /// The second half of an instanced draw, once the uniforms are set:
    /// binds `surface` and the raster mode of the mesh, each unless the
    /// cache holds it, streams the instances into the buffer that the
    /// context keeps for them, and issues one instanced draw call.
    /// `locations` tells where the program has the attributes of the
    /// instances, in the order of their schema.
    pub fn end_draw_instanced<S: Surface>(
        &self,
        context: &mut GlContext,
        surface: &S,
        instances: &VertexData,
        locations: &[u32],
    )
        requires
            surface.wf(),
            instances.wf(),
            instances.spec_len() <= i32::MAX,
            VertexLayout::locations_fit(instances.attributes()@, locations@),
        ensures
            final(context)@ == self.drawn_instanced(old(context)@, surface, instances, locations@),
    {
        surface.bind(context);
        self.draw_mode.bind(context);
        context.forget_mesh();
        let instanced_vbo = context.instanced_vbo();
        context.emit(GlCommand::BindBuffer { target: gl::ARRAY_BUFFER, buffer: Some(instanced_vbo) });

        setup_vertex_attribs(context, instances.schema(), locations, true);

        context.emit(
            GlCommand::BufferDataF32 {
                target: gl::ARRAY_BUFFER,
                data: instances.data().clone(),
                usage: MeshUsage::StreamDraw.as_gl(),
            },
        );
        context.emit(
            GlCommand::DrawElementsInstanced {
                mode: P::as_gl(),
                count: self.num_indices,
                index_type: gl::UNSIGNED_SHORT,
                offset: 0,
                instance_count: instances.len() as i32,
            },
        );
    }

    /// Draws the mesh on `surface`. An empty mesh does nothing at all.
    ///
    /// Otherwise the mesh and its program are bound, `uniforms` hands its
    /// values to the device, and `end_draw` does the rest. What the
    /// context is after the uniforms were set is up to `uniforms`; the
    /// draw ends as `end_draw` does from there.
    pub fn draw<S: Surface, F: Uniforms<GlUniforms = U>>(
        &self,
        context: &mut GlContext,
        surface: &S,
        uniforms: &F,
    )
        requires
            surface.wf(),
        ensures
            !self.is_ready() ==> final(context)@ == old(context)@,
            self.is_ready() ==> exists|updated: GlState|
                final(context)@ == #[trigger] self.drawn(updated, surface),
    {
        if self.num_indices == 0 {
            return ;
        }
        self.begin_draw(context);
        uniforms.update(context, self.program.gl_uniforms());
        let ghost updated = context@;
        self.end_draw(context, surface);
        assert(context@ == self.drawn(updated, surface));
    }

    /// Draws the mesh on `surface` once for each of `instances`. An empty
    /// mesh does nothing at all, and neither does a draw without
    /// instances.
    ///
    /// Otherwise the mesh and its program are bound, `uniforms` hands its
    /// values to the device, and `end_draw_instanced` does the rest. What
    /// the context is after the uniforms were set is up to `uniforms`; the
    /// draw ends as `end_draw_instanced` does from there.
    pub fn draw_instanced<S: Surface, F: Uniforms<GlUniforms = U>>(
        &self,
        context: &mut GlContext,
        surface: &S,
        uniforms: &F,
        instances: &VertexData,
        locations: &[u32],
    )
        requires
            surface.wf(),
            instances.wf(),
            instances.spec_len() <= i32::MAX,
            VertexLayout::locations_fit(instances.attributes()@, locations@),
        ensures
            !self.is_ready() || instances.spec_len() == 0 ==> final(context)@ == old(context)@,
            self.is_ready() && instances.spec_len() != 0 ==> exists|updated: GlState|
                final(context)@ == #[trigger] self.drawn_instanced(
                    updated,
                    surface,
                    instances,
                    locations@,
                ),
    {
        if self.num_indices == 0 || instances.is_empty() {
            return ;
        }
        self.begin_draw(context);
        uniforms.update(context, self.program.gl_uniforms());
        let ghost updated = context@;
        self.end_draw_instanced(context, surface, instances, locations);
        assert(context@ == self.drawn_instanced(updated, surface, instances, locations@));
    }

    /// Makes the mesh empty, so that it draws nothing until it is built
    /// again. What is on the device stays there.
    pub fn clear(&mut self)
        ensures
            !final(self).is_ready(),
            final(self).vao() == old(self).vao(),
            final(self).vbo() == old(self).vbo(),
            final(self).ibo() == old(self).ibo(),
            final(self).id() == old(self).id(),
            final(self).program() == old(self).program(),
            final(self).draw_mode() == old(self).draw_mode(),
    {
        self.num_indices = 0;
    }

    /// The number of indices on the device.
    pub fn num_indices(&self) -> (count: i32)
        ensures
            count == self.index_count(),
    {
        self.num_indices
    }

    /// Gives the three native objects of the mesh back to the device and
    /// lets go of the program. The mesh is gone with this call, so it
    /// cannot be released twice or used afterwards.
    pub fn release(self, context: &mut GlContext)
        ensures
            final(context)@ == old(context)@.emit_all(self.release_calls())
                || final(context)@ == old(context)@.emit_all(self.release_calls()).emit_all(
                GlProgram::<U>::release_calls(
                    self.program().handle(),
                    self.program().vert_shader().handle(),
                    self.program().frag_shader().handle(),
                ),
            ),
    {
        context.emit(GlCommand::DeleteVertexArray(self.vao));
        context.emit(GlCommand::DeleteBuffer(self.vbo));
        context.emit(GlCommand::DeleteBuffer(self.ibo));
        assert(context@.calls =~= old(context)@.calls + self.release_calls());
        self.program.release(context);
    }
}

} // verus!
