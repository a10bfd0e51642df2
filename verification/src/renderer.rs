//! Drawing meshes and models: which draw each call issues.

use crate::device::{BindGroupHandle, BufferHandle};
use crate::model::{Material, MaterialView, Mesh, MeshView, Model, ModelView};
use std::ops::Range;
use vstd::prelude::*;

verus! {

/// One instanced, indexed draw: the buffers and the bind group it uses, the
/// number of indices, and the range of instances.
#[derive(Clone, Copy, Debug, PartialEq, Eq, Structural)]
pub struct DrawCall {
    pub vertex_buffer: BufferHandle,
    pub index_buffer: BufferHandle,
    pub bind_group: BindGroupHandle,
    pub num_elements: u32,
    pub first_instance: u32,
    pub end_instance: u32,
}

/// The draw of one mesh with one material.
pub open spec fn mesh_call(mesh: MeshView, material: MaterialView, instances: Range<u32>) -> DrawCall {
    DrawCall {
        vertex_buffer: mesh.vertex_buffer,
        index_buffer: mesh.index_buffer,
        bind_group: material.bind_group,
        num_elements: mesh.num_elements,
        first_instance: instances.start,
        end_instance: instances.end,
    }
}

/// The draws of a model: one for each mesh, in order, each with the material
/// that the mesh refers to.
pub open spec fn model_calls(model: ModelView, instances: Range<u32>) -> Seq<DrawCall> {
    Seq::new(
        model.meshes.len(),
        |i: int| mesh_call(model.meshes[i], model.materials[model.meshes[i].material as int], instances),
    )
}

/// Something that meshes and models can be drawn with.
pub trait Renderer {
    /// The draws issued so far, in order.
    spec fn drawn(&self) -> Seq<DrawCall>;

    /// Draws the given instances of a mesh.
    fn draw_mesh_instanced(&mut self, mesh: &Mesh, material: &Material, instances: Range<u32>)
        ensures
            final(self).drawn() == old(self).drawn().push(mesh_call(mesh@, material@, instances)),
    ;

    /// Draws one instance of a mesh.
    fn draw_mesh(&mut self, mesh: &Mesh, material: &Material)
        ensures
            final(self).drawn() == old(self).drawn().push(
                mesh_call(mesh@, material@, Range { start: 0, end: 1 }),
            ),
    {
        self.draw_mesh_instanced(mesh, material, 0..1);
    }

    /// Draws one instance of a model.
    fn draw_model(&mut self, model: &Model)
        requires
            model@.well_formed(),
        ensures
            final(self).drawn() == old(self).drawn() + model_calls(
                model@,
                Range { start: 0, end: 1 },
            ),
    {
        self.draw_model_instanced(model, 0..1);
    }

    /// Draws the given instances of a model: its meshes in order, each with
    /// its own material, one draw for each mesh.
    fn draw_model_instanced(&mut self, model: &Model, instances: Range<u32>)
        requires
            model@.well_formed(),
        ensures
            final(self).drawn() == old(self).drawn() + model_calls(model@, instances),
    {
        let ghost before = self.drawn();
        let mut i: usize = 0;
        while i < model.meshes.len()
            invariant
                i <= model.meshes.len(),
                model@.well_formed(),
                self.drawn() == before + model_calls(model@, instances).subrange(0, i as int),
            decreases model.meshes.len() - i,
        {
            let mesh = &model.meshes[i];
            assert(model@.meshes[i as int] == mesh@);
            let material = &model.materials[mesh.material];
            assert(model@.materials[mesh.material as int] == material@);
            self.draw_mesh_instanced(mesh, material, Range { start: instances.start, end: instances.end });
            proof {
                let calls = model_calls(model@, instances);
                assert(calls.subrange(0, i + 1) =~= calls.subrange(0, i as int).push(calls[i as int]));
                assert(before + calls.subrange(0, i + 1) =~= (before + calls.subrange(0, i as int)).push(
                    calls[i as int],
                ));
            }
            i += 1;
        }
        proof {
            let calls = model_calls(model@, instances);
            assert(calls.subrange(0, i as int) =~= calls);
        }
    }
}

/// A renderer that records the draws instead of issuing them, to be replayed
/// on a render pass.
pub struct DrawList {
    calls: Vec<DrawCall>,
}

impl DrawList {
    /// A list with no draw.
    pub fn new() -> (list: Self)
        ensures
            list.drawn() == Seq::<DrawCall>::empty(),
    {
        DrawList { calls: Vec::new() }
    }

    /// The recorded draws, in order.
    pub fn calls(&self) -> (calls: &Vec<DrawCall>)
        ensures
            calls@ == self.drawn(),
    {
        &self.calls
    }
}

impl Renderer for DrawList {
    closed spec fn drawn(&self) -> Seq<DrawCall> {
        self.calls@
    }

    fn draw_mesh_instanced(&mut self, mesh: &Mesh, material: &Material, instances: Range<u32>) {
        self.calls.push(
            DrawCall {
                vertex_buffer: mesh.vertex_buffer,
                index_buffer: mesh.index_buffer,
                bind_group: material.bind_group,
                num_elements: mesh.num_elements,
                first_instance: instances.start,
                end_instance: instances.end,
            },
        );
    }
}

} // verus!
