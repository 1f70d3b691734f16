//! Drawing meshes and models with the camera and the light bound.

use vstd::prelude::*;
use std::ops::Range;
use crate::model::{BindGroupId, Mesh, Model};
use crate::pass::{RenderCommand, RenderPass};
use crate::pipeline::IndexFormat;

verus! {

/// The bind group index at which lit drawing binds the camera.
pub const CAMERA_GROUP: u32 = 0;

/// The bind group index at which lit drawing binds the light.
pub const LIGHT_GROUP: u32 = 1;

/// The commands that draw one mesh: its whole vertex buffer in slot 0, its
/// whole index buffer with 32-bit indices, the camera and the light at their
/// bind group indices, then all of the mesh's indices for the instances from
/// `first_instance` up to `end_instance`.
pub open spec fn light_mesh_commands(
    mesh: Mesh,
    first_instance: u32,
    end_instance: u32,
    camera: BindGroupId,
    light: BindGroupId,
) -> Seq<RenderCommand> {
    seq![
        RenderCommand::SetVertexBuffer { slot: 0, buffer: mesh.vertex_buffer },
        RenderCommand::SetIndexBuffer { buffer: mesh.index_buffer, format: IndexFormat::Uint32 },
        RenderCommand::SetBindGroup { index: CAMERA_GROUP, group: camera },
        RenderCommand::SetBindGroup { index: LIGHT_GROUP, group: light },
        RenderCommand::DrawIndexed {
            first_index: 0,
            end_index: mesh.num_elements,
            base_vertex: 0,
            first_instance,
            end_instance,
        },
    ]
}

/// The commands that draw meshes one after another, each as
/// `light_mesh_commands` draws it, all with the same instances, camera and
/// light.
pub open spec fn light_model_commands(
    meshes: Seq<Mesh>,
    first_instance: u32,
    end_instance: u32,
    camera: BindGroupId,
    light: BindGroupId,
) -> Seq<RenderCommand>
    decreases meshes.len(),
{
    if meshes.len() == 0 {
        Seq::empty()
    } else {
        light_model_commands(meshes.drop_last(), first_instance, end_instance, camera, light)
            + light_mesh_commands(meshes.last(), first_instance, end_instance, camera, light)
    }
}

/// A sink of render commands that can draw meshes and models lit by one
/// light and seen by one camera.
pub trait DrawLight {
    /// The commands that the sink has taken so far.
    spec fn recorded(&self) -> Seq<RenderCommand>;

    /// Draws one instance of a mesh.
    fn draw_light_mesh(&mut self, mesh: &Mesh, camera: BindGroupId, light: BindGroupId)
        ensures
            final(self).recorded() == old(self).recorded() + light_mesh_commands(
                *mesh,
                0,
                1,
                camera,
                light,
            ),
    ;

    /// Draws the given instances of a mesh.
    fn draw_light_mesh_instanced(
        &mut self,
        mesh: &Mesh,
        instances: Range<u32>,
        camera: BindGroupId,
        light: BindGroupId,
    )
        ensures
            final(self).recorded() == old(self).recorded() + light_mesh_commands(
                *mesh,
                instances.start,
                instances.end,
                camera,
                light,
            ),
    ;

    /// Draws one instance of every mesh of a model, in the model's order.
    fn draw_light_model(&mut self, model: &Model, camera: BindGroupId, light: BindGroupId)
        ensures
            final(self).recorded() == old(self).recorded() + light_model_commands(
                model.meshes@,
                0,
                1,
                camera,
                light,
            ),
    ;

    /// Draws the given instances of every mesh of a model, in the model's
    /// order.
    fn draw_light_model_instanced(
        &mut self,
        model: &Model,
        instances: Range<u32>,
        camera: BindGroupId,
        light: BindGroupId,
    )
        ensures
            final(self).recorded() == old(self).recorded() + light_model_commands(
                model.meshes@,
                instances.start,
                instances.end,
                camera,
                light,
            ),
    ;
}

impl DrawLight for RenderPass {
    open spec fn recorded(&self) -> Seq<RenderCommand> {
        self@
    }

    fn draw_light_mesh(&mut self, mesh: &Mesh, camera: BindGroupId, light: BindGroupId) {
        self.draw_light_mesh_instanced(mesh, 0..1, camera, light);
    }

    fn draw_light_mesh_instanced(
        &mut self,
        mesh: &Mesh,
        instances: Range<u32>,
        camera: BindGroupId,
        light: BindGroupId,
    ) {
        let first = instances.start;
        let end = instances.end;
        self.set_vertex_buffer(0, mesh.vertex_buffer);
        self.set_index_buffer(mesh.index_buffer, IndexFormat::Uint32);
        self.set_bind_group(CAMERA_GROUP, camera);
        self.set_bind_group(LIGHT_GROUP, light);
        self.draw_indexed(0..mesh.num_elements, 0, first..end);
        assert(self@ =~= old(self)@ + light_mesh_commands(*mesh, first, end, camera, light));
    }

    fn draw_light_model(&mut self, model: &Model, camera: BindGroupId, light: BindGroupId) {
        self.draw_light_model_instanced(model, 0..1, camera, light);
    }

    fn draw_light_model_instanced(
        &mut self,
        model: &Model,
        instances: Range<u32>,
        camera: BindGroupId,
        light: BindGroupId,
    ) {
        let first = instances.start;
        let end = instances.end;
        let n = model.meshes.len();
        let mut i: usize = 0;
        assert(self@ =~= old(self)@ + light_model_commands(
            model.meshes@.subrange(0, 0),
            first,
            end,
            camera,
            light,
        ));
        while i < n
            invariant
                n == model.meshes@.len(),
                i <= n,
                self@ == old(self)@ + light_model_commands(
                    model.meshes@.subrange(0, i as int),
                    first,
                    end,
                    camera,
                    light,
                ),
            decreases n - i,
        {
            let ghost before = self@;
            self.draw_light_mesh_instanced(&model.meshes[i], first..end, camera, light);
            proof {
                let done = model.meshes@.subrange(0, i as int);
                let next = model.meshes@.subrange(0, i as int + 1);
                assert(next.drop_last() =~= done);
                assert(next.last() == model.meshes@[i as int]);
                assert(self@ =~= old(self)@ + light_model_commands(next, first, end, camera, light));
            }
            i += 1;
        }
        assert(model.meshes@.subrange(0, n as int) =~= model.meshes@);
    }
}

/// A model's commands are five per mesh, and the five for mesh `i` are those
/// of `light_mesh_commands` for that mesh: every mesh is drawn with the same
/// instances, camera and light.
pub proof fn model_commands_per_mesh(
    meshes: Seq<Mesh>,
    first_instance: u32,
    end_instance: u32,
    camera: BindGroupId,
    light: BindGroupId,
    i: int,
)
    requires
        0 <= i < meshes.len(),
    ensures
        light_model_commands(meshes, first_instance, end_instance, camera, light).len() == 5
            * meshes.len(),
        light_model_commands(meshes, first_instance, end_instance, camera, light).subrange(
            5 * i,
            5 * i + 5,
        ) == light_mesh_commands(meshes[i], first_instance, end_instance, camera, light),
    decreases meshes.len(),
{
    let all = light_model_commands(meshes, first_instance, end_instance, camera, light);
    let front = light_model_commands(
        meshes.drop_last(),
        first_instance,
        end_instance,
        camera,
        light,
    );
    let back = light_mesh_commands(meshes.last(), first_instance, end_instance, camera, light);
    model_commands_len(meshes.drop_last(), first_instance, end_instance, camera, light);
    assert(all == front + back);
    if i == meshes.len() - 1 {
        assert(all.subrange(5 * i, 5 * i + 5) =~= back);
    } else {
        model_commands_per_mesh(
            meshes.drop_last(),
            first_instance,
            end_instance,
            camera,
            light,
            i,
        );
        assert(all.subrange(5 * i, 5 * i + 5) =~= front.subrange(5 * i, 5 * i + 5));
    }
}

proof fn model_commands_len(
    meshes: Seq<Mesh>,
    first_instance: u32,
    end_instance: u32,
    camera: BindGroupId,
    light: BindGroupId,
)
    ensures
        light_model_commands(meshes, first_instance, end_instance, camera, light).len() == 5
            * meshes.len(),
    decreases meshes.len(),
{
    if meshes.len() > 0 {
        model_commands_len(meshes.drop_last(), first_instance, end_instance, camera, light);
    }
}

} // verus!
