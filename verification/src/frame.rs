//! One frame: what to do when the surface fails, and the pass that draws the
//! scene.

use vstd::prelude::*;
use crate::binding::BindGroupLayoutDescriptor;
use crate::model::{BindGroupId, Mesh, Model, PipelineId, TextureViewId};
use crate::pass::{
    pass_fits_pipeline, ColorAttachment, CommandEncoder, RenderCommand, RenderPass,
    RenderPassDescriptor,
};
use crate::pipeline::{replaced_target, IndexFormat, RenderPipelineDescriptor, TextureFormat};

verus! {

/// Why a surface gave no texture to draw on.
#[derive(Clone, Copy, Debug, PartialEq, Eq, Structural)]
pub enum SurfaceError {
    Timeout,
    Outdated,
    Lost,
    OutOfMemory,
}

/// What the frame loop does after it tried to render.
#[derive(Clone, Copy, Debug, PartialEq, Eq, Structural)]
pub enum FrameAction {
    /// The frame was rendered; go on with the next.
    Proceed,
    /// The frame was not rendered; try again with the next, with all state
    /// kept.
    Retry,
    /// The surface is gone: configure it anew and make the resources that
    /// depend on it again.
    Reconfigure,
    /// Memory ran out: give the frame up and stop.
    Abort,
}

/// The action that follows each outcome of rendering.
pub open spec fn action_after(outcome: Result<(), SurfaceError>) -> FrameAction {
    match outcome {
        Ok(()) => FrameAction::Proceed,
        Err(SurfaceError::Timeout) => FrameAction::Retry,
        Err(SurfaceError::Outdated) => FrameAction::Retry,
        Err(SurfaceError::Lost) => FrameAction::Reconfigure,
        Err(SurfaceError::OutOfMemory) => FrameAction::Abort,
    }
}

/// Decides what follows a frame: a rendered frame is followed by the next, a
/// timeout or an outdated surface by another try, a lost surface by its
/// reconfiguration, and exhausted memory by the end of the program.
pub fn after_render(outcome: Result<(), SurfaceError>) -> (action: FrameAction)
    ensures
        action == action_after(outcome),
{
    match outcome {
        Ok(()) => FrameAction::Proceed,
        Err(SurfaceError::Timeout) => FrameAction::Retry,
        Err(SurfaceError::Outdated) => FrameAction::Retry,
        Err(SurfaceError::Lost) => FrameAction::Reconfigure,
        Err(SurfaceError::OutOfMemory) => FrameAction::Abort,
    }
}

/// The bind group index of a mesh's material in the scene pass.
pub const MATERIAL_GROUP: u32 = 0;

/// The bind group index of the camera in the scene pass.
pub const CAMERA_GROUP: u32 = 1;

/// The bind group index of the light in the scene pass.
pub const LIGHT_GROUP: u32 = 2;

/// The bind group layouts of the scene's pipeline, each at the index at which
/// the scene pass sets a group of that layout.
pub fn scene_layouts(
    material: BindGroupLayoutDescriptor,
    camera: BindGroupLayoutDescriptor,
    light: BindGroupLayoutDescriptor,
) -> (layouts: Vec<BindGroupLayoutDescriptor>)
    ensures
        layouts@.len() == 3,
        layouts@[MATERIAL_GROUP as int] == material,
        layouts@[CAMERA_GROUP as int] == camera,
        layouts@[LIGHT_GROUP as int] == light,
{
    vec![material, camera, light]
}

/// The commands that draw one instance of a mesh with its material: the
/// mesh's whole vertex buffer in slot 0, its whole index buffer with 32-bit
/// indices, the material's bind group, then all of the mesh's indices.
pub open spec fn mesh_commands(mesh: Mesh, material: BindGroupId) -> Seq<RenderCommand> {
    seq![
        RenderCommand::SetVertexBuffer { slot: 0, buffer: mesh.vertex_buffer },
        RenderCommand::SetIndexBuffer { buffer: mesh.index_buffer, format: IndexFormat::Uint32 },
        RenderCommand::SetBindGroup { index: MATERIAL_GROUP, group: material },
        RenderCommand::DrawIndexed {
            first_index: 0,
            end_index: mesh.num_elements,
            base_vertex: 0,
            first_instance: 0,
            end_instance: 1,
        },
    ]
}

/// The commands that draw one instance of each mesh in order, each with the
/// material that its index names in `materials`. No mesh, no command.
pub open spec fn model_commands(meshes: Seq<Mesh>, materials: Seq<BindGroupId>) -> Seq<
    RenderCommand,
>
    decreases meshes.len(),
{
    if meshes.len() == 0 {
        Seq::empty()
    } else {
        model_commands(meshes.drop_last(), materials) + mesh_commands(
            meshes.last(),
            materials[meshes.last().material as int],
        )
    }
}

/// The commands that draw every entity in order, each as `model_commands`
/// draws its meshes with its materials.
pub open spec fn entity_commands(entities: Seq<Model>) -> Seq<RenderCommand>
    decreases entities.len(),
{
    if entities.len() == 0 {
        Seq::empty()
    } else {
        entity_commands(entities.drop_last()) + model_commands(
            entities.last().meshes@,
            entities.last().materials@,
        )
    }
}

/// The names of the GPU objects that the scene pass uses.
#[derive(Clone, Copy, Debug, PartialEq, Eq, Structural)]
pub struct SceneHandles {
    pub target: TextureViewId,
    pub pipeline: PipelineId,
    pub camera: BindGroupId,
    pub light: BindGroupId,
}

/// The commands of the scene pass: bind the pipeline, the camera and the
/// light, then draw the entities.
pub open spec fn scene_commands(handles: SceneHandles, entities: Seq<Model>) -> Seq<RenderCommand> {
    seq![
        RenderCommand::SetPipeline { pipeline: handles.pipeline },
        RenderCommand::SetBindGroup { index: CAMERA_GROUP, group: handles.camera },
        RenderCommand::SetBindGroup { index: LIGHT_GROUP, group: handles.light },
    ] + entity_commands(entities)
}

/// In every entity each mesh refers to a material that the entity has.
pub open spec fn scene_wf(entities: Seq<Model>) -> bool {
    forall|i: int| 0 <= i < entities.len() ==> (#[trigger] entities[i]).wf()
}

/// Whether in every entity each mesh refers to a material that the entity
/// has.
pub fn is_scene_wf(entities: &Vec<Model>) -> (ok: bool)
    ensures
        ok == scene_wf(entities@),
{
    let n = entities.len();
    let mut i: usize = 0;
    while i < n
        invariant
            n == entities@.len(),
            i <= n,
            forall|k: int| 0 <= k < i ==> (#[trigger] entities@[k]).wf(),
        decreases n - i,
    {
        if !entities[i].is_wf() {
            return false;
        }
        i += 1;
    }
    true
}

/// Records the scene pass: one colour attachment, the frame's target, cleared
/// to `clear` and stored, no depth attachment; in it the scene's commands.
/// Every mesh of every entity is drawn once, in order, with the material it
/// refers to; an entity without meshes draws nothing.
pub fn render(
    encoder: &mut CommandEncoder,
    handles: &SceneHandles,
    clear: [u64; 4],
    entities: &Vec<Model>,
)
    requires
        forall|i: int| 0 <= i < entities@.len() ==> (#[trigger] entities@[i]).wf(),
    ensures
        final(encoder)@.len() == old(encoder)@.len() + 1,
        final(encoder)@.drop_last() == old(encoder)@,
        final(encoder)@.last().descriptor.label@ == "render pass"@,
        final(encoder)@.last().descriptor.color_attachments@ == seq![
            (ColorAttachment { view: handles.target, clear: Some(clear), store: true }),
        ],
        final(encoder)@.last().descriptor.depth_stencil_attachment is None,
        final(encoder)@.last().commands@ == scene_commands(*handles, entities@),
{
    let descriptor = RenderPassDescriptor {
        label: "render pass",
        color_attachments: vec![
            ColorAttachment { view: handles.target, clear: Some(clear), store: true },
        ],
        depth_stencil_attachment: None,
    };
    let mut pass = RenderPass::new();
    pass.set_pipeline(handles.pipeline);
    pass.set_bind_group(CAMERA_GROUP, handles.camera);
    pass.set_bind_group(LIGHT_GROUP, handles.light);
    let ghost head = pass@;
    let n = entities.len();
    let mut i: usize = 0;
    assert(pass@ =~= head + entity_commands(entities@.subrange(0, 0)));
    while i < n
        invariant
            n == entities@.len(),
            i <= n,
            scene_wf(entities@),
            pass@ == head + entity_commands(entities@.subrange(0, i as int)),
        decreases n - i,
    {
        let entity = &entities[i];
        let ghost before = pass@;
        let m = entity.meshes.len();
        let mut j: usize = 0;
        assert(pass@ =~= before + model_commands(
            entity.meshes@.subrange(0, 0),
            entity.materials@,
        ));
        while j < m
            invariant
                m == entity.meshes@.len(),
                j <= m,
                entity.wf(),
                pass@ == before + model_commands(
                    entity.meshes@.subrange(0, j as int),
                    entity.materials@,
                ),
            decreases m - j,
        {
            let mesh = entity.meshes[j];
            let material = entity.materials[mesh.material];
            pass.set_vertex_buffer(0, mesh.vertex_buffer);
            pass.set_index_buffer(mesh.index_buffer, IndexFormat::Uint32);
            pass.set_bind_group(MATERIAL_GROUP, material);
            pass.draw_indexed(0..mesh.num_elements, 0, 0..1);
            proof {
                let drawn = entity.meshes@.subrange(0, j as int);
                let next = entity.meshes@.subrange(0, j as int + 1);
                assert(next.drop_last() =~= drawn);
                assert(next.last() == entity.meshes@[j as int]);
                assert(pass@ =~= before + model_commands(next, entity.materials@));
            }
            j += 1;
        }
        proof {
            assert(entity.meshes@.subrange(0, m as int) =~= entity.meshes@);
            let done = entities@.subrange(0, i as int);
            let next = entities@.subrange(0, i as int + 1);
            assert(next.drop_last() =~= done);
            assert(next.last() == entities@[i as int]);
            assert(pass@ =~= head + entity_commands(next));
        }
        i += 1;
    }
    assert(entities@.subrange(0, n as int) =~= entities@);
    assert(pass@ =~= scene_commands(*handles, entities@));
    encoder.finish_pass(descriptor, pass);
    assert(encoder@.drop_last() =~= old(encoder)@);
}

/// A model's commands are four per mesh, and the four for mesh `j` are those
/// of `mesh_commands` for that mesh with the material its index names: every
/// mesh is drawn exactly once, in the model's order.
pub proof fn model_commands_of_mesh(meshes: Seq<Mesh>, materials: Seq<BindGroupId>, j: int)
    requires
        0 <= j < meshes.len(),
    ensures
        model_commands(meshes, materials).len() == 4 * meshes.len(),
        model_commands(meshes, materials).subrange(4 * j, 4 * j + 4) == mesh_commands(
            meshes[j],
            materials[meshes[j].material as int],
        ),
    decreases meshes.len(),
{
    let all = model_commands(meshes, materials);
    let front = model_commands(meshes.drop_last(), materials);
    let back = mesh_commands(meshes.last(), materials[meshes.last().material as int]);
    model_commands_len(meshes.drop_last(), materials);
    assert(all == front + back);
    if j == meshes.len() - 1 {
        assert(all.subrange(4 * j, 4 * j + 4) =~= back);
    } else {
        model_commands_of_mesh(meshes.drop_last(), materials, j);
        assert(all.subrange(4 * j, 4 * j + 4) =~= front.subrange(4 * j, 4 * j + 4));
    }
}

proof fn model_commands_len(meshes: Seq<Mesh>, materials: Seq<BindGroupId>)
    ensures
        model_commands(meshes, materials).len() == 4 * meshes.len(),
    decreases meshes.len(),
{
    if meshes.len() > 0 {
        model_commands_len(meshes.drop_last(), materials);
    }
}

/// The scene is drawn without depth test throughout: a pipeline with one
/// replaced colour target and no depth state, as `opaque_render_pipeline`
/// makes it, fits a pass with one colour attachment and no depth attachment,
/// as `render` records it.
pub proof fn scene_pass_fits_opaque_pipeline(
    pass: RenderPassDescriptor,
    pipeline: RenderPipelineDescriptor,
    format: TextureFormat,
)
    requires
        pass.color_attachments@.len() == 1,
        pass.depth_stencil_attachment is None,
        pipeline.fragment matches Some(fragment) && fragment.targets@ == seq![
            replaced_target(format),
        ],
        pipeline.depth_stencil is None,
    ensures
        pass_fits_pipeline(pass, pipeline),
{
}

} // verus!
