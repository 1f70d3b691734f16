//! The camera: its pose, its projection's parameters, the uniform block that
//! shaders read, and the keys that move it.
//!
//! Angles, distances and matrix elements are 32-bit patterns of
//! single-precision numbers. The view and projection matrices are computed by
//! the application; this module stores them and lays them out for the GPU.

use vstd::prelude::*;
use crate::binding::{
    group_matches, uniform_entry, BindGroupDescriptor, BindGroupEntry,
    BindGroupLayoutDescriptor, BindingResource, BufferInitDescriptor, BufferUsages,
};
use crate::bytes::{cast_u32_slice, is_image_u32};
use crate::pipeline::ConfigError;
use crate::vertex::{ONE, ZERO};

verus! {

/// The parameters of a perspective projection. The aspect ratio is kept as
/// the viewport's width and height, of which neither is zero.
#[derive(Clone, Copy, Debug, PartialEq, Eq, Structural)]
pub struct Projection {
    pub width: u32,
    pub height: u32,
    pub fovy: u32,
    pub znear: u32,
    pub zfar: u32,
}

/// The error for a viewport of the given size, if it has one: a viewport
/// without rows has no aspect ratio, one without columns shows nothing.
pub open spec fn viewport_error(width: u32, height: u32) -> Option<ConfigError> {
    if height == 0 {
        Some(ConfigError::ZeroHeight)
    } else if width == 0 {
        Some(ConfigError::ZeroWidth)
    } else {
        None
    }
}

impl Projection {
    /// The viewport has an aspect ratio that is neither zero nor undefined.
    pub open spec fn wf(&self) -> bool {
        self.width > 0 && self.height > 0
    }

    /// A projection for a viewport of `width` by `height` pixels, or the
    /// reason why the viewport has no usable aspect ratio.
    pub fn new(width: u32, height: u32, fovy: u32, znear: u32, zfar: u32) -> (made: Result<
        Projection,
        ConfigError,
    >)
        ensures
            made is Ok <==> width > 0 && height > 0,
            made matches Ok(p) ==> p == (Projection { width, height, fovy, znear, zfar }) && p.wf(),
            made matches Err(e) ==> Some(e) == viewport_error(width, height),
    {
        if height == 0 {
            Err(ConfigError::ZeroHeight)
        } else if width == 0 {
            Err(ConfigError::ZeroWidth)
        } else {
            Ok(Projection { width, height, fovy, znear, zfar })
        }
    }

    /// Takes the aspect ratio of a new viewport and keeps everything else. A
    /// viewport without usable aspect ratio changes nothing and is reported.
    pub fn resize(&mut self, width: u32, height: u32) -> (done: Result<(), ConfigError>)
        ensures
            old(self).wf() ==> final(self).wf(),
            done is Ok <==> width > 0 && height > 0,
            done is Ok ==> *final(self) == (Projection { width, height, ..*old(self) }),
            done is Err ==> *final(self) == *old(self),
            done matches Err(e) ==> Some(e) == viewport_error(width, height),
    {
        if height == 0 {
            Err(ConfigError::ZeroHeight)
        } else if width == 0 {
            Err(ConfigError::ZeroWidth)
        } else {
            self.width = width;
            self.height = height;
            Ok(())
        }
    }
}

/// The uniform block of the camera: its position in homogeneous coordinates,
/// then the product of projection and view matrix, column by column.
#[derive(Clone, Copy, Debug, PartialEq, Eq)]
pub struct CameraUniform {
    pub view_position: [u32; 4],
    pub view_proj: [[u32; 4]; 4],
}

/// The identity matrix.
pub open spec fn identity() -> [[u32; 4]; 4] {
    [[ONE, ZERO, ZERO, ZERO], [ZERO, ONE, ZERO, ZERO], [ZERO, ZERO, ONE, ZERO], [ZERO, ZERO, ZERO, ONE]]
}

/// A point in homogeneous coordinates: its three coordinates, then 1.
pub open spec fn homogeneous(point: [u32; 3]) -> [u32; 4] {
    [point[0], point[1], point[2], ONE]
}

impl CameraUniform {
    /// The twenty words of the block in buffer order.
    pub open spec fn spec_words(self) -> Seq<u32> {
        self.view_position@ + self.view_proj[0]@ + self.view_proj[1]@ + self.view_proj[2]@
            + self.view_proj[3]@
    }

    /// The words of the block in buffer order: 80 bytes, a whole number of
    /// 16-byte vectors.
    pub fn words(&self) -> (words: Vec<u32>)
        ensures
            words@ == self.spec_words(),
            words@.len() == 20,
            (4 * words@.len()) % 16 == 0,
    {
        let mut words: Vec<u32> = Vec::new();
        words.push(self.view_position[0]);
        words.push(self.view_position[1]);
        words.push(self.view_position[2]);
        words.push(self.view_position[3]);
        let mut c: usize = 0;
        while c < 4
            invariant
                c <= 4,
                words@.len() == 4 + 4 * c,
                words@.subrange(0, 4) == self.view_position@,
                forall|k: int|
                    0 <= k < c ==> #[trigger] words@.subrange(4 + 4 * k, 8 + 4 * k)
                        == self.view_proj[k]@,
            decreases 4 - c,
        {
            let ghost before = words@;
            let column = self.view_proj[c];
            words.push(column[0]);
            words.push(column[1]);
            words.push(column[2]);
            words.push(column[3]);
            proof {
                assert(words@.subrange(0, 4) =~= before.subrange(0, 4));
                assert forall|k: int| 0 <= k < c + 1 implies #[trigger] words@.subrange(
                    4 + 4 * k,
                    8 + 4 * k,
                ) == self.view_proj[k]@ by {
                    if k < c {
                        assert(words@.subrange(4 + 4 * k, 8 + 4 * k) =~= before.subrange(
                            4 + 4 * k,
                            8 + 4 * k,
                        ));
                    } else {
                        assert(words@.subrange(4 + 4 * k, 8 + 4 * k) =~= column@);
                    }
                }
            }
            c += 1;
        }
        proof {
            let w = words@;
            assert(w.subrange(4 + 4 * 0int, 8 + 4 * 0int) == self.view_proj[0]@);
            assert(w.subrange(4 + 4 * 1int, 8 + 4 * 1int) == self.view_proj[1]@);
            assert(w.subrange(4 + 4 * 2int, 8 + 4 * 2int) == self.view_proj[2]@);
            assert(w.subrange(4 + 4 * 3int, 8 + 4 * 3int) == self.view_proj[3]@);
            assert(w =~= w.subrange(0, 4) + w.subrange(4, 8) + w.subrange(8, 12) + w.subrange(
                12,
                16,
            ) + w.subrange(16, 20));
        }
        words
    }
}

/// A uniform buffer with its contents, and the bind group that binds it.
#[derive(Clone, Debug, PartialEq, Eq)]
pub struct UniformBinding {
    pub buffer: BufferInitDescriptor,
    pub bind_group: BindGroupDescriptor,
}

impl UniformBinding {
    /// The buffer is a uniform buffer that can be copied into and holds the
    /// image of `words`; the group binds it whole at binding 0.
    pub open spec fn holds(
        &self,
        words: Seq<u32>,
        buffer_label: &str,
        group_label: &str,
    ) -> bool {
        &&& self.buffer.label@ == buffer_label@
        &&& self.buffer.usage == (BufferUsages {
            copy_dst: true,
            index: false,
            vertex: false,
            uniform: true,
        })
        &&& is_image_u32(self.buffer.contents@, words)
        &&& self.bind_group.label@ == group_label@
        &&& self.bind_group.entries@ == seq![
            (BindGroupEntry { binding: 0, resource: BindingResource::Buffer }),
        ]
    }

    /// A fresh uniform buffer that holds `words`, and its bind group.
    pub(crate) fn new(words: &Vec<u32>, buffer_label: &'static str, group_label: &'static str) -> (made:
        UniformBinding)
        ensures
            made.holds(words@, buffer_label, group_label),
            group_matches(seq![uniform_entry()], made.bind_group.entries@),
    {
        UniformBinding {
            buffer: BufferInitDescriptor {
                label: buffer_label,
                contents: cast_u32_slice(words.as_slice()),
                usage: BufferUsages { copy_dst: true, index: false, vertex: false, uniform: true },
            },
            bind_group: BindGroupDescriptor::uniform(group_label),
        }
    }
}

/// The camera.
#[derive(Clone, Debug, PartialEq, Eq)]
pub struct Camera {
    pub position: [u32; 3],
    pub yaw: u32,
    pub pitch: u32,
    pub projection: Projection,
    pub uniform: CameraUniform,
    pub bind_group_layout: BindGroupLayoutDescriptor,
}

impl Camera {
    /// The bind group layout is that of one uniform block at binding 0,
    /// visible to the vertex and the fragment stage.
    pub open spec fn layout_wf(&self) -> bool {
        &&& self.bind_group_layout.label@ == "camera_bind_group_layout"@
        &&& self.bind_group_layout.entries@ == seq![uniform_entry()]
        &&& self.bind_group_layout.wf()
    }

    /// A camera at `position` that looks along `yaw` and `pitch`. Until the
    /// first `update_view_proj` its uniform block holds the zero position and
    /// the identity matrix.
    pub fn new(position: [u32; 3], yaw: u32, pitch: u32, projection: Projection) -> (camera: Camera)
        ensures
            camera.position == position,
            camera.yaw == yaw,
            camera.pitch == pitch,
            camera.projection == projection,
            camera.uniform.view_position == [ZERO, ZERO, ZERO, ZERO],
            camera.uniform.view_proj == identity(),
            camera.layout_wf(),
    {
        let view_position: [u32; 4] = [ZERO, ZERO, ZERO, ZERO];
        let view_proj: [[u32; 4]; 4] = [
            [ONE, ZERO, ZERO, ZERO],
            [ZERO, ONE, ZERO, ZERO],
            [ZERO, ZERO, ONE, ZERO],
            [ZERO, ZERO, ZERO, ONE],
        ];
        proof {
            assert(view_position =~= [ZERO, ZERO, ZERO, ZERO]);
            assert(view_proj[0] =~= identity()[0]);
            assert(view_proj[1] =~= identity()[1]);
            assert(view_proj[2] =~= identity()[2]);
            assert(view_proj[3] =~= identity()[3]);
            assert(view_proj =~= identity());
        }
        Camera {
            position,
            yaw,
            pitch,
            projection,
            uniform: CameraUniform { view_position, view_proj },
            bind_group_layout: BindGroupLayoutDescriptor::uniform("camera_bind_group_layout"),
        }
    }

    /// The camera after its uniform block took the position it has and the
    /// given product of projection and view matrix.
    pub open spec fn updated(self, view_proj: [[u32; 4]; 4]) -> Camera {
        Camera {
            uniform: CameraUniform { view_position: homogeneous(self.position), view_proj },
            ..self
        }
    }

    /// Brings the uniform block up to date: it takes the camera's position in
    /// homogeneous coordinates and `view_proj`, the product of the projection
    /// matrix and the view matrix for the camera's present pose.
    pub fn update_view_proj(&mut self, view_proj: [[u32; 4]; 4])
        ensures
            *final(self) == old(self).updated(view_proj),
    {
        let view_position: [u32; 4] = [self.position[0], self.position[1], self.position[2], ONE];
        assert(view_position =~= homogeneous(self.position));
        self.uniform = CameraUniform { view_position, view_proj };
    }

    /// Brings the uniform block up to date as `update_view_proj` does, then
    /// gives a fresh uniform buffer that holds it and the bind group that
    /// binds the buffer for the camera's layout.
    pub fn get_bind_group(&mut self, view_proj: [[u32; 4]; 4]) -> (binding: UniformBinding)
        ensures
            *final(self) == old(self).updated(view_proj),
            binding.holds(final(self).uniform.spec_words(), "camera_buffer", "camera_bind_group"),
            old(self).layout_wf() ==> group_matches(
                final(self).bind_group_layout.entries@,
                binding.bind_group.entries@,
            ),
    {
        self.update_view_proj(view_proj);
        let words = self.uniform.words();
        UniformBinding::new(&words, "camera_buffer", "camera_bind_group")
    }
}

/// Updating twice with the same matrix, with nothing moved in between, leaves
/// the camera as one update does.
pub proof fn update_view_proj_idempotent(camera: Camera, view_proj: [[u32; 4]; 4])
    ensures
        camera.updated(view_proj).updated(view_proj) == camera.updated(view_proj),
{
}

/// After an update the uniform block holds the position with a fourth
/// coordinate of 1 and the matrix that was given, whatever it held before.
pub proof fn update_view_proj_result(camera: Camera, view_proj: [[u32; 4]; 4])
    ensures
        camera.updated(view_proj).uniform.view_position@ == seq![
            camera.position[0],
            camera.position[1],
            camera.position[2],
            ONE,
        ],
        camera.updated(view_proj).uniform.view_proj == view_proj,
{
    assert(homogeneous(camera.position)@ =~= seq![
        camera.position[0],
        camera.position[1],
        camera.position[2],
        ONE,
    ]);
}

/// A key that the camera controller may be told of.
#[derive(Clone, Copy, Debug, PartialEq, Eq, Structural)]
pub enum Key {
    Forward,
    Backward,
    Left,
    Right,
    Up,
    Down,
    /// Any key that does not move the camera.
    Other,
}

/// Which movement keys are held down.
#[derive(Clone, Copy, Debug, PartialEq, Eq, Structural)]
pub struct CameraController {
    pub forward: bool,
    pub backward: bool,
    pub left: bool,
    pub right: bool,
    pub up: bool,
    pub down: bool,
}

/// The amount of a pair of opposed keys: 1 for the first alone, -1 for the
/// second alone, 0 for both or neither.
pub open spec fn axis(positive: bool, negative: bool) -> int {
    (if positive { 1int } else { 0int }) - (if negative { 1int } else { 0int })
}

impl CameraController {
    /// A controller with no key held.
    pub fn new() -> (controller: CameraController)
        ensures
            controller == (CameraController {
                forward: false,
                backward: false,
                left: false,
                right: false,
                up: false,
                down: false,
            }),
    {
        CameraController {
            forward: false,
            backward: false,
            left: false,
            right: false,
            up: false,
            down: false,
        }
    }

    /// The controller after `key` was pressed or released.
    pub open spec fn after(self, key: Key, pressed: bool) -> CameraController {
        match key {
            Key::Forward => CameraController { forward: pressed, ..self },
            Key::Backward => CameraController { backward: pressed, ..self },
            Key::Left => CameraController { left: pressed, ..self },
            Key::Right => CameraController { right: pressed, ..self },
            Key::Up => CameraController { up: pressed, ..self },
            Key::Down => CameraController { down: pressed, ..self },
            Key::Other => self,
        }
    }

    /// Takes note of a key that went down or up. Returns whether the key is
    /// one that moves the camera; any other key changes nothing.
    pub fn process_keyboard(&mut self, key: Key, pressed: bool) -> (handled: bool)
        ensures
            *final(self) == old(self).after(key, pressed),
            handled == (key != Key::Other),
    {
        match key {
            Key::Forward => {
                self.forward = pressed;
                true
            },
            Key::Backward => {
                self.backward = pressed;
                true
            },
            Key::Left => {
                self.left = pressed;
                true
            },
            Key::Right => {
                self.right = pressed;
                true
            },
            Key::Up => {
                self.up = pressed;
                true
            },
            Key::Down => {
                self.down = pressed;
                true
            },
            Key::Other => false,
        }
    }

    /// The amount of movement along the view direction: forward less backward.
    pub fn forward_amount(&self) -> (amount: i8)
        ensures
            amount == axis(self.forward, self.backward),
    {
        Self::amount(self.forward, self.backward)
    }

    /// The amount of movement to the right: right less left.
    pub fn strafe_amount(&self) -> (amount: i8)
        ensures
            amount == axis(self.right, self.left),
    {
        Self::amount(self.right, self.left)
    }

    /// The amount of movement upwards: up less down.
    pub fn vertical_amount(&self) -> (amount: i8)
        ensures
            amount == axis(self.up, self.down),
    {
        Self::amount(self.up, self.down)
    }

    fn amount(positive: bool, negative: bool) -> (amount: i8)
        ensures
            amount == axis(positive, negative),
    {
        let p: i8 = if positive {
            1
        } else {
            0
        };
        let n: i8 = if negative {
            1
        } else {
            0
        };
        p - n
    }
}

} // verus!
