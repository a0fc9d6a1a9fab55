//! Graphics device: the state kept beside the GL context.
//!
//! The device knows the extensions of the context, the size of the viewport,
//! and the GPU objects whose owners are gone. Those objects are deleted when
//! the device maintains itself, never where an owner happens to be dropped.

use crate::gl::{
    GlCommand, CCW, COLOR_BUFFER_BIT, TEXTURE0, TEXTURE_2D, TRIANGLES, UNSIGNED_SHORT,
};
use crate::shader::Shader;
use crate::sprite::Sprite;
use vstd::prelude::*;
use vstd::string::StringExecFns;

verus! {

/// A GPU object that waits for its deletion.
#[derive(Debug, Clone, Copy, PartialEq, Eq)]
pub enum Destroy {
    Texture(u32),
    Shader(u32),
    VertexArray(u32),
}

impl Destroy {
    /// The GL call that deletes the object.
    pub open spec fn deletion(self) -> GlCommand {
        match self {
            Destroy::Texture(texture) => GlCommand::DeleteTexture(texture),
            Destroy::Shader(program) => GlCommand::DeleteProgram(program),
            Destroy::VertexArray(vertex_array) => GlCommand::DeleteVertexArray(vertex_array),
        }
    }

    /// The GL call that deletes the object.
    pub fn command(&self) -> (command: GlCommand)
        ensures
            command == self.deletion(),
    {
        match *self {
            Destroy::Texture(texture) => GlCommand::DeleteTexture(texture),
            Destroy::Shader(program) => GlCommand::DeleteProgram(program),
            Destroy::VertexArray(vertex_array) => GlCommand::DeleteVertexArray(vertex_array),
        }
    }
}

/// A whole number of pixels as the signed number that GL takes: numbers
/// above `i32::MAX` become `i32::MAX`.
pub open spec fn as_gl_extent(pixels: u32) -> i32 {
    if pixels > i32::MAX {
        i32::MAX
    } else {
        pixels as i32
    }
}

/// Converts a size in physical pixels to signed numbers with
/// `glutin::dpi::PhysicalSize::cast`, which takes each dimension through a
/// float, rounds it and converts it to `i32`; for a `u32` that keeps the
/// number, or gives `i32::MAX` where it is larger.
#[verifier::external_body]
fn cast_size(width: u32, height: u32) -> (size: (i32, i32))
    ensures
        size.0 == as_gl_extent(width),
        size.1 == as_gl_extent(height),
{
    let size = glutin::dpi::PhysicalSize::new(width, height).cast::<i32>();
    (size.width, size.height)
}

/// The GL calls that draw one sprite on its own: its vertex array and its
/// texture are bound, and its two triangles are drawn. A sprite without a
/// texture is not drawn.
pub open spec fn sprite_commands(sprite: Sprite) -> Seq<GlCommand> {
    match sprite.image_handle() {
        Some(texture) => seq![
            GlCommand::BindVertexArray { vertex_array: Some(sprite.buffer().vertex_array()) },
            GlCommand::ActiveTexture { unit: TEXTURE0 },
            GlCommand::BindTexture { target: TEXTURE_2D, texture: Some(texture) },
            GlCommand::DrawElements {
                mode: TRIANGLES,
                count: 6,
                element_type: UNSIGNED_SHORT,
                offset: 0,
            },
            GlCommand::AssertNoError,
        ],
        None => Seq::empty(),
    }
}

/// The GL calls that draw the first `k` of the given sprites, one after the
/// other.
pub open spec fn sprites_commands(sprites: Seq<Sprite>, k: int) -> Seq<GlCommand>
    decreases k,
{
    if k <= 0 {
        Seq::empty()
    } else {
        sprites_commands(sprites, k - 1) + sprite_commands(sprites[k - 1])
    }
}

/// What the renderer keeps of a GL context: the names of its extensions, the
/// GPU objects that wait for deletion, the size of the viewport, and whether
/// the device was shut down.
pub struct GraphicDevice {
    extensions: Vec<String>,
    pending: Vec<Destroy>,
    size: [u32; 2],
    shutting_down: bool,
}

impl GraphicDevice {
    /// The names of the extensions that the context has.
    pub closed spec fn extensions(&self) -> Seq<Seq<char>> {
        Seq::new(self.extensions@.len(), |i: int| self.extensions@[i]@)
    }

    /// The objects that wait for deletion, oldest first.
    pub closed spec fn pending(&self) -> Seq<Destroy> {
        self.pending@
    }

    /// Width and height of the viewport.
    pub closed spec fn viewport_size(&self) -> [u32; 2] {
        self.size
    }

    /// Set once the device was shut down.
    pub closed spec fn shutting_down(&self) -> bool {
        self.shutting_down
    }

    /// The GL call that sets the viewport to the device's size.
    pub open spec fn viewport(&self) -> GlCommand {
        GlCommand::Viewport {
            x: 0,
            y: 0,
            width: as_gl_extent(self.viewport_size()[0]),
            height: as_gl_extent(self.viewport_size()[1]),
        }
    }

    /// A device for a context with the given extensions, and the GL calls
    /// that set the state the renderer relies on: counter-clockwise front
    /// faces.
    pub fn new(extensions: Vec<String>) -> (r: (GraphicDevice, Vec<GlCommand>))
        ensures
            r.0.extensions() == Seq::new(extensions@.len(), |i: int| extensions@[i]@),
            r.0.pending() == Seq::<Destroy>::empty(),
            r.0.viewport_size() == [640u32, 480u32],
            !r.0.shutting_down(),
            r.1@ == seq![GlCommand::FrontFace { mode: CCW }],
    {
        let mut commands: Vec<GlCommand> = Vec::new();
        commands.push(GlCommand::FrontFace { mode: CCW });
        let device = GraphicDevice {
            extensions,
            pending: Vec::new(),
            size: [640, 480],
            shutting_down: false,
        };
        proof {
            assert(commands@ =~= seq![GlCommand::FrontFace { mode: CCW }]);
        }
        (device, commands)
    }

    /// Whether the context has the extension of the given name.
    pub fn has_extension(&self, extension: &str) -> (r: bool)
        ensures
            r == self.extensions().contains(extension@),
    {
        let wanted = String::from_str(extension);
        let mut i: usize = 0;
        while i < self.extensions.len()
            invariant
                i <= self.extensions@.len(),
                wanted@ == extension@,
                forall|j: int| 0 <= j < i ==> self.extensions()[j] != extension@,
            decreases self.extensions@.len() - i,
        {
            if self.extensions[i] == wanted {
                proof {
                    assert(self.extensions()[i as int] == extension@);
                }
                return true;
            }
            i = i + 1;
        }
        false
    }

    /// Queues a GPU object for deletion at the next `maintain`.
    pub fn enqueue(&mut self, resource: Destroy)
        ensures
            final(self).pending() == old(self).pending().push(resource),
            final(self).extensions() == old(self).extensions(),
            final(self).viewport_size() == old(self).viewport_size(),
            final(self).shutting_down() == old(self).shutting_down(),
    {
        self.pending.push(resource);
    }

    pub fn set_viewport_size(&mut self, size: [u32; 2])
        ensures
            final(self).viewport_size() == size,
            final(self).extensions() == old(self).extensions(),
            final(self).pending() == old(self).pending(),
            final(self).shutting_down() == old(self).shutting_down(),
    {
        self.size = size;
    }

    pub fn get_viewport_size(&self) -> (size: [u32; 2])
        ensures
            size == self.viewport_size(),
    {
        self.size
    }

    /// Whether the device was shut down.
    pub fn is_shutting_down(&self) -> (r: bool)
        ensures
            r == self.shutting_down(),
    {
        self.shutting_down
    }

    /// The GL call that sets the viewport to the device's size.
    pub fn viewport_command(&self) -> (command: GlCommand)
        ensures
            command == self.viewport(),
    {
        let (width, height) = cast_size(self.size[0], self.size[1]);
        GlCommand::Viewport { x: 0, y: 0, width, height }
    }

    /// The GL calls that clear the colour buffer of the whole viewport to
    /// the given colour, each channel the bit pattern of a 32-bit float.
    pub fn clear_screen(&self, color: [u32; 4]) -> (commands: Vec<GlCommand>)
        ensures
            commands@ == seq![
                self.viewport(),
                GlCommand::ClearColor { rgba: color },
                GlCommand::Clear { mask: COLOR_BUFFER_BIT },
                GlCommand::AssertNoError,
            ],
    {
        let mut commands: Vec<GlCommand> = Vec::new();
        commands.push(self.viewport_command());
        commands.push(GlCommand::ClearColor { rgba: color });
        commands.push(GlCommand::Clear { mask: COLOR_BUFFER_BIT });
        commands.push(GlCommand::AssertNoError);
        proof {
            assert(commands@ =~= seq![
                self.viewport(),
                GlCommand::ClearColor { rgba: color },
                GlCommand::Clear { mask: COLOR_BUFFER_BIT },
                GlCommand::AssertNoError,
            ]);
        }
        commands
    }

    /// The GL calls that draw the given sprites, each on its own, with the
    /// given shader: none once the device was shut down.
    pub fn draw(&self, sprites: &[Sprite], shader: &Shader) -> (commands: Vec<GlCommand>)
        ensures
            self.shutting_down() ==> commands@ == Seq::<GlCommand>::empty(),
            !self.shutting_down() ==> commands@ == seq![
                self.viewport(),
                GlCommand::UseProgram(Some(shader.raw())),
                GlCommand::Uniform2 {
                    location: 0,
                    x: self.viewport_size()[0],
                    y: self.viewport_size()[1],
                },
            ] + sprites_commands(sprites@, sprites@.len() as int) + seq![
                GlCommand::BindVertexArray { vertex_array: None },
                GlCommand::UseProgram(None),
            ],
    {
        let mut commands: Vec<GlCommand> = Vec::new();
        // Destroying resources before a draw will cause memory access errors.
        if self.shutting_down {
            return commands;
        }
        commands.push(self.viewport_command());
        commands.push(GlCommand::UseProgram(Some(shader.program())));
        commands.push(GlCommand::Uniform2 { location: 0, x: self.size[0], y: self.size[1] });
        let ghost begin = commands@;
        proof {
            assert(commands@ =~= begin + sprites_commands(sprites@, 0));
        }
        let mut i: usize = 0;
        while i < sprites.len()
            invariant
                i <= sprites@.len(),
                commands@ == begin + sprites_commands(sprites@, i as int),
            decreases sprites@.len() - i,
        {
            let ghost drawn = commands@;
            // Only sprites with textures are drawn.
            match sprites[i].texture_handle() {
                Some(texture_handle) => {
                    commands.push(
                        GlCommand::BindVertexArray {
                            vertex_array: Some(sprites[i].vertex_buffer().handle()),
                        },
                    );
                    commands.push(GlCommand::ActiveTexture { unit: TEXTURE0 });
                    commands.push(
                        GlCommand::BindTexture {
                            target: TEXTURE_2D,
                            texture: Some(texture_handle),
                        },
                    );
                    commands.push(
                        GlCommand::DrawElements {
                            mode: TRIANGLES,
                            count: 6,
                            element_type: UNSIGNED_SHORT,
                            offset: 0,
                        },
                    );
                    commands.push(GlCommand::AssertNoError);
                },
                None => {},
            }
            proof {
                assert(commands@ =~= drawn + sprite_commands(sprites@[i as int]));
                assert(commands@ =~= begin + sprites_commands(sprites@, i + 1));
            }
            i = i + 1;
        }
        // Cleanup
        commands.push(GlCommand::BindVertexArray { vertex_array: None });
        commands.push(GlCommand::UseProgram(None));
        proof {
            assert(begin =~= seq![
                self.viewport(),
                GlCommand::UseProgram(Some(shader.raw())),
                GlCommand::Uniform2 {
                    location: 0,
                    x: self.viewport_size()[0],
                    y: self.viewport_size()[1],
                },
            ]);
            assert(commands@ =~= begin + sprites_commands(sprites@, sprites@.len() as int) + seq![
                GlCommand::BindVertexArray { vertex_array: None },
                GlCommand::UseProgram(None),
            ]);
        }
        commands
    }

    /// Empties the queue of objects that wait for deletion, and returns the
    /// GL call that deletes each of them, in the order in which they were
    /// queued.
    pub fn maintain(&mut self) -> (commands: Vec<GlCommand>)
        ensures
            commands@ == Seq::new(
                old(self).pending().len(),
                |i: int| old(self).pending()[i].deletion(),
            ),
            final(self).pending() == Seq::<Destroy>::empty(),
            final(self).extensions() == old(self).extensions(),
            final(self).viewport_size() == old(self).viewport_size(),
            final(self).shutting_down() == old(self).shutting_down(),
    {
        let mut commands: Vec<GlCommand> = Vec::new();
        let mut i: usize = 0;
        while i < self.pending.len()
            invariant
                i <= self.pending@.len(),
                commands@ == Seq::new(i as nat, |k: int| self.pending@[k].deletion()),
                *self == *old(self),
            decreases self.pending@.len() - i,
        {
            commands.push(self.pending[i].command());
            i = i + 1;
            proof {
                assert(commands@ =~= Seq::new(i as nat, |k: int| self.pending@[k].deletion()));
            }
        }
        self.pending.clear();
        proof {
            assert(commands@ =~= Seq::new(
                old(self).pending().len(),
                |i: int| old(self).pending()[i].deletion(),
            ));
        }
        commands
    }

    /// Marks the device as shut down, so that it draws nothing from now on,
    /// and maintains it once.
    pub fn shutdown(&mut self) -> (commands: Vec<GlCommand>)
        ensures
            final(self).shutting_down(),
            commands@ == Seq::new(
                old(self).pending().len(),
                |i: int| old(self).pending()[i].deletion(),
            ),
            final(self).pending() == Seq::<Destroy>::empty(),
            final(self).extensions() == old(self).extensions(),
            final(self).viewport_size() == old(self).viewport_size(),
    {
        self.shutting_down = true;
        self.maintain()
    }
}

/// What the GL context says of itself.
#[derive(Debug, Clone, PartialEq, Eq)]
pub struct OpenGlInfo {
    pub version: String,
    pub vendor: String,
    pub renderer: String,
}

impl OpenGlInfo {
    /// The three lines of the report, under their heading.
    pub open spec fn text(self) -> Seq<char> {
        "OpenGL Info:\n    Version: "@ + self.version@ + "\n    Vendor: "@ + self.vendor@
            + "\n    Renderer: "@ + self.renderer@ + "\n"@
    }

    /// The report as text.
    pub fn to_text(&self) -> (s: String)
        ensures
            s@ == self.text(),
    {
        let mut s = String::from_str("OpenGL Info:\n    Version: ");
        s.append(self.version.as_str());
        s.append("\n    Vendor: ");
        s.append(self.vendor.as_str());
        s.append("\n    Renderer: ");
        s.append(self.renderer.as_str());
        s.append("\n");
        s
    }
}

} // verus!
