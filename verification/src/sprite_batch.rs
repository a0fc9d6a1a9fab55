//! Sprite batching: sprites that follow each other with the same texture are
//! drawn with one call.
//!
//! A batch collects sprites and, when drawn, turns them into vertices,
//! indices and the GL calls that upload and draw them. Sprites are drawn in
//! the order in which they were added. A run of sprites ends, and is flushed
//! with one indexed draw, when the next sprite has another texture or when
//! the run has reached [`SpriteBatch::BATCH_SIZE`] sprites.

use crate::device::GraphicDevice;
use crate::gl::{
    DataSource, GlCommand, ARRAY_BUFFER, ELEMENT_ARRAY_BUFFER, TEXTURE0, TEXTURE_2D, TRIANGLES,
    UNSIGNED_SHORT,
};
use crate::shader::Shader;
use crate::texture::Texture;
use crate::vertex::{Vertex, VertexBuffer};
use vstd::prelude::*;

verus! {

/// Location of the uniform that takes the size of the viewport.
pub const RESOLUTION_LOC: u32 = 0;

/// A rectangle on screen and, once set, the texture to draw it with.
#[derive(Debug, Clone, Copy, PartialEq, Eq)]
pub struct Sprite {
    pos: [i32; 2],
    size: [u32; 2],
    texture: Option<Texture>,
}

impl Sprite {
    /// Position in pixels, from the upper left.
    pub closed spec fn position(self) -> [i32; 2] {
        self.pos
    }

    /// Width and height in pixels.
    pub closed spec fn extent(self) -> [u32; 2] {
        self.size
    }

    /// The texture, if one was set.
    pub closed spec fn image(self) -> Option<Texture> {
        self.texture
    }

    /// A sprite without a texture.
    pub fn with(pos: [i32; 2], size: [u32; 2]) -> (sprite: Sprite)
        ensures
            sprite.position() == pos,
            sprite.extent() == size,
            sprite.image() is None,
    {
        Sprite { pos, size, texture: None }
    }

    pub fn set_texture(&mut self, texture: Texture)
        ensures
            final(self).image() == Some(texture),
            final(self).position() == old(self).position(),
            final(self).extent() == old(self).extent(),
    {
        self.texture = Some(texture);
    }
}

/// What a batch keeps of a sprite that it will draw.
#[derive(Debug, Clone, Copy, PartialEq, Eq)]
pub struct BatchItem {
    pub pos: [i32; 2],
    pub size: [u32; 2],
    pub texture: Texture,
}

/// The run of sprites that is waiting to be flushed: the texture that is
/// bound, and how many sprites were recorded with it since the last flush.
pub struct Run {
    pub texture: Option<u32>,
    pub count: nat,
}

/// Corner `k` of an item's quad, counted from the upper left over the upper
/// right and the lower right to the lower left. Its texel is the same
/// corner of the texture's view, its colour opaque white.
pub open spec fn corner(item: BatchItem, k: int) -> Vertex {
    let right = k == 1 || k == 2;
    let low = k == 2 || k == 3;
    let area = item.texture.area();
    Vertex {
        position: [
            (item.pos[0] + if right {
                item.size[0] as int
            } else {
                0
            }) as i64,
            (item.pos[1] + if low {
                item.size[1] as int
            } else {
                0
            }) as i64,
        ],
        texel: [
            (area.pos[0] + if right {
                area.size[0] as int
            } else {
                0
            }) as u32,
            (area.pos[1] + if low {
                area.size[1] as int
            } else {
                0
            }) as u32,
        ],
        extent: item.texture.allocation(),
        color: [255u8, 255u8, 255u8, 255u8],
    }
}

/// Which corner of its quad the `k`-th index of a sprite names: the two
/// triangles are corners 0, 1, 2 and 0, 2, 3.
pub open spec fn index_corner(k: int) -> int {
    if k == 0 || k == 3 {
        0
    } else if k == 1 {
        1
    } else if k == 2 || k == 4 {
        2
    } else {
        3
    }
}

/// The run that is waiting once a sprite with the given texture was
/// recorded after the run `before`: one longer, or a new run of one sprite
/// where the texture is another or `before` was full.
pub open spec fn next_run(before: Run, texture: u32) -> Run {
    if before.texture == Some(texture) && before.count < SpriteBatch::BATCH_SIZE {
        Run { texture: Some(texture), count: before.count + 1 }
    } else {
        Run { texture: Some(texture), count: 1 }
    }
}

/// The run that is waiting after the first `k` items were recorded.
pub open spec fn run_after(items: Seq<BatchItem>, k: int) -> Run
    decreases k,
{
    if k <= 0 {
        Run { texture: None, count: 0 }
    } else {
        next_run(run_after(items, k - 1), items[k - 1].texture.raw())
    }
}

/// The vertices of all items: four for each, in the order of the items.
pub open spec fn quad_vertices(items: Seq<BatchItem>) -> Seq<Vertex> {
    Seq::new(4 * items.len(), |j: int| corner(items[j / 4], j % 4))
}

/// The indices of all items: six for each, in the order of the items. An
/// index counts vertices from the first vertex of the item's run.
pub open spec fn quad_indices(items: Seq<BatchItem>) -> Seq<u16> {
    Seq::new(
        6 * items.len(),
        |j: int| (4 * (run_after(items, j / 6 + 1).count - 1) + index_corner(j % 6)) as u16,
    )
}

/// The GL calls of one flush: the vertices and indices of `count` sprites,
/// of which the first is item `first`, are written to the start of the
/// buffers and drawn as triangles. There is none for a run without sprites.
pub open spec fn flush_commands(buffer: VertexBuffer, first: int, count: int) -> Seq<GlCommand> {
    if count <= 0 {
        Seq::empty()
    } else {
        seq![
            GlCommand::BindBuffer { target: ARRAY_BUFFER, buffer: Some(buffer.vertices()) },
            GlCommand::BufferSubData {
                target: ARRAY_BUFFER,
                offset: 0,
                source: DataSource::Vertices {
                    first: (4 * first) as usize,
                    count: (4 * count) as usize,
                },
            },
            GlCommand::AssertNoError,
            GlCommand::BindBuffer { target: ELEMENT_ARRAY_BUFFER, buffer: Some(buffer.indices()) },
            GlCommand::BufferSubData {
                target: ELEMENT_ARRAY_BUFFER,
                offset: 0,
                source: DataSource::Indices {
                    first: (6 * first) as usize,
                    count: (6 * count) as usize,
                },
            },
            GlCommand::AssertNoError,
            GlCommand::DrawElements {
                mode: TRIANGLES,
                count: (6 * count) as usize,
                element_type: UNSIGNED_SHORT,
                offset: 0,
            },
            GlCommand::AssertNoError,
        ]
    }
}

/// The GL calls made before a sprite with the given texture is recorded
/// after the run `before`, whose first sprite is item `first`. A run that is
/// full is flushed. Where the texture is not the one bound, the run is
/// flushed and the texture is bound to unit 0.
pub open spec fn turn_commands(buffer: VertexBuffer, before: Run, first: int, texture: u32) -> Seq<
    GlCommand,
> {
    if before.texture == Some(texture) {
        if before.count >= SpriteBatch::BATCH_SIZE {
            flush_commands(buffer, first, before.count as int)
        } else {
            Seq::empty()
        }
    } else {
        flush_commands(buffer, first, before.count as int) + seq![
            GlCommand::ActiveTexture { unit: TEXTURE0 },
            GlCommand::BindTexture { target: TEXTURE_2D, texture: Some(texture) },
        ]
    }
}

/// The GL calls made when item `k - 1` is recorded after `k - 1` others.
pub open spec fn step_commands(items: Seq<BatchItem>, buffer: VertexBuffer, k: int) -> Seq<
    GlCommand,
> {
    let before = run_after(items, k - 1);
    turn_commands(buffer, before, k - 1 - before.count, items[k - 1].texture.raw())
}

/// The GL calls made while the first `k` items are recorded.
pub open spec fn record_commands(items: Seq<BatchItem>, buffer: VertexBuffer, k: int) -> Seq<
    GlCommand,
>
    decreases k,
{
    if k <= 0 {
        Seq::empty()
    } else {
        record_commands(items, buffer, k - 1) + step_commands(items, buffer, k)
    }
}

/// The GL calls before the first item: the viewport and the program are
/// set, the program is told the size of the viewport, and the batch's vertex
/// array is bound.
pub open spec fn begin_commands(
    device: GraphicDevice,
    shader: Shader,
    buffer: VertexBuffer,
) -> Seq<GlCommand> {
    seq![
        device.viewport(),
        GlCommand::UseProgram(Some(shader.raw())),
        GlCommand::Uniform2 {
            location: RESOLUTION_LOC,
            x: device.viewport_size()[0],
            y: device.viewport_size()[1],
        },
        GlCommand::BindVertexArray { vertex_array: Some(buffer.vertex_array()) },
    ]
}

/// The GL calls after the last flush: texture, vertex array and program are
/// unbound.
pub open spec fn end_commands() -> Seq<GlCommand> {
    seq![
        GlCommand::BindTexture { target: TEXTURE_2D, texture: None },
        GlCommand::BindVertexArray { vertex_array: None },
        GlCommand::UseProgram(None),
    ]
}

/// The items that a draw turns into vertices and GL calls: all of them, or
/// none once the device was shut down.
pub open spec fn drawn(device: GraphicDevice, items: Seq<BatchItem>) -> Seq<BatchItem> {
    if device.shutting_down() {
        Seq::empty()
    } else {
        items
    }
}

/// All GL calls of drawing a batch of the given items: none where there is
/// no item.
pub open spec fn draw_commands(
    device: GraphicDevice,
    shader: Shader,
    buffer: VertexBuffer,
    items: Seq<BatchItem>,
) -> Seq<GlCommand> {
    if items.len() == 0 {
        Seq::empty()
    } else {
        let last = run_after(items, items.len() as int);
        begin_commands(device, shader, buffer) + record_commands(
            items,
            buffer,
            items.len() as int,
        ) + flush_commands(buffer, items.len() - last.count, last.count as int) + end_commands()
    }
}

/// Number of draw calls among GL calls.
pub open spec fn draw_calls(commands: Seq<GlCommand>) -> nat
    decreases commands.len(),
{
    if commands.len() == 0 {
        0
    } else {
        draw_calls(commands.drop_last()) + if commands.last() is DrawElements {
            1nat
        } else {
            0nat
        }
    }
}

/// What drawing a batch comes to: the GL calls to make, and the vertices and
/// indices that their uploads take their data from.
pub struct DrawPlan {
    pub commands: Vec<GlCommand>,
    pub vertices: Vec<Vertex>,
    pub indices: Vec<u16>,
}

/// Collects the sprites of a frame. Between draws it holds no sprite, no
/// vertex and no index.
pub struct SpriteBatch {
    items: Vec<BatchItem>,
    vertices: Vec<Vertex>,
    indices: Vec<u16>,
    vertex_buffer: VertexBuffer,
}

impl SpriteBatch {
    /// Most sprites drawn by one flush. Four vertices per sprite keep every
    /// index within sixteen bits.
    // Vertex buffer size is unbounded, but uniform buffers have a size limit.
    // If we ever send matrices via uniform buffers, we would need to limit
    // the batch size accordingly.
    pub const BATCH_SIZE: usize = 2048;

    /// The sprites recorded since the last draw, oldest first.
    pub closed spec fn items(&self) -> Seq<BatchItem> {
        self.items@
    }

    /// Vertices kept between calls.
    pub closed spec fn vertices(&self) -> Seq<Vertex> {
        self.vertices@
    }

    /// Indices kept between calls.
    pub closed spec fn indices(&self) -> Seq<u16> {
        self.indices@
    }

    /// The vertex array that the batch draws from.
    pub closed spec fn buffer(&self) -> VertexBuffer {
        self.vertex_buffer
    }

    /// An empty batch whose vertex array, of the freshly created GL names
    /// `handle`, `vertex_buffer` and `index_buffer`, has room for
    /// `BATCH_SIZE` sprites; with the GL calls that set the vertex array up.
    pub fn new(handle: u32, vertex_buffer: u32, index_buffer: u32) -> (r: (
        SpriteBatch,
        Vec<GlCommand>,
    ))
        ensures
            r.0.items().len() == 0,
            r.0.vertices().len() == 0,
            r.0.indices().len() == 0,
            r.0.buffer().vertex_array() == handle,
            r.0.buffer().vertices() == vertex_buffer,
            r.0.buffer().indices() == index_buffer,
            r.1@ == crate::vertex::setup_commands(
                r.0.buffer(),
                DataSource::Zeros { bytes: 262144usize },
                DataSource::Zeros { bytes: 24576usize },
                crate::gl::DYNAMIC_DRAW,
            ),
    {
        let (buffer, commands) = VertexBuffer::new_dynamic(
            handle,
            vertex_buffer,
            index_buffer,
            SpriteBatch::BATCH_SIZE * 4,
            SpriteBatch::BATCH_SIZE * 6,
        );
        let batch = SpriteBatch {
            items: Vec::with_capacity(SpriteBatch::BATCH_SIZE),
            vertices: Vec::with_capacity(SpriteBatch::BATCH_SIZE * 4),
            indices: Vec::with_capacity(SpriteBatch::BATCH_SIZE * 6),
            vertex_buffer: buffer,
        };
        (batch, commands)
    }

    /// Records a sprite for the next draw. A sprite without a texture is
    /// not drawn, and not recorded.
    pub fn add(&mut self, sprite: &Sprite)
        ensures
            final(self).buffer() == old(self).buffer(),
            final(self).vertices() == old(self).vertices(),
            final(self).indices() == old(self).indices(),
            final(self).items() == match sprite.image() {
                Some(texture) => old(self).items().push(
                    BatchItem { pos: sprite.position(), size: sprite.extent(), texture },
                ),
                None => old(self).items(),
            },
    {
        match sprite.texture {
            Some(texture) => {
                self.items.push(BatchItem { pos: sprite.pos, size: sprite.size, texture });
            },
            None => {},
        }
    }

    /// The vertex array that the batch draws from.
    pub fn vertex_buffer(&self) -> (buffer: VertexBuffer)
        ensures
            buffer == self.buffer(),
    {
        self.vertex_buffer
    }

    /// Number of sprites recorded since the last draw.
    pub fn len(&self) -> (n: usize)
        ensures
            n == self.items().len(),
    {
        self.items.len()
    }

    /// Turns the recorded sprites into vertices, indices and the GL calls
    /// that draw them, and forgets the sprites. Once the device was shut
    /// down nothing is drawn, and the sprites are forgotten all the same.
    pub fn draw(&mut self, device: &GraphicDevice, shader: &Shader) -> (plan: DrawPlan)
        ensures
            plan.commands@ == draw_commands(
                *device,
                *shader,
                old(self).buffer(),
                drawn(*device, old(self).items()),
            ),
            plan.vertices@ == quad_vertices(drawn(*device, old(self).items())),
            plan.indices@ == quad_indices(drawn(*device, old(self).items())),
            final(self).items().len() == 0,
            final(self).vertices().len() == 0,
            final(self).indices().len() == 0,
            final(self).buffer() == old(self).buffer(),
    {
        let mut commands: Vec<GlCommand> = Vec::new();
        self.vertices.clear();
        self.indices.clear();
        // Nothing to draw.
        if device.is_shutting_down() || self.items.is_empty() {
            self.items.clear();
            return DrawPlan { commands, vertices: Vec::new(), indices: Vec::new() };
        }
        commands.push(device.viewport_command());
        commands.push(GlCommand::UseProgram(Some(shader.program())));
        let canvas_size = device.get_viewport_size();
        commands.push(
            GlCommand::Uniform2 { location: RESOLUTION_LOC, x: canvas_size[0], y: canvas_size[1] },
        );
        commands.push(
            GlCommand::BindVertexArray { vertex_array: Some(self.vertex_buffer.handle()) },
        );
        proof {
            assert(commands@ =~= begin_commands(*device, *shader, self.vertex_buffer));
            assert(commands@ =~= begin_commands(*device, *shader, self.vertex_buffer)
                + record_commands(self.items@, self.vertex_buffer, 0));
        }
        let n = self.items.len();
        let mut i: usize = 0;
        let mut batch_count: usize = 0;
        let mut last_texture: Option<u32> = None;
        while i < n
            invariant
                n == self.items@.len(),
                i <= n,
                self.items@ == old(self).items@,
                self.vertex_buffer == old(self).vertex_buffer,
                commands@ == begin_commands(*device, *shader, self.vertex_buffer)
                    + record_commands(self.items@, self.vertex_buffer, i as int),
                last_texture == run_after(self.items@, i as int).texture,
                batch_count == run_after(self.items@, i as int).count,
                batch_count <= i,
                batch_count <= SpriteBatch::BATCH_SIZE,
                self.vertices@.len() == 4 * i,
                forall|j: int|
                    0 <= j < 4 * i ==> self.vertices@[j] == corner(self.items@[j / 4], j % 4),
                self.indices@.len() == 6 * i,
                forall|j: int|
                    0 <= j < 6 * i ==> self.indices@[j] == (4 * (run_after(
                        self.items@,
                        j / 6 + 1,
                    ).count - 1) + index_corner(j % 6)) as u16,
            decreases n - i,
        {
            let item = self.items[i];
            proof {
                assert(6 * i == self.indices.len());
            }
            batch_count = Self::turn(
                &mut commands,
                &self.vertex_buffer,
                i - batch_count,
                batch_count,
                last_texture,
                item.texture.raw_handle(),
            );
            last_texture = Some(item.texture.raw_handle());
            // Build vertices from sprite parameters.
            Self::push_quad(&mut self.vertices, &item);
            Self::push_indices(&mut self.indices, batch_count);
            proof {
                let items = self.items@;
                assert forall|j: int| 0 <= j < 4 * (i + 1) implies self.vertices@[j] == corner(
                    items[j / 4],
                    j % 4,
                ) by {
                    if j >= 4 * i {
                        assert(j / 4 == i && j % 4 == j - 4 * i);
                    }
                }
                assert forall|j: int| 0 <= j < 6 * (i + 1) implies self.indices@[j] == (4 * (
                run_after(items, j / 6 + 1).count - 1) + index_corner(j % 6)) as u16 by {
                    if j >= 6 * i {
                        assert(j / 6 == i && j % 6 == j - 6 * i);
                    }
                }
            }
            batch_count = batch_count + 1;
            i = i + 1;
        }
        // Flush the last sprites that didn't reach the threshold.
        proof {
            assert(6 * n == self.indices.len());
        }
        Self::flush(&mut commands, &self.vertex_buffer, n - batch_count, batch_count);
        commands.push(GlCommand::BindTexture { target: TEXTURE_2D, texture: None });
        commands.push(GlCommand::BindVertexArray { vertex_array: None });
        commands.push(GlCommand::UseProgram(None));
        let mut vertices: Vec<Vertex> = Vec::new();
        let mut indices: Vec<u16> = Vec::new();
        core::mem::swap(&mut self.vertices, &mut vertices);
        core::mem::swap(&mut self.indices, &mut indices);
        self.items.clear();
        proof {
            let items = old(self).items@;
            let last = run_after(items, n as int);
            assert(commands@ =~= begin_commands(*device, *shader, old(self).vertex_buffer)
                + record_commands(items, old(self).vertex_buffer, n as int) + flush_commands(
                old(self).vertex_buffer,
                n - last.count,
                last.count as int,
            ) + end_commands());
            assert(vertices@ =~= quad_vertices(items));
            assert(indices@ =~= quad_indices(items));
        }
        DrawPlan { commands, vertices, indices }
    }

    /// Appends the GL calls made before a sprite with the given texture is
    /// recorded, and returns how many sprites of the run are left waiting:
    /// none where the run was flushed.
    fn turn(
        commands: &mut Vec<GlCommand>,
        vertex_buf: &VertexBuffer,
        first: usize,
        batch_count: usize,
        last_texture: Option<u32>,
        texture: u32,
    ) -> (waiting: usize)
        requires
            6 * (first + batch_count) <= usize::MAX,
            batch_count <= SpriteBatch::BATCH_SIZE,
        ensures
            final(commands)@ == old(commands)@ + turn_commands(
                *vertex_buf,
                Run { texture: last_texture, count: batch_count as nat },
                first as int,
                texture,
            ),
            waiting + 1 == next_run(
                Run { texture: last_texture, count: batch_count as nat },
                texture,
            ).count,
            waiting < SpriteBatch::BATCH_SIZE,
    {
        let mut waiting = batch_count;
        if waiting >= SpriteBatch::BATCH_SIZE {
            Self::flush(commands, vertex_buf, first, waiting);
            waiting = 0;
        }
        // The buffer is flushed each time we encounter a new texture.
        let changed = match last_texture {
            Some(bound) => bound != texture,
            None => true,
        };
        if changed {
            Self::flush(commands, vertex_buf, first, waiting);
            waiting = 0;
            // Texture slot determined by sprite shader.
            commands.push(GlCommand::ActiveTexture { unit: TEXTURE0 });
            commands.push(GlCommand::BindTexture { target: TEXTURE_2D, texture: Some(texture) });
        }
        proof {
            assert(commands@ =~= old(commands)@ + turn_commands(
                *vertex_buf,
                Run { texture: last_texture, count: batch_count as nat },
                first as int,
                texture,
            ));
        }
        waiting
    }

    /// Appends the four corners of an item's quad.
    fn push_quad(vertices: &mut Vec<Vertex>, item: &BatchItem)
        ensures
            final(vertices)@.len() == old(vertices)@.len() + 4,
            forall|j: int|
                0 <= j < old(vertices)@.len() ==> final(vertices)@[j] == old(vertices)@[j],
            forall|k: int|
                0 <= k < 4 ==> final(vertices)@[old(vertices)@.len() + k] == corner(*item, k),
    {
        let area = item.texture.rect();
        let extent = item.texture.orig_size();
        let x: i64 = item.pos[0] as i64;
        let y: i64 = item.pos[1] as i64;
        let w: i64 = item.size[0] as i64;
        let h: i64 = item.size[1] as i64;
        let u: u32 = area.pos[0];
        let v: u32 = area.pos[1];
        let color: [u8; 4] = [255, 255, 255, 255];
        vertices.push(Vertex { position: [x, y], texel: [u, v], extent, color });
        vertices.push(Vertex { position: [x + w, y], texel: [u + area.size[0], v], extent, color });
        vertices.push(
            Vertex {
                position: [x + w, y + h],
                texel: [u + area.size[0], v + area.size[1]],
                extent,
                color,
            },
        );
        vertices.push(Vertex { position: [x, y + h], texel: [u, v + area.size[1]], extent, color });
    }

    /// Appends the six indices of the quad that is sprite `count` of its run.
    fn push_indices(indices: &mut Vec<u16>, count: usize)
        requires
            count < SpriteBatch::BATCH_SIZE,
        ensures
            final(indices)@.len() == old(indices)@.len() + 6,
            forall|j: int| 0 <= j < old(indices)@.len() ==> final(indices)@[j] == old(indices)@[j],
            forall|k: int|
                0 <= k < 6 ==> final(indices)@[old(indices)@.len() + k] == (4 * count
                    + index_corner(k)) as u16,
    {
        let base: u16 = (count * 4) as u16;
        indices.push(base);
        indices.push(base + 1);
        indices.push(base + 2);
        indices.push(base);
        indices.push(base + 2);
        indices.push(base + 3);
    }

    /// Appends the GL calls of one flush of `count` sprites, of which the
    /// first is item `first`: none for a run without sprites.
    pub fn flush(
        commands: &mut Vec<GlCommand>,
        vertex_buf: &VertexBuffer,
        first: usize,
        count: usize,
    )
        requires
            6 * (first + count) <= usize::MAX,
        ensures
            final(commands)@ == old(commands)@ + flush_commands(
                *vertex_buf,
                first as int,
                count as int,
            ),
    {
        if count == 0 {
            // Nothing to draw
            proof {
                assert(commands@ =~= old(commands)@ + flush_commands(
                    *vertex_buf,
                    first as int,
                    count as int,
                ));
            }
            return ;
        }
        // Upload new data.
        commands.push(
            GlCommand::BindBuffer {
                target: ARRAY_BUFFER,
                buffer: Some(vertex_buf.vertex_buffer()),
            },
        );
        commands.push(
            GlCommand::BufferSubData {
                target: ARRAY_BUFFER,
                offset: 0,
                source: DataSource::Vertices { first: 4 * first, count: 4 * count },
            },
        );
        commands.push(GlCommand::AssertNoError);
        commands.push(
            GlCommand::BindBuffer {
                target: ELEMENT_ARRAY_BUFFER,
                buffer: Some(vertex_buf.index_buffer()),
            },
        );
        commands.push(
            GlCommand::BufferSubData {
                target: ELEMENT_ARRAY_BUFFER,
                offset: 0,
                source: DataSource::Indices { first: 6 * first, count: 6 * count },
            },
        );
        commands.push(GlCommand::AssertNoError);
        commands.push(
            GlCommand::DrawElements {
                mode: TRIANGLES,
                count: 6 * count,
                element_type: UNSIGNED_SHORT,
                offset: 0,
            },
        );
        commands.push(GlCommand::AssertNoError);
        proof {
            assert(commands@ =~= old(commands)@ + flush_commands(
                *vertex_buf,
                first as int,
                count as int,
            ));
        }
    }
}

proof fn lemma_draw_calls_push(commands: Seq<GlCommand>, command: GlCommand)
    ensures
        draw_calls(commands.push(command)) == draw_calls(commands) + if command is DrawElements {
            1nat
        } else {
            0nat
        },
{
    assert(commands.push(command).drop_last() =~= commands);
}

/// The draw calls among two lists of GL calls, one after the other, are
/// those of the first and those of the second.
pub proof fn lemma_draw_calls_add(front: Seq<GlCommand>, back: Seq<GlCommand>)
    ensures
        draw_calls(front + back) == draw_calls(front) + draw_calls(back),
    decreases back.len(),
{
    if back.len() == 0 {
        assert(front + back =~= front);
    } else {
        assert((front + back).drop_last() =~= front + back.drop_last());
        lemma_draw_calls_add(front, back.drop_last());
    }
}

/// A flush of a run with sprites is one draw call; a flush of a run without
/// sprites is none.
pub proof fn lemma_flush_draw_calls(buffer: VertexBuffer, first: int, count: int)
    ensures
        draw_calls(flush_commands(buffer, first, count)) == if count > 0 {
            1nat
        } else {
            0nat
        },
{
    if count > 0 {
        let commands = flush_commands(buffer, first, count);
        let c0 = Seq::<GlCommand>::empty();
        let c1 = c0.push(commands[0]);
        let c2 = c1.push(commands[1]);
        let c3 = c2.push(commands[2]);
        let c4 = c3.push(commands[3]);
        let c5 = c4.push(commands[4]);
        let c6 = c5.push(commands[5]);
        let c7 = c6.push(commands[6]);
        let c8 = c7.push(commands[7]);
        lemma_draw_calls_push(c0, commands[0]);
        lemma_draw_calls_push(c1, commands[1]);
        lemma_draw_calls_push(c2, commands[2]);
        lemma_draw_calls_push(c3, commands[3]);
        lemma_draw_calls_push(c4, commands[4]);
        lemma_draw_calls_push(c5, commands[5]);
        lemma_draw_calls_push(c6, commands[6]);
        lemma_draw_calls_push(c7, commands[7]);
        assert(c8 =~= commands);
    }
}

proof fn lemma_step_draw_calls(items: Seq<BatchItem>, buffer: VertexBuffer, k: int)
    requires
        1 <= k <= items.len(),
    ensures
        draw_calls(step_commands(items, buffer, k)) == {
            let before = run_after(items, k - 1);
            if before.count > 0 && (before.texture != Some(items[k - 1].texture.raw())
                || before.count >= SpriteBatch::BATCH_SIZE) {
                1nat
            } else {
                0nat
            }
        },
{
    let before = run_after(items, k - 1);
    let texture = items[k - 1].texture.raw();
    let first = k - 1 - before.count;
    let flush = flush_commands(buffer, first, before.count as int);
    lemma_flush_draw_calls(buffer, first, before.count as int);
    if before.texture != Some(texture) {
        let bind = seq![
            GlCommand::ActiveTexture { unit: TEXTURE0 },
            GlCommand::BindTexture { target: TEXTURE_2D, texture: Some(texture) },
        ];
        lemma_draw_calls_add(flush, bind);
        lemma_draw_calls_push(Seq::<GlCommand>::empty(), bind[0]);
        lemma_draw_calls_push(Seq::<GlCommand>::empty().push(bind[0]), bind[1]);
        assert(Seq::<GlCommand>::empty().push(bind[0]).push(bind[1]) =~= bind);
    }
}

/// Drawing a batch makes the draw calls of recording its items, and one
/// more for the run that is left at the end.
proof fn lemma_draw_calls_of_draw(
    device: GraphicDevice,
    shader: Shader,
    buffer: VertexBuffer,
    items: Seq<BatchItem>,
)
    requires
        items.len() > 0,
    ensures
        draw_calls(draw_commands(device, shader, buffer, items)) == draw_calls(
            record_commands(items, buffer, items.len() as int),
        ) + 1,
        run_after(items, items.len() as int).count > 0,
{
    let n = items.len() as int;
    let last = run_after(items, n);
    let begin = begin_commands(device, shader, buffer);
    let record = record_commands(items, buffer, n);
    let flush = flush_commands(buffer, n - last.count, last.count as int);
    let end = end_commands();
    lemma_flush_draw_calls(buffer, n - last.count, last.count as int);
    lemma_draw_calls_add(begin + record + flush, end);
    lemma_draw_calls_add(begin + record, flush);
    lemma_draw_calls_add(begin, record);
    let e = Seq::<GlCommand>::empty();
    lemma_draw_calls_push(e, begin[0]);
    lemma_draw_calls_push(e.push(begin[0]), begin[1]);
    lemma_draw_calls_push(e.push(begin[0]).push(begin[1]), begin[2]);
    lemma_draw_calls_push(e.push(begin[0]).push(begin[1]).push(begin[2]), begin[3]);
    assert(e.push(begin[0]).push(begin[1]).push(begin[2]).push(begin[3]) =~= begin);
    lemma_draw_calls_push(e, end[0]);
    lemma_draw_calls_push(e.push(end[0]), end[1]);
    lemma_draw_calls_push(e.push(end[0]).push(end[1]), end[2]);
    assert(e.push(end[0]).push(end[1]).push(end[2]) =~= end);
}

proof fn lemma_one_texture_run(items: Seq<BatchItem>, buffer: VertexBuffer, k: int)
    requires
        1 <= k <= items.len(),
        forall|i: int, j: int|
            0 <= i < items.len() && 0 <= j < items.len() ==> items[i].texture.raw()
                == items[j].texture.raw(),
    ensures
        run_after(items, k).texture == Some(items[0].texture.raw()),
        run_after(items, k).count == (k - 1) % (SpriteBatch::BATCH_SIZE as int) + 1,
        draw_calls(record_commands(items, buffer, k)) == (k - 1) / (
        SpriteBatch::BATCH_SIZE as int),
    decreases k,
{
    lemma_step_draw_calls(items, buffer, k);
    lemma_draw_calls_add(record_commands(items, buffer, k - 1), step_commands(items, buffer, k));
    if k > 1 {
        lemma_one_texture_run(items, buffer, k - 1);
    } else {
        assert(record_commands(items, buffer, 0) =~= Seq::<GlCommand>::empty());
    }
}

/// On a device that was not shut down, sprites that all have the same
/// texture are drawn with one flush for every `BATCH_SIZE` of them, and one
/// more for what is left over.
pub proof fn lemma_one_texture_flushes(
    device: GraphicDevice,
    shader: Shader,
    buffer: VertexBuffer,
    items: Seq<BatchItem>,
)
    requires
        !device.shutting_down(),
        forall|i: int, j: int|
            0 <= i < items.len() && 0 <= j < items.len() ==> items[i].texture.raw()
                == items[j].texture.raw(),
    ensures
        draw_calls(draw_commands(device, shader, buffer, drawn(device, items))) == (items.len()
            + SpriteBatch::BATCH_SIZE - 1) / (SpriteBatch::BATCH_SIZE as int),
{
    if items.len() > 0 {
        lemma_draw_calls_of_draw(device, shader, buffer, items);
        lemma_one_texture_run(items, buffer, items.len() as int);
    }
}

proof fn lemma_changing_texture_run(items: Seq<BatchItem>, buffer: VertexBuffer, k: int)
    requires
        1 <= k <= items.len(),
        forall|i: int, j: int|
            0 <= i && j == i + 1 && j < items.len() ==> (#[trigger] items[i]).texture.raw() != (
            #[trigger] items[j]).texture.raw(),
    ensures
        run_after(items, k).texture == Some(items[k - 1].texture.raw()),
        run_after(items, k).count == 1,
        draw_calls(record_commands(items, buffer, k)) == k - 1,
    decreases k,
{
    lemma_step_draw_calls(items, buffer, k);
    lemma_draw_calls_add(record_commands(items, buffer, k - 1), step_commands(items, buffer, k));
    if k > 1 {
        lemma_changing_texture_run(items, buffer, k - 1);
    } else {
        assert(record_commands(items, buffer, 0) =~= Seq::<GlCommand>::empty());
    }
}

/// On a device that was not shut down, sprites of which each has another
/// texture than the one before it, as when two textures alternate, are
/// drawn with one flush each.
pub proof fn lemma_changing_texture_flushes(
    device: GraphicDevice,
    shader: Shader,
    buffer: VertexBuffer,
    items: Seq<BatchItem>,
)
    requires
        !device.shutting_down(),
        forall|i: int, j: int|
            0 <= i && j == i + 1 && j < items.len() ==> (#[trigger] items[i]).texture.raw() != (
            #[trigger] items[j]).texture.raw(),
    ensures
        draw_calls(draw_commands(device, shader, buffer, drawn(device, items))) == items.len(),
{
    if items.len() > 0 {
        lemma_draw_calls_of_draw(device, shader, buffer, items);
        lemma_changing_texture_run(items, buffer, items.len() as int);
    }
}

/// No run is longer than `BATCH_SIZE`, and a run has a sprite once any
/// was recorded.
pub proof fn lemma_run_bounded(items: Seq<BatchItem>, k: int)
    ensures
        run_after(items, k).count <= SpriteBatch::BATCH_SIZE,
        k >= 1 ==> run_after(items, k).count >= 1,
        run_after(items, k).count <= k || k < 0,
    decreases k,
{
    if k > 0 {
        lemma_run_bounded(items, k - 1);
    }
}

/// Every index names one of the `4 * BATCH_SIZE` vertices that a flush
/// uploads at most, which sixteen bits can hold: index `j` is the number of
/// the corner it names among the vertices of its run.
pub proof fn lemma_indices_in_range(items: Seq<BatchItem>, j: int)
    requires
        0 <= j < 6 * items.len(),
    ensures
        quad_indices(items)[j] == 4 * (run_after(items, j / 6 + 1).count - 1) + index_corner(j % 6),
        quad_indices(items)[j] < 4 * SpriteBatch::BATCH_SIZE,
        4 * SpriteBatch::BATCH_SIZE <= 65536,
{
    lemma_run_bounded(items, j / 6 + 1);
}

} // verus!
