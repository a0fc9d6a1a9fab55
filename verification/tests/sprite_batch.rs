use glsprite::device::GraphicDevice;
use glsprite::gl::{DataSource, GlCommand};
use glsprite::shader::Shader;
use glsprite::sprite_batch::{DrawPlan, Sprite, SpriteBatch};
use glsprite::texture::Texture;
use glsprite::vertex::Vertex;

fn device() -> GraphicDevice {
    GraphicDevice::new(vec!["GL_ARB_texture_non_power_of_two".to_string()]).0
}

fn shader() -> Shader {
    Shader::from_source(90, 91, 92, true, String::new()).unwrap().0
}

fn texture(handle: u32) -> Texture {
    Texture::new(&device(), handle, 64, 32).unwrap().0
}

fn sprite(texture: &Texture) -> Sprite {
    let mut sprite = Sprite::with([0, 0], [10, 10]);
    sprite.set_texture(*texture);
    sprite
}

fn batch() -> SpriteBatch {
    SpriteBatch::new(50, 51, 52).0
}

fn draw_counts(plan: &DrawPlan) -> Vec<usize> {
    plan.commands
        .iter()
        .filter_map(|command| match command {
            GlCommand::DrawElements { count, .. } => Some(*count),
            _ => None,
        })
        .collect()
}

#[test]
fn runs_of_one_texture_are_flushed_together() {
    let a = texture(1);
    let b = texture(2);
    let mut batch = batch();
    for texture in [&a, &a, &a, &b, &b, &a] {
        batch.add(&sprite(texture));
    }
    let plan = batch.draw(&device(), &shader());
    assert_eq!(draw_counts(&plan), vec![18, 12, 6]);
    assert_eq!(plan.vertices.len(), 24);
    assert_eq!(plan.indices.len(), 36);
}

#[test]
fn draw_of_two_runs_in_full() {
    let a = texture(1);
    let b = texture(2);
    let mut batch = batch();
    batch.add(&sprite(&a));
    batch.add(&sprite(&a));
    batch.add(&sprite(&b));
    let mut device = device();
    device.set_viewport_size([800, 600]);
    let plan = batch.draw(&device, &shader());
    let flush = |first: usize, count: usize| {
        vec![
            GlCommand::BindBuffer { target: 0x8892, buffer: Some(51) },
            GlCommand::BufferSubData {
                target: 0x8892,
                offset: 0,
                source: DataSource::Vertices { first: 4 * first, count: 4 * count },
            },
            GlCommand::AssertNoError,
            GlCommand::BindBuffer { target: 0x8893, buffer: Some(52) },
            GlCommand::BufferSubData {
                target: 0x8893,
                offset: 0,
                source: DataSource::Indices { first: 6 * first, count: 6 * count },
            },
            GlCommand::AssertNoError,
            GlCommand::DrawElements { mode: 4, count: 6 * count, element_type: 0x1403, offset: 0 },
            GlCommand::AssertNoError,
        ]
    };
    let mut expected = vec![
        GlCommand::Viewport { x: 0, y: 0, width: 800, height: 600 },
        GlCommand::UseProgram(Some(90)),
        GlCommand::Uniform2 { location: 0, x: 800, y: 600 },
        GlCommand::BindVertexArray { vertex_array: Some(50) },
        GlCommand::ActiveTexture { unit: 0x84C0 },
        GlCommand::BindTexture { target: 0x0DE1, texture: Some(1) },
    ];
    expected.extend(flush(0, 2));
    expected.push(GlCommand::ActiveTexture { unit: 0x84C0 });
    expected.push(GlCommand::BindTexture { target: 0x0DE1, texture: Some(2) });
    expected.extend(flush(2, 1));
    expected.push(GlCommand::BindTexture { target: 0x0DE1, texture: None });
    expected.push(GlCommand::BindVertexArray { vertex_array: None });
    expected.push(GlCommand::UseProgram(None));
    assert_eq!(plan.commands, expected);
}

#[test]
fn quad_of_a_sprite() {
    let whole = texture(1);
    let view = whole.new_sub([8, 4], [16, 8]).unwrap();
    let mut sprite = Sprite::with([-5, 7], [20, 30]);
    sprite.set_texture(view);
    let mut batch = batch();
    batch.add(&sprite);
    let plan = batch.draw(&device(), &shader());
    let white = [255u8; 4];
    assert_eq!(
        plan.vertices,
        vec![
            Vertex { position: [-5, 7], texel: [8, 4], extent: [64, 32], color: white },
            Vertex { position: [15, 7], texel: [24, 4], extent: [64, 32], color: white },
            Vertex { position: [15, 37], texel: [24, 12], extent: [64, 32], color: white },
            Vertex { position: [-5, 37], texel: [8, 12], extent: [64, 32], color: white },
        ]
    );
    assert_eq!(plan.indices, vec![0, 1, 2, 0, 2, 3]);
}

#[test]
fn quad_at_the_limits_of_the_numbers() {
    let mut sprite = Sprite::with([i32::MAX, i32::MIN], [u32::MAX, u32::MAX]);
    sprite.set_texture(texture(1));
    let mut batch = batch();
    batch.add(&sprite);
    let plan = batch.draw(&device(), &shader());
    assert_eq!(
        plan.vertices[2].position,
        [i32::MAX as i64 + u32::MAX as i64, i32::MIN as i64 + u32::MAX as i64]
    );
    assert_eq!(plan.vertices[0].position, [i32::MAX as i64, i32::MIN as i64]);
}

#[test]
fn indices_count_from_the_start_of_the_run() {
    let a = texture(1);
    let b = texture(2);
    let mut batch = batch();
    for texture in [&a, &a, &b] {
        batch.add(&sprite(texture));
    }
    let plan = batch.draw(&device(), &shader());
    assert_eq!(
        plan.indices,
        vec![0, 1, 2, 0, 2, 3, 4, 5, 6, 4, 6, 7, 0, 1, 2, 0, 2, 3]
    );
}

#[test]
fn one_texture_is_flushed_once_per_batch_size() {
    let a = texture(1);
    for n in [1usize, 2047, 2048, 2049, 4096, 4097] {
        let mut batch = batch();
        for _ in 0..n {
            batch.add(&sprite(&a));
        }
        let plan = batch.draw(&device(), &shader());
        let counts = draw_counts(&plan);
        assert_eq!(counts.len(), (n + SpriteBatch::BATCH_SIZE - 1) / SpriteBatch::BATCH_SIZE);
        assert_eq!(counts.iter().sum::<usize>(), 6 * n);
        assert!(counts.iter().all(|count| *count <= 6 * SpriteBatch::BATCH_SIZE));
        assert!(plan.indices.iter().all(|index| (*index as usize) < 4 * SpriteBatch::BATCH_SIZE));
        // The texture is bound once.
        let binds = plan
            .commands
            .iter()
            .filter(|c| matches!(c, GlCommand::BindTexture { texture: Some(_), .. }))
            .count();
        assert_eq!(binds, 1);
    }
}

#[test]
fn alternating_textures_are_flushed_one_by_one() {
    let a = texture(1);
    let b = texture(2);
    for n in [1usize, 2, 7, 100] {
        let mut batch = batch();
        for i in 0..n {
            batch.add(&sprite(if i % 2 == 0 { &a } else { &b }));
        }
        let plan = batch.draw(&device(), &shader());
        assert_eq!(draw_counts(&plan), vec![6; n]);
    }
}

#[test]
fn batch_is_empty_after_draw() {
    let a = texture(1);
    let mut batch = batch();
    batch.add(&sprite(&a));
    batch.add(&sprite(&a));
    assert_eq!(batch.len(), 2);
    let plan = batch.draw(&device(), &shader());
    assert_eq!(draw_counts(&plan), vec![12]);
    assert_eq!(batch.len(), 0);
    // Nothing is left to draw.
    let plan = batch.draw(&device(), &shader());
    assert!(plan.commands.is_empty());
    assert!(plan.vertices.is_empty());
    assert!(plan.indices.is_empty());
}

#[test]
fn sprite_without_texture_is_not_recorded() {
    let mut batch = batch();
    batch.add(&Sprite::with([1, 2], [3, 4]));
    assert_eq!(batch.len(), 0);
    assert!(batch.draw(&device(), &shader()).commands.is_empty());
}

#[test]
fn views_of_one_texture_share_a_run() {
    let whole = texture(1);
    let left = whole.new_sub([0, 0], [32, 32]).unwrap();
    let right = whole.new_sub([32, 0], [32, 32]).unwrap();
    let mut batch = batch();
    batch.add(&sprite(&left));
    batch.add(&sprite(&right));
    let plan = batch.draw(&device(), &shader());
    assert_eq!(draw_counts(&plan), vec![12]);
    assert_eq!(plan.vertices[4].texel, [32, 0]);
    assert_eq!(plan.vertices[6].texel, [64, 32]);
}

#[test]
fn new_batch_has_room_for_a_full_run() {
    let (batch, commands) = SpriteBatch::new(50, 51, 52);
    assert_eq!(batch.len(), 0);
    assert_eq!(SpriteBatch::BATCH_SIZE, 2048);
    assert!(SpriteBatch::BATCH_SIZE * 4 <= 65536);
    assert_eq!(
        commands[2],
        GlCommand::BufferData {
            target: 0x8892,
            source: DataSource::Zeros { bytes: 2048 * 4 * 32 },
            usage: 0x88E8,
        }
    );
    assert_eq!(
        commands[14],
        GlCommand::BufferData {
            target: 0x8893,
            source: DataSource::Zeros { bytes: 2048 * 6 * 2 },
            usage: 0x88E8,
        }
    );
}

#[test]
fn nothing_is_drawn_after_shutdown() {
    let a = texture(1);
    let mut batch = batch();
    batch.add(&sprite(&a));
    let mut device = device();
    device.shutdown();
    let plan = batch.draw(&device, &shader());
    assert!(plan.commands.is_empty());
    assert!(plan.vertices.is_empty());
    assert!(plan.indices.is_empty());
    assert_eq!(batch.len(), 0);
}
