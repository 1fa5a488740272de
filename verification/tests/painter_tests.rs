use painter::gpu::{
    Adapter, CommandEncoder, Device, Limits, Queue, Surface, TextureFormat, TextureView,
};
use painter::gui::{ClippedPrimitive, ImageDelta, Mesh, Rect, TextureId, TexturesDelta};
use painter::painter::Painter;
use painter::renderer::{RendererOp, ScreenDescriptor};

fn device() -> Device {
    Device { limits: Limits { max_texture_dimension_2d: 8192 } }
}

fn surface_with(codes: &[u32]) -> Surface {
    let mut formats = Vec::new();
    for c in codes {
        formats.push(TextureFormat { code: *c });
    }
    Surface { supported_formats: formats }
}

fn empty_delta() -> TexturesDelta {
    TexturesDelta { set: Vec::new(), free: Vec::new() }
}

fn one_primitive() -> ClippedPrimitive {
    ClippedPrimitive {
        clip_rect: Rect { min_x: 0, min_y: 0, max_x: 640, max_y: 480 },
        mesh: Mesh { vertex_count: 4, index_count: 6 },
    }
}

fn ops_of(p: &Painter) -> Vec<RendererOp> {
    let rs = p.render_state().unwrap();
    let guard = rs.renderer.acquire_read();
    let ops = guard.borrow().ops().clone();
    guard.release_read();
    ops
}

fn format_of(p: &Painter) -> TextureFormat {
    let rs = p.render_state().unwrap();
    let guard = rs.renderer.acquire_read();
    let format = guard.borrow().target_format();
    guard.release_read();
    format
}

#[test]
fn fresh_painter_has_no_render_state() {
    let p = Painter::new();
    assert!(p.render_state().is_none());
}

#[test]
fn attach_initializes_render_state_and_keeps_it() {
    let mut p = Painter::new();
    let surface = surface_with(&[1, 2]);
    p.set_window(&device(), &Adapter {}, &surface);
    assert!(p.render_state().is_some());
    p.set_window(&device(), &Adapter {}, &surface);
    assert!(p.render_state().is_some());
}

#[test]
fn first_supported_format_is_selected() {
    let mut p = Painter::new();
    p.set_window(&device(), &Adapter {}, &surface_with(&[10, 20, 30]));
    assert_eq!(format_of(&p), TextureFormat { code: 10 });
}

#[test]
fn repeated_attach_keeps_first_format() {
    let mut p = Painter::new();
    p.set_window(&device(), &Adapter {}, &surface_with(&[10, 20]));
    p.set_window(&device(), &Adapter {}, &surface_with(&[20]));
    assert_eq!(format_of(&p), TextureFormat { code: 10 });
}

#[test]
fn construct_attach_paint_selects_format_a() {
    // Scenario: formats [FormatA, FormatB] -> renderer built with FormatA.
    let format_a = 77;
    let format_b = 88;
    let mut p = Painter::new();
    p.set_window(&device(), &Adapter {}, &surface_with(&[format_a, format_b]));
    assert_eq!(format_of(&p), TextureFormat { code: format_a });
}

#[test]
fn paint_before_attach_is_a_noop() {
    let mut p = Painter::new();
    let mut encoder = CommandEncoder::new();
    let prims: Vec<ClippedPrimitive> = Vec::new();
    p.paint_and_update_textures(
        0,
        &prims,
        &empty_delta(),
        &device(),
        &mut encoder,
        &Queue {},
        640,
        480,
        &TextureView {},
    );
    assert!(encoder.passes.is_empty());
    assert!(p.render_state().is_none());
}

#[test]
fn paint_orders_adds_before_render_before_frees() {
    let mut p = Painter::new();
    p.set_window(&device(), &Adapter {}, &surface_with(&[3]));
    let mut encoder = CommandEncoder::new();
    let prims = vec![one_primitive()];
    let delta = TexturesDelta {
        set: vec![
            (TextureId::Managed(1), ImageDelta { pos: None }),
            (TextureId::User(2), ImageDelta { pos: Some([8, 8]) }),
        ],
        free: vec![TextureId::Managed(9)],
    };
    let bits = 2.0f32.to_bits();
    p.paint_and_update_textures(
        bits,
        &prims,
        &delta,
        &device(),
        &mut encoder,
        &Queue {},
        640,
        480,
        &TextureView {},
    );

    let screen = ScreenDescriptor { size_in_pixels: [640, 480], pixels_per_point_bits: bits };
    let expected = vec![
        RendererOp::TextureUpdated { id: TextureId::Managed(1) },
        RendererOp::TextureUpdated { id: TextureId::User(2) },
        RendererOp::BuffersUpdated { primitive_count: 1, screen },
        RendererOp::TextureFreed { id: TextureId::Managed(9) },
    ];
    assert_eq!(ops_of(&p), expected);

    assert_eq!(encoder.passes.len(), 1);
    let pass = encoder.passes[0];
    assert_eq!(pass.primitive_count, 1);
    assert_eq!(pass.screen, screen);
    assert!(!pass.has_depth_stencil);
    // The pass was recorded after both texture updates and the buffer
    // upload (3 operations) and before the free.
    assert_eq!(pass.ops_recorded_before, 3);
}

#[test]
fn paint_frame_orders_adds_before_render_before_frees() {
    let dev = device();
    let mut renderer =
        painter::renderer::Renderer::new(&dev, TextureFormat { code: 5 }, 1, 0);
    let mut encoder = CommandEncoder::new();
    let prims = vec![one_primitive(), one_primitive()];
    let delta = TexturesDelta {
        set: vec![(TextureId::Managed(4), ImageDelta { pos: None })],
        free: vec![TextureId::Managed(4)],
    };
    let screen = ScreenDescriptor { size_in_pixels: [100, 100], pixels_per_point_bits: 0 };
    painter::renderer::paint_frame(
        &mut renderer,
        &dev,
        &Queue {},
        &mut encoder,
        &TextureView {},
        &prims,
        &delta,
        &screen,
    );
    let expected = vec![
        RendererOp::TextureUpdated { id: TextureId::Managed(4) },
        RendererOp::BuffersUpdated { primitive_count: 2, screen },
        RendererOp::TextureFreed { id: TextureId::Managed(4) },
    ];
    assert_eq!(*renderer.ops(), expected);
    assert_eq!(encoder.passes.len(), 1);
    assert_eq!(encoder.passes[0].ops_recorded_before, 2);
    assert_eq!(encoder.passes[0].primitive_count, 2);
    assert!(!encoder.passes[0].has_depth_stencil);
}

#[test]
fn two_empty_paints_record_two_passes_and_nothing_else() {
    // Scenario: attach once, paint twice with empty deltas and primitives.
    let mut p = Painter::new();
    p.set_window(&device(), &Adapter {}, &surface_with(&[1]));
    let mut encoder = CommandEncoder::new();
    let prims: Vec<ClippedPrimitive> = Vec::new();
    let bits = 1.0f32.to_bits();
    for _ in 0..2 {
        p.paint_and_update_textures(
            bits,
            &prims,
            &empty_delta(),
            &device(),
            &mut encoder,
            &Queue {},
            320,
            240,
            &TextureView {},
        );
    }
    assert_eq!(encoder.passes.len(), 2);
    assert_eq!(encoder.passes[0].primitive_count, 0);
    assert_eq!(encoder.passes[1].primitive_count, 0);

    let screen = ScreenDescriptor { size_in_pixels: [320, 240], pixels_per_point_bits: bits };
    let expected = vec![
        RendererOp::BuffersUpdated { primitive_count: 0, screen },
        RendererOp::BuffersUpdated { primitive_count: 0, screen },
    ];
    assert_eq!(ops_of(&p), expected);
    assert!(p.render_state().is_some());
}

#[test]
fn max_texture_side_reports_device_limit() {
    let p = Painter::new();
    let dev = Device { limits: Limits { max_texture_dimension_2d: 4096 } };
    assert_eq!(p.max_texture_side(&dev), Some(4096));
}

#[test]
fn render_state_handle_shares_the_renderer() {
    let mut p = Painter::new();
    p.set_window(&device(), &Adapter {}, &surface_with(&[1]));
    // A handle taken before painting must observe operations painted later:
    // it refers to the same renderer, not to a copy.
    let rs = p.render_state().unwrap();
    let mut encoder = CommandEncoder::new();
    let prims: Vec<ClippedPrimitive> = Vec::new();
    p.paint_and_update_textures(
        0,
        &prims,
        &empty_delta(),
        &device(),
        &mut encoder,
        &Queue {},
        64,
        64,
        &TextureView {},
    );
    let guard = rs.renderer.acquire_read();
    let n = guard.borrow().ops().len();
    guard.release_read();
    assert_eq!(n, 1);
}

#[test]
fn destroy_keeps_render_state() {
    let mut p = Painter::new();
    p.set_window(&device(), &Adapter {}, &surface_with(&[1]));
    p.destroy();
    assert!(p.render_state().is_some());
}

#[test]
fn surface_reports_formats_in_order() {
    let surface = surface_with(&[9, 8, 7]);
    let formats = surface.get_supported_formats(&Adapter {});
    assert_eq!(
        formats,
        vec![TextureFormat { code: 9 }, TextureFormat { code: 8 }, TextureFormat { code: 7 }]
    );
}
