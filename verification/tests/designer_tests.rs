use shuiqi::designer::{rectangle_shape, Designer};
use shuiqi::graphics::fill;
use shuiqi::render::wgpu::WgpuRenderer;
use shuiqi::render::PhysicalSize;

fn renderer() -> WgpuRenderer {
    WgpuRenderer::init(PhysicalSize::new(800, 600), &vec![true])
}

fn bits(x: f32, y: f32) -> [u32; 2] {
    [x.to_bits(), y.to_bits()]
}

fn native_bytes_of_floats(values: &[f32]) -> Vec<u8> {
    let mut bytes = Vec::new();
    for value in values {
        bytes.extend_from_slice(&value.to_ne_bytes());
    }
    bytes
}

fn native_bytes_of_indices(values: &[u16]) -> Vec<u8> {
    let mut bytes = Vec::new();
    for value in values {
        bytes.extend_from_slice(&value.to_ne_bytes());
    }
    bytes
}

fn reference_max(a: f32, b: f32) -> f32 {
    if a > b {
        a
    } else {
        b
    }
}

fn reference_min(a: f32, b: f32) -> f32 {
    if a < b {
        a
    } else {
        b
    }
}

fn samples() -> Vec<f32> {
    vec![
        0.0,
        -0.0,
        1.0,
        -1.0,
        0.5,
        -0.25,
        3.5,
        f32::INFINITY,
        f32::NEG_INFINITY,
        f32::NAN,
        1.0e-42,
        -1.0e-42,
    ]
}

#[test]
fn max_and_min_pick_as_the_comparison_says() {
    for a in samples() {
        for b in samples() {
            assert_eq!(
                Designer::max(a.to_bits(), b.to_bits()),
                reference_max(a, b).to_bits(),
                "max({:?}, {:?})",
                a,
                b
            );
            assert_eq!(
                Designer::min(a.to_bits(), b.to_bits()),
                reference_min(a, b).to_bits(),
                "min({:?}, {:?})",
                a,
                b
            );
        }
    }
}

#[test]
fn max_and_min_have_exact_values() {
    assert_eq!(Designer::max(0x3f80_0000, 0x4000_0000), 0x4000_0000);
    assert_eq!(Designer::min(0x3f80_0000, 0x4000_0000), 0x3f80_0000);
    assert_eq!(Designer::max(0xbf80_0000, 0xc000_0000), 0xbf80_0000);
    assert_eq!(Designer::min(0xbf80_0000, 0xc000_0000), 0xc000_0000);
    assert_eq!(Designer::max(0x0000_0000, 0x8000_0000), 0x8000_0000);
    assert_eq!(Designer::min(0x8000_0000, 0x0000_0000), 0x0000_0000);
}

#[test]
fn rectangle_shape_orders_its_corners() {
    let shape = rectangle_shape(1, 2, 3, 4);
    let positions: Vec<[u32; 2]> = shape.vertices.iter().map(|v| v.position).collect();
    assert_eq!(positions, vec![[1, 3], [2, 4], [1, 4], [2, 3]]);
    for vertex in &shape.vertices {
        assert_eq!(vertex.color, [0x3f00_0000; 3]);
        assert_eq!(vertex.color, fill());
    }
    assert_eq!(shape.indices, vec![1, 3, 0, 0, 2, 1]);
}

#[test]
fn rectangle_from_corners_is_laid_out_top_left_first() {
    let mut renderer = renderer();
    let designer = Designer::new();
    let sync = designer.create_rectangle(&mut renderer, bits(-0.5, -0.25), bits(0.75, 0.5));
    let instance = &renderer.instances()[0];
    let gray = 0.5f32;
    let expected = native_bytes_of_floats(&[
        -0.5, 0.5, gray, gray, gray, 0.75, -0.25, gray, gray, gray, -0.5, -0.25, gray, gray,
        gray, 0.75, 0.5, gray, gray, gray,
    ]);
    assert_eq!(instance.shape.vertex_buffer, expected);
    assert_eq!(instance.shape.index_buffer, native_bytes_of_indices(&[1, 3, 0, 0, 2, 1]));
    assert_eq!(instance.shape.indices_count, 6);
    assert_eq!(instance.data.position, bits(0.0, 0.0));
    assert_eq!(instance.data.scale, bits(1.0, 1.0));
    assert!(sync.is_replace());
    assert_eq!(sync.contents(), &native_bytes_of_floats(&[0.0, 0.0, 1.0, 1.0]));
    assert_eq!(renderer.buffer_capacity(), 16);
}

#[test]
fn corner_order_does_not_matter() {
    let corners = [
        (bits(-0.5, -0.25), bits(0.75, 0.5)),
        (bits(0.75, -0.25), bits(-0.5, 0.5)),
        (bits(0.1, 0.9), bits(0.1, -0.9)),
        (bits(-1.0, -1.0), bits(1.0, 1.0)),
        (bits(0.3, 0.3), bits(0.3, 0.3)),
        (bits(f32::INFINITY, 0.0), bits(f32::NEG_INFINITY, 1.0)),
    ];
    let designer = Designer::new();
    for (first, second) in corners {
        let mut one = renderer();
        let mut other = renderer();
        designer.create_rectangle(&mut one, first, second);
        designer.create_rectangle(&mut other, second, first);
        assert_eq!(
            one.instances()[0].shape.vertex_buffer,
            other.instances()[0].shape.vertex_buffer
        );
        assert_eq!(
            one.instances()[0].shape.index_buffer,
            other.instances()[0].shape.index_buffer
        );
    }
}

#[test]
fn corner_order_shows_between_the_two_zeros() {
    let designer = Designer::new();
    let mut one = renderer();
    let mut other = renderer();
    designer.create_rectangle(&mut one, bits(0.0, 0.5), bits(-0.0, 1.0));
    designer.create_rectangle(&mut other, bits(-0.0, 0.5), bits(0.0, 1.0));
    assert_ne!(
        one.instances()[0].shape.vertex_buffer,
        other.instances()[0].shape.vertex_buffer
    );
    let left_of_one = &one.instances()[0].shape.vertex_buffer[0..4];
    assert_eq!(left_of_one, &(-0.0f32).to_ne_bytes());
    let left_of_other = &other.instances()[0].shape.vertex_buffer[0..4];
    assert_eq!(left_of_other, &0.0f32.to_ne_bytes());
}

#[test]
fn rectangle_around_a_point_is_placed_at_the_point() {
    let mut renderer = renderer();
    let designer = Designer::new();
    let (x, y, w, h) = (0.25f32, -0.5f32, 0.5f32, 0.25f32);
    let sync = designer.create_relative_rectangle(
        &mut renderer,
        bits(x, y),
        (x - w / 2.0).to_bits(),
        (x + w / 2.0).to_bits(),
        (y + h / 2.0).to_bits(),
        (y - h / 2.0).to_bits(),
    );
    let instance = &renderer.instances()[0];
    let gray = 0.5f32;
    let expected = native_bytes_of_floats(&[
        0.0, -0.375, gray, gray, gray, 0.5, -0.625, gray, gray, gray, 0.0, -0.625, gray, gray,
        gray, 0.5, -0.375, gray, gray, gray,
    ]);
    assert_eq!(instance.shape.vertex_buffer, expected);
    assert_eq!(instance.shape.index_buffer, native_bytes_of_indices(&[1, 3, 0, 0, 2, 1]));
    assert_eq!(instance.shape.indices_count, 6);
    assert_eq!(instance.data.position, bits(0.25, -0.5));
    assert_eq!(instance.data.scale, bits(1.0, 1.0));
    assert_eq!(sync.contents(), &native_bytes_of_floats(&[0.25, -0.5, 1.0, 1.0]));
}

#[test]
fn rectangles_are_appended_in_order() {
    let mut renderer = renderer();
    let designer = Designer::new();
    designer.create_rectangle(&mut renderer, bits(0.0, 0.0), bits(1.0, 1.0));
    let sync = designer.create_relative_rectangle(
        &mut renderer,
        bits(0.5, 0.5),
        0.25f32.to_bits(),
        0.75f32.to_bits(),
        0.75f32.to_bits(),
        0.25f32.to_bits(),
    );
    assert_eq!(renderer.instances().len(), 2);
    assert_eq!(renderer.buffer_capacity(), 32);
    assert!(sync.is_replace());
    assert_eq!(
        sync.contents(),
        &native_bytes_of_floats(&[0.0, 0.0, 1.0, 1.0, 0.5, 0.5, 1.0, 1.0])
    );
    assert_eq!(renderer.instances()[0].data.position, bits(0.0, 0.0));
    assert_eq!(renderer.instances()[1].data.position, bits(0.5, 0.5));
}

fn reference_order(angles: &[f32]) -> Vec<u16> {
    let mut indexed: Vec<(usize, f32)> = angles.iter().copied().enumerate().collect();
    indexed.sort_by(|a, b| a.1.partial_cmp(&b.1).unwrap());
    indexed.into_iter().map(|(i, _)| i as u16).collect()
}

fn order_of(angles: &[f32]) -> Vec<u16> {
    let patterns: Vec<u32> = angles.iter().map(|a| a.to_bits()).collect();
    Designer::get_counter_clockwise_index_order(&patterns)
}

#[test]
fn no_corners_give_no_indices() {
    assert_eq!(Designer::get_counter_clockwise_index_order(&vec![]), Vec::<u16>::new());
}

#[test]
fn one_corner_gives_index_zero() {
    assert_eq!(order_of(&[1.5]), vec![0]);
    assert_eq!(Designer::get_counter_clockwise_index_order(&vec![0x7fc0_0000]), vec![0]);
}

#[test]
fn corners_are_taken_by_rising_angle() {
    assert_eq!(order_of(&[2.0, -1.0, 0.5, 3.0, -3.0]), vec![4, 1, 2, 0, 3]);
    assert_eq!(order_of(&[0.1, 0.2, 0.3]), vec![0, 1, 2]);
    assert_eq!(order_of(&[0.3, 0.2, 0.1]), vec![2, 1, 0]);
}

#[test]
fn equal_angles_keep_their_order() {
    assert_eq!(order_of(&[1.0, 0.5, 1.0, 0.5, 1.0]), vec![1, 3, 0, 2, 4]);
    assert_eq!(order_of(&[0.0, -0.0, 0.0, -0.0]), vec![0, 1, 2, 3]);
    assert_eq!(order_of(&[-0.0, 0.0, -1.0]), vec![2, 0, 1]);
}

#[test]
fn angle_order_agrees_with_a_stable_sort() {
    let lists: Vec<Vec<f32>> = vec![
        vec![2.356, 0.785, -0.785, -2.356],
        vec![3.1415927, -3.1415927, 0.0, 1.5707964, -1.5707964],
        vec![0.0; 7],
        vec![f32::INFINITY, 1.0, f32::NEG_INFINITY, 1.0, -1.0e-40, 1.0e-40, -0.0],
        vec![5.0, 4.0, 3.0, 2.0, 1.0, 0.0, -1.0, -2.0, 5.0, 4.0, 3.0],
    ];
    for angles in lists {
        assert_eq!(order_of(&angles), reference_order(&angles), "{:?}", angles);
    }
}

#[test]
fn square_corners_around_their_centre() {
    let corners: Vec<[f32; 2]> = vec![[-0.8, 0.8], [0.8, 0.8], [0.8, -0.8], [-0.8, -0.8]];
    let angles: Vec<f32> = corners.iter().map(|c| c[1].atan2(c[0])).collect();
    assert_eq!(order_of(&angles), vec![3, 2, 1, 0]);
}
