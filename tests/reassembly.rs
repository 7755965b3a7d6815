use raytrace::image::Size;
use raytrace::render::reassemble;

#[test]
fn reassemble_restores_order() {
    let tagged = vec![(2, 'c'), (0, 'a'), (3, 'd'), (1, 'b')];
    assert_eq!(reassemble(4, tagged), Some(vec!['a', 'b', 'c', 'd']));
}

#[test]
fn reassemble_in_order_input() {
    let tagged: Vec<(usize, String)> = (0..5).map(|i| (i, format!("p{}", i))).collect();
    let expected: Vec<String> = (0..5).map(|i| format!("p{}", i)).collect();
    assert_eq!(reassemble(5, tagged), Some(expected));
}

#[test]
fn reassemble_empty() {
    let tagged: Vec<(usize, u8)> = Vec::new();
    assert_eq!(reassemble(0, tagged), Some(Vec::new()));
}

#[test]
fn reassemble_rejects_duplicate_index() {
    assert_eq!(reassemble(3, vec![(0, 1), (1, 2), (1, 3)]), None);
}

#[test]
fn reassemble_rejects_index_out_of_range() {
    assert_eq!(reassemble(2, vec![(0, 1), (2, 2)]), None);
}

#[test]
fn reassemble_rejects_wrong_count() {
    assert_eq!(reassemble(3, vec![(0, 1), (1, 2)]), None);
    assert_eq!(reassemble(1, vec![(0, 1), (0, 2)]), None);
}

#[test]
fn reassemble_pixels_of_an_image() {
    let size = Size::new(4, 3);
    let mut tagged: Vec<(usize, (usize, usize))> =
        (0..size.len()).map(|i| (i, size.pixel_coords(i))).collect();
    tagged.reverse();
    tagged.swap(1, 7);
    let pixels = reassemble(size.len(), tagged).unwrap();
    for (i, &(row, col)) in pixels.iter().enumerate() {
        assert_eq!(size.pixel_index(row, col), i);
    }
}
