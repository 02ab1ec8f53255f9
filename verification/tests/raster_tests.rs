use hpi::combine::{canvas_size, stack_images};
use hpi::raster::{sample_count, Raster};

fn raster(width: u32, height: u32, samples: Vec<u8>) -> Raster {
    Raster::new(width, height, samples).unwrap()
}

#[test]
fn raster_new_takes_three_samples_a_pixel() {
    let image = raster(2, 1, vec![1, 2, 3, 4, 5, 6]);
    assert_eq!(image.width(), 2);
    assert_eq!(image.height(), 1);
    assert_eq!(image.samples(), &vec![1, 2, 3, 4, 5, 6]);
    assert_eq!(image.into_samples(), vec![1, 2, 3, 4, 5, 6]);
}

#[test]
fn raster_new_refuses_other_lengths() {
    assert!(Raster::new(2, 1, vec![1, 2, 3, 4, 5]).is_none());
    assert!(Raster::new(2, 1, vec![1, 2, 3, 4, 5, 6, 7]).is_none());
    assert!(Raster::new(1, 1, vec![]).is_none());
    assert!(Raster::new(u32::MAX, u32::MAX, vec![]).is_none());
}

#[test]
fn raster_new_takes_images_without_pixels() {
    assert!(Raster::new(0, 0, vec![]).is_some());
    assert!(Raster::new(0, 5, vec![]).is_some());
    assert!(Raster::new(5, 0, vec![]).is_some());
    assert!(Raster::new(u32::MAX, 0, vec![]).is_some());
}

#[test]
fn blank_raster_is_all_zero() {
    let image = Raster::blank(3, 2);
    assert_eq!(image.width(), 3);
    assert_eq!(image.height(), 2);
    assert_eq!(image.samples(), &vec![0u8; 18]);
}

#[test]
fn sample_count_is_three_times_the_pixels() {
    assert_eq!(sample_count(0, 0), Some(0));
    assert_eq!(sample_count(1, 1), Some(3));
    assert_eq!(sample_count(4, 5), Some(60));
    assert_eq!(sample_count(u32::MAX, 0), Some(0));
    assert_eq!(sample_count(0, u32::MAX), Some(0));
    assert_eq!(sample_count(u32::MAX, 1), 3usize.checked_mul(u32::MAX as usize));
}

#[test]
fn sample_count_of_too_many_pixels_is_none() {
    assert_eq!(sample_count(u32::MAX, u32::MAX), None);
}

#[test]
fn canvas_size_is_widest_and_sum_of_heights() {
    let pages = vec![
        raster(1, 2, vec![0; 6]),
        raster(3, 1, vec![0; 9]),
        raster(2, 4, vec![0; 24]),
    ];
    assert_eq!(canvas_size(&pages), Some((3, 7)));
}

#[test]
fn canvas_size_of_no_pages_is_zero() {
    assert_eq!(canvas_size(&Vec::new()), Some((0, 0)));
}

#[test]
fn canvas_size_of_too_high_stack_is_none() {
    let pages = vec![raster(0, u32::MAX, vec![]), raster(0, 1, vec![])];
    assert_eq!(canvas_size(&pages), None);
    let pages = vec![raster(0, u32::MAX, vec![])];
    assert_eq!(canvas_size(&pages), Some((0, u32::MAX)));
}

#[test]
fn stack_of_two_pages_of_different_width() {
    let pages = vec![
        raster(1, 2, vec![1, 2, 3, 4, 5, 6]),
        raster(2, 1, vec![7, 8, 9, 10, 11, 12]),
    ];
    let canvas = stack_images(&pages);
    assert_eq!(canvas.width(), 2);
    assert_eq!(canvas.height(), 3);
    assert_eq!(
        canvas.samples(),
        &vec![
            1, 2, 3, 0, 0, 0, //
            4, 5, 6, 0, 0, 0, //
            7, 8, 9, 10, 11, 12,
        ]
    );
}

#[test]
fn stack_keeps_page_order() {
    let first = raster(1, 1, vec![10, 20, 30]);
    let second = raster(1, 1, vec![40, 50, 60]);
    let third = raster(1, 1, vec![70, 80, 90]);
    let canvas = stack_images(&vec![first, second, third]);
    assert_eq!(canvas.width(), 1);
    assert_eq!(canvas.height(), 3);
    assert_eq!(canvas.samples(), &vec![10, 20, 30, 40, 50, 60, 70, 80, 90]);
}

#[test]
fn stack_of_one_page_is_that_page() {
    let canvas = stack_images(&vec![raster(2, 2, vec![1, 2, 3, 4, 5, 6, 7, 8, 9, 10, 11, 12])]);
    assert_eq!(canvas.width(), 2);
    assert_eq!(canvas.height(), 2);
    assert_eq!(canvas.samples(), &vec![1, 2, 3, 4, 5, 6, 7, 8, 9, 10, 11, 12]);
}

#[test]
fn stack_of_no_pages_has_no_pixels() {
    let canvas = stack_images(&Vec::new());
    assert_eq!(canvas.width(), 0);
    assert_eq!(canvas.height(), 0);
    assert!(canvas.samples().is_empty());
}

#[test]
fn stack_with_a_page_without_rows() {
    let pages = vec![
        raster(2, 1, vec![1, 2, 3, 4, 5, 6]),
        raster(3, 0, vec![]),
        raster(1, 1, vec![7, 8, 9]),
    ];
    let canvas = stack_images(&pages);
    assert_eq!(canvas.width(), 3);
    assert_eq!(canvas.height(), 2);
    assert_eq!(
        canvas.samples(),
        &vec![
            1, 2, 3, 4, 5, 6, 0, 0, 0, //
            7, 8, 9, 0, 0, 0, 0, 0, 0,
        ]
    );
}
