use hpi::file_name::FileName;
use hpi::params::{ConvertParams, OutputImageType};
use hpi::pdf_converter::{
    combine_images, decode_pages, MultiPagesResult, PageImage, PageRendering, PdfConvertError,
    PdfConvertResult, PdfConverter,
};
use hpi::raster::Raster;

fn name(text: &str) -> FileName {
    FileName::new(text.to_string()).unwrap()
}

fn raster(width: u32, height: u32, samples: Vec<u8>) -> Raster {
    Raster::new(width, height, samples).unwrap()
}

fn flat(width: u32, height: u32, rgb: [u8; 3]) -> Raster {
    let mut samples = Vec::new();
    for _ in 0..(width * height) {
        samples.extend_from_slice(&rgb);
    }
    raster(width, height, samples)
}

fn page(text: &str, image: Raster) -> PageRendering {
    PageRendering { name: name(text), image: Ok(image) }
}

fn params(output_type: OutputImageType, allow_zip: bool) -> ConvertParams {
    let mut params = ConvertParams::default();
    params.output_type = output_type;
    params.allow_zip = allow_zip;
    params
}

fn converter() -> PdfConverter {
    PdfConverter::new("/opt/pdfium".to_string())
}

fn decoded(format: image::ImageFormat, bytes: &[u8]) -> image::RgbImage {
    image::load_from_memory_with_format(bytes, format).unwrap().into_rgb8()
}

fn stored(format: OutputImageType, text: &str, image: Raster) -> PageImage {
    let mut result = MultiPagesResult::new();
    converter().store_page(&mut result, page(text, image), format).unwrap();
    result.into_pages().remove(0)
}

#[test]
fn converter_keeps_library_path() {
    assert_eq!(converter().pdfium_lib(), "/opt/pdfium");
    assert_eq!(converter().clone().pdfium_lib(), "/opt/pdfium");
}

#[test]
fn file_name_keeps_text() {
    let made = name("0-hpiAbCd.png");
    assert_eq!(made.as_str(), "0-hpiAbCd.png");
    assert_eq!(made.into_string(), "0-hpiAbCd.png");
}

#[test]
fn file_name_of_65535_bytes_is_taken() {
    assert!(FileName::new("a".repeat(65535)).is_some());
    assert!(FileName::new(String::new()).is_some());
}

#[test]
fn file_name_of_65536_bytes_is_refused() {
    assert!(FileName::new("a".repeat(65536)).is_none());
    // 32768 characters of two bytes each
    assert!(FileName::new("\u{e9}".repeat(32768)).is_none());
    assert!(FileName::new("\u{e9}".repeat(32767)).is_some());
}

#[test]
fn multi_pages_result_grows_in_order() {
    let mut result = MultiPagesResult::new();
    assert!(result.is_empty());
    assert!(!result.is_single());
    assert_eq!(result.len(), 0);
    result.push(PageImage { name: name("a"), data: vec![1] });
    assert!(!result.is_empty());
    assert!(result.is_single());
    result.push(PageImage { name: name("b"), data: vec![2] });
    assert!(!result.is_single());
    assert_eq!(result.len(), 2);
    let names: Vec<&str> = result.to_iter().map(|file| file.name.as_str()).collect();
    assert_eq!(names, vec!["a", "b"]);
    assert_eq!(result.pages()[1].data, vec![2]);
    let files = result.into_pages();
    assert_eq!(files[0].data, vec![1]);
}

#[test]
fn store_page_encodes_png() {
    let image = raster(2, 1, vec![255, 0, 0, 0, 0, 255]);
    let file = stored(OutputImageType::Png, "0-hpi.png", image);
    assert_eq!(file.name.as_str(), "0-hpi.png");
    assert_eq!(&file.data[..8], b"\x89PNG\r\n\x1a\n");
    assert_ne!(file.data, vec![255, 0, 0, 0, 0, 255]);
    let back = decoded(image::ImageFormat::Png, &file.data);
    assert_eq!(back.dimensions(), (2, 1));
    assert_eq!(back.into_raw(), vec![255, 0, 0, 0, 0, 255]);
}

#[test]
fn store_page_encodes_gif() {
    let file = stored(OutputImageType::Gif, "0-hpi.gif", flat(3, 2, [0, 255, 0]));
    assert_eq!(&file.data[..6], b"GIF89a");
    let back = decoded(image::ImageFormat::Gif, &file.data);
    assert_eq!(back.dimensions(), (3, 2));
    assert_eq!(back.get_pixel(2, 1).0, [0, 255, 0]);
}

#[test]
fn store_page_encodes_jpeg() {
    let file = stored(OutputImageType::Jpeg, "0-hpi.jpg", flat(8, 8, [200, 200, 200]));
    assert_eq!(&file.data[..3], &[0xff, 0xd8, 0xff]);
    let back = decoded(image::ImageFormat::Jpeg, &file.data);
    assert_eq!(back.dimensions(), (8, 8));
    let pixel = back.get_pixel(4, 4).0;
    assert!(pixel.iter().all(|sample| (195..=205).contains(sample)));
}

#[test]
fn store_page_encodes_webp() {
    let file = stored(OutputImageType::Webp, "0-hpi.webp", flat(4, 3, [1, 2, 3]));
    assert_eq!(&file.data[..4], b"RIFF");
    assert_eq!(&file.data[8..12], b"WEBP");
    let back = decoded(image::ImageFormat::WebP, &file.data);
    assert_eq!(back.dimensions(), (4, 3));
    assert_eq!(back.get_pixel(3, 2).0, [1, 2, 3]);
}

#[test]
fn store_page_refuses_unrendered_page() {
    let mut result = MultiPagesResult::new();
    result.push(PageImage { name: name("kept"), data: vec![9] });
    let failed = PageRendering { name: name("1-hpi.png"), image: Err("engine says no".to_string()) };
    let outcome = converter().store_page(&mut result, failed, OutputImageType::Png);
    match outcome {
        Err(PdfConvertError::PageRender(message)) => assert_eq!(message, "engine says no"),
        other => panic!("unexpected {:?}", other),
    }
    assert_eq!(result.len(), 1);
    assert_eq!(result.pages()[0].data, vec![9]);
}

#[test]
fn store_page_reports_image_that_cannot_be_encoded() {
    let mut result = MultiPagesResult::new();
    let wide = flat(65536, 1, [0, 0, 0]);
    let outcome = converter().store_page(&mut result, page("0-hpi.jpg", wide), OutputImageType::Jpeg);
    assert!(matches!(outcome, Err(PdfConvertError::ImageWrite(_))));
    assert!(result.is_empty());
}

#[test]
fn store_page_of_image_without_pixels_does_not_panic() {
    for format in [
        OutputImageType::Png,
        OutputImageType::Gif,
        OutputImageType::Jpeg,
        OutputImageType::Webp,
    ] {
        for (width, height) in [(0, 0), (0, 3), (3, 0)] {
            let mut result = MultiPagesResult::new();
            let empty = raster(width, height, vec![]);
            let outcome = converter().store_page(&mut result, page("p", empty), format);
            match outcome {
                Ok(()) => assert_eq!(result.len(), 1),
                Err(error) => {
                    assert!(matches!(error, PdfConvertError::ImageWrite(_)));
                    assert!(result.is_empty());
                }
            }
        }
    }
}

#[test]
fn decode_pages_reads_back_what_was_stored() {
    let files = vec![
        stored(OutputImageType::Png, "0.png", raster(1, 1, vec![1, 2, 3])),
        stored(OutputImageType::Png, "1.png", raster(2, 1, vec![4, 5, 6, 7, 8, 9])),
    ];
    let pages = decode_pages(&files, OutputImageType::Png).unwrap();
    assert_eq!(pages.len(), 2);
    assert_eq!((pages[0].width(), pages[0].height()), (1, 1));
    assert_eq!(pages[0].samples(), &vec![1, 2, 3]);
    assert_eq!((pages[1].width(), pages[1].height()), (2, 1));
    assert_eq!(pages[1].samples(), &vec![4, 5, 6, 7, 8, 9]);
}

#[test]
fn decode_pages_turns_other_colours_into_rgb() {
    let mut bytes = std::io::Cursor::new(Vec::new());
    let grey = image::GrayImage::from_raw(2, 1, vec![10, 200]).unwrap();
    grey.write_to(&mut bytes, image::ImageFormat::Png).unwrap();
    let files = vec![PageImage { name: name("grey.png"), data: bytes.into_inner() }];
    let pages = decode_pages(&files, OutputImageType::Png).unwrap();
    assert_eq!(pages[0].samples(), &vec![10, 10, 10, 200, 200, 200]);
}

#[test]
fn decode_pages_stops_at_file_that_is_no_image() {
    let files = vec![
        stored(OutputImageType::Png, "0.png", raster(1, 1, vec![1, 2, 3])),
        PageImage { name: name("1.png"), data: b"not an image".to_vec() },
    ];
    let outcome = decode_pages(&files, OutputImageType::Png);
    match outcome {
        Err(PdfConvertError::ImageRead(message)) => assert!(!message.is_empty()),
        other => panic!("unexpected {:?}", other.map(|pages| pages.len())),
    }
}

#[test]
fn decode_pages_goes_by_the_format_not_the_content() {
    let files = vec![stored(OutputImageType::Png, "0.png", raster(1, 1, vec![1, 2, 3]))];
    assert!(matches!(
        decode_pages(&files, OutputImageType::Gif),
        Err(PdfConvertError::ImageRead(_))
    ));
}

#[test]
fn decode_pages_of_no_files_is_empty() {
    assert!(decode_pages(&Vec::new(), OutputImageType::Png).unwrap().is_empty());
}

#[test]
fn combine_images_stacks_png_pages() {
    let mut result = MultiPagesResult::new();
    result.push(stored(OutputImageType::Png, "0.png", raster(1, 2, vec![1, 2, 3, 4, 5, 6])));
    result.push(stored(OutputImageType::Png, "1.png", raster(2, 1, vec![7, 8, 9, 10, 11, 12])));
    let image = combine_images(&result, OutputImageType::Png, name("hpiXyZ")).unwrap().unwrap();
    assert_eq!(image.name.as_str(), "hpiXyZ");
    let back = decoded(image::ImageFormat::Png, &image.data);
    assert_eq!(back.dimensions(), (2, 3));
    assert_eq!(
        back.into_raw(),
        vec![
            1, 2, 3, 0, 0, 0, //
            4, 5, 6, 0, 0, 0, //
            7, 8, 9, 10, 11, 12,
        ]
    );
}

#[test]
fn combine_images_reports_page_that_is_no_image() {
    let mut result = MultiPagesResult::new();
    result.push(stored(OutputImageType::Png, "0.png", raster(1, 1, vec![1, 2, 3])));
    result.push(PageImage { name: name("1.png"), data: vec![0, 1, 2, 3] });
    let outcome = combine_images(&result, OutputImageType::Png, name("hpi"));
    assert!(matches!(outcome, Some(Err(PdfConvertError::ImageRead(_)))));
}

#[test]
fn combine_images_reports_stack_that_cannot_be_encoded() {
    // WebP holds no image of more than 16383 rows.
    let mut result = MultiPagesResult::new();
    result.push(stored(OutputImageType::Webp, "0.webp", flat(1, 9000, [5, 5, 5])));
    result.push(stored(OutputImageType::Webp, "1.webp", flat(1, 9000, [6, 6, 6])));
    let outcome = combine_images(&result, OutputImageType::Webp, name("hpi"));
    assert!(matches!(outcome, Some(Err(PdfConvertError::ImageWrite(_)))));
}

#[test]
fn convert_of_no_pages_is_empty() {
    for allow_zip in [false, true] {
        let outcome = converter().convert(Vec::new(), params(OutputImageType::Png, allow_zip), name("hpi"));
        assert!(matches!(outcome, Some(Ok(PdfConvertResult::Empty))));
    }
}

#[test]
fn convert_of_one_page_is_that_page() {
    let pages = vec![page("0-hpi.png", raster(1, 1, vec![9, 8, 7]))];
    let outcome = converter().convert(pages, params(OutputImageType::Png, false), name("hpi"));
    match outcome {
        Some(Ok(PdfConvertResult::Single(image))) => {
            assert_eq!(image.name.as_str(), "0-hpi.png");
            let back = decoded(image::ImageFormat::Png, &image.data);
            assert_eq!(back.dimensions(), (1, 1));
            assert_eq!(back.into_raw(), vec![9, 8, 7]);
        }
        other => panic!("unexpected {:?}", other),
    }
}

#[test]
fn convert_of_several_pages_is_one_stacked_png() {
    let pages = vec![
        page("0-hpi.png", flat(3, 2, [255, 0, 0])),
        page("1-hpi.png", flat(5, 1, [0, 255, 0])),
        page("2-hpi.png", flat(2, 4, [0, 0, 255])),
    ];
    let outcome = converter().convert(pages, params(OutputImageType::Png, false), name("hpiAll"));
    let image = match outcome {
        Some(Ok(PdfConvertResult::Single(image))) => image,
        other => panic!("unexpected {:?}", other),
    };
    assert_eq!(image.name.as_str(), "hpiAll");
    assert_eq!(&image.data[..8], b"\x89PNG\r\n\x1a\n");
    let back = decoded(image::ImageFormat::Png, &image.data);
    assert_eq!(back.dimensions(), (5, 7));
    for y in 0..7 {
        for x in 0..5 {
            let expected = if y < 2 {
                if x < 3 { [255, 0, 0] } else { [0, 0, 0] }
            } else if y < 3 {
                [0, 255, 0]
            } else if x < 2 {
                [0, 0, 255]
            } else {
                [0, 0, 0]
            };
            assert_eq!(back.get_pixel(x, y).0, expected, "pixel {x},{y}");
        }
    }
}

#[test]
fn convert_for_archive_keeps_every_page_in_order() {
    let pages = vec![
        page("0-hpi.jpg", flat(8, 8, [250, 250, 250])),
        page("1-hpi.jpg", flat(16, 8, [5, 5, 5])),
        page("2-hpi.jpg", flat(8, 16, [120, 120, 120])),
    ];
    let outcome = converter().convert(pages, params(OutputImageType::Jpeg, true), name("unused"));
    let files = match outcome {
        Some(Ok(PdfConvertResult::Multi(result))) => result.into_pages(),
        other => panic!("unexpected {:?}", other),
    };
    assert_eq!(files.len(), 3);
    let sizes = [(8, 8), (16, 8), (8, 16)];
    for (index, file) in files.iter().enumerate() {
        assert_eq!(file.name.as_str(), format!("{index}-hpi.jpg"));
        assert_eq!(&file.data[..3], &[0xff, 0xd8, 0xff]);
        assert_eq!(decoded(image::ImageFormat::Jpeg, &file.data).dimensions(), sizes[index]);
    }
}

#[test]
fn convert_for_archive_keeps_single_page_as_list() {
    let pages = vec![page("0-hpi.gif", flat(2, 2, [0, 0, 0]))];
    let outcome = converter().convert(pages, params(OutputImageType::Gif, true), name("unused"));
    match outcome {
        Some(Ok(PdfConvertResult::Multi(result))) => assert_eq!(result.len(), 1),
        other => panic!("unexpected {:?}", other),
    }
}

#[test]
fn convert_hands_back_nothing_of_a_document_with_a_failed_page() {
    for allow_zip in [false, true] {
        let pages = vec![
            page("0-hpi.png", flat(1, 1, [1, 1, 1])),
            PageRendering { name: name("1-hpi.png"), image: Err("page 2 is broken".to_string()) },
            page("2-hpi.png", flat(1, 1, [3, 3, 3])),
        ];
        let outcome = converter().convert(pages, params(OutputImageType::Png, allow_zip), name("hpi"));
        match outcome {
            Some(Err(PdfConvertError::PageRender(message))) => assert_eq!(message, "page 2 is broken"),
            other => panic!("unexpected {:?}", other),
        }
    }
}

#[test]
fn convert_reports_the_first_failure() {
    let pages = vec![
        page("0-hpi.jpg", flat(65536, 1, [1, 1, 1])),
        PageRendering { name: name("1-hpi.jpg"), image: Err("later".to_string()) },
    ];
    let outcome = converter().convert(pages, params(OutputImageType::Jpeg, false), name("hpi"));
    assert!(matches!(outcome, Some(Err(PdfConvertError::ImageWrite(_)))));
    let pages = vec![
        PageRendering { name: name("0-hpi.jpg"), image: Err("sooner".to_string()) },
        page("1-hpi.jpg", flat(65536, 1, [1, 1, 1])),
    ];
    let outcome = converter().convert(pages, params(OutputImageType::Jpeg, false), name("hpi"));
    match outcome {
        Some(Err(PdfConvertError::PageRender(message))) => assert_eq!(message, "sooner"),
        other => panic!("unexpected {:?}", other),
    }
}

#[test]
fn convert_twice_gives_the_same_bytes() {
    let render = || {
        vec![
            page("0-hpi.png", raster(2, 1, vec![1, 2, 3, 4, 5, 6])),
            page("1-hpi.png", raster(1, 2, vec![7, 8, 9, 10, 11, 12])),
        ]
    };
    for format in [
        OutputImageType::Png,
        OutputImageType::Gif,
        OutputImageType::Jpeg,
        OutputImageType::Webp,
    ] {
        let first = converter().convert(render(), params(format, false), name("hpi"));
        let second = converter().convert(render(), params(format, false), name("hpi"));
        match (first, second) {
            (Some(Ok(PdfConvertResult::Single(a))), Some(Ok(PdfConvertResult::Single(b)))) => {
                assert_eq!(a.data, b.data);
                assert_eq!(a.name.as_str(), b.name.as_str());
            }
            other => panic!("unexpected {:?}", other),
        }
        let first = converter().convert(render(), params(format, true), name("hpi"));
        let second = converter().convert(render(), params(format, true), name("hpi"));
        match (first, second) {
            (Some(Ok(PdfConvertResult::Multi(a))), Some(Ok(PdfConvertResult::Multi(b)))) => {
                assert_eq!(a.len(), 2);
                for (x, y) in a.to_iter().zip(b.to_iter()) {
                    assert_eq!(x.data, y.data);
                }
            }
            other => panic!("unexpected {:?}", other),
        }
    }
}

#[test]
fn conclude_reduces_stored_pages() {
    let mut result = MultiPagesResult::new();
    converter().store_page(&mut result, page("0.png", flat(2, 2, [1, 2, 3])), OutputImageType::Png).unwrap();
    converter().store_page(&mut result, page("1.png", flat(1, 1, [4, 5, 6])), OutputImageType::Png).unwrap();
    let outcome = converter().conclude(result, &params(OutputImageType::Png, false), name("both"));
    match outcome {
        Some(Ok(PdfConvertResult::Single(image))) => {
            assert_eq!(image.name.as_str(), "both");
            assert_eq!(decoded(image::ImageFormat::Png, &image.data).dimensions(), (2, 3));
        }
        other => panic!("unexpected {:?}", other),
    }
}

#[test]
fn pages_are_combined_only_where_several_are_asked_for_as_one() {
    let mut result = MultiPagesResult::new();
    assert!(!converter().combines(&result, &params(OutputImageType::Png, false)));
    result.push(PageImage { name: name("a"), data: vec![1] });
    assert!(!converter().combines(&result, &params(OutputImageType::Png, false)));
    assert!(!converter().combines(&result, &params(OutputImageType::Png, true)));
    result.push(PageImage { name: name("b"), data: vec![2] });
    assert!(converter().combines(&result, &params(OutputImageType::Png, false)));
    assert!(!converter().combines(&result, &params(OutputImageType::Png, true)));
}
