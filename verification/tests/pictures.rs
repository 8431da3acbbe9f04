use captcha_solver_ui::cut_picture;
use captcha_solver_ui::picture::Picture;
use captcha_solver_ui::point::Point;
use captcha_solver_ui::utils::rgba_image_to_slint_image;

/// A picture whose every byte tells where it lies.
fn numbered(width: u32, height: u32) -> Picture {
    let mut data = Vec::new();
    for y in 0..height {
        for x in 0..width {
            data.push((x % 251) as u8);
            data.push((y % 241) as u8);
            data.push(((x * 7 + y * 13) % 256) as u8);
            data.push(255);
        }
    }
    Picture::from_raw(width, height, data).unwrap()
}

fn pixel_of(x: u32, y: u32) -> [u8; 4] {
    [(x % 251) as u8, (y % 241) as u8, ((x * 7 + y * 13) % 256) as u8, 255]
}

#[test]
fn from_raw_takes_exactly_four_bytes_a_pixel() {
    assert!(Picture::from_raw(2, 3, vec![0; 24]).is_some());
    assert!(Picture::from_raw(2, 3, vec![0; 23]).is_none());
    assert!(Picture::from_raw(2, 3, vec![0; 25]).is_none());
    assert!(Picture::from_raw(0, 0, Vec::new()).is_some());
    assert!(Picture::from_raw(0, 5, Vec::new()).is_some());
    assert!(Picture::from_raw(u32::MAX, u32::MAX, vec![0; 4]).is_none());
}

#[test]
fn a_picture_gives_back_what_it_was_made_from() {
    let data: Vec<u8> = (0..24).collect();
    let picture = Picture::from_raw(3, 2, data.clone()).unwrap();
    assert_eq!(picture.width(), 3);
    assert_eq!(picture.height(), 2);
    assert_eq!(picture.dimensions(), (3, 2));
    assert_eq!(picture.as_raw(), &data);
    assert_eq!(picture.get_pixel(0, 0), Some([0, 1, 2, 3]));
    assert_eq!(picture.get_pixel(2, 0), Some([8, 9, 10, 11]));
    assert_eq!(picture.get_pixel(0, 1), Some([12, 13, 14, 15]));
    assert_eq!(picture.get_pixel(2, 1), Some([20, 21, 22, 23]));
    assert_eq!(picture.get_pixel(3, 0), None);
    assert_eq!(picture.get_pixel(0, 2), None);
    assert_eq!(picture.into_raw(), data);
}

#[test]
fn cropping_inside_returns_the_region_unchanged() {
    let source = numbered(320, 180);
    let cut = cut_picture(&source, Point { x: 0, y: 0 }, Point { x: 320, y: 160 });
    assert_eq!(cut.dimensions(), (320, 160));
    assert_eq!(cut.as_raw().len(), 320 * 160 * 4);
    assert_eq!(cut.as_raw().as_slice(), &source.as_raw()[..320 * 160 * 4]);
    for y in 0..160 {
        for x in 0..320 {
            assert_eq!(cut.get_pixel(x, y), Some(pixel_of(x, y)));
        }
    }
}

#[test]
fn cropping_the_icon_strip_takes_the_rows_below_the_picture() {
    let source = numbered(320, 180);
    let cut = cut_picture(&source, Point { x: 0, y: 160 }, Point { x: 84, y: 20 });
    assert_eq!(cut.dimensions(), (84, 20));
    for y in 0..20 {
        for x in 0..84 {
            assert_eq!(cut.get_pixel(x, y), Some(pixel_of(x, y + 160)));
        }
    }
}

#[test]
fn cropping_with_an_offset_moves_both_coordinates() {
    let source = numbered(10, 8);
    let cut = cut_picture(&source, Point { x: 3, y: 2 }, Point { x: 4, y: 5 });
    assert_eq!(cut.dimensions(), (4, 5));
    assert_eq!(cut.get_pixel(0, 0), Some(pixel_of(3, 2)));
    assert_eq!(cut.get_pixel(3, 4), Some(pixel_of(6, 6)));
    assert_eq!(cut.get_pixel(4, 0), None);
}

#[test]
fn cropping_past_the_edge_is_cut_down_to_the_picture() {
    let source = numbered(10, 8);
    let cut = cut_picture(&source, Point { x: 7, y: 6 }, Point { x: 100, y: 100 });
    assert_eq!(cut.dimensions(), (3, 2));
    assert_eq!(cut.get_pixel(0, 0), Some(pixel_of(7, 6)));
    assert_eq!(cut.get_pixel(2, 1), Some(pixel_of(9, 7)));

    let outside = cut_picture(&source, Point { x: 50, y: 50 }, Point { x: 4, y: 4 });
    assert_eq!(outside.dimensions(), (0, 0));
    assert!(outside.as_raw().is_empty());

    let huge = cut_picture(&source, Point { x: u32::MAX, y: 1 }, Point { x: u32::MAX, y: u32::MAX });
    assert_eq!(huge.dimensions(), (0, 7));
    assert!(huge.as_raw().is_empty());
}

#[test]
fn cropping_nothing_gives_an_empty_picture() {
    let source = numbered(10, 8);
    let cut = cut_picture(&source, Point { x: 2, y: 2 }, Point { x: 0, y: 3 });
    assert_eq!(cut.dimensions(), (0, 3));
    assert!(cut.as_raw().is_empty());
}

#[test]
fn cropping_agrees_with_the_image_crate() {
    let source = numbered(37, 29);
    let buffer: image::RgbaImage = image::ImageBuffer::from_raw(37, 29, source.as_raw().clone()).unwrap();
    for (x, y, w, h) in [(0, 0, 37, 29), (5, 7, 11, 13), (30, 20, 20, 20), (36, 28, 1, 1), (40, 3, 2, 2)] {
        let mine = cut_picture(&source, Point { x, y }, Point { x: w, y: h });
        let theirs = image::imageops::crop_imm(&buffer, x, y, w, h).to_image();
        assert_eq!(mine.dimensions(), theirs.dimensions());
        assert_eq!(mine.as_raw(), theirs.as_raw());
    }
}

#[test]
fn picture_crop_imm_is_what_cut_picture_does() {
    let source = numbered(12, 9);
    let a = source.crop_imm(1, 2, 3, 4);
    let b = cut_picture(&source, Point { x: 1, y: 2 }, Point { x: 3, y: 4 });
    assert_eq!(a.dimensions(), b.dimensions());
    assert_eq!(a.as_raw(), b.as_raw());
}

#[test]
fn a_window_image_holds_the_picture() {
    let source = numbered(9, 5);
    let image = rgba_image_to_slint_image(&source);
    assert_eq!(image.size().width, 9);
    assert_eq!(image.size().height, 5);
    let buffer = image.to_rgba8().unwrap();
    assert_eq!(buffer.width(), 9);
    assert_eq!(buffer.height(), 5);
    assert_eq!(buffer.as_bytes(), source.as_raw().as_slice());
}

#[test]
fn a_window_image_of_an_empty_picture_is_empty() {
    let source = Picture::from_raw(0, 0, Vec::new()).unwrap();
    let image = rgba_image_to_slint_image(&source);
    assert_eq!(image.size().width, 0);
    assert_eq!(image.size().height, 0);
}

#[test]
fn a_cloned_picture_is_the_same_picture() {
    let source = numbered(7, 3);
    let copy = source.clone();
    assert_eq!(copy.dimensions(), (7, 3));
    assert_eq!(copy.as_raw(), source.as_raw());
}
