use raytracer::pixels::{new_display, slot_of, write_pixel};

#[test]
fn slots_flip_rows() {
    // 4 columns, 3 rows; row 0 is the bottom of the image and the last row of the buffer.
    assert_eq!(slot_of(4, 3, 0, 0), 8);
    assert_eq!(slot_of(4, 3, 3, 0), 11);
    assert_eq!(slot_of(4, 3, 0, 2), 0);
    assert_eq!(slot_of(4, 3, 3, 2), 3);
    assert_eq!(slot_of(4, 3, 1, 1), 5);
}

#[test]
fn slots_are_distinct_and_cover_buffer() {
    let (w, h) = (5usize, 4usize);
    let mut seen = vec![false; w * h];
    for i in 0..w {
        for j in 0..h {
            let s = slot_of(w, h, i, j);
            assert!(!seen[s]);
            seen[s] = true;
        }
    }
    assert!(seen.iter().all(|&b| b));
}

#[test]
fn display_starts_black() {
    let d = new_display(3, 2);
    assert_eq!(d.len(), 24);
    assert!(d.iter().all(|&b| b == 0));
    assert!(new_display(0, 7).is_empty());
}

#[test]
fn write_pixel_sets_one_pixel() {
    let mut d = new_display(2, 2);
    write_pixel(&mut d, 2, 10, 20, 30);
    assert_eq!(&d[8..12], &[10, 20, 30, 255]);
    assert!(d[..8].iter().all(|&b| b == 0));
    assert!(d[12..].iter().all(|&b| b == 0));
    write_pixel(&mut d, 3, 1, 2, 3);
    assert_eq!(&d[12..16], &[1, 2, 3, 255]);
    assert_eq!(&d[8..12], &[10, 20, 30, 255]);
}
