use punda::display::constant::{BLANK, CHECKERBOARD, SMILEY};
use punda::display::image::{DisplayImage, MatrixImage, DISPLAY_MAP};

#[test]
fn single_led_lands_on_its_matrix_cell() {
    let mut grid = [[false; 5]; 5];
    grid[2][1] = true;
    let m: MatrixImage = DisplayImage(grid).into();
    for r in 0..3 {
        for c in 0..9 {
            assert_eq!(m.0[r][c], r == 0 && c == 8);
        }
    }
}

#[test]
fn every_led_follows_the_map() {
    for r in 0..5 {
        for c in 0..5 {
            let mut grid = [[false; 5]; 5];
            grid[r][c] = true;
            let m = MatrixImage::from(DisplayImage(grid));
            let (mr, mc) = DISPLAY_MAP[r][c];
            let lit: usize = m.0.iter().map(|row| row.iter().filter(|x| **x).count()).sum();
            assert_eq!(lit, 1);
            assert!(m.0[mr][mc]);
        }
    }
}

#[test]
fn all_lit_leaves_two_cells_dark() {
    let m = MatrixImage::from(DisplayImage([[true; 5]; 5]));
    for r in 0..3 {
        for c in 0..9 {
            assert_eq!(m.0[r][c], !(r == 1 && c >= 7));
        }
    }
}

#[test]
fn blank_image_gives_blank_matrix() {
    let m = MatrixImage::from(DisplayImage(BLANK));
    assert_eq!(m.0, [[false; 9]; 3]);
}

#[test]
fn checkerboard_matrix() {
    let m = MatrixImage::from(DisplayImage::from(CHECKERBOARD));
    assert_eq!(
        m.0,
        [
            [true, true, true, false, true, false, true, false, false],
            [true, true, true, false, false, false, false, false, false],
            [true, true, true, false, true, false, true, false, false],
        ]
    );
}

#[test]
fn arrays_convert_to_images() {
    let d = DisplayImage::from(SMILEY);
    assert_eq!(d.0, SMILEY);
    let m = MatrixImage::from([[true; 9]; 3]);
    assert_eq!(m.0, [[true; 9]; 3]);
}
