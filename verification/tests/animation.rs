use punda::display::animation::heart::{Heart, HEART0, HEART1, HEART2};
use punda::display::animation::letters::{A_UPPER, I_UPPER, O_UPPER, QUESTION, SPACE};
use punda::display::animation::text::{Column, Letter, ScrollingText};
use punda::display::animation::Animate;
use punda::display::image::DisplayImage;

fn count_frames(anim: &mut impl Animate) -> u32 {
    let mut n = 0;
    while anim.next_screen().is_some() {
        n += 1;
    }
    n
}

#[test]
fn heart_beats_four_times() {
    let mut h = Heart::new();
    assert_eq!(h.frames(), 4);
    let expected = [(HEART0, 400), (HEART1, 200), (HEART2, 400), (HEART1, 200)];
    for (image, length) in expected.iter() {
        let f = h.next_screen().unwrap();
        assert_eq!(f.image.0, *image);
        assert_eq!(f.length, *length);
    }
    assert!(h.next_screen().is_none());
    assert!(h.next_screen().is_none());
}

#[test]
fn heart_frame_count_matches_frames() {
    let mut h = Heart::new();
    let n = h.frames();
    assert_eq!(count_frames(&mut h), n);
}

#[test]
fn letter_widths_and_columns() {
    let wide = Letter::from(A_UPPER);
    let thin = Letter::from(I_UPPER);
    let medium = Letter::Medium(SPACE);
    assert_eq!(wide.column_width(), 5);
    assert_eq!(medium.column_width(), 4);
    assert_eq!(thin.column_width(), 3);
    assert_eq!(wide.get_column(0), Some([false, true, true, true, true]));
    assert_eq!(wide.get_column(5), None);
    assert_eq!(thin.get_column(1), Some([true, true, true, true, true]));
    assert_eq!(thin.get_column(3), None);
    assert_eq!(medium.get_column(3), Some([false; 5]));
    assert_eq!(medium.get_column(4), None);
}

#[test]
fn letters_become_images() {
    let thin: DisplayImage = Letter::Thin(I_UPPER).into();
    assert_eq!(thin.0[0], [false, true, true, true, false]);
    assert_eq!(thin.0[1], [false, false, true, false, false]);
    let medium: DisplayImage = Letter::Medium(QUESTION).into();
    assert_eq!(medium.0[0], [false, true, true, false, false]);
    let wide: DisplayImage = Letter::Wide(A_UPPER).into();
    assert_eq!(wide.0, A_UPPER);
}

#[test]
fn characters_map_to_glyphs() {
    match ScrollingText::char_to_image('0') {
        Letter::Wide(a) => assert_eq!(a, O_UPPER),
        _ => panic!("zero is drawn as O"),
    }
    match ScrollingText::char_to_image('#') {
        Letter::Medium(a) => assert_eq!(a, QUESTION),
        _ => panic!("unknown characters are drawn as a question mark"),
    }
    match ScrollingText::char_to_image(' ') {
        Letter::Medium(a) => assert_eq!(a, SPACE),
        _ => panic!("space is medium"),
    }
}

#[test]
fn columns_passed_counts_positions() {
    let all = [Column::C0, Column::C1, Column::C2, Column::C3, Column::C4, Column::B0, Column::B1];
    for (i, c) in all.iter().enumerate() {
        assert_eq!(c.columns_passed(), i as u32);
    }
}

#[test]
fn single_letter_frame_count() {
    let mut t = ScrollingText::new(String::from("A"), 100);
    assert_eq!(t.frames(), 12);
    assert_eq!(count_frames(&mut t), 12);
}

#[test]
fn text_frame_count_matches_frames() {
    for text in ["Hi!", "hello, world.", "I", "Mmm 42?", "xyz"].iter() {
        let mut t = ScrollingText::new(String::from(*text), 50);
        let n = t.frames();
        assert_eq!(count_frames(&mut t), n, "text {:?}", text);
    }
}

#[test]
fn text_scrolls_in_from_the_right() {
    let mut t = ScrollingText::new(String::from("A"), 70);
    // four columns of the leading space
    for _ in 0..4 {
        let f = t.next_screen().unwrap();
        assert_eq!(f.length, 70);
    }
    // the first of the two dark gap columns: A's first three columns on the right
    let f = t.next_screen().unwrap();
    for r in 0..5 {
        assert_eq!(f.image.0[r][0], false);
        assert_eq!(f.image.0[r][1], false);
        assert_eq!(f.image.0[r][2], A_UPPER[r][0]);
        assert_eq!(f.image.0[r][3], A_UPPER[r][1]);
        assert_eq!(f.image.0[r][4], A_UPPER[r][2]);
    }
    // the second gap column, then A itself fills the screen
    let f = t.next_screen().unwrap();
    for r in 0..5 {
        assert_eq!(f.image.0[r][0], false);
        assert_eq!(f.image.0[r][4], A_UPPER[r][3]);
    }
    let f = t.next_screen().unwrap();
    assert_eq!(f.image.0, A_UPPER);
}

#[test]
fn multibyte_text_scrolls_bytewise() {
    // "é" is two bytes, each drawn as a question mark; frames() counts one
    // character.
    let mut t = ScrollingText::new(String::from("é"), 10);
    assert_eq!(t.frames(), 4 + 2 + 5);
    assert_eq!(count_frames(&mut t), (4 + 2) + (4 + 2) + 5);
}

#[test]
fn consecutive_frames_shift_by_one_column() {
    for text in ["Hi!", "mix it up 9", "Iw."].iter() {
        let mut t = ScrollingText::new(String::from(*text), 30);
        let mut prev = t.next_screen().unwrap();
        while let Some(f) = t.next_screen() {
            for r in 0..5 {
                for j in 0..4 {
                    assert_eq!(f.image.0[r][j], prev.image.0[r][j + 1]);
                }
            }
            assert_eq!(f.length, 30);
            prev = f;
        }
    }
}

#[test]
fn image_derefs_to_rows() {
    let d = DisplayImage(A_UPPER);
    assert_eq!(d[0], A_UPPER[0]);
}
