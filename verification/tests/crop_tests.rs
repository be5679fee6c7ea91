use streambed::{AspectRatio, Error, MatrixCrop};

fn crop(s: &str) -> MatrixCrop {
    MatrixCrop::try_from(s).unwrap()
}

#[test]
fn crop_code_parses_to_positions_and_extents() {
    let c = crop("ABBC,500,500");
    assert_eq!(c.x(), 0);
    assert_eq!(c.y(), 1);
    assert_eq!(c.width(), 2);
    assert_eq!(c.height(), 3);
    assert_eq!(c.hgap(), 500);
    assert_eq!(c.vgap(), 500);
    assert_eq!(c.aspect(), AspectRatio::PRESERVE);
}

#[test]
fn crop_code_takes_letters_only() {
    assert_eq!(MatrixCrop::try_from("AB12,500,500"), Err(Error::InvalidCrop()));
    assert_eq!(MatrixCrop::try_from("ZZ00,0,0"), Err(Error::InvalidCrop()));
    assert_eq!(MatrixCrop::try_from("AAAI,0,0"), Err(Error::InvalidCrop()));
    assert_eq!(MatrixCrop::try_from("aaaa,0,0"), Err(Error::InvalidCrop()));
}

#[test]
fn crop_parsing_is_deterministic() {
    assert_eq!(MatrixCrop::try_from("CDEF,10,20"), MatrixCrop::try_from("CDEF,10,20"));
}

#[test]
fn crop_rejects_gaps_over_half() {
    assert!(MatrixCrop::try_from("AAAA,5000,5000").is_ok());
    assert_eq!(MatrixCrop::try_from("AAAA,5001,0"), Err(Error::InvalidCrop()));
    assert_eq!(MatrixCrop::try_from("AAAA,0,5001"), Err(Error::InvalidCrop()));
    assert_eq!(MatrixCrop::try_from("AAAA,10000,0"), Err(Error::InvalidCrop()));
    assert_eq!(MatrixCrop::try_from("AAAA,4294967296,0"), Err(Error::InvalidCrop()));
}

#[test]
fn crop_rejects_window_outside_matrix() {
    // column 2 of a matrix that is 2 wide
    assert_eq!(MatrixCrop::try_from("CABA,0,0"), Err(Error::InvalidCrop()));
    // row 3 of a matrix that is 3 high
    assert_eq!(MatrixCrop::try_from("ADAC,0,0"), Err(Error::InvalidCrop()));
    assert!(MatrixCrop::try_from("BABA,0,0").is_ok());
    assert!(MatrixCrop::try_from("HHHH,0,0").is_ok());
}

#[test]
fn crop_rejects_malformed_definitions() {
    for s in [
        "",
        "AAAA",
        "AAAA,0",
        "AAAA,0,0,0",
        "AAA,0,0",
        "AAAAA,0,0",
        ",0,0",
        "AAAA,,0",
        "AAAA,0,",
        "AAAA,x,0",
        "AAAA,0,-1",
        "AAAA, 0,0",
    ] {
        assert_eq!(MatrixCrop::try_from(s), Err(Error::InvalidCrop()), "{:?}", s);
    }
}

#[test]
fn position_maps_letters_to_cells() {
    assert_eq!(MatrixCrop::position('A'), Ok(0));
    assert_eq!(MatrixCrop::position('D'), Ok(3));
    assert_eq!(MatrixCrop::position('H'), Ok(7));
    assert_eq!(MatrixCrop::position('I'), Err(Error::InvalidCrop()));
    assert_eq!(MatrixCrop::position('@'), Err(Error::InvalidCrop()));
    assert_eq!(MatrixCrop::position('\0'), Err(Error::InvalidCrop()));
}

#[test]
fn default_crop_is_the_whole_picture() {
    let c = MatrixCrop::default();
    assert_eq!((c.x(), c.y(), c.width(), c.height(), c.hgap(), c.vgap()), (0, 0, 1, 1, 0, 0));
    assert!(!c.is_cropped());
    assert_eq!((c.top(1080), c.bottom(1080), c.left(1920), c.right(1920)), (0, 0, 0, 0));
}

#[test]
fn is_cropped_when_matrix_has_more_than_one_cell() {
    assert!(!crop("AAAA,0,0").is_cropped());
    assert!(crop("AABA,0,0").is_cropped());
    assert!(crop("AAAB,0,0").is_cropped());
    // gaps alone do not crop
    assert!(!crop("AAAA,5000,5000").is_cropped());
}

#[test]
fn margins_follow_the_formula() {
    // row 1 of 3, gap 5%: 1080 * 1 / 3 + 1080 * 500 / (3 * 10000 * 2)
    let c = crop("ABBC,500,500");
    assert_eq!(c.top(1080), 360 + 9);
    // one row below the window
    assert_eq!(c.bottom(1080), 360 + 9);
    // column 0 of 2: 1920 * 0 / 2 + 1920 * 500 / (2 * 10000 * 2)
    assert_eq!(c.left(1920), 0 + 24);
    assert_eq!(c.right(1920), 960 + 24);
}

#[test]
fn margins_round_down() {
    let c = crop("BCCD,1,1");
    // 100 * 2 / 4 + 100 * 1 / 80000
    assert_eq!(c.top(100), 50);
    // 101 * 1 / 3 + 0
    assert_eq!(c.left(101), 33);
    assert_eq!(c.right(101), 33);
    assert_eq!(c.bottom(101), 25);
}

#[test]
fn margins_do_not_overflow_on_huge_frames() {
    let c = crop("HHHH,5000,5000");
    // 4294967295 * 7 / 8 + 4294967295 * 5000 / 160000
    assert_eq!(c.top(u32::MAX), 3_758_096_383 + 134_217_727);
    assert_eq!(c.bottom(u32::MAX), 134_217_727);
    assert_eq!(c.top(u32::MAX) as u64 + c.bottom(u32::MAX) as u64, 4_026_531_837);
}

#[test]
fn margins_never_exceed_the_frame() {
    let letters = ['A', 'B', 'C', 'D', 'E', 'F', 'G', 'H'];
    let gaps = [0u32, 1, 499, 2500, 4999, 5000];
    let sizes = [1u32, 2, 3, 7, 8, 240, 1080, 1920, 65_535, u32::MAX];
    for (x, cx) in letters.iter().enumerate() {
        for (w, cw) in letters.iter().enumerate() {
            if x > w {
                continue;
            }
            for gap in gaps {
                let code = format!("{}{}{}{},{},{}", cx, cx, cw, cw, gap, gap);
                let c = crop(&code);
                for size in sizes {
                    assert!(c.top(size) as u64 + c.bottom(size) as u64 <= size as u64, "{}", code);
                    assert!(c.left(size) as u64 + c.right(size) as u64 <= size as u64, "{}", code);
                }
            }
        }
    }
}

#[test]
fn crop_converts_from_string_slices() {
    let c: Result<MatrixCrop, Error> = "ABBC,500,500".try_into();
    assert_eq!(c, MatrixCrop::try_from("ABBC,500,500"));
    let c: Result<MatrixCrop, Error> = "AB12,500,500".try_into();
    assert_eq!(c, Err(Error::InvalidCrop()));
}
