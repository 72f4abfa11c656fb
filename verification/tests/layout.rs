use winmgr::layout::{CustomLayout, DefaultLayout, Layout, Rect};

const FULL_HD: Rect = Rect { left: 0, top: 0, right: 1920, bottom: 1080 };

const PRESETS: [DefaultLayout; 10] = [
    DefaultLayout::LeftHalf,
    DefaultLayout::RightHalf,
    DefaultLayout::LeftThird,
    DefaultLayout::RightThird,
    DefaultLayout::LeftTwoThirds,
    DefaultLayout::RightTwoThirds,
    DefaultLayout::CenterThird,
    DefaultLayout::CenterSmall,
    DefaultLayout::CenterMedium,
    DefaultLayout::CenterLarge,
];

#[test]
fn left_half_end_to_end() {
    assert_eq!(DefaultLayout::LeftHalf.try_calc(10, &FULL_HD), Some((10, 10, 950, 1060)));
    assert_eq!(
        Layout::Default(DefaultLayout::LeftHalf).try_calc(10, &FULL_HD),
        Some((10, 10, 950, 1060))
    );
}

#[test]
fn center_large_end_to_end() {
    // The inner area is 1900 by 1060; centred in 1920 it starts at 10.
    assert_eq!(DefaultLayout::CenterLarge.try_calc(10, &FULL_HD), Some((10, 10, 1900, 1060)));
}

#[test]
fn every_preset_on_full_hd() {
    let expected = [
        (10, 10, 950, 1060),
        (960, 10, 950, 1060),
        (10, 10, 633, 1060),
        (1276, 10, 633, 1060),
        (10, 10, 1266, 1060),
        (644, 10, 1266, 1060),
        (643, 10, 633, 1060),
        (580, 142, 760, 795),
        (327, 63, 1266, 954),
        (10, 10, 1900, 1060),
    ];
    for (preset, want) in PRESETS.iter().zip(expected.iter()) {
        assert_eq!(preset.try_calc(10, &FULL_HD), Some(*want), "{:?}", preset);
    }
}

#[test]
fn work_area_away_from_origin() {
    let area = Rect { left: -1280, top: 40, right: 0, bottom: 1064 };
    assert_eq!(DefaultLayout::RightHalf.try_calc(4, &area), Some((-640, 44, 636, 1016)));
    assert_eq!(DefaultLayout::CenterSmall.try_calc(4, &area), Some((-894, 171, 508, 762)));
}

#[test]
fn sizes_are_never_negative() {
    let areas = [
        FULL_HD,
        Rect { left: 0, top: 0, right: 0, bottom: 0 },
        Rect { left: 5, top: 5, right: 6, bottom: 6 },
        Rect { left: 100, top: 100, right: 300, bottom: 120 },
        Rect { left: -3000, top: -2000, right: -1000, bottom: -500 },
    ];
    for area in areas.iter() {
        for margin in [0u8, 1, 10, 100, 255] {
            for preset in PRESETS.iter() {
                let (_, _, w, h) = preset.try_calc(margin, area).expect("fits");
                assert!(w >= 0 && h >= 0, "{:?} {} {:?}", preset, margin, area);
            }
        }
    }
}

#[test]
fn margin_wider_than_the_area_leaves_nothing() {
    let area = Rect { left: 100, top: 200, right: 110, bottom: 215 };
    assert_eq!(DefaultLayout::LeftHalf.try_calc(10, &area), Some((110, 210, 0, 0)));
    assert_eq!(DefaultLayout::RightThird.try_calc(10, &area), Some((110, 210, 0, 0)));
    assert_eq!(DefaultLayout::CenterLarge.try_calc(10, &area), Some((105, 210, 0, 0)));
    assert_eq!(DefaultLayout::CenterSmall.try_calc(10, &area), Some((105, 207, 0, 0)));
}

#[test]
fn halves_partition_the_inner_width() {
    for right in [1920, 1921, 21, 20, 7] {
        let area = Rect { left: 0, top: 0, right, bottom: 600 };
        let inner = (right - 20).max(0);
        let (lx, _, lw, _) = DefaultLayout::LeftHalf.try_calc(10, &area).unwrap();
        let (rx, _, rw, _) = DefaultLayout::RightHalf.try_calc(10, &area).unwrap();
        assert_eq!(lw + rw + inner % 2, inner);
        assert_eq!(lx, 10);
        assert_eq!(lx + lw + inner % 2, rx);
        assert_eq!(rx + rw, 10 + inner);
    }
}

#[test]
fn odd_inner_width_leaves_one_pixel_between_the_halves() {
    let area = Rect { left: 0, top: 0, right: 1921, bottom: 1080 };
    assert_eq!(DefaultLayout::LeftHalf.try_calc(10, &area), Some((10, 10, 950, 1060)));
    assert_eq!(DefaultLayout::RightHalf.try_calc(10, &area), Some((961, 10, 950, 1060)));
}

#[test]
fn thirds_lie_side_by_side() {
    for right in [1920, 1921, 1922, 20, 22] {
        let area = Rect { left: 0, top: 0, right, bottom: 600 };
        let inner = (right - 20).max(0);
        let (lx, _, lw, _) = DefaultLayout::LeftThird.try_calc(10, &area).unwrap();
        let (cx, _, cw, _) = DefaultLayout::CenterThird.try_calc(10, &area).unwrap();
        let (rx, _, rw, _) = DefaultLayout::RightThird.try_calc(10, &area).unwrap();
        assert_eq!((lw, cw), (cw, rw));
        assert_eq!(lx + lw, cx);
        assert_eq!(cx + cw, rx);
        assert_eq!(rx + rw + inner % 3, 10 + inner);
    }
}

#[test]
fn custom_layout_is_taken_as_it_is() {
    let custom = Layout::Custom(CustomLayout { x: -50, y: 7000, w: -3, h: 0 });
    let areas = [FULL_HD, Rect { left: i32::MIN, top: i32::MAX, right: i32::MAX, bottom: i32::MIN }];
    for area in areas.iter() {
        for margin in [0u8, 10, 255] {
            assert_eq!(custom.try_calc(margin, area), Some((-50, 7000, -3, 0)));
        }
    }
}

#[test]
fn edges_out_of_order_give_an_empty_rectangle() {
    let area = Rect { left: 10, top: 10, right: 3, bottom: 0 };
    // Half of -7 and of -10, rounded down.
    assert_eq!(DefaultLayout::CenterLarge.try_calc(0, &area), Some((6, 10, 0, 0)));
    assert_eq!(DefaultLayout::CenterSmall.try_calc(0, &area), Some((6, 5, 0, 0)));
}

#[test]
fn rectangle_beyond_32_bits_is_refused() {
    let area = Rect { left: i32::MAX - 5, top: 0, right: i32::MAX, bottom: 100 };
    assert_eq!(DefaultLayout::LeftHalf.try_calc(10, &area), None);
    assert_eq!(Layout::Default(DefaultLayout::LeftHalf).try_calc(10, &area), None);
    let wide = Rect { left: i32::MIN, top: 0, right: i32::MAX, bottom: 100 };
    assert_eq!(DefaultLayout::CenterLarge.try_calc(0, &wide), None);
    assert_eq!(DefaultLayout::LeftHalf.try_calc(0, &wide), Some((i32::MIN, 0, i32::MAX, 100)));
}

#[test]
fn calc_agrees_with_try_calc() {
    for preset in PRESETS.iter() {
        assert_eq!(Some(preset.calc(10, &FULL_HD)), preset.try_calc(10, &FULL_HD));
        let layout = Layout::Default(*preset);
        assert_eq!(Some(layout.calc(10, &FULL_HD)), layout.try_calc(10, &FULL_HD));
    }
    let custom = Layout::Custom(CustomLayout { x: 1, y: 2, w: 3, h: 4 });
    assert_eq!(custom.calc(10, &FULL_HD), (1, 2, 3, 4));
}
