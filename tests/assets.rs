use cursor_shapes::{load_cursor_svg, CommonCursorType};

const ALL: [CommonCursorType; 6] = [
    CommonCursorType::Arrow,
    CommonCursorType::IBeam,
    CommonCursorType::Crosshair,
    CommonCursorType::PointingHand,
    CommonCursorType::ResizeNWSE,
    CommonCursorType::ResizeEW,
];

#[test]
fn svg_filenames() {
    let names: Vec<&str> = ALL.iter().map(|t| t.svg_filename()).collect();
    assert_eq!(
        names,
        vec![
            "arrow.svg",
            "ibeam.svg",
            "crosshair.svg",
            "pointing-hand.svg",
            "resize-nwse.svg",
            "resize-ew.svg"
        ]
    );
}

#[test]
fn every_shape_has_a_stable_svg() {
    for t in ALL.iter() {
        let first = load_cursor_svg(t).expect("bundled");
        let second = load_cursor_svg(t).expect("bundled");
        assert!(!first.is_empty());
        assert_eq!(first, second);
        let text = String::from_utf8(first).unwrap();
        assert!(text.starts_with("<svg"));
        assert!(text.trim_end().ends_with("</svg>"));
    }
}

#[test]
fn svgs_differ_between_shapes() {
    for (i, a) in ALL.iter().enumerate() {
        for b in ALL.iter().skip(i + 1) {
            assert_ne!(load_cursor_svg(a), load_cursor_svg(b));
        }
    }
}
