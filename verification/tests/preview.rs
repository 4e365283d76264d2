//! Every control shows a value by one command and lays the same value down by another.
use stark_ui::amount::Amount;
use stark_ui::model::{
    BlendMode, ColorAdjust, DocCommand, Family, FillOp, GuideId, LayerId, MattePaint, Point, Rect,
    SelectionShape, Srgb, TransformMap, ViewCommand,
};
use stark_ui::panels::guides::{Camera, Lens, Pose, Three};
use stark_ui::preview::{
    Background, Deformation, FilterTuning, GuideCamera, LayerBlend, LayerOpacity, MatteFinish,
    MatteFrame, Paired, Preview, SelectionFill, SelectionOpacity, SubstrateScale,
};

fn n(v: f32) -> Amount {
    Amount { bits: v.to_bits() }
}

fn both<T: Paired>(value: T) -> (ViewCommand, DocCommand) {
    let preview = Preview::<T>::new();
    (preview.show(value), preview.commit(value))
}

fn camera() -> Camera {
    Camera {
        pose: Pose {
            center_x: 0,
            center_y: 0,
            focal: 900.0f32.to_bits(),
            turn_x: 0,
            turn_y: 0,
            turn_z: 0,
            turn_w: 1.0f32.to_bits(),
        },
        lens: Lens::Rectilinear,
        pairs: Three { first: true, second: true, third: true },
        cells: 2,
        opacity: n(0.5),
    }
}

fn affine() -> TransformMap {
    let mut bits = [0u32; 36];
    bits[0] = 2.0f32.to_bits();
    bits[3] = 3.0f32.to_bits();
    TransformMap {
        family: Family::Free,
        bits,
    }
}

#[test]
fn a_pair_shows_and_lays_the_same_value() {
    let id = LayerId(7);

    match both(SelectionOpacity { opacity: n(0.4) }) {
        (
            ViewCommand::PreviewSelectionOpacity(Some(shown)),
            DocCommand::SetSelectionOpacity(laid),
        ) => assert_eq!((shown, shown), (laid, n(0.4))),
        other => panic!("{other:?}"),
    }
    match both(LayerOpacity { layer: id, opacity: n(0.25) }) {
        (
            ViewCommand::PreviewLayerOpacity(Some(shown)),
            DocCommand::SetLayerOpacity(layer, opacity),
        ) => assert_eq!((shown, (id, n(0.25))), ((layer, opacity), (layer, opacity))),
        other => panic!("{other:?}"),
    }
    match both(LayerBlend { layer: id, mode: BlendMode::Drago { k: n(1.5) } }) {
        (ViewCommand::PreviewLayerBlend(Some(shown)), DocCommand::SetLayerBlend(layer, laid)) => {
            assert_eq!(shown, (layer, laid));
            assert_eq!(shown, (id, BlendMode::Drago { k: n(1.5) }));
        }
        other => panic!("{other:?}"),
    }
    let adjust = ColorAdjust { exposure: n(0.001), contrast: n(0.002), saturation: n(0.003), hue: n(0.004) };
    match both(FilterTuning { layer: id, adjust }) {
        (ViewCommand::PreviewFilter(Some(shown)), DocCommand::SetFilter(layer, laid)) => {
            assert_eq!(shown, (layer, laid));
            assert_eq!(shown, (id, adjust));
        }
        other => panic!("{other:?}"),
    }
    let rect = Rect {
        min: Point { x: -3 * 64, y: -4 * 64 },
        max: Point { x: 5 * 64, y: 6 * 64 },
    };
    match both(MatteFrame { layer: id, rect }) {
        (ViewCommand::PreviewMatteRect(Some(shown)), DocCommand::SetMatteRect(layer, laid)) => {
            assert_eq!(shown, (layer, laid));
            assert_eq!(shown, (id, rect));
        }
        other => panic!("{other:?}"),
    }
    let solid = MattePaint::Solid(Srgb { r: n(0.1), g: n(0.2), b: n(0.3) });
    match both(MatteFinish { layer: id, paint: solid }) {
        (ViewCommand::PreviewMattePaint(Some(shown)), DocCommand::SetMattePaint(layer, laid)) => {
            assert_eq!(shown, (layer, laid));
            assert_eq!(shown, (id, solid));
        }
        other => panic!("{other:?}"),
    }
    let paper = Srgb { r: n(0.93), g: n(0.91), b: n(0.86) };
    match both(Background { color: paper }) {
        (ViewCommand::PreviewSubstrateColor(Some(shown)), DocCommand::SetSubstrateColor(laid)) => {
            assert_eq!(shown, laid);
            assert_eq!(shown, paper);
        }
        other => panic!("{other:?}"),
    }
    match both(SubstrateScale { percent: 160 }) {
        (ViewCommand::PreviewSubstrateScale(Some(shown)), DocCommand::SetSubstrateScale(laid)) => {
            assert_eq!(shown, laid);
            assert_eq!(shown, 160);
        }
        other => panic!("{other:?}"),
    }
    let op = FillOp::Solid {
        shape: SelectionShape::All,
        feather: n(2.0),
        color: Srgb { r: n(0.2), g: n(0.4), b: n(0.6) },
        opacity: n(0.75),
    };
    match both(SelectionFill { layer: id, op }) {
        (ViewCommand::PreviewFill(Some(shown)), DocCommand::Fill(layer, laid)) => {
            assert_eq!(shown, (layer, laid));
            assert_eq!(shown, (id, op));
        }
        other => panic!("{other:?}"),
    }
    let guide = GuideId { lamport: 3, actor: 1 };
    match both(GuideCamera { guide, camera: camera() }) {
        (ViewCommand::PreviewGuide(Some(shown)), DocCommand::SetGuide(id, laid)) => {
            assert_eq!(shown, (id, laid));
            assert_eq!(shown, (guide, camera()));
        }
        other => panic!("{other:?}"),
    }
    match both(Deformation { layer: id, map: affine() }) {
        (ViewCommand::PreviewTransform(Some(shown)), DocCommand::Transform(layer, map)) => {
            assert_eq!(shown, (layer, map));
            assert_eq!(shown, (id, affine()));
        }
        other => panic!("{other:?}"),
    }
}

#[test]
fn clearing_is_the_showing_command_with_nothing_in_it() {
    assert_eq!(
        Preview::<LayerOpacity>::new().clear(),
        ViewCommand::PreviewLayerOpacity(None)
    );
    assert_eq!(
        Preview::<FilterTuning>::new().clear(),
        ViewCommand::PreviewFilter(None)
    );
    assert_eq!(
        Preview::<SelectionFill>::new().clear(),
        ViewCommand::PreviewFill(None)
    );
    assert_eq!(
        Preview::<Deformation>::new().clear(),
        ViewCommand::PreviewTransform(None)
    );
    assert_eq!(
        Preview::<MatteFinish>::new().clear(),
        ViewCommand::PreviewMattePaint(None)
    );
    assert_eq!(
        Preview::<GuideCamera>::new().clear(),
        ViewCommand::PreviewGuide(None)
    );
    assert_eq!(
        Preview::<SubstrateScale>::new().clear(),
        ViewCommand::PreviewSubstrateScale(None)
    );
}

#[test]
fn a_drag_lays_the_last_value_it_showed_and_only_once() {
    let mut preview = Preview::<SubstrateScale>::new();
    assert_eq!(preview.settle(), None, "nothing was shown");
    for percent in [110, 120, 130] {
        assert_eq!(
            preview.during(SubstrateScale { percent }),
            ViewCommand::PreviewSubstrateScale(Some(percent))
        );
    }
    assert_eq!(preview.settle(), Some(DocCommand::SetSubstrateScale(130)));
    assert_eq!(preview.settle(), None, "arriving twice is free");
}
