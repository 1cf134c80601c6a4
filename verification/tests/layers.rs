use gerber_viewer::{GerberLayer, LayerInfo, LayerType};

#[test]
fn all_layers_in_order() {
    assert_eq!(
        LayerType::all(),
        vec![
            LayerType::TopCopper,
            LayerType::BottomCopper,
            LayerType::TopSilk,
            LayerType::BottomSilk,
            LayerType::TopSoldermask,
            LayerType::BottomSoldermask,
            LayerType::MechanicalOutline,
        ]
    );
}

#[test]
fn names_of_layers() {
    let shown: Vec<&str> = LayerType::all().iter().map(|l| l.display_name()).collect();
    assert_eq!(
        shown,
        vec![
            "Top Copper",
            "Bottom Copper",
            "Top Silk",
            "Bottom Silk",
            "Top Soldermask",
            "Bottom Soldermask",
            "Mechanical Outline"
        ]
    );
    let files: Vec<&str> = LayerType::all().iter().map(|l| l.filename()).collect();
    assert_eq!(
        files,
        vec![
            "cmod_s7-F_Cu.gbr",
            "cmod_s7-B_Cu.gbr",
            "cmod_s7-F_SilkS.gbr",
            "cmod_s7-B_SilkS.gbr",
            "cmod_s7-F_Mask.gbr",
            "cmod_s7-B_Mask.gbr",
            "cmod_s7-Edge_Cuts.gbr"
        ]
    );
}

#[test]
fn layers_of_the_side_that_is_seen_are_rendered() {
    let from_top: Vec<bool> = LayerType::all().iter().map(|l| l.should_render(true)).collect();
    assert_eq!(from_top, vec![true, false, true, false, true, false, true]);
    let from_bottom: Vec<bool> = LayerType::all().iter().map(|l| l.should_render(false)).collect();
    assert_eq!(from_bottom, vec![false, true, false, true, false, true, true]);
}

#[test]
fn layer_info_holds_what_it_is_given() {
    let info = LayerInfo::new(LayerType::TopSilk, Some(GerberLayer::new(vec![])), true);
    assert_eq!(info.layer_type, LayerType::TopSilk);
    assert!(info.visible);
    assert!(info.gerber_layer.unwrap().is_empty());
    let none = LayerInfo::new(LayerType::BottomCopper, None, false);
    assert!(none.gerber_layer.is_none());
    assert!(!none.visible);
}
