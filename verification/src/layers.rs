//! The layers of a board, as a viewer names and stacks them.

use vstd::prelude::*;
use crate::layer::GerberLayer;

verus! {

/// A layer of a board.
#[derive(Debug, Clone, Copy, PartialEq, Eq, Structural, Hash)]
pub enum LayerType {
    TopCopper,
    BottomCopper,
    TopSilk,
    BottomSilk,
    TopSoldermask,
    BottomSoldermask,
    MechanicalOutline,
}

impl LayerType {
    /// Every layer, from the top copper down to the outline.
    pub open spec fn every() -> Seq<LayerType> {
        seq![
            LayerType::TopCopper,
            LayerType::BottomCopper,
            LayerType::TopSilk,
            LayerType::BottomSilk,
            LayerType::TopSoldermask,
            LayerType::BottomSoldermask,
            LayerType::MechanicalOutline,
        ]
    }

    /// The name of the layer as it is shown.
    pub open spec fn shown_name(self) -> Seq<char> {
        match self {
            LayerType::TopCopper => "Top Copper"@,
            LayerType::BottomCopper => "Bottom Copper"@,
            LayerType::TopSilk => "Top Silk"@,
            LayerType::BottomSilk => "Bottom Silk"@,
            LayerType::TopSoldermask => "Top Soldermask"@,
            LayerType::BottomSoldermask => "Bottom Soldermask"@,
            LayerType::MechanicalOutline => "Mechanical Outline"@,
        }
    }

    /// The name of the file that holds the layer.
    pub open spec fn file_name(self) -> Seq<char> {
        match self {
            LayerType::TopCopper => "cmod_s7-F_Cu.gbr"@,
            LayerType::BottomCopper => "cmod_s7-B_Cu.gbr"@,
            LayerType::TopSilk => "cmod_s7-F_SilkS.gbr"@,
            LayerType::BottomSilk => "cmod_s7-B_SilkS.gbr"@,
            LayerType::TopSoldermask => "cmod_s7-F_Mask.gbr"@,
            LayerType::BottomSoldermask => "cmod_s7-B_Mask.gbr"@,
            LayerType::MechanicalOutline => "cmod_s7-Edge_Cuts.gbr"@,
        }
    }

    /// Whether the layer lies on the top side; `None` for the outline, which
    /// belongs to neither side.
    pub open spec fn on_top(self) -> Option<bool> {
        match self {
            LayerType::TopCopper | LayerType::TopSilk | LayerType::TopSoldermask => Some(true),
            LayerType::BottomCopper | LayerType::BottomSilk | LayerType::BottomSoldermask => Some(
                false,
            ),
            LayerType::MechanicalOutline => None,
        }
    }

    /// Every layer, from the top copper down to the outline.
    pub fn all() -> (layers: Vec<LayerType>)
        ensures
            layers@ == LayerType::every(),
    {
        let mut layers: Vec<LayerType> = Vec::new();
        layers.push(LayerType::TopCopper);
        layers.push(LayerType::BottomCopper);
        layers.push(LayerType::TopSilk);
        layers.push(LayerType::BottomSilk);
        layers.push(LayerType::TopSoldermask);
        layers.push(LayerType::BottomSoldermask);
        layers.push(LayerType::MechanicalOutline);
        proof {
            assert(layers@ =~= LayerType::every());
        }
        layers
    }

    /// The name of the layer as it is shown.
    pub fn display_name(&self) -> (name: &'static str)
        ensures
            name@ == self.shown_name(),
    {
        match self {
            LayerType::TopCopper => "Top Copper",
            LayerType::BottomCopper => "Bottom Copper",
            LayerType::TopSilk => "Top Silk",
            LayerType::BottomSilk => "Bottom Silk",
            LayerType::TopSoldermask => "Top Soldermask",
            LayerType::BottomSoldermask => "Bottom Soldermask",
            LayerType::MechanicalOutline => "Mechanical Outline",
        }
    }

    /// The name of the file that holds the layer.
    pub fn filename(&self) -> (name: &'static str)
        ensures
            name@ == self.file_name(),
    {
        match self {
            LayerType::TopCopper => "cmod_s7-F_Cu.gbr",
            LayerType::BottomCopper => "cmod_s7-B_Cu.gbr",
            LayerType::TopSilk => "cmod_s7-F_SilkS.gbr",
            LayerType::BottomSilk => "cmod_s7-B_SilkS.gbr",
            LayerType::TopSoldermask => "cmod_s7-F_Mask.gbr",
            LayerType::BottomSoldermask => "cmod_s7-B_Mask.gbr",
            LayerType::MechanicalOutline => "cmod_s7-Edge_Cuts.gbr",
        }
    }

    /// Whether the layer is drawn when the board is seen from the top
    /// (`showing_top`) or from the bottom: the layers of the side that is seen
    /// are, and so is the outline.
    pub fn should_render(&self, showing_top: bool) -> (render: bool)
        ensures
            render == match self.on_top() {
                Some(top) => top == showing_top,
                None => true,
            },
    {
        match self {
            LayerType::TopCopper | LayerType::TopSilk | LayerType::TopSoldermask => showing_top,
            LayerType::BottomCopper | LayerType::BottomSilk | LayerType::BottomSoldermask => {
                !showing_top
            },
            LayerType::MechanicalOutline => true,
        }
    }
}

/// A layer of a board with what was compiled for it and whether it is shown.
pub struct LayerInfo {
    pub layer_type: LayerType,
    pub gerber_layer: Option<GerberLayer>,
    pub visible: bool,
}

impl LayerInfo {
    /// The information on one layer.
    pub fn new(layer_type: LayerType, gerber_layer: Option<GerberLayer>, visible: bool) -> (info:
        LayerInfo)
        ensures
            info.layer_type == layer_type,
            info.gerber_layer == gerber_layer,
            info.visible == visible,
    {
        LayerInfo { layer_type, gerber_layer, visible }
    }
}

} // verus!
