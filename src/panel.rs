//! The kind of a layer as a layer list shows it.
use vstd::prelude::*;
use crate::layers::LayerDataTypes;

verus! {

/// What a layer holds, for listing.
#[derive(Debug, Clone, Copy, PartialEq, Eq, Hash, Structural)]
pub enum LayerType {
    Folder,
    Shape,
    Circle,
    Rect,
    Line,
    PolyLine,
    Ellipse,
}

/// The kind of each payload.
pub open spec fn layer_type_of(data: LayerDataTypes) -> LayerType {
    match data {
        LayerDataTypes::Folder(_) => LayerType::Folder,
        LayerDataTypes::Shape(_) => LayerType::Shape,
        LayerDataTypes::Rect(_) => LayerType::Rect,
        LayerDataTypes::Line(_) => LayerType::Line,
        LayerDataTypes::PolyLine(_) => LayerType::PolyLine,
        LayerDataTypes::Ellipse(_) => LayerType::Ellipse,
    }
}

/// The display name of each kind.
pub open spec fn layer_type_name(t: LayerType) -> Seq<char> {
    match t {
        LayerType::Folder => "Folder"@,
        LayerType::Shape => "Shape"@,
        LayerType::Rect => "Rectangle"@,
        LayerType::Line => "Line"@,
        LayerType::Circle => "Circle"@,
        LayerType::PolyLine => "Polyline"@,
        LayerType::Ellipse => "Ellipse"@,
    }
}

impl LayerType {
    /// The name under which a layer list shows this kind.
    pub fn name(&self) -> (r: &'static str)
        ensures
            r@ == layer_type_name(*self),
    {
        match self {
            LayerType::Folder => "Folder",
            LayerType::Shape => "Shape",
            LayerType::Rect => "Rectangle",
            LayerType::Line => "Line",
            LayerType::Circle => "Circle",
            LayerType::PolyLine => "Polyline",
            LayerType::Ellipse => "Ellipse",
        }
    }
}

impl<'a> From<&'a LayerDataTypes> for LayerType {
    fn from(data: &'a LayerDataTypes) -> (r: LayerType)
        ensures
            r == layer_type_of(*data),
    {
        match data {
            LayerDataTypes::Folder(_) => LayerType::Folder,
            LayerDataTypes::Shape(_) => LayerType::Shape,
            LayerDataTypes::Rect(_) => LayerType::Rect,
            LayerDataTypes::Line(_) => LayerType::Line,
            LayerDataTypes::PolyLine(_) => LayerType::PolyLine,
            LayerDataTypes::Ellipse(_) => LayerType::Ellipse,
        }
    }
}

impl<'a> vstd::std_specs::convert::FromSpecImpl<&'a LayerDataTypes> for LayerType {
    open spec fn obeys_from_spec() -> bool {
        true
    }

    open spec fn from_spec(data: &'a LayerDataTypes) -> LayerType {
        layer_type_of(*data)
    }
}

} // verus!
