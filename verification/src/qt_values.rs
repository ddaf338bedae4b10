use vstd::prelude::*;

verus! {

/// Maps a native-side value into the matching foreign-representation value
/// and hands it to `map_func` together with a caller-supplied context.
///
/// This is the interface the generated glue code goes through for each
/// value crossing the boundary; the conversions themselves are total
/// functions between the two representations. Implementations take
/// `map_func` as a plain function value (`F` is instantiated with a
/// function type per implementing type), which Verus does not accept yet,
/// so the implementations live with the unverified glue.
pub trait MapQtValue<C, F, R> {
    fn map_qt_value(&self, map_func: F, context: &mut C) -> R;
}

/// A foreign-side string value, modelled by its character data.
#[derive(Debug, PartialEq, Eq)]
pub struct QString {
    pub value: String,
}

impl View for QString {
    type V = Seq<char>;

    open spec fn view(&self) -> Seq<char> {
        self.value@
    }
}

impl QString {
    /// The native-side representation of this string.
    pub fn to_rust(&self) -> (r: String)
        ensures
            r@ == self@,
    {
        self.value.clone()
    }
}

/// A foreign-side point value. The coordinates are held as plain integer
/// values; nothing here reads them, they only travel with the point.
#[derive(Clone, Copy, PartialEq, Eq, Structural, Debug)]
pub struct QPointF {
    pub x: i64,
    pub y: i64,
}

/// A native-side variant value: one of the plain shapes a variant can hold.
#[derive(Debug, PartialEq, Eq)]
pub enum Variant {
    Unset,
    Bool(bool),
    I32(i32),
    String(String),
}

/// Mathematical value of a [`Variant`].
pub enum VariantV {
    Unset,
    Bool(bool),
    I32(i32),
    String(Seq<char>),
}

impl View for Variant {
    type V = VariantV;

    open spec fn view(&self) -> VariantV {
        match self {
            Variant::Unset => VariantV::Unset,
            Variant::Bool(b) => VariantV::Bool(*b),
            Variant::I32(n) => VariantV::I32(*n),
            Variant::String(s) => VariantV::String(s@),
        }
    }
}

/// A foreign-side variant value, modelled by the native value it holds.
#[derive(Debug, PartialEq, Eq)]
pub struct QVariant {
    pub value: Variant,
}

impl View for QVariant {
    type V = VariantV;

    open spec fn view(&self) -> VariantV {
        self.value@
    }
}

impl QVariant {
    /// The native-side representation of this variant.
    pub fn to_rust(&self) -> (r: Variant)
        ensures
            r@ == self@,
    {
        match &self.value {
            Variant::Unset => Variant::Unset,
            Variant::Bool(b) => Variant::Bool(*b),
            Variant::I32(n) => Variant::I32(*n),
            Variant::String(s) => Variant::String(s.clone()),
        }
    }
}

} // verus!
