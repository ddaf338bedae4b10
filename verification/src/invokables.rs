use vstd::prelude::*;

use crate::qt_values::{QPointF, QString, QVariant, Variant};

verus! {

/// The foreign half of a bridged object, as the invokable methods see it.
/// The echo methods below never read it; it only witnesses that an
/// invokable runs against a live foreign object.
pub struct CppObj {}

/// The native half of a bridged object whose invokable methods exercise
/// one value conversion each: every method hands its argument back in the
/// native representation, unchanged.
#[derive(Default)]
pub struct RustObj {}

impl RustObj {
    /// Echoes a point value across the boundary.
    pub fn test_pointf(&self, _cpp: &mut CppObj, pointf: &QPointF) -> (r: QPointF)
        ensures
            r == *pointf,
    {
        *pointf
    }

    /// Echoes a string value across the boundary, converting it to the
    /// native representation.
    pub fn test_string(&self, _cpp: &mut CppObj, string: &QString) -> (r: String)
        ensures
            r@ == string@,
    {
        string.to_rust()
    }

    /// Echoes a variant value across the boundary, converting it to the
    /// native representation.
    pub fn test_variant(&self, _cpp: &mut CppObj, variant: &QVariant) -> (r: Variant)
        ensures
            r@ == variant@,
    {
        variant.to_rust()
    }
}

} // verus!
