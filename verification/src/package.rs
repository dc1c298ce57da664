//! What is shipped. Weight and measures are floating-point numbers; the
//! library carries each of them as the IEEE-754 bit pattern of an `f64` and
//! never reads it as a number (the checks on them are made by the caller).
use vstd::prelude::*;

use crate::text::{blank, cat, is_blank};

verus! {

/// The measures of a parcel in centimetres, each as the bits of an `f64`.
#[derive(Debug, Clone, Copy, PartialEq, Eq, Structural)]
pub struct Dimensions {
    pub length_bits: u64,
    pub width_bits: u64,
    pub height_bits: u64,
}

/// What a parcel description holds.
pub struct PackageView {
    pub weight_bits: u64,
    pub dimensions: Dimensions,
    pub contents: Seq<char>,
}

/// A parcel: its weight in kilograms (the bits of an `f64`), its measures and
/// a description of its contents.
#[derive(Debug)]
pub struct PackageDetails {
    weight_bits: u64,
    dimensions: Dimensions,
    contents: String,
}

impl Dimensions {
    /// The measures with these bit patterns.
    pub fn from_bits(length_bits: u64, width_bits: u64, height_bits: u64) -> (d: Dimensions)
        ensures
            d == (Dimensions { length_bits, width_bits, height_bits }),
    {
        Dimensions { length_bits, width_bits, height_bits }
    }
}

/// The complaint about the contents of a parcel, if its description is blank.
pub open spec fn contents_problem(contents: Seq<char>) -> Option<Seq<char>> {
    if is_blank(contents) {
        Some("Content must not be empty: "@ + contents)
    } else {
        None
    }
}

/// What is wrong with the description of a parcel's contents, if anything.
pub fn contents_error(contents: &str) -> (r: Option<String>)
    ensures
        r is Some == contents_problem(contents@) is Some,
        r is Some ==> r->0@ == contents_problem(contents@)->0,
{
    if blank(contents) {
        Some(cat("Content must not be empty: ", contents))
    } else {
        None
    }
}

impl View for PackageDetails {
    type V = PackageView;

    closed spec fn view(&self) -> PackageView {
        PackageView {
            weight_bits: self.weight_bits,
            dimensions: self.dimensions,
            contents: self.contents@,
        }
    }
}

impl PackageDetails {
    /// The parcel with this weight, these measures and these contents, as the
    /// caller has checked them.
    pub fn from_parts(weight_bits: u64, dimensions: Dimensions, contents: String) -> (p:
        PackageDetails)
        ensures
            p@ == (PackageView { weight_bits, dimensions, contents: contents@ }),
    {
        PackageDetails { weight_bits, dimensions, contents }
    }

    /// The bits of the weight.
    pub fn weight_bits(&self) -> (r: u64)
        ensures
            r == self@.weight_bits,
    {
        self.weight_bits
    }

    pub fn dimensions(&self) -> (r: Dimensions)
        ensures
            r == self@.dimensions,
    {
        self.dimensions
    }

    pub fn contents(&self) -> (r: &str)
        ensures
            r@ == self@.contents,
    {
        self.contents.as_str()
    }
}

impl Clone for PackageDetails {
    fn clone(&self) -> (r: PackageDetails)
        ensures
            r@ == self@,
    {
        PackageDetails {
            weight_bits: self.weight_bits,
            dimensions: self.dimensions,
            contents: self.contents.clone(),
        }
    }
}

} // verus!
