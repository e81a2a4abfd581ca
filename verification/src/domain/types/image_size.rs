use crate::text::{nat_digits, nat_to_string, str_equal};
use vstd::prelude::*;

verus! {

/// The sizes in which images are served.
#[derive(Debug, Clone, Copy, PartialEq, Eq, Structural)]
pub enum ImageSize {
    Large,
    Medium,
    Small,
}

pub open spec fn image_width(s: ImageSize) -> u32 {
    match s {
        ImageSize::Large => 1200,
        ImageSize::Medium => 600,
        ImageSize::Small => 300,
    }
}

/// The lowercase name of a size.
pub open spec fn image_size_name(s: ImageSize) -> Seq<char> {
    match s {
        ImageSize::Large => "large"@,
        ImageSize::Medium => "medium"@,
        ImageSize::Small => "small"@,
    }
}

impl ImageSize {
    /// The width of the size, in pixels.
    pub fn width(&self) -> (r: u32)
        ensures
            r == image_width(*self),
    {
        match self {
            ImageSize::Large => 1200,
            ImageSize::Medium => 600,
            ImageSize::Small => 300,
        }
    }

    /// The query parameter that asks for the size: `w={width}`.
    pub fn query_param(&self) -> (r: String)
        ensures
            r@ == "w="@ + nat_digits(image_width(*self) as nat),
    {
        let s = String::from_str("w=");
        s.concat(nat_to_string(self.width() as u64).as_str())
    }

    /// The lowercase name of the size.
    pub fn name(&self) -> (r: &'static str)
        ensures
            r@ == image_size_name(*self),
    {
        match self {
            ImageSize::Large => "large",
            ImageSize::Medium => "medium",
            ImageSize::Small => "small",
        }
    }

    /// The size with this lowercase name.
    pub fn from_name(s: &str) -> (r: Option<ImageSize>)
        ensures
            match r {
                Some(size) => image_size_name(size) == s@,
                None => forall|size: ImageSize| image_size_name(size) != s@,
            },
    {
        if str_equal(s, "large") {
            Some(ImageSize::Large)
        } else if str_equal(s, "medium") {
            Some(ImageSize::Medium)
        } else if str_equal(s, "small") {
            Some(ImageSize::Small)
        } else {
            None
        }
    }
}

} // verus!
