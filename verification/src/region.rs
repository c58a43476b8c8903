//! A region name, kept as plain text so the flow's contracts can speak of
//! it; the remote SDK's own region type exists only in the driver.

use vstd::prelude::*;

verus! {

/// An AWS region.
#[derive(Clone, Debug)]
pub struct Region {
    /// The region name, e.g. `eu-west-1`.
    pub name: String,
}

impl View for Region {
    type V = Seq<char>;

    open spec fn view(&self) -> Seq<char> {
        self.name@
    }
}

impl Region {
    /// Construct a new `Region` for the given name.
    pub fn new(name: String) -> (r: Region)
        ensures
            r@ == name@,
    {
        Region { name }
    }

    /// The region name.
    pub fn as_str(&self) -> (r: &str)
        ensures
            r@ == self@,
    {
        self.name.as_str()
    }
}

} // verus!
