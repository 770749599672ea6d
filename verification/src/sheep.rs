//! A sheep with a name and a coat, and the animal interface it
//! implements.

use vstd::prelude::*;

verus! {

/// What every animal can do: be created with a name, give it back, and
/// make its noise.
pub trait Animal: Sized {
    /// The animal's name, as specifications see it.
    spec fn spec_name(&self) -> Seq<char>;

    fn new(name: &'static str) -> (r: Self)
        ensures
            r.spec_name() == name@,
    ;

    fn name(&self) -> (r: &'static str)
        ensures
            r@ == self.spec_name(),
    ;

    fn notice(&self) -> &'static str;
}

/// A sheep either has its coat or has been shorn.
pub struct Sheep {
    pub naked: bool,
    pub name: &'static str,
}

impl Sheep {
    /// Whether the sheep has been shorn already.
    pub fn is_naked(&self) -> (r: bool)
        ensures
            r == self.naked,
    {
        self.naked
    }

    /// After a shearing the sheep is naked, whatever it was before.
    pub fn shear(&mut self)
        ensures
            final(self).naked,
            final(self).name == old(self).name,
    {
        if self.is_naked() {
            // already naked: nothing left to cut
        } else {
            self.naked = true;
        }
    }
}

impl Animal for Sheep {
    open spec fn spec_name(&self) -> Seq<char> {
        self.name@
    }

    fn new(name: &'static str) -> (r: Sheep)
        ensures
            !r.naked,
            r.name == name,
    {
        Sheep { naked: false, name }
    }

    fn name(&self) -> &'static str {
        self.name
    }

    /// A shorn sheep sounds unsure of itself.
    fn notice(&self) -> (r: &'static str)
        ensures
            self.naked ==> r@ == "baaaaaaah?"@,
            !self.naked ==> r@ == "baaaaaaah!"@,
    {
        if self.is_naked() {
            "baaaaaaah?"
        } else {
            "baaaaaaah!"
        }
    }
}

} // verus!
