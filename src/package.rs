use vstd::prelude::*;

verus! {

/// The mathematical value of a package record.
pub ghost struct PackageView {
    pub destination: Seq<char>,
    pub current_location: Seq<char>,
    pub speed: Seq<char>,
}

/// One delivered package: where it goes, where it is, and how fast it travels.
#[derive(Debug)]
pub struct PackageInfo {
    pub destination: String,
    pub current_location: String,
    pub speed: String,
}

impl View for PackageInfo {
    type V = PackageView;

    open spec fn view(&self) -> PackageView {
        PackageView {
            destination: self.destination@,
            current_location: self.current_location@,
            speed: self.speed@,
        }
    }
}

impl PackageInfo {
    /// A copy of the record, field by field.
    pub fn duplicate(&self) -> (r: PackageInfo)
        ensures
            r@ == self@,
    {
        PackageInfo {
            destination: self.destination.clone(),
            current_location: self.current_location.clone(),
            speed: self.speed.clone(),
        }
    }
}

/// A registry entry: a package identifier with its record.
#[derive(Debug)]
pub struct PackageEntry {
    pub package_id: String,
    pub info: PackageInfo,
}

impl View for PackageEntry {
    type V = (Seq<char>, PackageView);

    open spec fn view(&self) -> (Seq<char>, PackageView) {
        (self.package_id@, self.info@)
    }
}

} // verus!
