//! Driving licence categories.

use vstd::prelude::*;

verus! {

/// A driving licence category.
#[derive(Clone, Copy, Debug, PartialEq, Eq, Structural)]
pub enum LicenseCategory {
    A,
    A1,
    A2,
    AM,
    B,
    B1,
    BE,
    C,
    C1,
    CE,
    C1E,
    D,
    D1,
    DE,
    D1E,
    T,
    PT,
}

impl LicenseCategory {
    /// The category's name as the service writes it.
    pub open spec fn name(self) -> Seq<char> {
        match self {
            LicenseCategory::A => "A"@,
            LicenseCategory::A1 => "A1"@,
            LicenseCategory::A2 => "A2"@,
            LicenseCategory::AM => "AM"@,
            LicenseCategory::B => "B"@,
            LicenseCategory::B1 => "B1"@,
            LicenseCategory::BE => "BE"@,
            LicenseCategory::C => "C"@,
            LicenseCategory::C1 => "C1"@,
            LicenseCategory::CE => "CE"@,
            LicenseCategory::C1E => "C1E"@,
            LicenseCategory::D => "D"@,
            LicenseCategory::D1 => "D1"@,
            LicenseCategory::DE => "DE"@,
            LicenseCategory::D1E => "D1E"@,
            LicenseCategory::T => "T"@,
            LicenseCategory::PT => "PT"@,
        }
    }

    /// The category's name as a static string.
    pub fn as_str(&self) -> (name: &'static str)
        ensures
            name@ == self.name(),
    {
        match self {
            LicenseCategory::A => "A",
            LicenseCategory::A1 => "A1",
            LicenseCategory::A2 => "A2",
            LicenseCategory::AM => "AM",
            LicenseCategory::B => "B",
            LicenseCategory::B1 => "B1",
            LicenseCategory::BE => "BE",
            LicenseCategory::C => "C",
            LicenseCategory::C1 => "C1",
            LicenseCategory::CE => "CE",
            LicenseCategory::C1E => "C1E",
            LicenseCategory::D => "D",
            LicenseCategory::D1 => "D1",
            LicenseCategory::DE => "DE",
            LicenseCategory::D1E => "D1E",
            LicenseCategory::T => "T",
            LicenseCategory::PT => "PT",
        }
    }

    /// The category's name as an owned string.
    pub fn to_string(&self) -> (name: String)
        ensures
            name@ == self.name(),
    {
        self.as_str().to_owned()
    }
}

impl Default for LicenseCategory {
    /// The passenger-car category.
    fn default() -> (category: Self)
        ensures
            category == LicenseCategory::B,
    {
        LicenseCategory::B
    }
}

} // verus!
