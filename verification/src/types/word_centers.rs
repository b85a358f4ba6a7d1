//! The exam centres and what they offer.

use vstd::prelude::*;
use crate::types::unit_id::UnitId;

verus! {

#[derive(Clone, Debug)]
pub struct Province {
    pub id: UnitId,
    pub name: String,
    pub latitude: String,
    pub longitude: String,
    pub zoom: i32,
}

#[derive(Clone, Debug)]
pub struct WordRescheduleEnabled {
    /// Exam centre id
    pub organization_id: UnitId,
    pub reschedule_enabled: bool,
}

/// One exam centre.
#[derive(Clone, Debug)]
pub struct Word {
    pub id: UnitId,
    pub name: String,
    pub address: String,
    pub latitude: String,
    pub longitude: String,
    pub province_id: UnitId,
    pub offline: bool,
}

#[derive(Clone, Debug)]
pub struct Language {
    pub code: String,
    pub description: String,
}

#[derive(Clone, Debug)]
pub struct SignLanguage {
    pub code: String,
    pub description: String,
}

#[derive(Clone, Debug)]
pub struct WordCenters {
    pub provinces: Vec<Province>,
    pub words: Vec<Word>,
    pub languages_enums: Vec<Language>,
    pub sign_language_enums: Vec<SignLanguage>,
}

} // verus!
