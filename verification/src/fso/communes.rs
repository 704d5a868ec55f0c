//! The historicized registry of Swiss communes: cantons, districts and
//! municipalities with their mutation history.
//!
//! The registry is published as a zip archive of tab-delimited text tables.
//! Each member file holds one entity type; a naming convention maps a short
//! entity-type code (`KT`, `BEZ`, `GDE`) to the member that carries it. Rows
//! decode into typed records whose admission and optional abolition events
//! carry numerically coded reasons; an unrecognized code or a malformed field
//! is a per-row error, never a silent coercion.

use core::marker::PhantomData;
use std::io::Cursor;

use vstd::prelude::*;

use zip::result::ZipError;
use zip::ZipArchive;

use crate::chars::{chars_eq, chars_to_string, str_chars};
use crate::date::{date_from_chars, spec_parse_date, Date};
use crate::fso::archive::{
    decode_legacy, latin3_chars, zip_data_of, zip_file_names, zip_member_data,
    zip_member_names, zip_member_readable, zip_names_of, zip_open, zip_parses, zip_read_member,
    zip_readable_of,
};
use crate::fso::asset::{Asset, AssetId};
use crate::fso::{copyright, editor, spec_copyright, spec_editor, spec_terms, terms};
use crate::tools::message::{lemma_last_lookup_absent, lemma_last_lookup_at, Translated};
use crate::tools::meta::{Citation, Meta, Terms};
use crate::tsv::{
    fields, parse_u16, parse_u32, parse_u8, records, spec_fields, spec_parse_u16, spec_parse_u32,
    spec_parse_u8, spec_records, spec_split, split_on_char,
};

verus! {

/// Asset id of the registry in its text form.
pub const TXT_ASSET_ID: AssetId = 23886071;

/// Asset id of the registry in its XML form.
pub const XML_ASSET_ID: AssetId = 23886070;

/// Dataset identifier of the registry in its text form.
pub const TXT_FSO_ID: &'static str = "dz-b-00.04-hgv-01";

/// Dataset identifier of the registry in its XML form (same content; not
/// loaded by this crate).
pub const XML_FSO_ID: &'static str = "dz-b-00.04-hgv-03";

/// Identifier of a canton.
pub type CantonId = u8;

/// Historical (lineage) identifier of a district.
pub type DistrictHistId = u32;

/// Identifier of a district.
pub type DistrictId = u16;

/// Historical (lineage) identifier of a municipality.
pub type MunicipalityHistId = u32;

/// Identifier of a municipality.
pub type MunicipalityId = u16;

/// Identifier of a mutation (admission or abolition event).
pub type MutationId = u16;

/// Administrative finality of a municipality's current version: a mutation
/// is final once the municipal, cantonal and national steps are all done.
#[derive(Copy, Clone, Debug, PartialEq, Eq, Structural)]
pub enum Status {
    /// Not all steps are done yet.
    Tentative,
    /// All steps are done.
    Final,
}

impl Status {
    /// The status a wire code denotes: 0 tentative, 1 final.
    pub open spec fn spec_from_code(code: int) -> Option<Status> {
        if code == 0 {
            Some(Status::Tentative)
        } else if code == 1 {
            Some(Status::Final)
        } else {
            None
        }
    }

    /// The wire code of this status.
    pub open spec fn spec_code(self) -> int {
        match self {
            Status::Tentative => 0,
            Status::Final => 1,
        }
    }

    /// Decode a wire code; every code outside the fixed set is rejected.
    pub fn from_code(code: u32) -> (r: Option<Status>)
        ensures
            r == Self::spec_from_code(code as int),
    {
        if code == 0 {
            Some(Status::Tentative)
        } else if code == 1 {
            Some(Status::Final)
        } else {
            None
        }
    }

    /// The wire code of this status.
    pub fn code(self) -> (r: u8)
        ensures
            r as int == self.spec_code(),
    {
        match self {
            Status::Tentative => 0,
            Status::Final => 1,
        }
    }
}

/// Kind of administrative unit a municipality record stands for.
#[derive(Copy, Clone, Debug, PartialEq, Eq, Structural, PartialOrd, Ord, Hash)]
pub enum MunicipalityMode {
    /// An ordinary political commune.
    PoliticalCommune,
    /// Territory not assigned to any commune.
    MunicipalityFreeArea,
    /// A cantonal portion of a lake.
    CantonalLakePortion,
}

impl MunicipalityMode {
    /// The mode a wire code denotes: 11 political commune, 12
    /// municipality-free area, 13 cantonal lake portion.
    pub open spec fn spec_from_code(code: int) -> Option<MunicipalityMode> {
        if code == 11 {
            Some(MunicipalityMode::PoliticalCommune)
        } else if code == 12 {
            Some(MunicipalityMode::MunicipalityFreeArea)
        } else if code == 13 {
            Some(MunicipalityMode::CantonalLakePortion)
        } else {
            None
        }
    }

    /// The wire code of this mode.
    pub open spec fn spec_code(self) -> int {
        match self {
            MunicipalityMode::PoliticalCommune => 11,
            MunicipalityMode::MunicipalityFreeArea => 12,
            MunicipalityMode::CantonalLakePortion => 13,
        }
    }

    /// Decode a wire code; every code outside the fixed set is rejected.
    pub fn from_code(code: u32) -> (r: Option<MunicipalityMode>)
        ensures
            r == Self::spec_from_code(code as int),
    {
        if code == 11 {
            Some(MunicipalityMode::PoliticalCommune)
        } else if code == 12 {
            Some(MunicipalityMode::MunicipalityFreeArea)
        } else if code == 13 {
            Some(MunicipalityMode::CantonalLakePortion)
        } else {
            None
        }
    }

    /// The wire code of this mode.
    pub fn code(self) -> (r: u8)
        ensures
            r as int == self.spec_code(),
    {
        match self {
            MunicipalityMode::PoliticalCommune => 11,
            MunicipalityMode::MunicipalityFreeArea => 12,
            MunicipalityMode::CantonalLakePortion => 13,
        }
    }
}

/// Kind of administrative unit a district record stands for.
#[derive(Copy, Clone, Debug, PartialEq, Eq, Structural, PartialOrd, Ord, Hash)]
pub enum DistrictMode {
    /// An ordinary district.
    District,
    /// A canton that has no district subdivision.
    CantonWithoutDistricts,
    /// Territory not assigned to any district.
    DistrictFreeArea,
}

impl DistrictMode {
    /// The mode a wire code denotes: 15 district, 16 canton without
    /// districts, 17 district-free area.
    pub open spec fn spec_from_code(code: int) -> Option<DistrictMode> {
        if code == 15 {
            Some(DistrictMode::District)
        } else if code == 16 {
            Some(DistrictMode::CantonWithoutDistricts)
        } else if code == 17 {
            Some(DistrictMode::DistrictFreeArea)
        } else {
            None
        }
    }

    /// The wire code of this mode.
    pub open spec fn spec_code(self) -> int {
        match self {
            DistrictMode::District => 15,
            DistrictMode::CantonWithoutDistricts => 16,
            DistrictMode::DistrictFreeArea => 17,
        }
    }

    /// Decode a wire code; every code outside the fixed set is rejected.
    pub fn from_code(code: u32) -> (r: Option<DistrictMode>)
        ensures
            r == Self::spec_from_code(code as int),
    {
        if code == 15 {
            Some(DistrictMode::District)
        } else if code == 16 {
            Some(DistrictMode::CantonWithoutDistricts)
        } else if code == 17 {
            Some(DistrictMode::DistrictFreeArea)
        } else {
            None
        }
    }

    /// The wire code of this mode.
    pub fn code(self) -> (r: u8)
        ensures
            r as int == self.spec_code(),
    {
        match self {
            DistrictMode::District => 15,
            DistrictMode::CantonWithoutDistricts => 16,
            DistrictMode::DistrictFreeArea => 17,
        }
    }
}

/// Reason an entity version was opened.
#[derive(Copy, Clone, Debug, PartialEq, Eq, Structural)]
pub enum AdmissionMode {
    /// First registration of the commune or district.
    FirstRegistration,
    /// Creation of a new commune or district.
    Creation,
    /// The district was renamed.
    DistrictNameChange,
    /// The commune was renamed.
    MunicipalityNameChange,
    /// Reassignment to another district or canton.
    AttachmentToAnother,
    /// The commune's territory changed.
    TerritoryMunicipalityChange,
    /// Formal renumbering of the commune or district.
    FormalRenumbering,
}

impl AdmissionMode {
    /// The mode a wire code denotes: 20, 21, 22, 23, 24, 26 or 27.
    pub open spec fn spec_from_code(code: int) -> Option<AdmissionMode> {
        if code == 20 {
            Some(AdmissionMode::FirstRegistration)
        } else if code == 21 {
            Some(AdmissionMode::Creation)
        } else if code == 22 {
            Some(AdmissionMode::DistrictNameChange)
        } else if code == 23 {
            Some(AdmissionMode::MunicipalityNameChange)
        } else if code == 24 {
            Some(AdmissionMode::AttachmentToAnother)
        } else if code == 26 {
            Some(AdmissionMode::TerritoryMunicipalityChange)
        } else if code == 27 {
            Some(AdmissionMode::FormalRenumbering)
        } else {
            None
        }
    }

    /// The wire code of this mode.
    pub open spec fn spec_code(self) -> int {
        match self {
            AdmissionMode::FirstRegistration => 20,
            AdmissionMode::Creation => 21,
            AdmissionMode::DistrictNameChange => 22,
            AdmissionMode::MunicipalityNameChange => 23,
            AdmissionMode::AttachmentToAnother => 24,
            AdmissionMode::TerritoryMunicipalityChange => 26,
            AdmissionMode::FormalRenumbering => 27,
        }
    }

    /// Decode a wire code; every code outside the fixed set is rejected.
    pub fn from_code(code: u32) -> (r: Option<AdmissionMode>)
        ensures
            r == Self::spec_from_code(code as int),
    {
        if code == 20 {
            Some(AdmissionMode::FirstRegistration)
        } else if code == 21 {
            Some(AdmissionMode::Creation)
        } else if code == 22 {
            Some(AdmissionMode::DistrictNameChange)
        } else if code == 23 {
            Some(AdmissionMode::MunicipalityNameChange)
        } else if code == 24 {
            Some(AdmissionMode::AttachmentToAnother)
        } else if code == 26 {
            Some(AdmissionMode::TerritoryMunicipalityChange)
        } else if code == 27 {
            Some(AdmissionMode::FormalRenumbering)
        } else {
            None
        }
    }

    /// The wire code of this mode.
    pub fn code(self) -> (r: u8)
        ensures
            r as int == self.spec_code(),
    {
        match self {
            AdmissionMode::FirstRegistration => 20,
            AdmissionMode::Creation => 21,
            AdmissionMode::DistrictNameChange => 22,
            AdmissionMode::MunicipalityNameChange => 23,
            AdmissionMode::AttachmentToAnother => 24,
            AdmissionMode::TerritoryMunicipalityChange => 26,
            AdmissionMode::FormalRenumbering => 27,
        }
    }
}

/// Reason an entity version was closed.
#[derive(Copy, Clone, Debug, PartialEq, Eq, Structural)]
pub enum AbolitionMode {
    /// The district was renamed.
    DistrictNameChange,
    /// The commune was renamed.
    MunicipalityNameChange,
    /// Reassignment to another district or canton.
    AttachmentToAnother,
    /// The commune's territory changed.
    TerritoryMunicipalityChange,
    /// Formal renumbering of the commune or district.
    FormalRenumbering,
    /// The commune or district was removed from the registry.
    Radiation,
    /// The mutation was annulled.
    MutationAnnulled,
}

impl AbolitionMode {
    /// The mode a wire code denotes: 22, 23, 24, 26, 27, 29 or 30.
    pub open spec fn spec_from_code(code: int) -> Option<AbolitionMode> {
        if code == 22 {
            Some(AbolitionMode::DistrictNameChange)
        } else if code == 23 {
            Some(AbolitionMode::MunicipalityNameChange)
        } else if code == 24 {
            Some(AbolitionMode::AttachmentToAnother)
        } else if code == 26 {
            Some(AbolitionMode::TerritoryMunicipalityChange)
        } else if code == 27 {
            Some(AbolitionMode::FormalRenumbering)
        } else if code == 29 {
            Some(AbolitionMode::Radiation)
        } else if code == 30 {
            Some(AbolitionMode::MutationAnnulled)
        } else {
            None
        }
    }

    /// The wire code of this mode.
    pub open spec fn spec_code(self) -> int {
        match self {
            AbolitionMode::DistrictNameChange => 22,
            AbolitionMode::MunicipalityNameChange => 23,
            AbolitionMode::AttachmentToAnother => 24,
            AbolitionMode::TerritoryMunicipalityChange => 26,
            AbolitionMode::FormalRenumbering => 27,
            AbolitionMode::Radiation => 29,
            AbolitionMode::MutationAnnulled => 30,
        }
    }

    /// Decode a wire code; every code outside the fixed set is rejected.
    pub fn from_code(code: u32) -> (r: Option<AbolitionMode>)
        ensures
            r == Self::spec_from_code(code as int),
    {
        if code == 22 {
            Some(AbolitionMode::DistrictNameChange)
        } else if code == 23 {
            Some(AbolitionMode::MunicipalityNameChange)
        } else if code == 24 {
            Some(AbolitionMode::AttachmentToAnother)
        } else if code == 26 {
            Some(AbolitionMode::TerritoryMunicipalityChange)
        } else if code == 27 {
            Some(AbolitionMode::FormalRenumbering)
        } else if code == 29 {
            Some(AbolitionMode::Radiation)
        } else if code == 30 {
            Some(AbolitionMode::MutationAnnulled)
        } else {
            None
        }
    }

    /// The wire code of this mode.
    pub fn code(self) -> (r: u8)
        ensures
            r as int == self.spec_code(),
    {
        match self {
            AbolitionMode::DistrictNameChange => 22,
            AbolitionMode::MunicipalityNameChange => 23,
            AbolitionMode::AttachmentToAnother => 24,
            AbolitionMode::TerritoryMunicipalityChange => 26,
            AbolitionMode::FormalRenumbering => 27,
            AbolitionMode::Radiation => 29,
            AbolitionMode::MutationAnnulled => 30,
        }
    }
}

/// Why one row failed to decode.
#[derive(Copy, Clone, Debug, PartialEq, Eq, Structural)]
pub enum RowErrorKind {
    /// The row has the wrong number of tab-separated fields.
    WrongFieldCount {
        /// The field count the entity type prescribes.
        expected: usize,
        /// The field count the row has.
        found: usize,
    },
    /// A field that must be a decimal integer is not one, or does not fit.
    BadInteger {
        /// Position of the offending field, counted from zero.
        field: usize,
    },
    /// A date field is not a valid `DD.MM.YYYY` date.
    BadDate {
        /// Position of the offending field, counted from zero.
        field: usize,
    },
    /// An enumerated field carries a number outside its fixed code set.
    BadCode {
        /// Position of the offending field, counted from zero.
        field: usize,
        /// The unrecognized code.
        code: u32,
    },
    /// Exactly one or two of the three abolition fields are present; they
    /// move as a unit.
    PartialAbolition,
}

/// One row that failed to decode: where, and why.
#[derive(Copy, Clone, Debug, PartialEq, Eq, Structural)]
pub struct RowError {
    /// The row's line number, counted from one.
    pub row: usize,
    /// Why the row was rejected.
    pub kind: RowErrorKind,
}

/// Canton / Kanton / Canton.
#[derive(Debug, Clone)]
pub struct Canton {
    /// Canton number.
    pub id: CantonId,
    /// Two-letter abbreviation of the canton.
    pub abbreviation: String,
    /// Name of the canton.
    pub name: String,
    /// Date of the last change to the record.
    pub date_of_change: Date,
}

/// Ghost image of a [`Canton`], with its text fields as sequences.
pub struct CantonV {
    /// Canton number.
    pub id: CantonId,
    /// Two-letter abbreviation of the canton.
    pub abbreviation: Seq<char>,
    /// Name of the canton.
    pub name: Seq<char>,
    /// Date of the last change to the record.
    pub date_of_change: Date,
}

impl View for Canton {
    type V = CantonV;

    open spec fn view(&self) -> CantonV {
        CantonV {
            id: self.id,
            abbreviation: self.abbreviation@,
            name: self.name@,
            date_of_change: self.date_of_change,
        }
    }
}

/// Bezirk / District.
#[derive(Debug, Clone)]
pub struct District {
    /// Historical identifier: the lineage key, stable across renames.
    pub hist_id: DistrictHistId,
    /// Number of the canton the district belongs to.
    pub canton_id: CantonId,
    /// District number.
    pub id: DistrictId,
    /// Name of the district.
    pub name: String,
    /// Abbreviated name of the district.
    pub short_name: String,
    /// Kind of entry.
    pub entry_mode: DistrictMode,
    /// Number of the admission mutation; see [`Self::admission`].
    pub admission_number: MutationId,
    /// Reason of the admission; see [`Self::admission`].
    pub admission_mode: AdmissionMode,
    /// Date of the admission; see [`Self::admission`].
    pub admission_date: Date,
    /// Number of the abolition mutation, if any; see [`Self::abolition`].
    pub abolition_number: Option<MutationId>,
    /// Reason of the abolition, if any; see [`Self::abolition`].
    pub abolition_mode: Option<AbolitionMode>,
    /// Date of the abolition, if any; see [`Self::abolition`].
    pub abolition_date: Option<Date>,
    /// Date of the last change to the record.
    pub date_of_change: Date,
}

/// Ghost image of a [`District`], with its text fields as sequences.
pub struct DistrictV {
    /// Historical identifier: the lineage key, stable across renames.
    pub hist_id: DistrictHistId,
    /// Number of the canton the district belongs to.
    pub canton_id: CantonId,
    /// District number.
    pub id: DistrictId,
    /// Name of the district.
    pub name: Seq<char>,
    /// Abbreviated name of the district.
    pub short_name: Seq<char>,
    /// Kind of entry.
    pub entry_mode: DistrictMode,
    /// Number of the admission mutation.
    pub admission_number: MutationId,
    /// Reason of the admission.
    pub admission_mode: AdmissionMode,
    /// Date of the admission.
    pub admission_date: Date,
    /// Number of the abolition mutation, if any.
    pub abolition_number: Option<MutationId>,
    /// Reason of the abolition, if any.
    pub abolition_mode: Option<AbolitionMode>,
    /// Date of the abolition, if any.
    pub abolition_date: Option<Date>,
    /// Date of the last change to the record.
    pub date_of_change: Date,
}

impl DistrictV {
    /// The three abolition fields move as a unit: either all present or all
    /// absent.
    pub open spec fn abolition_unit(self) -> bool {
        &&& self.abolition_number is Some <==> self.abolition_mode is Some
        &&& self.abolition_number is Some <==> self.abolition_date is Some
    }
}

impl View for District {
    type V = DistrictV;

    open spec fn view(&self) -> DistrictV {
        DistrictV {
            hist_id: self.hist_id,
            canton_id: self.canton_id,
            id: self.id,
            name: self.name@,
            short_name: self.short_name@,
            entry_mode: self.entry_mode,
            admission_number: self.admission_number,
            admission_mode: self.admission_mode,
            admission_date: self.admission_date,
            abolition_number: self.abolition_number,
            abolition_mode: self.abolition_mode,
            abolition_date: self.abolition_date,
            date_of_change: self.date_of_change,
        }
    }
}

/// Municipality / Gemeinde / Commune.
#[derive(Debug, Clone)]
pub struct Municipality {
    /// Historical identifier: the lineage key, stable across renames.
    pub hist_id: MunicipalityHistId,
    /// Historical identifier of the district the municipality belongs to.
    pub district_hist_id: DistrictHistId,
    /// Two-letter abbreviation of the canton.
    pub canton_abbreviation: String,
    /// Municipality number.
    pub id: MunicipalityId,
    /// Official name of the municipality.
    pub name: String,
    /// Abbreviated name of the municipality.
    pub short_name: String,
    /// Kind of entry.
    pub entry_mode: MunicipalityMode,
    /// Administrative finality of the current version.
    pub status: Status,
    /// Number of the admission mutation; see [`Self::admission`].
    pub admission_number: MutationId,
    /// Reason of the admission; see [`Self::admission`].
    pub admission_mode: AdmissionMode,
    /// Date of the admission; see [`Self::admission`].
    pub admission_date: Date,
    /// Number of the abolition mutation, if any; see [`Self::abolition`].
    pub abolition_number: Option<MutationId>,
    /// Reason of the abolition, if any; see [`Self::abolition`].
    pub abolition_mode: Option<AbolitionMode>,
    /// Date of the abolition, if any; see [`Self::abolition`].
    pub abolition_date: Option<Date>,
    /// Date of the last change to the record.
    pub date_of_change: Date,
}

/// Ghost image of a [`Municipality`], with its text fields as sequences.
pub struct MunicipalityV {
    /// Historical identifier: the lineage key, stable across renames.
    pub hist_id: MunicipalityHistId,
    /// Historical identifier of the district the municipality belongs to.
    pub district_hist_id: DistrictHistId,
    /// Two-letter abbreviation of the canton.
    pub canton_abbreviation: Seq<char>,
    /// Municipality number.
    pub id: MunicipalityId,
    /// Official name of the municipality.
    pub name: Seq<char>,
    /// Abbreviated name of the municipality.
    pub short_name: Seq<char>,
    /// Kind of entry.
    pub entry_mode: MunicipalityMode,
    /// Administrative finality of the current version.
    pub status: Status,
    /// Number of the admission mutation.
    pub admission_number: MutationId,
    /// Reason of the admission.
    pub admission_mode: AdmissionMode,
    /// Date of the admission.
    pub admission_date: Date,
    /// Number of the abolition mutation, if any.
    pub abolition_number: Option<MutationId>,
    /// Reason of the abolition, if any.
    pub abolition_mode: Option<AbolitionMode>,
    /// Date of the abolition, if any.
    pub abolition_date: Option<Date>,
    /// Date of the last change to the record.
    pub date_of_change: Date,
}

impl MunicipalityV {
    /// The three abolition fields move as a unit: either all present or all
    /// absent.
    pub open spec fn abolition_unit(self) -> bool {
        &&& self.abolition_number is Some <==> self.abolition_mode is Some
        &&& self.abolition_number is Some <==> self.abolition_date is Some
    }
}

impl View for Municipality {
    type V = MunicipalityV;

    open spec fn view(&self) -> MunicipalityV {
        MunicipalityV {
            hist_id: self.hist_id,
            district_hist_id: self.district_hist_id,
            canton_abbreviation: self.canton_abbreviation@,
            id: self.id,
            name: self.name@,
            short_name: self.short_name@,
            entry_mode: self.entry_mode,
            status: self.status,
            admission_number: self.admission_number,
            admission_mode: self.admission_mode,
            admission_date: self.admission_date,
            abolition_number: self.abolition_number,
            abolition_mode: self.abolition_mode,
            abolition_date: self.abolition_date,
            date_of_change: self.date_of_change,
        }
    }
}

/// One mutation event: an admission or an abolition.
#[derive(Copy, Clone, Debug)]
pub struct Mutation<Mode> {
    /// Identifier of the mutation.
    pub number: MutationId,
    /// Reason of the mutation.
    pub mode: Mode,
    /// Date of the mutation.
    pub date: Date,
}

impl District {
    /// The district's admission event.
    pub fn admission(&self) -> (r: Mutation<AdmissionMode>)
        ensures
            r.number == self.admission_number,
            r.mode == self.admission_mode,
            r.date == self.admission_date,
    {
        Mutation {
            number: self.admission_number,
            mode: self.admission_mode,
            date: self.admission_date,
        }
    }

    /// The district's abolition event, if it was abolished. The absence of
    /// this event is the sole test for the district being active.
    pub fn abolition(&self) -> (r: Option<Mutation<AbolitionMode>>)
        ensures
            r is Some <==> (self.abolition_number is Some && self.abolition_mode is Some
                && self.abolition_date is Some),
            r matches Some(m) ==> m.number == self.abolition_number->0 && m.mode
                == self.abolition_mode->0 && m.date == self.abolition_date->0,
    {
        let number = match self.abolition_number {
            Some(n) => n,
            None => {
                return None;
            },
        };
        let mode = match self.abolition_mode {
            Some(m) => m,
            None => {
                return None;
            },
        };
        let date = match self.abolition_date {
            Some(d) => d,
            None => {
                return None;
            },
        };
        Some(Mutation { number, mode, date })
    }
}

impl Municipality {
    /// The municipality's admission event.
    pub fn admission(&self) -> (r: Mutation<AdmissionMode>)
        ensures
            r.number == self.admission_number,
            r.mode == self.admission_mode,
            r.date == self.admission_date,
    {
        Mutation {
            number: self.admission_number,
            mode: self.admission_mode,
            date: self.admission_date,
        }
    }

    /// The municipality's abolition event, if it was abolished. The absence
    /// of this event is the sole test for the municipality being active.
    pub fn abolition(&self) -> (r: Option<Mutation<AbolitionMode>>)
        ensures
            r is Some <==> (self.abolition_number is Some && self.abolition_mode is Some
                && self.abolition_date is Some),
            r matches Some(m) ==> m.number == self.abolition_number->0 && m.mode
                == self.abolition_mode->0 && m.date == self.abolition_date->0,
    {
        let number = match self.abolition_number {
            Some(n) => n,
            None => {
                return None;
            },
        };
        let mode = match self.abolition_mode {
            Some(m) => m,
            None => {
                return None;
            },
        };
        let date = match self.abolition_date {
            Some(d) => d,
            None => {
                return None;
            },
        };
        Some(Mutation { number, mode, date })
    }
}

/// A row-decodable entity type: how its ordered fields become a record.
pub trait Record: View + Sized {
    /// What decoding the ordered fields of one row yields: the typed record,
    /// or the first per-row error, checking the fields from left to right.
    spec fn spec_decode(fs: Seq<Seq<char>>) -> Result<Self::V, RowErrorKind>;

    /// Decode the ordered fields of one row.
    fn decode_record(fs: &Vec<Vec<char>>) -> (r: Result<Self, RowErrorKind>)
        ensures
            match Self::spec_decode(fs.deep_view()) {
                Ok(v) => r matches Ok(t) && t@ == v,
                Err(k) => r == Err::<Self, RowErrorKind>(k),
            },
    ;
}

impl Record for Canton {
    open spec fn spec_decode(fs: Seq<Seq<char>>) -> Result<CantonV, RowErrorKind> {
        if fs.len() != 4 {
            Err(RowErrorKind::WrongFieldCount { expected: 4, found: fs.len() as usize })
        } else if spec_parse_u8(fs[0]) is None {
            Err(RowErrorKind::BadInteger { field: 0 })
        } else if spec_parse_date(fs[3]) is None {
            Err(RowErrorKind::BadDate { field: 3 })
        } else {
            Ok(
                CantonV {
                    id: spec_parse_u8(fs[0])->0,
                    abbreviation: fs[1],
                    name: fs[2],
                    date_of_change: spec_parse_date(fs[3])->0,
                },
            )
        }
    }

    fn decode_record(fs: &Vec<Vec<char>>) -> (r: Result<Self, RowErrorKind>) {
        proof {
            lemma_fields_deep_view(fs);
        }
        if fs.len() != 4 {
            return Err(RowErrorKind::WrongFieldCount { expected: 4, found: fs.len() });
        }
        let id = match parse_u8(fs[0].as_slice()) {
            Some(v) => v,
            None => {
                return Err(RowErrorKind::BadInteger { field: 0 });
            },
        };
        let date_of_change = match date_from_chars(fs[3].as_slice()) {
            Some(d) => d,
            None => {
                return Err(RowErrorKind::BadDate { field: 3 });
            },
        };
        let abbreviation = chars_to_string(&fs[1]);
        let name = chars_to_string(&fs[2]);
        Ok(Canton { id, abbreviation, name, date_of_change })
    }
}

/// The deep view of a field vector indexes to each field's characters.
proof fn lemma_fields_deep_view(fs: &Vec<Vec<char>>)
    ensures
        fs.deep_view().len() == fs@.len(),
        forall|i: int| 0 <= i < fs@.len() ==> fs.deep_view()[i] == fs@[i]@,
{
    assert forall|i: int| 0 <= i < fs@.len() implies fs.deep_view()[i] == fs@[i]@ by {
        assert(fs@[i].deep_view() =~= fs@[i]@);
    }
}

impl Record for District {
    open spec fn spec_decode(fs: Seq<Seq<char>>) -> Result<DistrictV, RowErrorKind> {
        if fs.len() != 13 {
            Err(RowErrorKind::WrongFieldCount { expected: 13, found: fs.len() as usize })
        } else if spec_parse_u32(fs[0]) is None {
            Err(RowErrorKind::BadInteger { field: 0 })
        } else if spec_parse_u8(fs[1]) is None {
            Err(RowErrorKind::BadInteger { field: 1 })
        } else if spec_parse_u16(fs[2]) is None {
            Err(RowErrorKind::BadInteger { field: 2 })
        } else if spec_parse_u32(fs[5]) is None {
            Err(RowErrorKind::BadInteger { field: 5 })
        } else if DistrictMode::spec_from_code(spec_parse_u32(fs[5])->0 as int) is None {
            Err(RowErrorKind::BadCode { field: 5, code: spec_parse_u32(fs[5])->0 })
        } else if spec_parse_u16(fs[6]) is None {
            Err(RowErrorKind::BadInteger { field: 6 })
        } else if spec_parse_u32(fs[7]) is None {
            Err(RowErrorKind::BadInteger { field: 7 })
        } else if AdmissionMode::spec_from_code(spec_parse_u32(fs[7])->0 as int) is None {
            Err(RowErrorKind::BadCode { field: 7, code: spec_parse_u32(fs[7])->0 })
        } else if spec_parse_date(fs[8]) is None {
            Err(RowErrorKind::BadDate { field: 8 })
        } else if fs[9].len() != 0 && spec_parse_u16(fs[9]) is None {
            Err(RowErrorKind::BadInteger { field: 9 })
        } else if fs[10].len() != 0 && spec_parse_u32(fs[10]) is None {
            Err(RowErrorKind::BadInteger { field: 10 })
        } else if fs[10].len() != 0 && AbolitionMode::spec_from_code(
            spec_parse_u32(fs[10])->0 as int,
        ) is None {
            Err(RowErrorKind::BadCode { field: 10, code: spec_parse_u32(fs[10])->0 })
        } else if fs[11].len() != 0 && spec_parse_date(fs[11]) is None {
            Err(RowErrorKind::BadDate { field: 11 })
        } else if spec_parse_date(fs[12]) is None {
            Err(RowErrorKind::BadDate { field: 12 })
        } else if !((fs[9].len() == 0) == (fs[10].len() == 0) && (fs[9].len() == 0) == (
        fs[11].len() == 0)) {
            Err(RowErrorKind::PartialAbolition)
        } else {
            Ok(
                DistrictV {
                    hist_id: spec_parse_u32(fs[0])->0,
                    canton_id: spec_parse_u8(fs[1])->0,
                    id: spec_parse_u16(fs[2])->0,
                    name: fs[3],
                    short_name: fs[4],
                    entry_mode: DistrictMode::spec_from_code(spec_parse_u32(fs[5])->0 as int)->0,
                    admission_number: spec_parse_u16(fs[6])->0,
                    admission_mode: AdmissionMode::spec_from_code(
                        spec_parse_u32(fs[7])->0 as int,
                    )->0,
                    admission_date: spec_parse_date(fs[8])->0,
                    abolition_number: if fs[9].len() == 0 {
                        None
                    } else {
                        Some(spec_parse_u16(fs[9])->0)
                    },
                    abolition_mode: if fs[10].len() == 0 {
                        None
                    } else {
                        Some(AbolitionMode::spec_from_code(spec_parse_u32(fs[10])->0 as int)->0)
                    },
                    abolition_date: if fs[11].len() == 0 {
                        None
                    } else {
                        Some(spec_parse_date(fs[11])->0)
                    },
                    date_of_change: spec_parse_date(fs[12])->0,
                },
            )
        }
    }

    fn decode_record(fs: &Vec<Vec<char>>) -> (r: Result<Self, RowErrorKind>) {
        proof {
            lemma_fields_deep_view(fs);
        }
        if fs.len() != 13 {
            return Err(RowErrorKind::WrongFieldCount { expected: 13, found: fs.len() });
        }
        let hist_id = match parse_u32(fs[0].as_slice()) {
            Some(v) => v,
            None => {
                return Err(RowErrorKind::BadInteger { field: 0 });
            },
        };
        let canton_id = match parse_u8(fs[1].as_slice()) {
            Some(v) => v,
            None => {
                return Err(RowErrorKind::BadInteger { field: 1 });
            },
        };
        let id = match parse_u16(fs[2].as_slice()) {
            Some(v) => v,
            None => {
                return Err(RowErrorKind::BadInteger { field: 2 });
            },
        };
        let entry_mode = match parse_u32(fs[5].as_slice()) {
            Some(code) => match DistrictMode::from_code(code) {
                Some(m) => m,
                None => {
                    return Err(RowErrorKind::BadCode { field: 5, code });
                },
            },
            None => {
                return Err(RowErrorKind::BadInteger { field: 5 });
            },
        };
        let admission_number = match parse_u16(fs[6].as_slice()) {
            Some(v) => v,
            None => {
                return Err(RowErrorKind::BadInteger { field: 6 });
            },
        };
        let admission_mode = match parse_u32(fs[7].as_slice()) {
            Some(code) => match AdmissionMode::from_code(code) {
                Some(m) => m,
                None => {
                    return Err(RowErrorKind::BadCode { field: 7, code });
                },
            },
            None => {
                return Err(RowErrorKind::BadInteger { field: 7 });
            },
        };
        let admission_date = match date_from_chars(fs[8].as_slice()) {
            Some(d) => d,
            None => {
                return Err(RowErrorKind::BadDate { field: 8 });
            },
        };
        let abolition_number = if fs[9].len() == 0 {
            None
        } else {
            match parse_u16(fs[9].as_slice()) {
                Some(v) => Some(v),
                None => {
                    return Err(RowErrorKind::BadInteger { field: 9 });
                },
            }
        };
        let abolition_mode = if fs[10].len() == 0 {
            None
        } else {
            match parse_u32(fs[10].as_slice()) {
                Some(code) => match AbolitionMode::from_code(code) {
                    Some(m) => Some(m),
                    None => {
                        return Err(RowErrorKind::BadCode { field: 10, code });
                    },
                },
                None => {
                    return Err(RowErrorKind::BadInteger { field: 10 });
                },
            }
        };
        let abolition_date = if fs[11].len() == 0 {
            None
        } else {
            match date_from_chars(fs[11].as_slice()) {
                Some(d) => Some(d),
                None => {
                    return Err(RowErrorKind::BadDate { field: 11 });
                },
            }
        };
        let date_of_change = match date_from_chars(fs[12].as_slice()) {
            Some(d) => d,
            None => {
                return Err(RowErrorKind::BadDate { field: 12 });
            },
        };
        if !((abolition_number.is_some() == abolition_mode.is_some()) && (
        abolition_number.is_some() == abolition_date.is_some())) {
            return Err(RowErrorKind::PartialAbolition);
        }
        let name = chars_to_string(&fs[3]);
        let short_name = chars_to_string(&fs[4]);
        Ok(
            District {
                hist_id,
                canton_id,
                id,
                name,
                short_name,
                entry_mode,
                admission_number,
                admission_mode,
                admission_date,
                abolition_number,
                abolition_mode,
                abolition_date,
                date_of_change,
            },
        )
    }
}

impl Record for Municipality {
    open spec fn spec_decode(fs: Seq<Seq<char>>) -> Result<MunicipalityV, RowErrorKind> {
        if fs.len() != 15 {
            Err(RowErrorKind::WrongFieldCount { expected: 15, found: fs.len() as usize })
        } else if spec_parse_u32(fs[0]) is None {
            Err(RowErrorKind::BadInteger { field: 0 })
        } else if spec_parse_u32(fs[1]) is None {
            Err(RowErrorKind::BadInteger { field: 1 })
        } else if spec_parse_u16(fs[3]) is None {
            Err(RowErrorKind::BadInteger { field: 3 })
        } else if spec_parse_u32(fs[6]) is None {
            Err(RowErrorKind::BadInteger { field: 6 })
        } else if MunicipalityMode::spec_from_code(spec_parse_u32(fs[6])->0 as int) is None {
            Err(RowErrorKind::BadCode { field: 6, code: spec_parse_u32(fs[6])->0 })
        } else if spec_parse_u32(fs[7]) is None {
            Err(RowErrorKind::BadInteger { field: 7 })
        } else if Status::spec_from_code(spec_parse_u32(fs[7])->0 as int) is None {
            Err(RowErrorKind::BadCode { field: 7, code: spec_parse_u32(fs[7])->0 })
        } else if spec_parse_u16(fs[8]) is None {
            Err(RowErrorKind::BadInteger { field: 8 })
        } else if spec_parse_u32(fs[9]) is None {
            Err(RowErrorKind::BadInteger { field: 9 })
        } else if AdmissionMode::spec_from_code(spec_parse_u32(fs[9])->0 as int) is None {
            Err(RowErrorKind::BadCode { field: 9, code: spec_parse_u32(fs[9])->0 })
        } else if spec_parse_date(fs[10]) is None {
            Err(RowErrorKind::BadDate { field: 10 })
        } else if fs[11].len() != 0 && spec_parse_u16(fs[11]) is None {
            Err(RowErrorKind::BadInteger { field: 11 })
        } else if fs[12].len() != 0 && spec_parse_u32(fs[12]) is None {
            Err(RowErrorKind::BadInteger { field: 12 })
        } else if fs[12].len() != 0 && AbolitionMode::spec_from_code(
            spec_parse_u32(fs[12])->0 as int,
        ) is None {
            Err(RowErrorKind::BadCode { field: 12, code: spec_parse_u32(fs[12])->0 })
        } else if fs[13].len() != 0 && spec_parse_date(fs[13]) is None {
            Err(RowErrorKind::BadDate { field: 13 })
        } else if spec_parse_date(fs[14]) is None {
            Err(RowErrorKind::BadDate { field: 14 })
        } else if !((fs[11].len() == 0) == (fs[12].len() == 0) && (fs[11].len() == 0) == (
        fs[13].len() == 0)) {
            Err(RowErrorKind::PartialAbolition)
        } else {
            Ok(
                MunicipalityV {
                    hist_id: spec_parse_u32(fs[0])->0,
                    district_hist_id: spec_parse_u32(fs[1])->0,
                    canton_abbreviation: fs[2],
                    id: spec_parse_u16(fs[3])->0,
                    name: fs[4],
                    short_name: fs[5],
                    entry_mode: MunicipalityMode::spec_from_code(
                        spec_parse_u32(fs[6])->0 as int,
                    )->0,
                    status: Status::spec_from_code(spec_parse_u32(fs[7])->0 as int)->0,
                    admission_number: spec_parse_u16(fs[8])->0,
                    admission_mode: AdmissionMode::spec_from_code(
                        spec_parse_u32(fs[9])->0 as int,
                    )->0,
                    admission_date: spec_parse_date(fs[10])->0,
                    abolition_number: if fs[11].len() == 0 {
                        None
                    } else {
                        Some(spec_parse_u16(fs[11])->0)
                    },
                    abolition_mode: if fs[12].len() == 0 {
                        None
                    } else {
                        Some(AbolitionMode::spec_from_code(spec_parse_u32(fs[12])->0 as int)->0)
                    },
                    abolition_date: if fs[13].len() == 0 {
                        None
                    } else {
                        Some(spec_parse_date(fs[13])->0)
                    },
                    date_of_change: spec_parse_date(fs[14])->0,
                },
            )
        }
    }

    fn decode_record(fs: &Vec<Vec<char>>) -> (r: Result<Self, RowErrorKind>) {
        proof {
            lemma_fields_deep_view(fs);
        }
        if fs.len() != 15 {
            return Err(RowErrorKind::WrongFieldCount { expected: 15, found: fs.len() });
        }
        let hist_id = match parse_u32(fs[0].as_slice()) {
            Some(v) => v,
            None => {
                return Err(RowErrorKind::BadInteger { field: 0 });
            },
        };
        let district_hist_id = match parse_u32(fs[1].as_slice()) {
            Some(v) => v,
            None => {
                return Err(RowErrorKind::BadInteger { field: 1 });
            },
        };
        let id = match parse_u16(fs[3].as_slice()) {
            Some(v) => v,
            None => {
                return Err(RowErrorKind::BadInteger { field: 3 });
            },
        };
        let entry_mode = match parse_u32(fs[6].as_slice()) {
            Some(code) => match MunicipalityMode::from_code(code) {
                Some(m) => m,
                None => {
                    return Err(RowErrorKind::BadCode { field: 6, code });
                },
            },
            None => {
                return Err(RowErrorKind::BadInteger { field: 6 });
            },
        };
        let status = match parse_u32(fs[7].as_slice()) {
            Some(code) => match Status::from_code(code) {
                Some(s) => s,
                None => {
                    return Err(RowErrorKind::BadCode { field: 7, code });
                },
            },
            None => {
                return Err(RowErrorKind::BadInteger { field: 7 });
            },
        };
        let admission_number = match parse_u16(fs[8].as_slice()) {
            Some(v) => v,
            None => {
                return Err(RowErrorKind::BadInteger { field: 8 });
            },
        };
        let admission_mode = match parse_u32(fs[9].as_slice()) {
            Some(code) => match AdmissionMode::from_code(code) {
                Some(m) => m,
                None => {
                    return Err(RowErrorKind::BadCode { field: 9, code });
                },
            },
            None => {
                return Err(RowErrorKind::BadInteger { field: 9 });
            },
        };
        let admission_date = match date_from_chars(fs[10].as_slice()) {
            Some(d) => d,
            None => {
                return Err(RowErrorKind::BadDate { field: 10 });
            },
        };
        let abolition_number = if fs[11].len() == 0 {
            None
        } else {
            match parse_u16(fs[11].as_slice()) {
                Some(v) => Some(v),
                None => {
                    return Err(RowErrorKind::BadInteger { field: 11 });
                },
            }
        };
        let abolition_mode = if fs[12].len() == 0 {
            None
        } else {
            match parse_u32(fs[12].as_slice()) {
                Some(code) => match AbolitionMode::from_code(code) {
                    Some(m) => Some(m),
                    None => {
                        return Err(RowErrorKind::BadCode { field: 12, code });
                    },
                },
                None => {
                    return Err(RowErrorKind::BadInteger { field: 12 });
                },
            }
        };
        let abolition_date = if fs[13].len() == 0 {
            None
        } else {
            match date_from_chars(fs[13].as_slice()) {
                Some(d) => Some(d),
                None => {
                    return Err(RowErrorKind::BadDate { field: 13 });
                },
            }
        };
        let date_of_change = match date_from_chars(fs[14].as_slice()) {
            Some(d) => d,
            None => {
                return Err(RowErrorKind::BadDate { field: 14 });
            },
        };
        if !((abolition_number.is_some() == abolition_mode.is_some()) && (
        abolition_number.is_some() == abolition_date.is_some())) {
            return Err(RowErrorKind::PartialAbolition);
        }
        let canton_abbreviation = chars_to_string(&fs[2]);
        let name = chars_to_string(&fs[4]);
        let short_name = chars_to_string(&fs[5]);
        Ok(
            Municipality {
                hist_id,
                district_hist_id,
                canton_abbreviation,
                id,
                name,
                short_name,
                entry_mode,
                status,
                admission_number,
                admission_mode,
                admission_date,
                abolition_number,
                abolition_mode,
                abolition_date,
                date_of_change,
            },
        )
    }
}

/// A decoded district's abolition fields are present as a unit or absent as
/// a unit: a row with exactly one or two of the three present is rejected.
pub proof fn lemma_district_abolition_unit(fs: Seq<Seq<char>>, v: DistrictV)
    requires
        District::spec_decode(fs) == Ok::<DistrictV, RowErrorKind>(v),
    ensures
        v.abolition_unit(),
{
}

/// A decoded municipality's abolition fields are present as a unit or absent
/// as a unit: a row with exactly one or two of the three present is rejected.
pub proof fn lemma_municipality_abolition_unit(fs: Seq<Seq<char>>, v: MunicipalityV)
    requires
        Municipality::spec_decode(fs) == Ok::<MunicipalityV, RowErrorKind>(v),
    ensures
        v.abolition_unit(),
{
}

/// What decoding row `i` (counted from zero) of a text yields: the typed
/// record, or the error with its one-based row number.
pub open spec fn row_result<T: Record>(i: int, rec: Seq<char>) -> Result<T::V, RowError> {
    match T::spec_decode(spec_fields(rec)) {
        Ok(v) => Ok(v),
        Err(k) => Err(RowError { row: (i + 1) as usize, kind: k }),
    }
}

/// One entity type's owned, already transcoded table text. Every call of
/// [`Dataset::rows`] re-parses that text, so repeated iterations are
/// independent and see the same rows.
#[derive(Debug)]
pub struct Dataset<T> {
    raw: Vec<char>,
    phantom: PhantomData<T>,
}

impl<T> View for Dataset<T> {
    type V = Seq<char>;

    closed spec fn view(&self) -> Seq<char> {
        self.raw@
    }
}

impl<T> Dataset<T> {
    /// A dataset over an already transcoded text.
    pub fn from_chars(raw: Vec<char>) -> (r: Self)
        ensures
            r@ == raw@,
    {
        Dataset { raw, phantom: PhantomData }
    }

    /// A dataset over a text.
    pub fn from_text(text: &str) -> (r: Self)
        ensures
            r@ == text@,
    {
        Dataset { raw: str_chars(text), phantom: PhantomData }
    }
}

impl<T: Record> Dataset<T> {
    /// What decoding a whole text yields: one result per record, each a
    /// typed record or a row error, in row order.
    pub open spec fn spec_rows(text: Seq<char>) -> Seq<Result<T::V, RowError>> {
        spec_records(text).map(|i: int, rec: Seq<char>| row_result::<T>(i, rec))
    }

    /// Decode the dataset's rows: every valid row yields its record, every
    /// malformed row its error, in the text's row order.
    pub fn rows(&self) -> (r: Vec<Result<T, RowError>>)
        ensures
            r@.len() == Self::spec_rows(self@).len(),
            forall|i: int|
                0 <= i < r@.len() ==> match #[trigger] r@[i] {
                    Ok(t) => Self::spec_rows(self@)[i] matches Ok(v) && t@ == v,
                    Err(e) => Self::spec_rows(self@)[i] == Err::<T::V, RowError>(e),
                },
    {
        let recs = records(&self.raw);
        let n = recs.len();
        let mut out: Vec<Result<T, RowError>> = Vec::new();
        let mut i: usize = 0;
        while i < n
            invariant
                n == recs@.len(),
                recs.deep_view() == spec_records(self@),
                i <= n,
                out@.len() == i,
                forall|j: int|
                    0 <= j < i as int ==> match #[trigger] out@[j] {
                        Ok(t) => Self::spec_rows(self@)[j] matches Ok(v) && t@ == v,
                        Err(e) => Self::spec_rows(self@)[j] == Err::<T::V, RowError>(e),
                    },
            decreases n - i,
        {
            proof {
                assert(recs@[i as int].deep_view() =~= recs@[i as int]@);
                assert(recs.deep_view()[i as int] == recs@[i as int]@);
            }
            let fs = fields(&recs[i]);
            match T::decode_record(&fs) {
                Ok(t) => out.push(Ok(t)),
                Err(k) => out.push(Err(RowError { row: i + 1, kind: k })),
            }
            i = i + 1;
        }
        proof {
            assert(recs.deep_view().len() == recs@.len());
        }
        out
    }
}

/// The datasets of the registry, one per entity type.
#[derive(Debug)]
pub struct Datasets {
    /// Canton / Kanton / Canton.
    pub cantons: Dataset<Canton>,
    /// District / Bezirk / District.
    pub districts: Dataset<District>,
    /// Municipality / Gemeinde / Commune.
    pub municipalities: Dataset<Municipality>,
}

/// Why a load failed before any record was produced.
#[derive(Debug)]
pub enum LoadError {
    /// The archive cannot be opened or a member cannot be read.
    Archive(ZipError),
    /// The archive has no member for this required entity-type code.
    MissingMember(String),
}

/// The entity-type code a member name carries under the dataset's naming
/// convention: strip the dataset prefix and the `.txt` suffix, split the
/// rest on `_` and take the third segment.
pub open spec fn spec_member_code(name: Seq<char>) -> Option<Seq<char>> {
    let prefix = "dz-b-00.04-hgv-01/1.2/"@;
    let suffix = ".txt"@;
    if name.len() >= prefix.len() + suffix.len() && name.take(prefix.len() as int) == prefix
        && name.skip(name.len() - suffix.len()) == suffix {
        let segs = spec_split(
            name.subrange(prefix.len() as int, name.len() - suffix.len()),
            '_',
        );
        if segs.len() > 2 {
            Some(segs[2])
        } else {
            None
        }
    } else {
        None
    }
}

/// Extract the entity-type code of one member name, if the name follows the
/// dataset's naming convention.
pub fn member_code(name: &Vec<char>) -> (r: Option<Vec<char>>)
    ensures
        r matches Some(c) ==> spec_member_code(name@) == Some(c@),
        r is None ==> spec_member_code(name@) is None,
{
    let prefix = str_chars("dz-b-00.04-hgv-01/1.2/");
    let suffix = str_chars(".txt");
    proof {
        reveal_strlit("dz-b-00.04-hgv-01/1.2/");
        reveal_strlit(".txt");
    }
    let plen = prefix.len();
    let slen = suffix.len();
    let n = name.len();
    if n < plen + slen {
        return None;
    }
    let mut i: usize = 0;
    while i < plen
        invariant
            prefix@ == "dz-b-00.04-hgv-01/1.2/"@,
            suffix@ == ".txt"@,
            plen == prefix@.len(),
            slen == suffix@.len(),
            n == name@.len(),
            n >= plen + slen,
            i <= plen,
            forall|j: int| 0 <= j < i ==> name@[j] == prefix@[j],
        decreases plen - i,
    {
        if name[i] != prefix[i] {
            proof {
                assert(name@.take(plen as int)[i as int] != prefix@[i as int]);
                assert(name@.take(plen as int) != prefix@);
            }
            return None;
        }
        i = i + 1;
    }
    proof {
        assert(name@.take(plen as int) =~= prefix@);
    }
    let mut j: usize = 0;
    while j < slen
        invariant
            prefix@ == "dz-b-00.04-hgv-01/1.2/"@,
            suffix@ == ".txt"@,
            plen == prefix@.len(),
            slen == suffix@.len(),
            n == name@.len(),
            n >= plen + slen,
            j <= slen,
            forall|t: int| 0 <= t < j ==> name@[n - slen + t] == suffix@[t],
        decreases slen - j,
    {
        if name[n - slen + j] != suffix[j] {
            proof {
                assert(name@.skip(n as int - slen as int)[j as int] != suffix@[j as int]);
            }
            return None;
        }
        j = j + 1;
    }
    proof {
        assert(name@.skip(n as int - slen as int) =~= suffix@);
    }
    let mut middle: Vec<char> = Vec::new();
    let mut t: usize = plen;
    while t < n - slen
        invariant
            plen == prefix@.len(),
            slen == suffix@.len(),
            n == name@.len(),
            n >= plen + slen,
            plen <= t <= n - slen,
            middle@ =~= name@.subrange(plen as int, t as int),
        decreases n - slen - t,
    {
        middle.push(name[t]);
        proof {
            assert(middle@ =~= name@.subrange(plen as int, t as int + 1));
        }
        t = t + 1;
    }
    proof {
        assert(middle@ =~= name@.subrange(plen as int, n as int - slen as int));
    }
    let mut segs = split_on_char(&middle, '_');
    if segs.len() > 2 {
        proof {
            assert(segs@[2].deep_view() =~= segs@[2]@);
            assert(segs.deep_view()[2] == segs@[2]@);
        }
        let c = segs.swap_remove(2);
        Some(c)
    } else {
        proof {
            assert(segs.deep_view().len() == segs@.len());
        }
        None
    }
}

/// The member name that carries entity-type code `code`: the latest member
/// whose name yields that code, as when the names are collected into a map
/// and later entries overwrite earlier ones.
pub open spec fn spec_member_for_code(names: Seq<Seq<char>>, code: Seq<char>) -> Option<Seq<char>>
    decreases names.len(),
{
    if names.len() == 0 {
        None
    } else if spec_member_code(names.last()) == Some(code) {
        Some(names.last())
    } else {
        spec_member_for_code(names.drop_last(), code)
    }
}

/// Find the member name that carries entity-type code `code`.
pub fn member_for_code(names: &Vec<String>, code: &str) -> (r: Option<String>)
    ensures
        r matches Some(name) ==> spec_member_for_code(names.deep_view(), code@) == Some(name@),
        r is None ==> spec_member_for_code(names.deep_view(), code@) is None,
{
    let code_chars = str_chars(code);
    let n = names.len();
    let mut i: usize = n;
    proof {
        assert(names.deep_view().take(n as int) =~= names.deep_view());
    }
    while i > 0
        invariant
            n == names@.len(),
            names.deep_view().len() == n,
            i <= n,
            code_chars@ == code@,
            spec_member_for_code(names.deep_view(), code@) == spec_member_for_code(
                names.deep_view().take(i as int),
                code@,
            ),
        decreases i,
    {
        i = i - 1;
        proof {
            assert(names@[i as int].deep_view() =~= names@[i as int]@);
            assert(names.deep_view()[i as int] == names@[i as int]@);
            assert(names.deep_view().take(i as int + 1).drop_last() =~= names.deep_view().take(
                i as int,
            ));
            assert(names.deep_view().take(i as int + 1).last() == names.deep_view()[i as int]);
        }
        let name_chars = str_chars(names[i].as_str());
        match member_code(&name_chars) {
            Some(c) => {
                if chars_eq(&c, &code_chars) {
                    return Some(names[i].clone());
                }
            },
            None => {},
        }
    }
    proof {
        assert(names.deep_view().take(0).len() == 0);
    }
    None
}

/// Find the member that carries entity-type code `code`, or report the code
/// as missing: the lookup fails exactly for the codes that no member name
/// carries, and the error names the code.
pub fn resolve_member(names: &Vec<String>, code: &str) -> (r: Result<String, LoadError>)
    ensures
        r is Ok <==> spec_member_for_code(names.deep_view(), code@) is Some,
        r matches Ok(name) ==> spec_member_for_code(names.deep_view(), code@) == Some(name@),
        r matches Err(e) ==> e matches LoadError::MissingMember(c) && c@ == code@,
{
    match member_for_code(names, code) {
        Some(name) => Ok(name),
        None => Err(LoadError::MissingMember(code.to_owned())),
    }
}

/// The communes datastore of the statistics office.
#[derive(Default)]
pub struct Datastore {
    _none: (),
}

/// Get the communes datastore.
pub fn datastore() -> (r: Datastore) {
    Datastore { _none: () }
}

impl Datastore {
    /// The asset that carries the registry in its text form: several
    /// tab-separated tables in a zip archive.
    pub fn asset(&self) -> (r: Asset)
        ensures
            r.spec_id() == TXT_ASSET_ID,
    {
        Asset::from(TXT_ASSET_ID)
    }

    /// The asset that carries the registry in its XML form: an XML file and
    /// its schema in a zip archive.
    pub fn asset_xml(&self) -> (r: Asset)
        ensures
            r.spec_id() == XML_ASSET_ID,
    {
        Asset::from(XML_ASSET_ID)
    }

    /// Meta information about the registry: its name, editor, copyright and
    /// terms of use.
    pub fn meta(&self) -> (r: Meta<&'static str>)
        ensures
            r.lang is None,
            spec_editor(r.editor),
            spec_copyright(r.copyright),
            spec_terms(r.terms, "OPEN-BY-ASK"@),
            !r.terms_automatic.free_commercial_use,
            r.terms_automatic.free_noncommercial_use,
            r.terms_automatic.citation_mandatory,
            r.name.spec_default_key() == "de"@,
            r.name.spec_get("de"@) matches Some(t) && t@
                == "Historisiertes Gemeindeverzeichnis der Schweiz"@,
            r.name.spec_get("fr"@) matches Some(t) && t@
                == "Liste historisée des communes de la Suisse"@,
            r.name.spec_get("it"@) matches Some(t) && t@
                == "Elenco storicizzato dei Comuni della Svizzera"@,
            forall|k: Seq<char>|
                !(k == "de"@ || k == "fr"@ || k == "it"@) ==> r.name.spec_get(k) is None,
            r.citations.spec_default_key() == Seq::<char>::empty(),
            r.citations.spec_get(Seq::<char>::empty()) matches Some(c) && c.spec_bibtex() is None
                && c.spec_ris() is None,
            forall|k: Seq<char>| k != Seq::<char>::empty() ==> r.citations.spec_get(k) is None,
    {
        let mut name_pairs: Vec<(String, &'static str)> = Vec::new();
        name_pairs.push(
            (String::from_str("de"), "Historisiertes Gemeindeverzeichnis der Schweiz"),
        );
        name_pairs.push(
            (String::from_str("fr"), "Liste historisée des communes de la Suisse"),
        );
        name_pairs.push(
            (String::from_str("it"), "Elenco storicizzato dei Comuni della Svizzera"),
        );
        let ghost nps = name_pairs@;
        let name = match Translated::from_pairs(name_pairs) {
            Some(t) => t,
            None => vstd::pervasive::unreached(),
        };
        proof {
            reveal_strlit("de");
            reveal_strlit("fr");
            reveal_strlit("it");
            assert(("de"@)[0] == 'd');
            assert(("fr"@)[0] == 'f');
            assert(("it"@)[0] == 'i');
            lemma_last_lookup_at(nps, "de"@, 0);
            lemma_last_lookup_at(nps, "fr"@, 1);
            lemma_last_lookup_at(nps, "it"@, 2);
            assert forall|k: Seq<char>|
                !(k == "de"@ || k == "fr"@ || k == "it"@) implies name.spec_get(k) is None by {
                lemma_last_lookup_absent(nps, k);
            }
        }
        let mut citation_pairs: Vec<(String, Citation)> = Vec::new();
        citation_pairs.push((String::new(), Citation::default()));
        let ghost cps = citation_pairs@;
        let citations = match Translated::from_pairs(citation_pairs) {
            Some(t) => t,
            None => vstd::pervasive::unreached(),
        };
        proof {
            lemma_last_lookup_at(cps, Seq::<char>::empty(), 0);
            assert forall|k: Seq<char>|
                k != Seq::<char>::empty() implies citations.spec_get(k) is None by {
                lemma_last_lookup_absent(cps, k);
            }
        }
        Meta {
            name,
            lang: None,
            editor: editor(),
            copyright: copyright(),
            terms: terms("OPEN-BY-ASK"),
            terms_automatic: Terms {
                free_commercial_use: false,
                free_noncommercial_use: true,
                citation_mandatory: true,
            },
            citations,
        }
    }

    /// Load the three datasets out of an already opened archive. The member
    /// for each entity-type code is located by the naming convention; a
    /// missing code is reported as such, checking `KT`, then `BEZ`, then
    /// `GDE`; each located member is read and transcoded. The load succeeds
    /// exactly when all three codes resolve to members and each resolved
    /// member is readable.
    pub fn load_from_archive(&self, archive: &mut ZipArchive<Cursor<Vec<u8>>>) -> (r: Result<
        Datasets,
        LoadError,
    >)
        ensures
            ({
                let names = zip_member_names(*old(archive));
                &&& spec_member_for_code(names, "KT"@) is None ==> (r matches Err(
                    LoadError::MissingMember(c),
                ) && c@ == "KT"@)
                &&& (spec_member_for_code(names, "KT"@) is Some && spec_member_for_code(
                    names,
                    "BEZ"@,
                ) is None) ==> (r matches Err(LoadError::MissingMember(c)) && c@ == "BEZ"@)
                &&& (spec_member_for_code(names, "KT"@) is Some && spec_member_for_code(
                    names,
                    "BEZ"@,
                ) is Some && spec_member_for_code(names, "GDE"@) is None) ==> (r matches Err(
                    LoadError::MissingMember(c),
                ) && c@ == "GDE"@)
                &&& (r matches Err(LoadError::MissingMember(c)) ==> ((c@ == "KT"@ || c@ == "BEZ"@
                    || c@ == "GDE"@) && spec_member_for_code(names, c@) is None))
                &&& (r is Ok <==> ({
                    &&& spec_member_for_code(names, "KT"@) matches Some(m)
                        && zip_member_readable(*old(archive), m)
                    &&& spec_member_for_code(names, "BEZ"@) matches Some(m)
                        && zip_member_readable(*old(archive), m)
                    &&& spec_member_for_code(names, "GDE"@) matches Some(m)
                        && zip_member_readable(*old(archive), m)
                }))
                &&& r matches Ok(ds) ==> {
                    &&& spec_member_for_code(names, "KT"@) matches Some(m) && ds.cantons@
                        == latin3_chars(zip_member_data(*old(archive), m))
                    &&& spec_member_for_code(names, "BEZ"@) matches Some(m) && ds.districts@
                        == latin3_chars(zip_member_data(*old(archive), m))
                    &&& spec_member_for_code(names, "GDE"@) matches Some(m) && ds.municipalities@
                        == latin3_chars(zip_member_data(*old(archive), m))
                }
            }),
    {
        let names = zip_file_names(archive);
        let kt_name = match resolve_member(&names, "KT") {
            Ok(n) => n,
            Err(e) => {
                return Err(e);
            },
        };
        let bez_name = match resolve_member(&names, "BEZ") {
            Ok(n) => n,
            Err(e) => {
                return Err(e);
            },
        };
        let gde_name = match resolve_member(&names, "GDE") {
            Ok(n) => n,
            Err(e) => {
                return Err(e);
            },
        };
        let kt_bytes = match zip_read_member(archive, kt_name.as_str()) {
            Ok(b) => b,
            Err(e) => {
                return Err(LoadError::Archive(e));
            },
        };
        let bez_bytes = match zip_read_member(archive, bez_name.as_str()) {
            Ok(b) => b,
            Err(e) => {
                return Err(LoadError::Archive(e));
            },
        };
        let gde_bytes = match zip_read_member(archive, gde_name.as_str()) {
            Ok(b) => b,
            Err(e) => {
                return Err(LoadError::Archive(e));
            },
        };
        Ok(
            Datasets {
                cantons: Dataset::from_chars(decode_legacy(&kt_bytes)),
                districts: Dataset::from_chars(decode_legacy(&bez_bytes)),
                municipalities: Dataset::from_chars(decode_legacy(&gde_bytes)),
            },
        )
    }

    /// Load the three datasets out of the bytes of the downloaded archive:
    /// open it, locate the member of each entity-type code by the naming
    /// convention, read and transcode each. The load succeeds exactly when
    /// the bytes parse as an archive, all three codes resolve to members and
    /// each resolved member is readable.
    pub fn load_from_bytes(&self, bytes: Vec<u8>) -> (r: Result<Datasets, LoadError>)
        ensures
            ({
                let names = zip_names_of(bytes@);
                &&& !zip_parses(bytes@) ==> (r matches Err(LoadError::Archive(_)))
                &&& (zip_parses(bytes@) && spec_member_for_code(names, "KT"@) is None) ==> (
                r matches Err(LoadError::MissingMember(c)) && c@ == "KT"@)
                &&& (zip_parses(bytes@) && spec_member_for_code(names, "KT"@) is Some
                    && spec_member_for_code(names, "BEZ"@) is None) ==> (r matches Err(
                    LoadError::MissingMember(c),
                ) && c@ == "BEZ"@)
                &&& (zip_parses(bytes@) && spec_member_for_code(names, "KT"@) is Some
                    && spec_member_for_code(names, "BEZ"@) is Some && spec_member_for_code(
                    names,
                    "GDE"@,
                ) is None) ==> (r matches Err(LoadError::MissingMember(c)) && c@ == "GDE"@)
                &&& (r matches Err(LoadError::MissingMember(c)) ==> (zip_parses(bytes@) && (c@
                    == "KT"@ || c@ == "BEZ"@ || c@ == "GDE"@) && spec_member_for_code(
                    names,
                    c@,
                ) is None))
                &&& (r is Ok <==> ({
                    &&& zip_parses(bytes@)
                    &&& spec_member_for_code(names, "KT"@) matches Some(m) && zip_readable_of(
                        bytes@,
                        m,
                    )
                    &&& spec_member_for_code(names, "BEZ"@) matches Some(m) && zip_readable_of(
                        bytes@,
                        m,
                    )
                    &&& spec_member_for_code(names, "GDE"@) matches Some(m) && zip_readable_of(
                        bytes@,
                        m,
                    )
                }))
                &&& r matches Ok(ds) ==> {
                    &&& spec_member_for_code(names, "KT"@) matches Some(m) && ds.cantons@
                        == latin3_chars(zip_data_of(bytes@, m))
                    &&& spec_member_for_code(names, "BEZ"@) matches Some(m) && ds.districts@
                        == latin3_chars(zip_data_of(bytes@, m))
                    &&& spec_member_for_code(names, "GDE"@) matches Some(m) && ds.municipalities@
                        == latin3_chars(zip_data_of(bytes@, m))
                }
            }),
    {
        let mut archive = match zip_open(bytes) {
            Ok(a) => a,
            Err(e) => {
                return Err(LoadError::Archive(e));
            },
        };
        self.load_from_archive(&mut archive)
    }
}

} // verus!
