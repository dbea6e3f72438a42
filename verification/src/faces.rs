//! People and their faces.

pub mod repository;
pub mod service;

use vstd::prelude::*;
use vstd::string::*;

verus! {

/// Identity of a person.
#[derive(Debug, PartialEq, Eq, Hash)]
pub struct PersonId(String);

impl View for PersonId {
    type V = Seq<char>;

    closed spec fn view(&self) -> Seq<char> {
        self.0@
    }
}

impl Clone for PersonId {
    fn clone(&self) -> (r: Self)
        ensures
            r == *self,
    {
        PersonId(self.0.clone())
    }
}

impl PersonId {
    /// The text of the id.
    pub fn as_str(&self) -> (r: &str)
        ensures
            r@ == self@,
    {
        self.0.as_str()
    }

    /// Wraps an id that is already known.
    pub fn from_raw(s: String) -> (r: Self)
        ensures
            r@ == s@,
    {
        PersonId(s)
    }

    /// The id as shown.
    pub fn to_string(&self) -> (r: String)
        ensures
            r@ == self@,
    {
        self.0.clone()
    }
}

/// A recognised person.
#[derive(Debug, Clone)]
pub struct Person {
    pub id: PersonId,
    pub name: String,
    pub face_count: u32,
    pub is_hidden: bool,
}

/// A row as the people queries return it.
#[derive(Debug)]
pub struct PersonRow {
    pub id: String,
    pub name: String,
    pub face_count: i64,
    pub is_hidden: bool,
}

/// Whether a row describes a person.
pub open spec fn describes(row: PersonRow, p: Person) -> bool {
    &&& p.id@ == row.id@
    &&& p.name == row.name
    &&& p.face_count == row.face_count as u32
    &&& p.is_hidden == row.is_hidden
}

/// The person that a row describes.
pub fn person_from_row(row: PersonRow) -> (r: Person)
    ensures
        describes(row, r),
        r.id@ == row.id@,
        r.name == row.name,
        r.face_count == row.face_count as u32,
        r.is_hidden == row.is_hidden,
{
    Person {
        id: PersonId::from_raw(row.id),
        name: row.name,
        face_count: row.face_count as u32,
        is_hidden: row.is_hidden,
    }
}

/// A person as the server describes them.
#[derive(Debug)]
pub struct PersonRecord {
    pub id: String,
    pub name: String,
    pub birth_date: Option<String>,
    pub is_hidden: bool,
    pub is_favorite: bool,
    pub color: Option<String>,
    pub face_asset_id: Option<String>,
    pub external_id: Option<String>,
}

/// A face as the server describes it.
#[derive(Debug)]
pub struct AssetFaceRow {
    pub id: String,
    pub asset_id: String,
    pub person_id: Option<String>,
    pub image_width: i32,
    pub image_height: i32,
    pub bbox_x1: i32,
    pub bbox_y1: i32,
    pub bbox_x2: i32,
    pub bbox_y2: i32,
    pub source_type: String,
    /// Whether the server shows the face in the asset.
    pub is_visible: bool,
    /// When the server deleted the face, if it did.
    pub deleted_at: Option<i64>,
}

/// Changes of people, told to every subscriber.
#[derive(Debug)]
pub enum FacesEvent {
    PersonAdded(PersonId),
    PersonUpdated(PersonId),
    PersonRemoved(PersonId),
    /// Media that show the person came or went.
    PersonMediaChanged(PersonId),
}

} // verus!
