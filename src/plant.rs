//! Plant records, the requests that create and change them, and the envelope
//! that every answer of the service is wrapped in.

use vstd::prelude::*;
use vstd::string::*;
use crate::status::{StatusStore, ValidationError, field_named, updated};

verus! {

/// A plant owned by one user. Identifiers are the 128-bit values of UUIDs;
/// times are microseconds since the Unix epoch, in UTC.
#[derive(Debug)]
pub struct Plant {
    pub id: u128,
    pub name: String,
    pub plant_type: String,
    pub image: Option<String>,
    pub planted_date: i64,
    pub age: i32,
    pub user_id: u128,
    pub status: StatusStore,
    pub created_at: i64,
    pub updated_at: i64,
}

/// A request to register a new plant.
#[derive(Debug)]
pub struct CreatePlantDTO {
    pub name: String,
    pub plant_type: String,
    pub image: Option<String>,
    pub user_id: u128,
}

/// A request to change some of a plant's details; a `None` keeps the current value.
#[derive(Debug)]
pub struct UpdatePlantDTO {
    pub name: Option<String>,
    pub plant_type: Option<String>,
    pub image: Option<String>,
    pub status: Option<StatusStore>,
}

/// A request to set one care field of one date.
#[derive(Debug)]
pub struct UpdatePlantStatusDTO {
    pub date: String,
    pub status_type: String,
    pub value: bool,
}

/// Everything but the care records and the time of the last change agree.
pub open spec fn same_details(a: Plant, b: Plant) -> bool {
    &&& a.id == b.id
    &&& a.name == b.name
    &&& a.plant_type == b.plant_type
    &&& a.image == b.image
    &&& a.planted_date == b.planted_date
    &&& a.age == b.age
    &&& a.user_id == b.user_id
    &&& a.created_at == b.created_at
}

impl Plant {
    /// A new plant of age zero, planted and created at `now`, with no care
    /// records yet.
    pub fn create(dto: CreatePlantDTO, id: u128, now: i64) -> (r: Plant)
        ensures
            r.id == id,
            r.name == dto.name,
            r.plant_type == dto.plant_type,
            r.image == dto.image,
            r.user_id == dto.user_id,
            r.age == 0,
            r.planted_date == now,
            r.created_at == now,
            r.updated_at == now,
            r.status@ == Map::<Seq<char>, crate::status::PlantStatus>::empty(),
    {
        Plant {
            id,
            name: dto.name,
            plant_type: dto.plant_type,
            image: dto.image,
            planted_date: now,
            age: 0,
            user_id: dto.user_id,
            status: StatusStore::new(),
            created_at: now,
            updated_at: now,
        }
    }

    /// Takes each value that `dto` gives and keeps the others; the time of
    /// the last change becomes `now`.
    pub fn apply_changes(&mut self, dto: UpdatePlantDTO, now: i64)
        ensures
            final(self).id == old(self).id,
            final(self).user_id == old(self).user_id,
            final(self).planted_date == old(self).planted_date,
            final(self).age == old(self).age,
            final(self).created_at == old(self).created_at,
            final(self).updated_at == now,
            final(self).name == (match dto.name {
                Some(n) => n,
                None => old(self).name,
            }),
            final(self).plant_type == (match dto.plant_type {
                Some(t) => t,
                None => old(self).plant_type,
            }),
            final(self).image == (match dto.image {
                Some(i) => Some(i),
                None => old(self).image,
            }),
            final(self).status@ == (match dto.status {
                Some(s) => s@,
                None => old(self).status@,
            }),
    {
        if let Some(n) = dto.name {
            self.name = n;
        }
        if let Some(t) = dto.plant_type {
            self.plant_type = t;
        }
        if let Some(i) = dto.image {
            self.image = Some(i);
        }
        if let Some(s) = dto.status {
            self.status = s;
        }
        self.updated_at = now;
    }

    /// Merges one status update into the plant's care records. A refused
    /// update changes nothing; an accepted one also sets the time of the
    /// last change to `now`.
    pub fn apply_status_update(&mut self, dto: &UpdatePlantStatusDTO, now: i64) -> (r: Result<(), ValidationError>)
        ensures
            same_details(*final(self), *old(self)),
            field_named(dto.status_type@) is None ==> r == Err::<(), ValidationError>(ValidationError::UnknownField),
            field_named(dto.status_type@) is Some && dto.date@.len() == 0 ==> r == Err::<(), ValidationError>(ValidationError::EmptyDate),
            r is Ok <==> (field_named(dto.status_type@) is Some && dto.date@.len() > 0),
            r is Err ==> final(self).status@ == old(self).status@ && final(self).updated_at == old(self).updated_at,
            r is Ok ==> final(self).status@ == updated(
                old(self).status@,
                dto.date@,
                field_named(dto.status_type@)->0,
                dto.value,
            ) && final(self).updated_at == now,
    {
        let r = self.status.apply_named_update(dto.date.as_str(), dto.status_type.as_str(), dto.value);
        if r.is_ok() {
            self.updated_at = now;
        }
        r
    }
}

/// The envelope of every answer: `status` is `success` or `error`.
#[derive(Debug)]
pub struct ApiResponse<T> {
    pub status: String,
    pub message: String,
    pub data: Option<T>,
}

impl<T> ApiResponse<T> {
    pub fn success(message: String, data: T) -> (r: ApiResponse<T>)
        ensures
            r.status@ == "success"@,
            r.message == message,
            r.data == Some(data),
    {
        ApiResponse { status: String::from_str("success"), message, data: Some(data) }
    }

    /// A success that carries no data.
    pub fn done(message: String) -> (r: ApiResponse<T>)
        ensures
            r.status@ == "success"@,
            r.message == message,
            r.data is None,
    {
        ApiResponse { status: String::from_str("success"), message, data: None }
    }

    pub fn error(message: String) -> (r: ApiResponse<T>)
        ensures
            r.status@ == "error"@,
            r.message == message,
            r.data is None,
    {
        ApiResponse { status: String::from_str("error"), message, data: None }
    }
}

} // verus!
