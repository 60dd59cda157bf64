//! Listing records, by owner and by bounds, and fetching one record.

use vstd::prelude::*;
use vstd::string::*;
use crate::db::{Cache, CacheFilter, CacheId, DatabaseErrorResponse, LatLong};
use crate::db::cache::{is_box, is_id_text, id_bytes};
use crate::status::ResponseError;

verus! {

/// The query of a listing. A bound is held as [`LatLong`] holds a
/// coordinate.
#[derive(Debug, Clone, Copy, PartialEq, Eq)]
pub struct CacheViewParameters {
    pub user_id: Option<i32>,
    pub min_lat: Option<i64>,
    pub max_lat: Option<i64>,
    pub min_long: Option<i64>,
    pub max_long: Option<i64>,
}

/// The smaller of two coordinates.
pub open spec fn lower(a: i64, b: i64) -> i64 {
    if a <= b {
        a
    } else {
        b
    }
}

/// The larger of two coordinates.
pub open spec fn upper(a: i64, b: i64) -> i64 {
    if a <= b {
        b
    } else {
        a
    }
}

impl CacheViewParameters {
    /// How many of the four bounds are given.
    pub open spec fn bounds_given(&self) -> int {
        (if self.min_lat.is_some() { 1int } else { 0 })
            + (if self.max_lat.is_some() { 1int } else { 0 })
            + (if self.min_long.is_some() { 1int } else { 0 })
            + (if self.max_long.is_some() { 1int } else { 0 })
    }

    /// The box that four given bounds span: on each axis the smaller bound
    /// goes to the south-west corner and the larger to the north-east one,
    /// whichever of them was called the minimum.
    pub open spec fn bound_points(&self) -> Option<(LatLong, LatLong)> {
        if self.bounds_given() == 4 {
            Some(
                (
                    LatLong {
                        lat: lower(self.min_lat.unwrap(), self.max_lat.unwrap()),
                        lng: lower(self.min_long.unwrap(), self.max_long.unwrap()),
                    },
                    LatLong {
                        lat: upper(self.min_lat.unwrap(), self.max_lat.unwrap()),
                        lng: upper(self.min_long.unwrap(), self.max_long.unwrap()),
                    },
                ),
            )
        } else {
            None
        }
    }

    /// Whether at least one bound is given.
    pub fn coordinates_provided(&self) -> (res: bool)
        ensures
            res == (self.bounds_given() >= 1),
    {
        self.min_lat.is_some() || self.max_lat.is_some() || self.min_long.is_some()
            || self.max_long.is_some()
    }

    /// Whether all four bounds are given.
    pub fn coordinates_complete(&self) -> (res: bool)
        ensures
            res == (self.bounds_given() == 4),
    {
        self.min_lat.is_some() && self.max_lat.is_some() && self.min_long.is_some()
            && self.max_long.is_some()
    }

    /// The corners of the box to search, south-west first; `None` unless all
    /// four bounds are given. The two axes are ordered each by itself.
    pub fn get_bound_points(&self) -> (res: Option<(LatLong, LatLong)>)
        ensures
            res == self.bound_points(),
            res matches Some((sw, ne)) ==> is_box(sw, ne),
    {
        if !self.coordinates_provided() {
            return None;
        }
        if !self.coordinates_complete() {
            return None;
        }
        let min_lat: i64 = self.min_lat.unwrap();
        let max_lat: i64 = self.max_lat.unwrap();
        let min_long: i64 = self.min_long.unwrap();
        let max_long: i64 = self.max_long.unwrap();
        let mut min_point = LatLong { lat: min_lat, lng: min_long };
        let mut max_point = LatLong { lat: max_lat, lng: max_long };
        if min_lat > max_lat {
            min_point.lat = max_lat;
            max_point.lat = min_lat;
        }
        if min_long > max_long {
            min_point.lng = max_long;
            max_point.lng = min_long;
        }
        Some((min_point, max_point))
    }
}

/// The records of an answer.
#[derive(Debug, Clone, PartialEq, Eq)]
pub struct CacheView {
    pub caches: Vec<Cache>,
}

/// The answer to a listing or to a fetch: status 200 and the records.
#[derive(Debug, Clone, PartialEq, Eq)]
pub struct CacheViewResponse(pub CacheView);

impl CacheViewResponse {
    /// The response that carries `view`.
    pub fn from_view(view: CacheView) -> (res: Self)
        ensures
            res.0 == view,
    {
        Self(view)
    }

    /// The HTTP status of this response.
    pub fn status(&self) -> (code: u16)
        ensures
            code == 200,
    {
        200
    }
}

/// Why a listing failed.
#[derive(Debug, Clone, PartialEq, Eq)]
pub enum CacheViewErrors {
    /// Some of the four bounds are given, but not all.
    IncompleteBoundSpecification,
    /// The store failed; the text is the driver's report.
    DatabaseError(String),
}

/// The response to a listing that failed.
#[derive(Debug, Clone, PartialEq, Eq)]
pub enum CacheViewErrorResponse {
    /// Status 400.
    IncompleteBoundSpecification(ResponseError),
    /// Status 500.
    DBError(DatabaseErrorResponse),
}

/// The message of a listing with some bounds missing.
pub open spec fn incomplete_bounds_message() -> Seq<char> {
    "Необходимо задать все границы области поиска"@
}

impl CacheViewErrorResponse {
    /// The response that reports `err`.
    pub fn from_error(err: CacheViewErrors) -> (res: Self)
        ensures
            match err {
                CacheViewErrors::IncompleteBoundSpecification => res matches CacheViewErrorResponse::IncompleteBoundSpecification(
                    body,
                ) && body.message@ == incomplete_bounds_message(),
                CacheViewErrors::DatabaseError(report) => res matches CacheViewErrorResponse::DBError(
                    body,
                ) && body.message@ == "Database error"@ && body.logged@ == report@,
            },
    {
        match err {
            CacheViewErrors::IncompleteBoundSpecification => Self::IncompleteBoundSpecification(
                ResponseError::new(
                    String::from_str("Необходимо задать все границы области поиска"),
                ),
            ),
            CacheViewErrors::DatabaseError(report) => Self::DBError(
                DatabaseErrorResponse::new(report),
            ),
        }
    }

    /// The HTTP status of this response.
    pub fn status(&self) -> (code: u16)
        ensures
            code == match self {
                CacheViewErrorResponse::IncompleteBoundSpecification(_) => 400u16,
                CacheViewErrorResponse::DBError(_) => 500u16,
            },
    {
        match self {
            CacheViewErrorResponse::IncompleteBoundSpecification(_) => 400,
            CacheViewErrorResponse::DBError(_) => 500,
        }
    }
}

/// What a listing asks of the store: the filter by owner and by the box of
/// the bounds. A query that gives one, two or three of the four bounds is
/// refused.
pub fn view_caches(params: &CacheViewParameters) -> (res: Result<CacheFilter, CacheViewErrors>)
    ensures
        res.is_err() == (1 <= params.bounds_given() < 4),
        res matches Err(err) ==> err == CacheViewErrors::IncompleteBoundSpecification,
        res matches Ok(filter) ==> filter.owner_id == params.user_id && filter.bounds
            == params.bound_points(),
        res matches Ok(filter) ==> (filter.bounds matches Some((sw, ne)) ==> is_box(sw, ne)),
{
    let bounds = params.get_bound_points();
    if params.coordinates_provided() && bounds.is_none() {
        return Err(CacheViewErrors::IncompleteBoundSpecification);
    }
    Ok(CacheFilter::new(params.user_id, bounds))
}

/// The answer to a listing, from what the store returned: of each record
/// the identifier and the position, in the store's order, or the report of
/// the store's failure.
pub fn view_caches_response(outcome: Result<Vec<Cache>, String>) -> (res: Result<
    CacheViewResponse,
    CacheViewErrorResponse,
>)
    ensures
        match outcome {
            Ok(found) => res matches Ok(response) && response.0.caches@.len() == found@.len()
                && forall|i: int|
                0 <= i < found@.len() ==> (#[trigger] response.0.caches@[i])@
                    == found@[i]@.projected(),
            Err(report) => res matches Err(CacheViewErrorResponse::DBError(body))
                && body.message@ == "Database error"@ && body.logged@ == report@,
        },
{
    match outcome {
        Ok(found) => {
            let mut caches: Vec<Cache> = Vec::new();
            let mut i: usize = 0;
            while i < found.len()
                invariant
                    i <= found@.len(),
                    caches@.len() == i,
                    forall|j: int|
                        0 <= j < i ==> (#[trigger] caches@[j])@ == found@[j]@.projected(),
                decreases found@.len() - i,
            {
                caches.push(found[i].projected());
                i = i + 1;
            }
            Ok(CacheViewResponse::from_view(CacheView { caches }))
        },
        Err(report) => Err(
            CacheViewErrorResponse::from_error(CacheViewErrors::DatabaseError(report)),
        ),
    }
}

/// Which record a fetch asks for: `None` where `id` is no identifier, and the
/// store is then not asked.
pub fn view_cache(id: &str) -> (res: Option<CacheId>)
    ensures
        res.is_some() == is_id_text(id@),
        res matches Some(found) ==> found.bytes@ == id_bytes(id@),
{
    CacheId::parse_str(id)
}

/// The answer to a fetch, from what the store returned: the whole record
/// where there is one, and nothing where there is none or the store failed.
pub fn view_cache_response(outcome: Result<Option<Cache>, String>) -> (res: Option<
    CacheViewResponse,
>)
    ensures
        match outcome {
            Ok(Some(cache)) => res matches Some(response) && response.0.caches@ == seq![cache],
            _ => res.is_none(),
        },
{
    match outcome {
        Ok(Some(cache)) => {
            let mut caches: Vec<Cache> = Vec::new();
            caches.push(cache);
            assert(caches@ =~= seq![cache]);
            Some(CacheViewResponse::from_view(CacheView { caches }))
        },
        _ => None,
    }
}

} // verus!

verus! {

/// Four given bounds always span a box, in whatever order and of whatever
/// size they are.
pub proof fn lemma_bound_points_span_box(params: CacheViewParameters)
    requires
        params.bounds_given() == 4,
    ensures
        params.bound_points() matches Some((sw, ne)) && is_box(sw, ne),
{
}

/// Which bound of an axis is called the minimum does not matter: with the
/// two bounds of either axis exchanged the box is the same.
pub proof fn lemma_bound_points_order(params: CacheViewParameters)
    ensures
        (CacheViewParameters {
            min_lat: params.max_lat,
            max_lat: params.min_lat,
            ..params
        }).bound_points() == params.bound_points(),
        (CacheViewParameters {
            min_long: params.max_long,
            max_long: params.min_long,
            ..params
        }).bound_points() == params.bound_points(),
{
}

/// Each axis is ordered by itself: the latitudes of the box are those of
/// any query with the same two latitude bounds, and likewise the longitudes.
pub proof fn lemma_bound_points_axes(a: CacheViewParameters, b: CacheViewParameters)
    requires
        a.bounds_given() == 4,
        b.bounds_given() == 4,
    ensures
        a.min_lat == b.min_lat && a.max_lat == b.max_lat ==> a.bound_points().unwrap().0.lat
            == b.bound_points().unwrap().0.lat && a.bound_points().unwrap().1.lat
            == b.bound_points().unwrap().1.lat,
        a.min_long == b.min_long && a.max_long == b.max_long ==> a.bound_points().unwrap().0.lng
            == b.bound_points().unwrap().0.lng && a.bound_points().unwrap().1.lng
            == b.bound_points().unwrap().1.lng,
{
}

} // verus!
