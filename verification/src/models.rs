//! The service-point directory records and the nearest-point selection.
//!
//! A `GeoLocation` carries its two coordinates as IEEE-754 double bit
//! patterns. The distance metric is the flat-plane Euclidean distance in the
//! (latitude, longitude) plane — deliberately not a great-circle distance;
//! callers may depend on its exact numeric results, so it is kept as the
//! exact IEEE-754 evaluation of `sqrt((dlng)^2 + (dlat)^2)`.

use vstd::prelude::*;
use crate::fbits::{
    f64_lt, lt_bits, is_nan_bits, is_finite_bits, sign_bits, flip_sign_bits, sub_bits,
    square_bits, add_bits, sqrt_bits, f64_sub, f64_square, f64_add, f64_sqrt,
};

verus! {

/// A geographic coordinate; both fields are IEEE-754 double bit patterns.
#[derive(Clone, Copy, PartialEq, Eq, Debug)]
pub struct GeoLocation {
    pub latitude: u64,
    pub longitude: u64,
}

/// A service point's postal address, with its coordinate.
#[derive(Debug)]
pub struct Address {
    pub street: String,
    pub suite: String,
    pub city: String,
    pub zipcode: String,
    pub geocode: GeoLocation,
}

/// A descriptive record attached to a service point; carried but not read by
/// the selection logic.
#[derive(Debug)]
pub struct Company {
    pub name: String,
    pub catch_phrase: String,
    pub bs: String,
}

/// One service-directory entry. Only `name` and `address` are consumed by
/// the selection logic; the other fields pass through for display.
#[derive(Debug)]
pub struct User {
    pub id: usize,
    pub name: String,
    pub username: String,
    pub email: String,
    pub address: Address,
    pub phone: String,
    pub website: String,
    pub company: Company,
}

impl Clone for Address {
    fn clone(&self) -> (r: Self)
        ensures
            r == *self,
    {
        Address {
            street: self.street.clone(),
            suite: self.suite.clone(),
            city: self.city.clone(),
            zipcode: self.zipcode.clone(),
            geocode: self.geocode,
        }
    }
}

impl Clone for Company {
    fn clone(&self) -> (r: Self)
        ensures
            r == *self,
    {
        Company {
            name: self.name.clone(),
            catch_phrase: self.catch_phrase.clone(),
            bs: self.bs.clone(),
        }
    }
}

impl Clone for User {
    fn clone(&self) -> (r: Self)
        ensures
            r == *self,
    {
        User {
            id: self.id,
            name: self.name.clone(),
            username: self.username.clone(),
            email: self.email.clone(),
            address: self.address.clone(),
            phone: self.phone.clone(),
            website: self.website.clone(),
            company: self.company.clone(),
        }
    }
}

/// Both coordinates are finite, the invariant a well-formed directory entry
/// satisfies.
pub open spec fn geo_wf(g: GeoLocation) -> bool {
    is_finite_bits(g.latitude) && is_finite_bits(g.longitude)
}

/// Neither coordinate is a NaN (infinities allowed).
pub open spec fn geo_not_nan(g: GeoLocation) -> bool {
    !is_nan_bits(g.latitude) && !is_nan_bits(g.longitude)
}

/// The bit pattern of the flat-plane Euclidean distance between two
/// coordinates: the exact IEEE-754 evaluation of
/// `sqrt((d.longitude - o.longitude)^2 + (d.latitude - o.latitude)^2)`.
pub open spec fn spec_distance(origin: GeoLocation, destination: GeoLocation) -> u64 {
    sqrt_bits(
        add_bits(
            square_bits(sub_bits(destination.longitude, origin.longitude)),
            square_bits(sub_bits(destination.latitude, origin.latitude)),
        ),
    )
}

/// Computes the flat-plane Euclidean distance between two coordinates, as an
/// IEEE-754 double bit pattern.
///
/// For non-NaN inputs the metric is symmetric, and for finite inputs it is
/// non-negative, never a NaN, and zero from a coordinate to itself.
pub fn distance_between(origin: GeoLocation, destination: GeoLocation) -> (r: u64)
    ensures
        r == spec_distance(origin, destination),
        geo_not_nan(origin) && geo_not_nan(destination) ==> r == spec_distance(
            destination,
            origin,
        ),
        geo_wf(origin) && geo_wf(destination) ==> !is_nan_bits(r) && !sign_bits(r),
        geo_wf(origin) && origin == destination ==> r == 0,
{
    let dlng = f64_sub(destination.longitude, origin.longitude);
    let dlat = f64_sub(destination.latitude, origin.latitude);
    let sq_lng = f64_square(dlng);
    let sq_lat = f64_square(dlat);
    let r = f64_sqrt(f64_add(sq_lng, sq_lat));
    proof {
        if geo_not_nan(origin) && geo_not_nan(destination) {
            if origin.longitude != destination.longitude {
                assert(sub_bits(origin.longitude, destination.longitude) == flip_sign_bits(dlng));
            }
            if origin.latitude != destination.latitude {
                assert(sub_bits(origin.latitude, destination.latitude) == flip_sign_bits(dlat));
            }
            assert(square_bits(sub_bits(origin.longitude, destination.longitude)) == sq_lng);
            assert(square_bits(sub_bits(origin.latitude, destination.latitude)) == sq_lat);
        }
    }
    r
}

/// The distance from `target` to a directory entry.
pub open spec fn dist_to(target: GeoLocation, u: User) -> u64 {
    spec_distance(u.address.geocode, target)
}

/// The distances from `target` to each entry, in directory order.
pub open spec fn dists_of(target: GeoLocation, users: Seq<User>) -> Seq<u64> {
    users.map(|i: int, u: User| dist_to(target, u))
}

/// The index the scan of the first `n` distances settles on: the scan starts
/// at index 0 and moves only when a later distance is strictly below the
/// current one under IEEE-754 `<` — so a NaN never displaces the current
/// choice, and of equal distances the earliest wins.
pub open spec fn best_upto(ds: Seq<u64>, n: int) -> int
    decreases n,
{
    if n <= 1 {
        0
    } else if f64_lt(ds[n - 1], ds[best_upto(ds, n - 1)]) {
        n - 1
    } else {
        best_upto(ds, n - 1)
    }
}

/// The index the full scan settles on.
pub open spec fn best_of(ds: Seq<u64>) -> int {
    best_upto(ds, ds.len() as int)
}

pub proof fn lemma_best_upto_in_range(ds: Seq<u64>, n: int)
    requires
        1 <= n,
    ensures
        0 <= best_upto(ds, n) < n,
    decreases n,
{
    if n > 1 {
        lemma_best_upto_in_range(ds, n - 1);
    }
}

/// `f64_lt` behaves as a pseudo-order even with NaN patterns around: what is
/// not below `b` is not below anything that is below `b`.
pub proof fn lemma_lt_pseudo_trans(x: u64, y: u64, b: u64)
    requires
        !f64_lt(x, b),
        f64_lt(y, b),
    ensures
        !f64_lt(x, y),
{
}

/// Minimality: no scanned distance is strictly below the chosen one under
/// IEEE-754 `<`.
pub proof fn lemma_best_upto_minimal(ds: Seq<u64>, n: int)
    requires
        1 <= n,
    ensures
        forall|j: int| 0 <= j < n ==> !f64_lt(ds[j], ds[best_upto(ds, n)]),
    decreases n,
{
    if n > 1 {
        lemma_best_upto_minimal(ds, n - 1);
        let b = best_upto(ds, n - 1);
        if f64_lt(ds[n - 1], ds[b]) {
            assert forall|j: int| 0 <= j < n implies !f64_lt(#[trigger] ds[j], ds[n - 1]) by {
                if j < n - 1 {
                    lemma_lt_pseudo_trans(ds[j], ds[n - 1], ds[b]);
                }
            }
        }
    }
}

/// Tie-break determinism: of two equal scanned distances, the scan never
/// settles on the later one.
pub proof fn lemma_best_upto_first(ds: Seq<u64>, n: int, j: int, k: int)
    requires
        0 <= j < k < n,
        ds[j] == ds[k],
    ensures
        best_upto(ds, n) != k,
    decreases n,
{
    if n == k + 1 {
        lemma_best_upto_in_range(ds, n - 1);
        lemma_best_upto_minimal(ds, n - 1);
    } else {
        lemma_best_upto_first(ds, n - 1, j, k);
    }
}

/// The law behind the resolver's tie-break: when two directory entries carry
/// identical geocodes, the one appearing earlier in the directory is the one
/// the scan settles on — the later never is.
pub proof fn lemma_tie_break_first(target: GeoLocation, users: Seq<User>, j: int, k: int)
    requires
        0 <= j < k < users.len(),
        users[j].address.geocode == users[k].address.geocode,
    ensures
        best_of(dists_of(target, users)) != k,
{
    let ds = dists_of(target, users);
    assert(ds[j] == dist_to(target, users[j]));
    assert(ds[k] == dist_to(target, users[k]));
    lemma_best_upto_first(ds, ds.len() as int, j, k);
}

/// The law behind the resolver's choice: the distance of the chosen entry is
/// minimal — no entry of the directory lies strictly closer under IEEE-754
/// `<`.
pub proof fn lemma_closest_minimal(target: GeoLocation, users: Seq<User>)
    requires
        users.len() > 0,
    ensures
        forall|j: int|
            0 <= j < users.len() ==> !f64_lt(
                dists_of(target, users)[j],
                dists_of(target, users)[best_of(dists_of(target, users))],
            ),
{
    lemma_best_upto_minimal(dists_of(target, users), users.len() as int);
}

/// Selects the directory entry closest to `target`, returning its distance
/// and a copy of the entry; `None` exactly when the directory is empty.
///
/// Of entries at equal minimal distance the first in directory order is
/// returned, and a comparison involving a NaN counts as "not less", so a
/// degenerate record never displaces the current choice.
pub fn closest_user(target: GeoLocation, users: &Vec<User>) -> (r: Option<(u64, User)>)
    ensures
        r is None <==> users@.len() == 0,
        r matches Some(du) ==> ({
            let ds = dists_of(target, users@);
            let i = best_of(ds);
            &&& 0 <= i < users@.len()
            &&& du.1 == users@[i]
            &&& du.0 == ds[i]
            &&& forall|j: int| 0 <= j < users@.len() ==> !f64_lt(ds[j], du.0)
        }),
{
    let ghost ds = dists_of(target, users@);
    if users.len() == 0 {
        return None;
    }
    let mut best: usize = 0;
    let mut best_d: u64 = distance_between(users[0].address.geocode, target);
    assert(ds[0] == dist_to(target, users@[0]));
    let mut i: usize = 1;
    while i < users.len()
        invariant
            1 <= i <= users@.len(),
            ds == dists_of(target, users@),
            best == best_upto(ds, i as int),
            0 <= best < i,
            best_d == ds[best as int],
        decreases users@.len() - i,
    {
        let d = distance_between(users[i].address.geocode, target);
        assert(ds[i as int] == dist_to(target, users@[i as int]));
        if lt_bits(d, best_d) {
            best = i;
            best_d = d;
        }
        i += 1;
    }
    proof {
        lemma_best_upto_minimal(ds, users@.len() as int);
    }
    Some((best_d, users[best].clone()))
}

} // verus!
