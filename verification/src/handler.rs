//! The query pipeline around the resolver: validating caller input,
//! building the directory request URL, and rendering the result text.
//!
//! The surrounding host performs the network call itself; everything here is
//! pure computation with exact contracts, so a caller can run
//! `parse_target` / `build_directory_url` before the fetch and
//! `resolve_closest` / the render functions after it.

use vstd::prelude::*;
use vstd::string::StringExecFns;
use crate::fbits::{f64_lt, parsed_f64};
use crate::models::{GeoLocation, User, dists_of, best_of, closest_user};

verus! {

/// A query's terminal failure: either the configured endpoint is unusable
/// (`Config`) or an input or payload did not decode (`Deserialization`).
/// Each carries a human-readable diagnostic.
#[derive(Debug)]
pub enum Error {
    Config { message: String },
    Deserialization { message: String },
}

/// The diagnostic text an error carries.
pub open spec fn error_message(e: Error) -> Seq<char> {
    match e {
        Error::Config { message } => message@,
        Error::Deserialization { message } => message@,
    }
}

/// The coordinate a pair of input strings parses to, where both parse.
pub open spec fn parsed_target(lat: Seq<char>, lng: Seq<char>) -> GeoLocation {
    GeoLocation {
        latitude: parsed_f64(lat)->Some_0,
        longitude: parsed_f64(lng)->Some_0,
    }
}

/// Parses the caller-supplied latitude and longitude strings into a
/// coordinate. Fails fast with a `Deserialization` error naming the first
/// offending field; the latitude is checked first.
pub fn parse_target(latitude: &str, longitude: &str) -> (r: Result<GeoLocation, Error>)
    ensures
        match r {
            Ok(g) => {
                &&& parsed_f64(latitude@) is Some
                &&& parsed_f64(longitude@) is Some
                &&& g == parsed_target(latitude@, longitude@)
            },
            Err(e) => {
                &&& parsed_f64(latitude@) is None || parsed_f64(longitude@) is None
                &&& e is Deserialization
                &&& if parsed_f64(latitude@) is None {
                    "latitude is an invalid number: "@.is_prefix_of(error_message(e))
                } else {
                    "longitude is an invalid number: "@.is_prefix_of(error_message(e))
                }
            },
        },
{
    let lat = match crate::fbits::parse_f64(latitude) {
        Ok(b) => b,
        Err(diag) => {
            let mut message = String::from_str("latitude is an invalid number: ");
            message.append(diag.as_str());
            proof {
                let p = "latitude is an invalid number: "@;
                assert(message@.subrange(0, p.len() as int) =~= p);
            }
            return Err(Error::Deserialization { message });
        },
    };
    let lng = match crate::fbits::parse_f64(longitude) {
        Ok(b) => b,
        Err(diag) => {
            let mut message = String::from_str("longitude is an invalid number: ");
            message.append(diag.as_str());
            proof {
                let p = "longitude is an invalid number: "@;
                assert(message@.subrange(0, p.len() as int) =~= p);
            }
            return Err(Error::Deserialization { message });
        },
    };
    Ok(GeoLocation { latitude: lat, longitude: lng })
}

/// The directory URL the configured endpoint resolves to: the endpoint
/// parsed as a base URL with the fixed path `/users` resolved against it,
/// or nothing when the endpoint is not a usable base URL.
pub uninterp spec fn users_url(endpoint: Seq<char>) -> Option<Seq<char>>;

/// Relies on `url::Url::parse`, `url::Url::join` and `url::Url`'s `Display`:
/// parsing is a pure function of the input string, `join` resolves the fixed
/// relative path `/users` against the parsed base (failing on bases that
/// forbid relative resolution), and `Display` writes the resolved URL back
/// out. The composite outcome depends on the endpoint string alone.
#[verifier::external_body]
fn resolve_users_url(endpoint: &str) -> (r: Result<String, String>)
    ensures
        r is Ok <==> users_url(endpoint@) is Some,
        r is Ok ==> r->Ok_0@ == users_url(endpoint@)->Some_0,
{
    match endpoint.parse::<url::Url>() {
        Err(e) => Err(format!("{e:?}")),
        Ok(base) => match base.join("/users") {
            Err(e) => Err(format!("{e:?}")),
            Ok(u) => Ok(u.to_string()),
        },
    }
}

/// Builds the URL the directory is fetched from, by resolving the fixed
/// relative path `/users` against the configured endpoint. Fails with a
/// `Config` error exactly when the endpoint is not a usable base URL.
pub fn build_directory_url(endpoint: &str) -> (r: Result<String, Error>)
    ensures
        match r {
            Ok(u) => users_url(endpoint@) is Some && u@ == users_url(endpoint@)->Some_0,
            Err(e) => {
                &&& users_url(endpoint@) is None
                &&& e is Config
                &&& "Invalid URL in configuration: "@.is_prefix_of(error_message(e))
            },
        },
{
    match resolve_users_url(endpoint) {
        Ok(u) => Ok(u),
        Err(diag) => {
            let mut message = String::from_str("Invalid URL in configuration: ");
            message.append(diag.as_str());
            proof {
                let p = "Invalid URL in configuration: "@;
                assert(message@.subrange(0, p.len() as int) =~= p);
            }
            Err(Error::Config { message })
        },
    }
}

/// Parses the caller's coordinate and selects the closest directory entry.
/// The directory is handed in already fetched and decoded; any failure is
/// the input validation's, reported as `parse_target` reports it.
pub fn resolve_closest(latitude: &str, longitude: &str, users: &Vec<User>) -> (r: Result<
    Option<(u64, User)>,
    Error,
>)
    ensures
        match r {
            Ok(opt) => {
                &&& parsed_f64(latitude@) is Some
                &&& parsed_f64(longitude@) is Some
                &&& (opt is None <==> users@.len() == 0)
                &&& (opt matches Some(du) ==> ({
                    let ds = dists_of(parsed_target(latitude@, longitude@), users@);
                    let i = best_of(ds);
                    &&& 0 <= i < users@.len()
                    &&& du.1 == users@[i]
                    &&& du.0 == ds[i]
                    &&& forall|j: int| 0 <= j < users@.len() ==> !f64_lt(ds[j], du.0)
                }))
            },
            Err(e) => {
                &&& parsed_f64(latitude@) is None || parsed_f64(longitude@) is None
                &&& e is Deserialization
                &&& if parsed_f64(latitude@) is None {
                    "latitude is an invalid number: "@.is_prefix_of(error_message(e))
                } else {
                    "longitude is an invalid number: "@.is_prefix_of(error_message(e))
                }
            },
        },
{
    let target = match parse_target(latitude, longitude) {
        Ok(g) => g,
        Err(e) => {
            return Err(e);
        },
    };
    Ok(closest_user(target, users))
}

/// The display text for an empty directory.
pub fn render_not_found() -> (r: String)
    ensures
        r@ == "No dispenser was found!"@,
{
    String::from_str("No dispenser was found!")
}

/// The display text for a resolved match, exactly in the documented shape:
/// the caller's original input strings, the matched entry's name, the
/// distance's display form (supplied by the caller as text), and the
/// matched entry's address fields.
pub fn render_found(
    latitude: &str,
    longitude: &str,
    distance_text: &str,
    dispenser: &User,
) -> (r: String)
    ensures
        r@ == "The closest dispenser to you ("@ + latitude@ + ", "@ + longitude@ + ") is\n"@
            + dispenser.name@ + " ("@ + distance_text@ + ")\n\t"@ + dispenser.address.street@
            + " "@ + dispenser.address.suite@ + "\n\t"@ + dispenser.address.city@ + " "@
            + dispenser.address.zipcode@,
{
    let mut r = String::from_str("The closest dispenser to you (");
    r.append(latitude);
    r.append(", ");
    r.append(longitude);
    r.append(") is\n");
    r.append(dispenser.name.as_str());
    r.append(" (");
    r.append(distance_text);
    r.append(")\n\t");
    r.append(dispenser.address.street.as_str());
    r.append(" ");
    r.append(dispenser.address.suite.as_str());
    r.append("\n\t");
    r.append(dispenser.address.city.as_str());
    r.append(" ");
    r.append(dispenser.address.zipcode.as_str());
    r
}

} // verus!
