//! The root resource of a CouchDB server, with its versions as semantic
//! versions.

use vstd::prelude::*;
use crate::dbtype::fields::{required, FieldError, Sealed};
use crate::dbtype::server_uuid::ServerUuid;
use crate::revision::uuid_parse_value;

verus! {

/// Whether `semver::Version::parse` accepts the string.
pub uninterp spec fn semver_accepts(s: Seq<char>) -> bool;

/// Whether `semver::Version::parse` accepts the string as a semantic version;
/// the contract names the crate's decision and says nothing more of it.
#[verifier::external_body]
fn semver_parses(s: &str) -> (r: bool)
    ensures
        r == semver_accepts(s@),
{
    semver::Version::parse(s).is_ok()
}

/// Reads the semantic version that a JSON string holds, keeping its text.
pub fn parse_version(s: &str) -> (r: Result<String, FieldError>)
    ensures
        r is Ok <==> semver_accepts(s@),
        r matches Ok(x) ==> x@ == s@,
        r is Err ==> r == Err::<String, FieldError>(FieldError::InvalidValue("Bad semantic version")),
{
    if semver_parses(s) {
        Ok(s.to_string())
    } else {
        Err(FieldError::InvalidValue("Bad semantic version"))
    }
}

/// CouchDB server vendor information.
#[derive(Debug, PartialEq)]
pub struct Vendor {
    /// Name of the CouchDB server vendor.
    pub name: String,
    /// Version of the CouchDB server, a semantic version.
    pub version: String,
    _dummy: Sealed,
}

impl View for Vendor {
    type V = (String, String);

    /// The name and the version.
    closed spec fn view(&self) -> (String, String) {
        (self.name, self.version)
    }
}

impl Vendor {
    /// Assembles vendor information from the fields that its JSON object held;
    /// `name` and `version` are required, checked in that order.
    pub fn from_fields(name: Option<String>, version: Option<String>) -> (r: Result<
        Self,
        FieldError,
    >)
        ensures
            name is None ==> r == Err::<Self, FieldError>(FieldError::MissingField("name")),
            name is Some && version is None ==> r == Err::<Self, FieldError>(
                FieldError::MissingField("version"),
            ),
            name is Some && version is Some ==> (r matches Ok(x) && x@ == (name->0, version->0)),
    {
        let name = required(name, "name")?;
        let version = required(version, "version")?;
        Ok(Vendor { name, version, _dummy: Sealed })
    }
}

/// CouchDB server information.
#[derive(Debug, PartialEq)]
pub struct Root {
    /// Welcome message returned by the CouchDB server.
    pub couchdb: String,
    /// Universally unique identifier for the CouchDB server.
    pub uuid: ServerUuid,
    /// Vendor information for the CouchDB server.
    pub vendor: Vendor,
    /// Version of the CouchDB server.
    pub version: String,
    _dummy: Sealed,
}

impl View for Root {
    type V = (String, u128, Vendor, String);

    /// The welcome message, the UUID, the vendor and the version.
    closed spec fn view(&self) -> (String, u128, Vendor, String) {
        (self.couchdb, self.uuid@, self.vendor, self.version)
    }
}

impl Root {
    /// Assembles server information from the fields that its JSON object
    /// held; `couchdb`, `uuid`, `vendor` and `version` are required, checked in
    /// that order, and whichever is missing is reported as the missing field
    /// `rev`.
    pub fn from_fields(
        couchdb: Option<String>,
        uuid: Option<ServerUuid>,
        vendor: Option<Vendor>,
        version: Option<String>,
    ) -> (r: Result<Self, FieldError>)
        ensures
            couchdb is None ==> r == Err::<Self, FieldError>(FieldError::MissingField("rev")),
            couchdb is Some && uuid is None ==> r == Err::<Self, FieldError>(
                FieldError::MissingField("rev"),
            ),
            couchdb is Some && uuid is Some && vendor is None ==> r == Err::<Self, FieldError>(
                FieldError::MissingField("rev"),
            ),
            couchdb is Some && uuid is Some && vendor is Some && version is None ==> r == Err::<
                Self,
                FieldError,
            >(FieldError::MissingField("rev")),
            couchdb is Some && uuid is Some && vendor is Some && version is Some ==> (r matches Ok(
                x,
            ) && x@ == (couchdb->0, (uuid->0)@, vendor->0, version->0)),
    {
        let couchdb = required(couchdb, "rev")?;
        let uuid = required(uuid, "rev")?;
        let vendor = required(vendor, "rev")?;
        let version = required(version, "rev")?;
        Ok(Root { couchdb, uuid, vendor, version, _dummy: Sealed })
    }
}

/// Builder for server information, as tests need it.
#[derive(Debug)]
pub struct RootBuilder {
    target: Root,
}

impl View for RootBuilder {
    type V = (String, u128, Vendor, String);

    /// The server information under construction.
    closed spec fn view(&self) -> (String, u128, Vendor, String) {
        self.target@
    }
}

impl RootBuilder {
    /// Server information with the given welcome message, UUID, vendor name
    /// and version; the version is the vendor's version too. The UUID and the
    /// version must be valid.
    pub fn new(couchdb: &str, uuid: &str, vendor: &str, version: &str) -> (r: Self)
        requires
            uuid_parse_value(uuid@) is Some,
            semver_accepts(version@),
        ensures
            r@.0@ == couchdb@,
            r@.1 == uuid_parse_value(uuid@)->0,
            r@.2@.0@ == vendor@,
            r@.2@.1@ == version@,
            r@.3@ == version@,
    {
        let u = ServerUuid::parse(uuid).unwrap();
        let vendor_version = parse_version(version).unwrap();
        let root_version = parse_version(version).unwrap();
        RootBuilder {
            target: Root {
                couchdb: couchdb.to_string(),
                uuid: u,
                vendor: Vendor { name: vendor.to_string(), version: vendor_version, _dummy: Sealed },
                version: root_version,
                _dummy: Sealed,
            },
        }
    }

    /// As `new`, where the UUID and the version are valid; `None` where
    /// either is not.
    pub fn try_new(couchdb: &str, uuid: &str, vendor: &str, version: &str) -> (r: Option<Self>)
        ensures
            r is Some <==> (uuid_parse_value(uuid@) is Some && semver_accepts(version@)),
            r matches Some(b) ==> (b@.0@ == couchdb@ && b@.1 == uuid_parse_value(uuid@)->0
                && b@.2@.0@ == vendor@ && b@.2@.1@ == version@ && b@.3@ == version@),
    {
        let u = ServerUuid::parse(uuid);
        let v = parse_version(version);
        if u.is_ok() && v.is_ok() {
            Some(RootBuilder::new(couchdb, uuid, vendor, version))
        } else {
            None
        }
    }

    /// Returns the server information contained within the builder.
    pub fn unwrap(self) -> (r: Root)
        ensures
            r@ == self@,
    {
        self.target
    }
}

} // verus!
