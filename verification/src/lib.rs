//! Decoder for Mode S / ADS-B extended-squitter radio messages carried in the
//! text-oriented "raw" wire framing (`*<hex>;\n`), together with the plain data
//! model shared by the companion JSON message families.
//!
//! The decoding core is pure: every operation takes a byte buffer and returns
//! an owned record or a typed error, so each public function carries a
//! contract that pins its result down exactly.

use vstd::prelude::*;

pub mod acars;
pub mod adsb_decode;
pub mod adsb_fields;
pub mod adsb_raw;
pub mod crc;
pub mod hfdl;
pub mod imsl;
pub mod irdm;
pub mod frames;
pub mod gillham;
pub mod vdlm2;

verus! {

/// The `app` block shared by the message families: which program produced or
/// proxied a message, and under which versions.
#[derive(Debug, Clone, PartialEq, Eq, PartialOrd, Ord)]
pub struct AppDetails {
    pub name: String,
    pub ver: String,
    pub proxied: Option<bool>,
    pub proxied_by: Option<String>,
    pub acars_router_version: Option<String>,
    pub acars_router_uuid: Option<String>,
}

/// Relies on `uuid::Uuid::new_v4` and the hyphenated `Display` form of
/// `uuid::Uuid`: a fresh random identifier rendered as exactly 36
/// characters. The identifier is random, so nothing more is assumed of it.
#[verifier::external_body]
fn new_uuid_string() -> (r: String)
    ensures
        r@.len() == 36,
{
    uuid::Uuid::new_v4().to_string()
}

impl AppDetails {
    /// Creates a new proxy record: empty name and version, `proxied` set,
    /// the given proxy name and router version, and a fresh random router
    /// identifier.
    pub fn new(proxied_by: &str, acars_router_version: &str) -> (r: Self)
        ensures
            r.name@.len() == 0,
            r.ver@.len() == 0,
            r.proxied == Some(true),
            r.proxied_by matches Some(p) && p@ == proxied_by@,
            r.acars_router_version matches Some(m) && m@ == acars_router_version@,
            r.acars_router_uuid matches Some(u) && u@.len() == 36,
    {
        Self {
            name: String::new(),
            ver: String::new(),
            proxied: Some(true),
            proxied_by: Some(proxied_by.to_owned()),
            acars_router_version: Some(acars_router_version.to_owned()),
            acars_router_uuid: Some(new_uuid_string()),
        }
    }

    /// Updates an existing record with the given proxy details, setting
    /// `proxied` and keeping an already assigned router identifier.
    pub fn proxy(&mut self, proxied_by: &str, acars_router_version: &str)
        ensures
            final(self).name == old(self).name,
            final(self).ver == old(self).ver,
            final(self).proxied == Some(true),
            final(self).proxied_by matches Some(p) && p@ == proxied_by@,
            final(self).acars_router_version matches Some(m) && m@ == acars_router_version@,
            old(self).acars_router_uuid is Some ==> final(self).acars_router_uuid == old(
                self,
            ).acars_router_uuid,
            old(self).acars_router_uuid is None ==> (final(self).acars_router_uuid matches Some(u)
                && u@.len() == 36),
    {
        self.proxied = Some(true);
        self.proxied_by = Some(proxied_by.to_owned());
        self.acars_router_version = Some(acars_router_version.to_owned());
        if self.acars_router_uuid.is_none() {
            self.acars_router_uuid = Some(new_uuid_string());
        }
    }

    /// Removes every proxy detail from an existing record.
    pub fn remove_proxy(&mut self)
        ensures
            final(self).name == old(self).name,
            final(self).ver == old(self).ver,
            final(self).proxied is None,
            final(self).proxied_by is None,
            final(self).acars_router_version is None,
            final(self).acars_router_uuid is None,
    {
        self.proxied = None;
        self.proxied_by = None;
        self.acars_router_version = None;
        self.acars_router_uuid = None;
    }
}

} // verus!
