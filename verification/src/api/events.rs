//! Event logs: what clients report, and what an organization's members
//! may read back.

use vstd::prelude::*;
use crate::db::models::Event;
use crate::models::organization::clone_opt;
use crate::text::owned;

verus! {

/// An event a client reports. `atype` is the JSON `type`.
pub struct EventCollectItem {
    pub atype: i32,
    pub cipher_id: Option<String>,
    pub date: Option<String>,
}

/// An event as the API shows it. `atype` is the JSON `type`.
pub struct EventResponse {
    pub atype: i32,
    pub user_id: Option<String>,
    pub organization_id: Option<String>,
    pub cipher_id: Option<String>,
    pub collection_id: Option<String>,
    pub group_id: Option<String>,
    pub acting_user_id: Option<String>,
    pub date: String,
    pub device_type: Option<i32>,
    pub ip_address: Option<String>,
    pub object: String,
}

/// The event row a reported event becomes: by and about the reporting
/// user, dated as reported or else `now`.
pub fn event_from_report(uuid: String, user_uuid: &str, item: &EventCollectItem, now: &String) -> (r:
    Event)
    ensures
        r.uuid == uuid,
        r.event_type == item.atype,
        r.user_uuid matches Some(u) && u@ == user_uuid@,
        r.act_user_uuid matches Some(u) && u@ == user_uuid@,
        r.cipher_uuid == item.cipher_id,
        r.org_uuid is None && r.collection_uuid is None && r.group_uuid is None,
        r.member_uuid is None && r.device_type is None && r.ip_address is None,
        r.event_date == match item.date {
            Some(d) => d,
            None => *now,
        },
{
    Event {
        uuid,
        event_type: item.atype,
        user_uuid: Some(owned(user_uuid)),
        org_uuid: None,
        cipher_uuid: clone_opt(&item.cipher_id),
        collection_uuid: None,
        group_uuid: None,
        member_uuid: None,
        act_user_uuid: Some(owned(user_uuid)),
        device_type: None,
        ip_address: None,
        event_date: match &item.date {
            Some(d) => d.clone(),
            None => now.clone(),
        },
    }
}

pub fn event_response(e: &Event) -> (r: EventResponse)
    ensures
        r.atype == e.event_type,
        r.user_id == e.user_uuid,
        r.organization_id == e.org_uuid,
        r.cipher_id == e.cipher_uuid,
        r.collection_id == e.collection_uuid,
        r.group_id == e.group_uuid,
        r.acting_user_id == e.act_user_uuid,
        r.date == e.event_date,
        r.device_type == e.device_type,
        r.ip_address == e.ip_address,
        r.object@ == "event"@,
{
    EventResponse {
        atype: e.event_type,
        user_id: clone_opt(&e.user_uuid),
        organization_id: clone_opt(&e.org_uuid),
        cipher_id: clone_opt(&e.cipher_uuid),
        collection_id: clone_opt(&e.collection_uuid),
        group_id: clone_opt(&e.group_uuid),
        acting_user_id: clone_opt(&e.act_user_uuid),
        date: e.event_date.clone(),
        device_type: e.device_type,
        ip_address: clone_opt(&e.ip_address),
        object: owned("event"),
    }
}

/// The first instant of the default event range.
pub const EVENTS_DEFAULT_START: &'static str = "2000-01-01T00:00:00.000Z";
/// The last instant of the default event range.
pub const EVENTS_DEFAULT_END: &'static str = "2099-12-31T23:59:59.999Z";

/// The date range of an event query: the `start` and `end` parameters,
/// each defaulting to the wide range above.
pub fn event_range(start: Option<String>, end: Option<String>) -> (r: (String, String))
    ensures
        match start {
            Some(s) => r.0 == s,
            None => r.0@ == EVENTS_DEFAULT_START@,
        },
        match end {
            Some(e) => r.1 == e,
            None => r.1@ == EVENTS_DEFAULT_END@,
        },
{
    let s = match start {
        Some(s) => s,
        None => owned(EVENTS_DEFAULT_START),
    };
    let e = match end {
        Some(e) => e,
        None => owned(EVENTS_DEFAULT_END),
    };
    (s, e)
}

} // verus!
