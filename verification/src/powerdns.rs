//! The record-set planning rules of the DNS-record management client: zone
//! and record-set name validation, the classification of the DNS API's
//! response statuses, and how a fetched zone's record sets are edited when a
//! single address record is added or removed. The HTTP calls themselves live
//! outside the library and hand the fetched record sets in here.

use crate::strutil::str_eq;
use vstd::prelude::*;

verus! {

/// A DNS record-set type.
#[derive(PartialEq, Eq, Structural, Clone, Copy, Debug)]
#[allow(clippy::upper_case_acronyms)]
pub enum RRSetType {
    A,
    AAAA,
    PTR,
    MX,
}

/// What a record-set patch does.
#[derive(PartialEq, Eq, Structural, Clone, Copy, Debug)]
#[allow(clippy::upper_case_acronyms)]
pub enum RRSetChangeType {
    REPLACE,
    DELETE,
}

/// One address record of a record set.
#[derive(Debug)]
pub struct PowerDnsApiRecord {
    pub content: String,
    pub disabled: bool,
}

/// One comment of a record set.
#[derive(Debug)]
pub struct PowerDnsApiComment {
    pub content: String,
    pub account: String,
    pub modified_at: u64,
}

/// One record set of a zone.
#[derive(Debug)]
pub struct PowerDnsApiRRSet {
    pub name: String,
    pub record_type: RRSetType,
    pub ttl: Option<u32>,
    pub change_type: Option<RRSetChangeType>,
    pub records: Option<Vec<PowerDnsApiRecord>>,
    pub comments: Option<Vec<PowerDnsApiComment>>,
}

/// What can go wrong while planning a record edit.
#[derive(PartialEq, Eq, Structural, Clone, Copy, Debug)]
pub enum DnsError {
    ZoneIdNotDotTerminated,
    RRSetIdNotDotTerminated,
    ZoneNotFound,
    NoRRSets,
    RRSetNotFound,
    RecordNotFound,
}

/// Whether two records carry the same content and disabled flag.
pub open spec fn record_matches(a: PowerDnsApiRecord, b: PowerDnsApiRecord) -> bool {
    a.content@ == b.content@ && a.disabled == b.disabled
}

/// Whether a record set is the one a name and type pick out.
pub open spec fn rrset_matches(r: PowerDnsApiRRSet, id: Seq<char>, t: RRSetType) -> bool {
    r.name@ == id && r.record_type == t
}

/// The records of `s` that do not equal `rec`, in order.
pub open spec fn without_record(s: Seq<PowerDnsApiRecord>, rec: PowerDnsApiRecord) -> Seq<
    PowerDnsApiRecord,
>
    decreases s.len(),
{
    if s.len() == 0 {
        Seq::empty()
    } else if record_matches(s.last(), rec) {
        without_record(s.drop_last(), rec)
    } else {
        without_record(s.drop_last(), rec).push(s.last())
    }
}

/// Whether some record of `s` equals `rec`.
pub open spec fn has_record(s: Seq<PowerDnsApiRecord>, rec: PowerDnsApiRecord) -> bool {
    exists|k: int| 0 <= k < s.len() && record_matches(#[trigger] s[k], rec)
}

/// A zone or record-set name the DNS API accepts: absolute, so ending in a
/// dot.
pub open spec fn spec_dot_terminated(s: Seq<char>) -> bool {
    s.len() > 0 && s.last() == '.'
}

pub fn ends_with_dot(s: &str) -> (r: bool)
    ensures
        r == spec_dot_terminated(s@),
{
    let n = s.unicode_len();
    n > 0 && s.get_char(n - 1) == '.'
}

/// Rejects a zone id that is not dot-terminated.
pub fn validate_zone_id(zone_id: &str) -> (r: Result<(), DnsError>)
    ensures
        r is Ok <==> spec_dot_terminated(zone_id@),
        r is Err ==> r == Err::<(), DnsError>(DnsError::ZoneIdNotDotTerminated),
{
    if ends_with_dot(zone_id) {
        Ok(())
    } else {
        Err(DnsError::ZoneIdNotDotTerminated)
    }
}

/// Rejects a record-set id that is not dot-terminated.
pub fn validate_rrset_id(rrset_id: &str) -> (r: Result<(), DnsError>)
    ensures
        r is Ok <==> spec_dot_terminated(rrset_id@),
        r is Err ==> r == Err::<(), DnsError>(DnsError::RRSetIdNotDotTerminated),
{
    if ends_with_dot(rrset_id) {
        Ok(())
    } else {
        Err(DnsError::RRSetIdNotDotTerminated)
    }
}

/// How a zone-lookup response status is handled.
#[derive(PartialEq, Eq, Structural, Clone, Copy, Debug)]
pub enum ZoneStatusClass {
    Found,
    NotFound,
    Malformed,
    ServerError,
    Unexpected,
}

pub open spec fn spec_classify_zone_status(status: u16) -> ZoneStatusClass {
    if status == 200 {
        ZoneStatusClass::Found
    } else if status == 404 {
        ZoneStatusClass::NotFound
    } else if status == 400 || status == 422 {
        ZoneStatusClass::Malformed
    } else if status == 500 {
        ZoneStatusClass::ServerError
    } else {
        ZoneStatusClass::Unexpected
    }
}

/// Classifies the status of a zone lookup: 200 carries the zone, 404 means
/// no such zone, 400 and 422 are malformed requests, 500 is the server's
/// fault, anything else is unexpected.
pub fn classify_zone_status(status: u16) -> (r: ZoneStatusClass)
    ensures
        r == spec_classify_zone_status(status),
{
    if status == 200 {
        ZoneStatusClass::Found
    } else if status == 404 {
        ZoneStatusClass::NotFound
    } else if status == 400 || status == 422 {
        ZoneStatusClass::Malformed
    } else if status == 500 {
        ZoneStatusClass::ServerError
    } else {
        ZoneStatusClass::Unexpected
    }
}

/// How a record-set patch response status is handled.
#[derive(PartialEq, Eq, Structural, Clone, Copy, Debug)]
pub enum UpdateStatusClass {
    NoContent,
    Malformed,
    ServerError,
    Unexpected,
}

pub open spec fn spec_classify_update_status(status: u16) -> UpdateStatusClass {
    if status == 204 {
        UpdateStatusClass::NoContent
    } else if status == 400 || status == 422 {
        UpdateStatusClass::Malformed
    } else if status == 500 {
        UpdateStatusClass::ServerError
    } else {
        UpdateStatusClass::Unexpected
    }
}

/// Classifies the status of a record-set patch: only 204 is success.
pub fn classify_update_status(status: u16) -> (r: UpdateStatusClass)
    ensures
        r == spec_classify_update_status(status),
{
    if status == 204 {
        UpdateStatusClass::NoContent
    } else if status == 400 || status == 422 {
        UpdateStatusClass::Malformed
    } else if status == 500 {
        UpdateStatusClass::ServerError
    } else {
        UpdateStatusClass::Unexpected
    }
}

/// Whether two records are equal in content and disabled flag.
pub fn record_eq(a: &PowerDnsApiRecord, b: &PowerDnsApiRecord) -> (r: bool)
    ensures
        r == record_matches(*a, *b),
{
    str_eq(a.content.as_str(), b.content.as_str()) && a.disabled == b.disabled
}

/// Whether `i` picks the first record set in `v` that `rrset_id` and
/// `rrset_type` match.
pub open spec fn first_rrset_match(
    v: Seq<PowerDnsApiRRSet>,
    rrset_id: Seq<char>,
    rrset_type: RRSetType,
    i: int,
) -> bool {
    &&& 0 <= i < v.len()
    &&& rrset_matches(v[i], rrset_id, rrset_type)
    &&& forall|k: int| 0 <= k < i ==> !rrset_matches(#[trigger] v[k], rrset_id, rrset_type)
}

/// Whether `out` is `sel` with `record` appended to its records and the
/// change type set to replace.
pub open spec fn created_from(
    sel: PowerDnsApiRRSet,
    record: PowerDnsApiRecord,
    out: PowerDnsApiRRSet,
) -> bool {
    &&& out.name == sel.name
    &&& out.record_type == sel.record_type
    &&& out.ttl == sel.ttl
    &&& out.change_type == Some(RRSetChangeType::REPLACE)
    &&& out.comments == sel.comments
    &&& (sel.records matches Some(rs) ==> (out.records matches Some(nrs) && nrs@ == rs@.push(
        record,
    )))
    &&& (sel.records is None ==> (out.records matches Some(nrs) && nrs@ == seq![record]))
}

/// The patch that adds `record` to the record set `rrset_id`/`rrset_type` of
/// a fetched zone: the first matching record set, with the record appended
/// and the change type set to replace. Fails when the zone has no record
/// sets or none matches.
pub fn plan_create_record(
    zone_rrsets: Option<Vec<PowerDnsApiRRSet>>,
    rrset_id: &str,
    rrset_type: RRSetType,
    record: PowerDnsApiRecord,
) -> (r: Result<PowerDnsApiRRSet, DnsError>)
    ensures
        zone_rrsets is None ==> r == Err::<PowerDnsApiRRSet, DnsError>(DnsError::NoRRSets),
        zone_rrsets matches Some(v) ==> {
            &&& (forall|k: int|
                0 <= k < v@.len() ==> !rrset_matches(#[trigger] v@[k], rrset_id@, rrset_type)) ==> r
                == Err::<PowerDnsApiRRSet, DnsError>(DnsError::RRSetNotFound)
            &&& forall|i: int|
                first_rrset_match(v@, rrset_id@, rrset_type, i) ==> (r matches Ok(out)
                    && created_from(#[trigger] v@[i], record, out))
        },
{
    let mut v = match zone_rrsets {
        Some(v) => v,
        None => {
            return Err(DnsError::NoRRSets);
        },
    };
    let n = v.len();
    let mut i: usize = 0;
    while i < n
        invariant
            0 <= i <= n,
            n == v@.len(),
            zone_rrsets == Some(v),
            forall|k: int| 0 <= k < i ==> !rrset_matches(#[trigger] v@[k], rrset_id@, rrset_type),
        decreases n - i,
    {
        if str_eq(v[i].name.as_str(), rrset_id) && v[i].record_type == rrset_type {
            let ghost v0 = v@;
            let ghost sel = v@[i as int];
            proof {
                assert(first_rrset_match(v0, rrset_id@, rrset_type, i as int));
                assert forall|i2: int|
                    first_rrset_match(v0, rrset_id@, rrset_type, i2) implies i2 == i as int by {
                    if i2 > i as int {
                        assert(rrset_matches(v0[i as int], rrset_id@, rrset_type));
                    }
                }
            }
            let rrset = v.remove(i);
            let PowerDnsApiRRSet { name, record_type, ttl, change_type: _, records, comments } =
                rrset;
            let new_records = match records {
                Some(mut rs) => {
                    rs.push(record);
                    rs
                },
                None => {
                    let mut rs: Vec<PowerDnsApiRecord> = Vec::new();
                    rs.push(record);
                    proof {
                        assert(rs@ =~= seq![record]);
                    }
                    rs
                },
            };
            let out = PowerDnsApiRRSet {
                name,
                record_type,
                ttl,
                change_type: Some(RRSetChangeType::REPLACE),
                records: Some(new_records),
                comments,
            };
            proof {
                assert(created_from(sel, record, out));
                assert(zone_rrsets is Some);
                assert(zone_rrsets->0@ == v0);
                assert forall|i2: int|
                    first_rrset_match(zone_rrsets->0@, rrset_id@, rrset_type, i2) implies created_from(
                    zone_rrsets->0@[i2],
                    record,
                    out,
                ) by {
                    assert(first_rrset_match(v0, rrset_id@, rrset_type, i2));
                    assert(i2 == i as int);
                    assert(zone_rrsets->0@[i2] == sel);
                }
            }
            return Ok(out);
        }
        i = i + 1;
    }
    Err(DnsError::RRSetNotFound)
}

/// What removing `record` from the first matching record set `sel` yields:
/// an error when the record is not there, else `sel` with every copy of the
/// record dropped and the change type set to replace.
pub open spec fn deleted_outcome(
    sel: PowerDnsApiRRSet,
    record: PowerDnsApiRecord,
    r: Result<PowerDnsApiRRSet, DnsError>,
) -> bool {
    match sel.records {
        None => r == Err::<PowerDnsApiRRSet, DnsError>(DnsError::RecordNotFound),
        Some(rs) => {
            &&& !has_record(rs@, record) ==> r == Err::<PowerDnsApiRRSet, DnsError>(
                DnsError::RecordNotFound,
            )
            &&& has_record(rs@, record) ==> (r matches Ok(out) && {
                &&& out.name == sel.name
                &&& out.record_type == sel.record_type
                &&& out.ttl == sel.ttl
                &&& out.change_type == Some(RRSetChangeType::REPLACE)
                &&& out.comments == sel.comments
                &&& out.records matches Some(nrs) && nrs@ == without_record(rs@, record)
            })
        },
    }
}

/// The patch that removes `record` from the record set `rrset_id`/
/// `rrset_type` of a fetched zone: the first matching record set, with every
/// copy of the record dropped and the change type set to replace. Fails when
/// the zone has no record sets, none matches, or the record is not there.
pub fn plan_delete_record(
    zone_rrsets: Option<Vec<PowerDnsApiRRSet>>,
    rrset_id: &str,
    rrset_type: RRSetType,
    record: PowerDnsApiRecord,
) -> (r: Result<PowerDnsApiRRSet, DnsError>)
    ensures
        zone_rrsets is None ==> r == Err::<PowerDnsApiRRSet, DnsError>(DnsError::NoRRSets),
        zone_rrsets matches Some(v) ==> {
            &&& (forall|k: int|
                0 <= k < v@.len() ==> !rrset_matches(#[trigger] v@[k], rrset_id@, rrset_type)) ==> r
                == Err::<PowerDnsApiRRSet, DnsError>(DnsError::RRSetNotFound)
            &&& forall|i: int|
                first_rrset_match(v@, rrset_id@, rrset_type, i) ==> deleted_outcome(
                    #[trigger] v@[i],
                    record,
                    r,
                )
        },
{
    let mut v = match zone_rrsets {
        Some(v) => v,
        None => {
            return Err(DnsError::NoRRSets);
        },
    };
    let n = v.len();
    let mut i: usize = 0;
    while i < n
        invariant
            0 <= i <= n,
            n == v@.len(),
            zone_rrsets == Some(v),
            forall|k: int| 0 <= k < i ==> !rrset_matches(#[trigger] v@[k], rrset_id@, rrset_type),
        decreases n - i,
    {
        if str_eq(v[i].name.as_str(), rrset_id) && v[i].record_type == rrset_type {
            let ghost v0 = v@;
            let ghost sel = v@[i as int];
            proof {
                assert(first_rrset_match(v0, rrset_id@, rrset_type, i as int));
                assert forall|i2: int|
                    first_rrset_match(v0, rrset_id@, rrset_type, i2) implies i2 == i as int by {
                    if i2 > i as int {
                        assert(rrset_matches(v0[i as int], rrset_id@, rrset_type));
                    }
                }
            }
            let rrset = v.remove(i);
            let PowerDnsApiRRSet { name, record_type, ttl, change_type: _, records, comments } =
                rrset;
            let rs = match records {
                Some(rs) => rs,
                None => {
                    proof {
                        assert(zone_rrsets->0@ == v0);
                        assert(rrset_matches(zone_rrsets->0@[i as int], rrset_id@, rrset_type));
                        assert forall|i2: int|
                            first_rrset_match(
                                zone_rrsets->0@,
                                rrset_id@,
                                rrset_type,
                                i2,
                            ) implies deleted_outcome(
                            zone_rrsets->0@[i2],
                            record,
                            Err::<PowerDnsApiRRSet, DnsError>(DnsError::RecordNotFound),
                        ) by {
                            assert(first_rrset_match(v0, rrset_id@, rrset_type, i2));
                            assert(i2 == i as int);
                            assert(zone_rrsets->0@[i2] == sel);
                        }
                    }
                    return Err(DnsError::RecordNotFound);
                },
            };
            let m = rs.len();
            let mut any: bool = false;
            let mut kept: Vec<PowerDnsApiRecord> = Vec::new();
            let mut k: usize = 0;
            proof {
                assert(rs@.take(0) =~= Seq::<PowerDnsApiRecord>::empty());
            }
            while k < m
                invariant
                    0 <= k <= m,
                    m == rs@.len(),
                    kept@ == without_record(rs@.take(k as int), record),
                    any == has_record(rs@.take(k as int), record),
                decreases m - k,
            {
                proof {
                    assert(rs@.take(k + 1).drop_last() =~= rs@.take(k as int));
                    assert(rs@.take(k + 1).last() == rs@[k as int]);
                    assert forall|l: int|
                        0 <= l < k + 1 && record_matches(
                            #[trigger] rs@.take(k + 1)[l],
                            record,
                        ) implies rs@.take(k + 1)[l] == rs@[l] by {}
                }
                if record_eq(&rs[k], &record) {
                    any = true;
                    proof {
                        assert(record_matches(rs@.take(k + 1)[k as int], record));
                    }
                } else {
                    let c = PowerDnsApiRecord {
                        content: rs[k].content.clone(),
                        disabled: rs[k].disabled,
                    };
                    kept.push(c);
                    proof {
                        if has_record(rs@.take(k + 1), record) {
                            let l = choose|l: int|
                                0 <= l < rs@.take(k + 1).len() && record_matches(
                                    #[trigger] rs@.take(k + 1)[l],
                                    record,
                                );
                            assert(l < k ==> has_record(rs@.take(k as int), record));
                        }
                        if has_record(rs@.take(k as int), record) {
                            let l = choose|l: int|
                                0 <= l < rs@.take(k as int).len() && record_matches(
                                    #[trigger] rs@.take(k as int)[l],
                                    record,
                                );
                            assert(record_matches(rs@.take(k + 1)[l], record));
                        }
                    }
                }
                k = k + 1;
            }
            proof {
                assert(rs@.take(m as int) =~= rs@);
            }
            if !any {
                proof {
                    assert(zone_rrsets->0@ == v0);
                    assert(rrset_matches(zone_rrsets->0@[i as int], rrset_id@, rrset_type));
                    assert(sel.records == Some(rs));
                    assert(!has_record(rs@, record));
                    assert forall|i2: int|
                        first_rrset_match(
                            zone_rrsets->0@,
                            rrset_id@,
                            rrset_type,
                            i2,
                        ) implies deleted_outcome(
                        zone_rrsets->0@[i2],
                        record,
                        Err::<PowerDnsApiRRSet, DnsError>(DnsError::RecordNotFound),
                    ) by {
                        assert(first_rrset_match(v0, rrset_id@, rrset_type, i2));
                        assert(i2 == i as int);
                        assert(zone_rrsets->0@[i2] == sel);
                    }
                }
                return Err(DnsError::RecordNotFound);
            }
            let out = PowerDnsApiRRSet {
                name,
                record_type,
                ttl,
                change_type: Some(RRSetChangeType::REPLACE),
                records: Some(kept),
                comments,
            };
            proof {
                assert(deleted_outcome(sel, record, Ok(out)));
                assert(zone_rrsets->0@ == v0);
                assert(rrset_matches(zone_rrsets->0@[i as int], rrset_id@, rrset_type));
                assert forall|i2: int|
                    first_rrset_match(zone_rrsets->0@, rrset_id@, rrset_type, i2) implies deleted_outcome(
                    zone_rrsets->0@[i2],
                    record,
                    Ok::<PowerDnsApiRRSet, DnsError>(out),
                ) by {
                    assert(first_rrset_match(v0, rrset_id@, rrset_type, i2));
                    assert(i2 == i as int);
                    assert(zone_rrsets->0@[i2] == sel);
                }
            }
            return Ok(out);
        }
        i = i + 1;
    }
    Err(DnsError::RRSetNotFound)
}

fn rrset_name(host: &str, domain: &str) -> (r: String)
    ensures
        r@ == host@ + "."@ + domain@ + "."@,
{
    let mut s = host.to_owned();
    s.append(".");
    s.append(domain);
    s.append(".");
    s
}

impl RRSetType {
    /// The type's wire name.
    pub fn label(&self) -> (r: &'static str)
        ensures
            self is A ==> r@ == "A"@,
            self is AAAA ==> r@ == "AAAA"@,
            self is PTR ==> r@ == "PTR"@,
            self is MX ==> r@ == "MX"@,
    {
        match self {
            RRSetType::A => "A",
            RRSetType::AAAA => "AAAA",
            RRSetType::PTR => "PTR",
            RRSetType::MX => "MX",
        }
    }
}

impl PowerDnsApiRRSet {
    /// The replace patch that points `host.domain.` at one IPv4 address.
    pub fn new_ipv4(host: &str, domain: &str, ipv4addr: &str) -> (r: PowerDnsApiRRSet)
        ensures
            r.name@ == host@ + "."@ + domain@ + "."@,
            r.record_type == RRSetType::A,
            r.ttl == Some(300u32),
            r.change_type == Some(RRSetChangeType::REPLACE),
            r.records matches Some(rs) && rs@.len() == 1 && rs@[0].content@ == ipv4addr@
                && !rs@[0].disabled,
            r.comments is None,
    {
        let mut records: Vec<PowerDnsApiRecord> = Vec::new();
        records.push(PowerDnsApiRecord { content: ipv4addr.to_owned(), disabled: false });
        PowerDnsApiRRSet {
            name: rrset_name(host, domain),
            record_type: RRSetType::A,
            ttl: Some(300),
            change_type: Some(RRSetChangeType::REPLACE),
            records: Some(records),
            comments: None,
        }
    }

    /// The delete patch for the IPv4 record set of `host.domain.`.
    pub fn delete_ipv4(host: &str, domain: &str) -> (r: PowerDnsApiRRSet)
        ensures
            r.name@ == host@ + "."@ + domain@ + "."@,
            r.record_type == RRSetType::A,
            r.ttl == Some(300u32),
            r.change_type == Some(RRSetChangeType::DELETE),
            r.records is None,
            r.comments is None,
    {
        PowerDnsApiRRSet {
            name: rrset_name(host, domain),
            record_type: RRSetType::A,
            ttl: Some(300),
            change_type: Some(RRSetChangeType::DELETE),
            records: None,
            comments: None,
        }
    }

    /// The replace patch that points `host.domain.` at one IPv6 address.
    pub fn new_ipv6(host: &str, domain: &str, ipv6addr: &str) -> (r: PowerDnsApiRRSet)
        ensures
            r.name@ == host@ + "."@ + domain@ + "."@,
            r.record_type == RRSetType::AAAA,
            r.ttl == Some(300u32),
            r.change_type == Some(RRSetChangeType::REPLACE),
            r.records matches Some(rs) && rs@.len() == 1 && rs@[0].content@ == ipv6addr@
                && !rs@[0].disabled,
            r.comments is None,
    {
        let mut records: Vec<PowerDnsApiRecord> = Vec::new();
        records.push(PowerDnsApiRecord { content: ipv6addr.to_owned(), disabled: false });
        PowerDnsApiRRSet {
            name: rrset_name(host, domain),
            record_type: RRSetType::AAAA,
            ttl: Some(300),
            change_type: Some(RRSetChangeType::REPLACE),
            records: Some(records),
            comments: None,
        }
    }

    /// The delete patch for the IPv6 record set of `host.domain.`.
    pub fn delete_ipv6(host: &str, domain: &str) -> (r: PowerDnsApiRRSet)
        ensures
            r.name@ == host@ + "."@ + domain@ + "."@,
            r.record_type == RRSetType::AAAA,
            r.ttl == Some(300u32),
            r.change_type == Some(RRSetChangeType::DELETE),
            r.records is None,
            r.comments is None,
    {
        PowerDnsApiRRSet {
            name: rrset_name(host, domain),
            record_type: RRSetType::AAAA,
            ttl: Some(300),
            change_type: Some(RRSetChangeType::DELETE),
            records: None,
            comments: None,
        }
    }
}

} // verus!
