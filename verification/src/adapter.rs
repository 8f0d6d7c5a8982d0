//! The store adapter: per-tenant configuration plus the verified halves of
//! each key-value operation. Every operation is one network round trip that
//! the embedding runtime performs; this module builds the request before the
//! trip and decodes the store's answer after it, and both halves are proved
//! against the spec-level outcome functions below.

use vstd::prelude::*;

use crate::model::{attrs_model, find_attr, join_parts, lookup, Attr, AttrModel, AttrVal, AttrValModel};

verus! {

/// Immutable per-tenant configuration: the backing table and how the three
/// relevant attributes of its items are named. `ttl_attribute` is present
/// iff expiry is configured for this tenant; `endpoint` overrides the
/// store's endpoint for local or test backends.
#[derive(Debug)]
pub struct StoreAdapterConfig {
    pub table_name: String,
    pub key_attribute: String,
    pub value_attribute: String,
    pub ttl_attribute: Option<String>,
    pub endpoint: Option<String>,
}

impl StoreAdapterConfig {
    /// A sane configuration names the key, value and expiry attributes
    /// distinctly, so that one item can carry all of them at once.
    pub open spec fn wf(&self) -> bool {
        &&& self.key_attribute@ != self.value_attribute@
        &&& match self.ttl_attribute {
            Some(t) => t@ != self.key_attribute@ && t@ != self.value_attribute@,
            None => true,
        }
    }
}

impl Clone for StoreAdapterConfig {
    fn clone(&self) -> (c: Self)
        ensures
            c == self,
    {
        StoreAdapterConfig {
            table_name: self.table_name.clone(),
            key_attribute: self.key_attribute.clone(),
            value_attribute: self.value_attribute.clone(),
            ttl_attribute: match &self.ttl_attribute {
                Some(t) => Some(t.clone()),
                None => None,
            },
            endpoint: match &self.endpoint {
                Some(e) => Some(e.clone()),
                None => None,
            },
        }
    }
}

/// One tenant's bridge from the generic key-value contract to the backing
/// store. The live store session that executes the calls built here is held
/// by the embedding runtime; the adapter itself is pure configuration and is
/// safe to share across concurrent operations.
#[derive(Debug)]
pub struct StoreAdapter {
    pub config: StoreAdapterConfig,
}

/// The answer to a lookup: the stored value, or emptiness made explicit.
#[derive(Debug)]
pub struct GetResponse {
    pub value: String,
    pub exists: bool,
}

/// A write request: store `value` under `key`, expiring `expires` seconds
/// from now, where zero means "never expire".
#[derive(Debug)]
pub struct SetRequest {
    pub key: String,
    pub value: String,
    pub expires: u32,
}

/// A key-listing request: resume after `cursor` if given, return at most
/// `limit` keys if given (the store's own page bound applies regardless).
#[derive(Debug)]
pub struct KeysRequest {
    pub cursor: Option<String>,
    pub limit: Option<u32>,
}

/// One page of keys, plus a continuation cursor that is present iff the
/// store reported that more keys remain. The cursor is opaque: its only
/// valid use is to be passed back unmodified in the next request.
#[derive(Debug)]
pub struct KeysResponse {
    pub keys: Vec<String>,
    pub cursor: Option<String>,
}

/// Every operation fails with one of these, never with a store-specific
/// error type. Each variant carries a human-readable message naming the
/// offending tenant, key or attribute.
#[derive(Debug)]
pub enum StoreError {
    /// No adapter is attached for the requested tenant.
    UnknownTenant(String),
    /// A fetched item is missing a configured attribute or types it wrongly.
    SchemaMismatch(String),
    /// Expiry was requested by a tenant with no expiry attribute configured.
    UnsupportedOperation(String),
    /// The backing store could not be reached; the message wraps the
    /// transport error. Raised only by the runtime that performs the round
    /// trip, never by the verified halves.
    StoreUnavailable(String),
}

impl StoreError {
    /// The message carried by the error.
    pub open spec fn message_model(&self) -> Seq<char> {
        match self {
            StoreError::UnknownTenant(m) => m@,
            StoreError::SchemaMismatch(m) => m@,
            StoreError::UnsupportedOperation(m) => m@,
            StoreError::StoreUnavailable(m) => m@,
        }
    }

    /// The human-readable message carried by the error.
    pub fn message(&self) -> (m: &String)
        ensures
            m@ == self.message_model(),
    {
        match self {
            StoreError::UnknownTenant(m) => m,
            StoreError::SchemaMismatch(m) => m,
            StoreError::UnsupportedOperation(m) => m,
            StoreError::StoreUnavailable(m) => m,
        }
    }
}

/// One read round trip: fetch the item whose key attribute equals `key`.
#[derive(Debug)]
pub struct GetItemCall {
    pub table_name: String,
    pub key_attribute: String,
    pub key: String,
}

/// One write round trip: store `item` whole, replacing any item that shares
/// its key attribute.
#[derive(Debug)]
pub struct PutItemCall {
    pub table_name: String,
    pub item: Vec<Attr>,
}

/// One write round trip: remove the item whose key attribute equals `key`,
/// whether or not it exists.
#[derive(Debug)]
pub struct DeleteItemCall {
    pub table_name: String,
    pub key_attribute: String,
    pub key: String,
}

/// One read round trip: scan the table projected to the key attribute,
/// resuming after `start_key` if given, with the store's page bound
/// tightened to `limit` if given.
#[derive(Debug)]
pub struct ScanCall {
    pub table_name: String,
    pub key_attribute: String,
    pub start_key: Option<Vec<Attr>>,
    pub limit: Option<u32>,
}

/// What a lookup decodes to, as a function of the fetched item alone.
pub enum GetOutcome {
    /// No item: the key was never written, or was deleted or expired.
    Missing,
    /// The item holds this string under the value attribute.
    Found(Seq<char>),
    /// The item misses the value attribute or types it wrongly.
    Mismatch,
}

/// The fetched item, reduced to its mathematical shape.
pub open spec fn fetched_model(f: Option<Vec<Attr>>) -> Option<Seq<AttrModel>> {
    match f {
        None => None,
        Some(item) => Some(attrs_model(item@)),
    }
}

/// How a fetched item decodes, given the configured value attribute.
pub open spec fn get_outcome(value_attr: Seq<char>, fetched: Option<Seq<AttrModel>>) -> GetOutcome {
    match fetched {
        None => GetOutcome::Missing,
        Some(attrs) => match lookup(attrs, value_attr) {
            Some(AttrValModel::Text(s)) => GetOutcome::Found(s),
            Some(_) => GetOutcome::Mismatch,
            None => GetOutcome::Mismatch,
        },
    }
}

/// What a write builds, as a function of configuration, request and clock.
pub enum PutOutcome {
    /// The exact item to store.
    Stored(Seq<AttrModel>),
    /// Expiry was requested but no expiry attribute is configured.
    TtlUnsupported,
}

/// The absolute expiry instant: `now + expires` in epoch seconds, held at
/// the largest representable instant if that sum leaves the type.
pub open spec fn expiry_of(now: i64, expires: u32) -> int {
    if now + expires <= i64::MAX {
        now + expires
    } else {
        i64::MAX as int
    }
}

/// The item a write stores. With no expiry requested the item holds exactly
/// the key and value attributes, clearing any prior expiry by full
/// replacement; with expiry requested it additionally holds the expiry
/// attribute, or the write is refused when none is configured.
pub open spec fn put_outcome(
    cfg: StoreAdapterConfig,
    key: Seq<char>,
    value: Seq<char>,
    expires: u32,
    now: i64,
) -> PutOutcome {
    let base = seq![
        AttrModel { name: cfg.key_attribute@, value: AttrValModel::Text(key) },
        AttrModel { name: cfg.value_attribute@, value: AttrValModel::Text(value) },
    ];
    if expires == 0 {
        PutOutcome::Stored(base)
    } else {
        match cfg.ttl_attribute {
            None => PutOutcome::TtlUnsupported,
            Some(ttl) => PutOutcome::Stored(
                base.push(
                    AttrModel { name: ttl@, value: AttrValModel::Num(expiry_of(now, expires)) },
                ),
            ),
        }
    }
}

/// The full contract of a write builder's result at clock reading `now`.
pub open spec fn put_post(
    cfg: StoreAdapterConfig,
    key: Seq<char>,
    value: Seq<char>,
    expires: u32,
    now: i64,
    r: Result<PutItemCall, StoreError>,
) -> bool {
    match put_outcome(cfg, key, value, expires, now) {
        PutOutcome::Stored(attrs) => r matches Ok(c) && c.table_name@ == cfg.table_name@
            && attrs_model(c.item@) == attrs,
        PutOutcome::TtlUnsupported => r matches Err(e) && e is UnsupportedOperation
            && e.message_model() == "set of key "@ + key
                + " requests expiry but no expiry attribute is configured"@,
    }
}

/// What the continuation cursor decodes to from the store's "last evaluated
/// key", as a function of that key alone.
pub enum CursorOutcome {
    /// No more keys remain; the page is the last one.
    Absent,
    /// More keys remain; resume after this one.
    Next(Seq<char>),
    /// The continuation key types the key attribute wrongly.
    Mismatch,
}

/// How the store's continuation key decodes, given the configured key
/// attribute.
pub open spec fn cursor_outcome(key_attr: Seq<char>, last: Option<Vec<Attr>>) -> CursorOutcome {
    match last {
        None => CursorOutcome::Absent,
        Some(item) => match lookup(attrs_model(item@), key_attr) {
            None => CursorOutcome::Absent,
            Some(AttrValModel::Text(s)) => CursorOutcome::Next(s),
            Some(_) => CursorOutcome::Mismatch,
        },
    }
}

/// The scanned items, reduced to a sequence; the store reports "no items"
/// either as an absent list or as an empty one.
pub open spec fn scan_items_seq(items: Option<Vec<Vec<Attr>>>) -> Seq<Vec<Attr>> {
    match items {
        None => Seq::empty(),
        Some(v) => v@,
    }
}

/// Every scanned item carries the key attribute as a string.
pub open spec fn scan_keys_ok(items: Seq<Vec<Attr>>, key_attr: Seq<char>) -> bool {
    forall|i: int|
        0 <= i < items.len() ==> (#[trigger] lookup(attrs_model(items[i]@), key_attr)) matches Some(
            AttrValModel::Text(_),
        )
}

/// The key carried by the `i`th scanned item.
pub open spec fn scan_key_at(items: Seq<Vec<Attr>>, key_attr: Seq<char>, i: int) -> Seq<char> {
    match lookup(attrs_model(items[i]@), key_attr) {
        Some(AttrValModel::Text(s)) => s,
        _ => Seq::empty(),
    }
}

/// The page decode stops at item `i`: every earlier item carries the key
/// attribute as a string, item `i` does not, and `e` carries the message
/// that failure owes.
pub open spec fn scan_fails_at(
    items: Seq<Vec<Attr>>,
    key_attr: Seq<char>,
    i: int,
    e: StoreError,
) -> bool {
    &&& 0 <= i < items.len()
    &&& (forall|j: int|
        0 <= j < i ==> (#[trigger] lookup(attrs_model(items[j]@), key_attr)) matches Some(
            AttrValModel::Text(_),
        ))
    &&& (match lookup(attrs_model(items[i]@), key_attr) {
        None => e.message_model() == "record has no key attribute "@ + key_attr,
        Some(v) => !(v is Text) && e.message_model() == "record key attribute "@ + key_attr
            + " is not a string"@,
    })
}

/// Relies on std's `SystemTime`: the clock's distance from the Unix epoch
/// in whole seconds, and whether the reading lies at or after the epoch.
/// Neither `now` nor `duration_since` panics — a pre-epoch reading comes
/// back through the error branch, whose duration is handed on unchanged.
/// Nothing is promised of the reading.
#[verifier::external_body]
fn clock_from_epoch() -> (r: (u64, bool)) {
    match std::time::SystemTime::now().duration_since(std::time::UNIX_EPOCH) {
        Ok(d) => (d.as_secs(), true),
        Err(e) => (e.duration().as_secs(), false),
    }
}

/// The current time as whole seconds since the Unix epoch, negative before
/// it, held at the type's bounds when the clock lies outside them. No
/// promise holds of the value; every caller is verified for every reading.
fn now_unix_seconds() -> i64 {
    let (secs, at_or_after) = clock_from_epoch();
    if at_or_after {
        if secs <= i64::MAX as u64 {
            secs as i64
        } else {
            i64::MAX
        }
    } else {
        if secs <= i64::MAX as u64 {
            -(secs as i64)
        } else {
            i64::MIN
        }
    }
}

impl StoreAdapter {
    /// Builds the adapter for one tenant from its configuration.
    pub fn new(config: StoreAdapterConfig) -> (a: StoreAdapter)
        ensures
            a.config == config,
    {
        StoreAdapter { config }
    }

    /// The read round trip that a lookup of `key` issues.
    pub fn get_call(&self, key: &String) -> (c: GetItemCall)
        ensures
            c.table_name@ == self.config.table_name@,
            c.key_attribute@ == self.config.key_attribute@,
            c.key@ == key@,
    {
        GetItemCall {
            table_name: self.config.table_name.clone(),
            key_attribute: self.config.key_attribute.clone(),
            key: key.clone(),
        }
    }

    /// Decodes what the store fetched for `key`. An absent item is the
    /// normal "never written" answer, not an error; an item that misses the
    /// configured value attribute, or types it as anything but a string, is
    /// a schema mismatch.
    pub fn decode_get(&self, fetched: Option<Vec<Attr>>, key: &String) -> (r: Result<
        GetResponse,
        StoreError,
    >)
        ensures
            match get_outcome(self.config.value_attribute@, fetched_model(fetched)) {
                GetOutcome::Missing => r matches Ok(g) && g.exists == false && g.value@
                    == Seq::<char>::empty(),
                GetOutcome::Found(s) => r matches Ok(g) && g.exists == true && g.value@ == s,
                GetOutcome::Mismatch => r matches Err(e) && e is SchemaMismatch,
            },
            (fetched matches Some(item) && lookup(attrs_model(item@), self.config.value_attribute@)
                is None) ==> (r matches Err(e) && e.message_model() == "record for key "@ + key@
                + " has no value attribute "@ + self.config.value_attribute@),
            (fetched matches Some(item) && (lookup(
                attrs_model(item@),
                self.config.value_attribute@,
            ) matches Some(v) && !(v is Text))) ==> (r matches Err(e) && e.message_model()
                == "record for key "@ + key@ + " has a non-string value attribute "@
                + self.config.value_attribute@),
    {
        match fetched {
            None => Ok(GetResponse { value: String::new(), exists: false }),
            Some(item) => match find_attr(&item, &self.config.value_attribute) {
                Some(AttrVal::Text(v)) => Ok(GetResponse { value: v.clone(), exists: true }),
                Some(_) => Err(
                    StoreError::SchemaMismatch(
                        join_parts(
                            "record for key ",
                            key.as_str(),
                            " has a non-string value attribute ",
                            self.config.value_attribute.as_str(),
                        ),
                    ),
                ),
                None => Err(
                    StoreError::SchemaMismatch(
                        join_parts(
                            "record for key ",
                            key.as_str(),
                            " has no value attribute ",
                            self.config.value_attribute.as_str(),
                        ),
                    ),
                ),
            },
        }
    }

    /// The write round trip that a set issues, at clock reading `now`.
    /// Refuses the request, before any trip, when it asks for expiry and no
    /// expiry attribute is configured.
    pub fn put_call_at(&self, req: &SetRequest, now: i64) -> (r: Result<PutItemCall, StoreError>)
        ensures
            put_post(self.config, req.key@, req.value@, req.expires, now, r),
    {
        let mut item: Vec<Attr> = Vec::new();
        item.push(Attr { name: self.config.key_attribute.clone(), value: AttrVal::Text(req.key.clone()) });
        item.push(
            Attr { name: self.config.value_attribute.clone(), value: AttrVal::Text(req.value.clone()) },
        );
        if req.expires == 0 {
            proof {
                assert(attrs_model(item@) =~= put_outcome(
                    self.config,
                    req.key@,
                    req.value@,
                    req.expires,
                    now,
                )->Stored_0);
            }
            Ok(PutItemCall { table_name: self.config.table_name.clone(), item })
        } else {
            match &self.config.ttl_attribute {
                None => {
                    let msg = join_parts(
                        "set of key ",
                        req.key.as_str(),
                        " requests expiry but no expiry attribute is configured",
                        "",
                    );
                    proof {
                        reveal_strlit("");
                        assert(msg@ =~= "set of key "@ + req.key@
                            + " requests expiry but no expiry attribute is configured"@);
                    }
                    Err(StoreError::UnsupportedOperation(msg))
                },
                Some(ttl) => {
                    let delta: i64 = req.expires as i64;
                    let expiry: i64 = if now <= i64::MAX - delta {
                        now + delta
                    } else {
                        i64::MAX
                    };
                    item.push(Attr { name: ttl.clone(), value: AttrVal::Num(expiry) });
                    proof {
                        assert(attrs_model(item@) =~= put_outcome(
                            self.config,
                            req.key@,
                            req.value@,
                            req.expires,
                            now,
                        )->Stored_0);
                    }
                    Ok(PutItemCall { table_name: self.config.table_name.clone(), item })
                },
            }
        }
    }

    /// The write round trip that a set issues, reading the clock itself.
    /// The clock reading is not promised anything, so the contract holds
    /// for some reading; the refusal of an unsupported expiry request does
    /// not depend on the clock and is stated outright.
    pub fn put_call(&self, req: &SetRequest) -> (r: Result<PutItemCall, StoreError>)
        ensures
            exists|now: i64| put_post(self.config, req.key@, req.value@, req.expires, now, r),
            (req.expires > 0 && self.config.ttl_attribute is None) <==> (r matches Err(e)
                && e is UnsupportedOperation),
    {
        let now = now_unix_seconds();
        let r = self.put_call_at(req, now);
        proof {
            assert(exists|n: i64|
                put_post(self.config, req.key@, req.value@, req.expires, n, r)) by {
                assert(put_post(self.config, req.key@, req.value@, req.expires, now, r));
            }
        }
        r
    }

    /// The write round trip that a delete of `key` issues.
    pub fn delete_call(&self, key: &String) -> (c: DeleteItemCall)
        ensures
            c.table_name@ == self.config.table_name@,
            c.key_attribute@ == self.config.key_attribute@,
            c.key@ == key@,
    {
        DeleteItemCall {
            table_name: self.config.table_name.clone(),
            key_attribute: self.config.key_attribute.clone(),
            key: key.clone(),
        }
    }

    /// What a delete reports once the round trip came back: `true`, whether
    /// or not the key existed. The store's delete is idempotent and does not
    /// report prior existence without an extra read, which the operation
    /// deliberately does not perform.
    pub fn decode_delete(&self) -> (r: bool)
        ensures
            r == true,
    {
        true
    }

    /// The read round trip that a key listing issues.
    pub fn scan_call(&self, req: &KeysRequest) -> (c: ScanCall)
        ensures
            c.table_name@ == self.config.table_name@,
            c.key_attribute@ == self.config.key_attribute@,
            match req.cursor {
                None => c.start_key is None,
                Some(cur) => c.start_key matches Some(item) && attrs_model(item@) =~= seq![
                    (AttrModel {
                        name: self.config.key_attribute@,
                        value: AttrValModel::Text(cur@),
                    }),
                ],
            },
            c.limit == req.limit,
    {
        let start_key: Option<Vec<Attr>> = match &req.cursor {
            None => None,
            Some(cur) => {
                let mut item: Vec<Attr> = Vec::new();
                item.push(
                    Attr { name: self.config.key_attribute.clone(), value: AttrVal::Text(cur.clone()) },
                );
                Some(item)
            },
        };
        ScanCall {
            table_name: self.config.table_name.clone(),
            key_attribute: self.config.key_attribute.clone(),
            start_key,
            limit: req.limit,
        }
    }

    /// Decodes one scanned page: the key carried by each item, in the
    /// store's order, plus the continuation cursor. Any item that misses
    /// the configured key attribute, or types it as anything but a string,
    /// aborts the whole page as a schema mismatch — no partial page is
    /// returned; so does a continuation key typed wrongly.
    pub fn decode_scan(&self, items: Option<Vec<Vec<Attr>>>, last_key: Option<Vec<Attr>>) -> (r:
        Result<KeysResponse, StoreError>)
        ensures
            ({
                let iseq = scan_items_seq(items);
                let ka = self.config.key_attribute@;
                &&& !scan_keys_ok(iseq, ka) ==> (r matches Err(e) && e is SchemaMismatch
                && (exists|i: int| scan_fails_at(iseq, ka, i, e)))
                &&& (scan_keys_ok(iseq, ka) && cursor_outcome(ka, last_key) is Mismatch) ==> (
                r matches Err(e) && e is SchemaMismatch && e.message_model()
                    == "continuation key attribute "@ + ka + " is not a string"@)
                &&& (scan_keys_ok(iseq, ka) && !(cursor_outcome(ka, last_key) is Mismatch)) ==> (
                r matches Ok(resp) && resp.keys@.len() == iseq.len() && (forall|i: int|
                    0 <= i < iseq.len() ==> resp.keys@[i]@ == scan_key_at(iseq, ka, i)) && (
                match cursor_outcome(ka, last_key) {
                    CursorOutcome::Absent => resp.cursor is None,
                    CursorOutcome::Next(s) => resp.cursor matches Some(c) && c@ == s,
                    CursorOutcome::Mismatch => false,
                }))
            }),
    {
        let mut keys: Vec<String> = Vec::new();
        match items {
            None => {},
            Some(list) => {
                let mut i: usize = 0;
                while i < list.len()
                    invariant
                        0 <= i <= list.len(),
                        keys@.len() == i,
                        scan_items_seq(items) == list@,
                        forall|j: int|
                            0 <= j < i ==> (#[trigger] lookup(
                                attrs_model(list@[j]@),
                                self.config.key_attribute@,
                            )) matches Some(AttrValModel::Text(_)),
                        forall|j: int|
                            0 <= j < i ==> keys@[j]@ == scan_key_at(
                                list@,
                                self.config.key_attribute@,
                                j,
                            ),
                    decreases list.len() - i,
                {
                    match find_attr(&list[i], &self.config.key_attribute) {
                        Some(AttrVal::Text(s)) => {
                            keys.push(s.clone());
                        },
                        Some(_) => {
                            let e = StoreError::SchemaMismatch(
                                join_parts(
                                    "record key attribute ",
                                    self.config.key_attribute.as_str(),
                                    " is not a string",
                                    "",
                                ),
                            );
                            proof {
                                reveal_strlit("");
                                assert(!((#[trigger] lookup(
                                    attrs_model(list@[i as int]@),
                                    self.config.key_attribute@,
                                )) matches Some(AttrValModel::Text(_))));
                                assert(!scan_keys_ok(list@, self.config.key_attribute@));
                                assert(scan_items_seq(items) == list@);
                                assert(e.message_model() =~= "record key attribute "@
                                    + self.config.key_attribute@ + " is not a string"@);
                                assert(scan_fails_at(
                                    list@,
                                    self.config.key_attribute@,
                                    i as int,
                                    e,
                                ));
                            }
                            return Err(e);
                        },
                        None => {
                            let e = StoreError::SchemaMismatch(
                                join_parts(
                                    "record has no key attribute ",
                                    self.config.key_attribute.as_str(),
                                    "",
                                    "",
                                ),
                            );
                            proof {
                                reveal_strlit("");
                                assert(!((#[trigger] lookup(
                                    attrs_model(list@[i as int]@),
                                    self.config.key_attribute@,
                                )) matches Some(AttrValModel::Text(_))));
                                assert(!scan_keys_ok(list@, self.config.key_attribute@));
                                assert(scan_items_seq(items) == list@);
                                assert(e.message_model() =~= "record has no key attribute "@
                                    + self.config.key_attribute@);
                                assert(scan_fails_at(
                                    list@,
                                    self.config.key_attribute@,
                                    i as int,
                                    e,
                                ));
                            }
                            return Err(e);
                        },
                    }
                    i = i + 1;
                }
            },
        }
        let cursor: Option<String> = match &last_key {
            None => None,
            Some(item) => match find_attr(item, &self.config.key_attribute) {
                None => None,
                Some(AttrVal::Text(s)) => Some(s.clone()),
                Some(_) => {
                    let e = StoreError::SchemaMismatch(
                        join_parts(
                            "continuation key attribute ",
                            self.config.key_attribute.as_str(),
                            " is not a string",
                            "",
                        ),
                    );
                    proof {
                        reveal_strlit("");
                        assert(e.message_model() =~= "continuation key attribute "@
                            + self.config.key_attribute@ + " is not a string"@);
                    }
                    return Err(e);
                },
            },
        };
        Ok(KeysResponse { keys, cursor })
    }
}

} // verus!
