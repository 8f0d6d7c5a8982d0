//! Laws of the adapter and the registry, proved against a model of the
//! backing table: a map from the key attribute's value to the stored item.
//! The model states exactly what the store promises of the item-level
//! operations the adapter issues — a put replaces the item whole, a delete
//! removes it whether or not it exists, a fetch returns the item under the
//! key or nothing — and the laws compose those promises with the verified
//! builders and decoders.

use vstd::prelude::*;

use crate::adapter::{
    get_outcome, put_outcome, GetOutcome, PutOutcome, StoreAdapter, StoreAdapterConfig,
};
use crate::model::{lookup, AttrModel, AttrValModel};

verus! {

/// The backing table, keyed by the value of the key attribute.
pub type TableModel = Map<Seq<char>, Seq<AttrModel>>;

/// What a fetch of `key` hands the decoder: the stored item, or nothing.
pub open spec fn fetched_from(t: TableModel, key: Seq<char>) -> Option<Seq<AttrModel>> {
    if t.contains_key(key) {
        Some(t[key])
    } else {
        None
    }
}

/// A put replaces whatever item was stored under `key`, whole.
pub open spec fn table_after_put(t: TableModel, key: Seq<char>, item: Seq<AttrModel>) -> TableModel {
    t.insert(key, item)
}

/// A delete removes the item under `key`, whether or not one exists.
pub open spec fn table_after_delete(t: TableModel, key: Seq<char>) -> TableModel {
    t.remove(key)
}

/// The table after a set request: changed only if the write was built; a
/// refused request issues no round trip at all.
pub open spec fn table_after_set(
    cfg: StoreAdapterConfig,
    t: TableModel,
    key: Seq<char>,
    value: Seq<char>,
    expires: u32,
    now: i64,
) -> TableModel {
    match put_outcome(cfg, key, value, expires, now) {
        PutOutcome::Stored(item) => table_after_put(t, key, item),
        PutOutcome::TtlUnsupported => t,
    }
}

/// A key never written decodes as absent: the fetch yields no item, so the
/// decoder answers `exists == false` with an empty value.
pub proof fn lemma_get_never_written(value_attr: Seq<char>, t: TableModel, key: Seq<char>)
    requires
        !t.contains_key(key),
    ensures
        get_outcome(value_attr, fetched_from(t, key)) is Missing,
{
}

/// Round trip: any set that the adapter accepts, with or without expiry,
/// stores an item that a following get of the same key decodes back to
/// exactly the written value, with `exists == true`.
pub proof fn lemma_set_then_get(
    cfg: StoreAdapterConfig,
    t: TableModel,
    key: Seq<char>,
    value: Seq<char>,
    expires: u32,
    now: i64,
)
    requires
        cfg.wf(),
        put_outcome(cfg, key, value, expires, now) is Stored,
    ensures
        get_outcome(
            cfg.value_attribute@,
            fetched_from(table_after_set(cfg, t, key, value, expires, now), key),
        ) == GetOutcome::Found(value),
{
    let item = put_outcome(cfg, key, value, expires, now)->Stored_0;
    assert(item[0].name == cfg.key_attribute@);
    assert(item[1].name == cfg.value_attribute@);
    assert(item[1].value == AttrValModel::Text(value));
    assert(lookup(item, cfg.value_attribute@) == lookup(item.skip(1), cfg.value_attribute@));
    assert(item.skip(1)[0] == item[1]);
    assert(lookup(item.skip(1), cfg.value_attribute@) == Some(item[1].value));
    assert(fetched_from(table_after_set(cfg, t, key, value, expires, now), key) == Some(item));
}

/// Deleting twice is the same as deleting once, and a fetch after either
/// finds nothing. That each delete reports `true` is the decoder's own
/// contract: the answer never depends on prior existence.
pub proof fn lemma_delete_idempotent(t: TableModel, key: Seq<char>)
    ensures
        table_after_delete(table_after_delete(t, key), key) =~= table_after_delete(t, key),
        fetched_from(table_after_delete(t, key), key) is None,
{
}

/// A set with expiry writes the absolute instant `now + expires` into the
/// configured expiry attribute; enforcing that instant is the store's own
/// asynchronous, best-effort sweep.
pub proof fn lemma_set_expiry_attribute(
    cfg: StoreAdapterConfig,
    key: Seq<char>,
    value: Seq<char>,
    expires: u32,
    now: i64,
)
    requires
        cfg.wf(),
        cfg.ttl_attribute is Some,
        expires > 0,
        now + expires <= i64::MAX,
    ensures
        ({
            let item = put_outcome(cfg, key, value, expires, now)->Stored_0;
            lookup(item, cfg.ttl_attribute->Some_0@) == Some(
                AttrValModel::Num(now + expires as int),
            )
        }),
{
    let ttl = cfg.ttl_attribute->Some_0@;
    let item = put_outcome(cfg, key, value, expires, now)->Stored_0;
    assert(item[0].name == cfg.key_attribute@);
    assert(item[1].name == cfg.value_attribute@);
    assert(item[2].name == ttl);
    assert(item[2].value == AttrValModel::Num(now + expires as int));
    assert(lookup(item, ttl) == lookup(item.skip(1), ttl));
    assert(item.skip(1)[0] == item[1]);
    assert(item.skip(1).skip(1) =~= item.skip(2));
    assert(lookup(item.skip(1), ttl) == lookup(item.skip(2), ttl));
    assert(item.skip(2)[0] == item[2]);
    assert(lookup(item.skip(2), ttl) == Some(item[2].value));
}

/// Tenant isolation: after attaching two tenants to configurations with
/// distinct tables, each resolves to its own adapter, and every call either
/// adapter builds names its own table — so writes through one are never
/// visible through the other.
pub proof fn lemma_tenant_isolation(
    m: Map<Seq<char>, StoreAdapter>,
    a: Seq<char>,
    b: Seq<char>,
    cfg_a: StoreAdapterConfig,
    cfg_b: StoreAdapterConfig,
)
    requires
        a != b,
        cfg_a.table_name@ != cfg_b.table_name@,
    ensures
        ({
            let m2 = m.insert(a, (StoreAdapter { config: cfg_a })).insert(
                b,
                (StoreAdapter { config: cfg_b }),
            );
            &&& m2[a].config == cfg_a
            &&& m2[b].config == cfg_b
            &&& m2[a].config.table_name@ != m2[b].config.table_name@
        }),
{
}

/// A tenant resolves iff it is attached: attaching makes the identity
/// present, a following detach makes it absent again, and an identity
/// never attached is absent from the start. `resolve` turns presence into
/// the adapter and absence into `UnknownTenant`.
pub proof fn lemma_attach_resolve_detach(
    m: Map<Seq<char>, StoreAdapter>,
    id: Seq<char>,
    ad: StoreAdapter,
)
    ensures
        m.insert(id, ad).contains_key(id),
        m.insert(id, ad)[id] == ad,
        !m.insert(id, ad).remove(id).contains_key(id),
        !m.remove(id).contains_key(id),
{
}

/// A set that requests expiry while no expiry attribute is configured is
/// refused and changes nothing: no write is built, no round trip is
/// issued, and the prior value of every key is untouched.
pub proof fn lemma_set_unsupported_unchanged(
    cfg: StoreAdapterConfig,
    t: TableModel,
    key: Seq<char>,
    value: Seq<char>,
    expires: u32,
    now: i64,
)
    requires
        expires > 0,
        cfg.ttl_attribute is None,
    ensures
        put_outcome(cfg, key, value, expires, now) is TtlUnsupported,
        table_after_set(cfg, t, key, value, expires, now) == t,
{
}

} // verus!
