//! The item model of the backing store, reduced to what the key-value
//! contract reads and writes: string attributes, numeric expiry attributes,
//! and a marker for every other attribute type the store may hold.

use vstd::prelude::*;
use vstd::string::StringExecFns;

verus! {

/// One attribute value as the backing store types it. The key-value contract
/// stores UTF-8 strings, writes whole epoch seconds into the expiry
/// attribute, and supports no other store-side type.
#[derive(Debug)]
pub enum AttrVal {
    /// A string attribute.
    Text(String),
    /// A numeric attribute, holding whole seconds since the Unix epoch.
    Num(i64),
    /// Any attribute type the contract does not support.
    Other,
}

/// The mathematical shape of an attribute value.
pub enum AttrValModel {
    Text(Seq<char>),
    Num(int),
    Other,
}

impl View for AttrVal {
    type V = AttrValModel;

    open spec fn view(&self) -> AttrValModel {
        match self {
            AttrVal::Text(s) => AttrValModel::Text(s@),
            AttrVal::Num(n) => AttrValModel::Num(*n as int),
            AttrVal::Other => AttrValModel::Other,
        }
    }
}

/// One named attribute of a stored item.
#[derive(Debug)]
pub struct Attr {
    pub name: String,
    pub value: AttrVal,
}

/// The mathematical shape of a named attribute.
pub struct AttrModel {
    pub name: Seq<char>,
    pub value: AttrValModel,
}

impl View for Attr {
    type V = AttrModel;

    open spec fn view(&self) -> AttrModel {
        AttrModel { name: self.name@, value: self.value@ }
    }
}

/// The mathematical shape of a whole item: its attributes in order.
pub open spec fn attrs_model(item: Seq<Attr>) -> Seq<AttrModel> {
    item.map_values(|a: Attr| a@)
}

/// The value of the first attribute named `name`, if any. A stored item
/// carries each attribute name at most once, so "first" is also "only"
/// for items that came from the store.
pub open spec fn lookup(attrs: Seq<AttrModel>, name: Seq<char>) -> Option<AttrValModel>
    decreases attrs.len(),
{
    if attrs.len() == 0 {
        None
    } else if attrs[0].name == name {
        Some(attrs[0].value)
    } else {
        lookup(attrs.skip(1), name)
    }
}

/// The concatenation of four string parts, for composing error messages.
pub(crate) fn join_parts(a: &str, b: &str, c: &str, d: &str) -> (r: String)
    ensures
        r@ == a@ + b@ + c@ + d@,
{
    let mut r = a.to_owned();
    r.append(b);
    r.append(c);
    r.append(d);
    r
}

/// Finds the attribute named `name` in `item`.
pub fn find_attr<'a>(item: &'a Vec<Attr>, name: &String) -> (r: Option<&'a AttrVal>)
    ensures
        match r {
            Some(v) => lookup(attrs_model(item@), name@) == Some(v@),
            None => lookup(attrs_model(item@), name@) is None,
        },
{
    let mut i: usize = 0;
    proof {
        assert(attrs_model(item@).skip(0) =~= attrs_model(item@));
    }
    while i < item.len()
        invariant
            0 <= i <= item.len(),
            lookup(attrs_model(item@), name@) == lookup(
                attrs_model(item@).skip(i as int),
                name@,
            ),
        decreases item.len() - i,
    {
        proof {
            assert(attrs_model(item@).skip(i as int)[0] == item@[i as int]@);
        }
        if item[i].name == *name {
            return Some(&item[i].value);
        }
        proof {
            assert(attrs_model(item@).skip(i as int).skip(1) =~= attrs_model(item@).skip(
                i as int + 1,
            ));
        }
        i = i + 1;
    }
    proof {
        assert(attrs_model(item@).skip(i as int) =~= Seq::<AttrModel>::empty());
    }
    None
}

} // verus!
