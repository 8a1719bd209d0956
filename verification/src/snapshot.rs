//! Read-only state queries: a full snapshot and single-record lookups.
//! None of them changes anything.

use vstd::prelude::*;

use crate::marketplace::{copy_ids, NftMarketplace};
use crate::types::{
    ActorId, CollectionInfo, CollectionRecord, Config, State, TypeCollectionInfo,
};

verus! {

/// A copy of a vector of copyable pairs.
fn copy_pairs<A: Copy, B: Copy>(v: &Vec<(A, B)>) -> (r: Vec<(A, B)>)
    ensures
        r@ == v@,
{
    let n = v.len();
    let mut r: Vec<(A, B)> = Vec::new();
    let mut i: usize = 0;
    while i < n
        invariant
            n == v@.len(),
            i <= n,
            r@ == v@.take(i as int),
        decreases n - i,
    {
        r.push(v[i]);
        proof {
            assert(v@.take(i + 1) =~= v@.take(i as int).push(v@[i as int]));
        }
        i = i + 1;
    }
    proof {
        assert(v@.take(n as int) =~= v@);
    }
    r
}

/// A copy of the deployed-collection records.
fn clone_record_pairs(v: &Vec<(ActorId, CollectionRecord)>) -> (r: Vec<(ActorId, CollectionRecord)>)
    ensures
        r@ == v@,
{
    let n = v.len();
    let mut r: Vec<(ActorId, CollectionRecord)> = Vec::new();
    let mut i: usize = 0;
    while i < n
        invariant
            n == v@.len(),
            i <= n,
            r@ == v@.take(i as int),
        decreases n - i,
    {
        let pair = &v[i];
        r.push((pair.0, pair.1.clone()));
        proof {
            assert(v@.take(i + 1) =~= v@.take(i as int).push(v@[i as int]));
        }
        i = i + 1;
    }
    proof {
        assert(v@.take(n as int) =~= v@);
    }
    r
}

/// A copy of the template registry's entries.
fn clone_template_pairs(v: &Vec<(String, TypeCollectionInfo)>) -> (r: Vec<
    (String, TypeCollectionInfo),
>)
    ensures
        r@ == v@,
{
    let n = v.len();
    let mut r: Vec<(String, TypeCollectionInfo)> = Vec::new();
    let mut i: usize = 0;
    while i < n
        invariant
            n == v@.len(),
            i <= n,
            r@ == v@.take(i as int),
        decreases n - i,
    {
        let pair = &v[i];
        r.push((pair.0.clone(), pair.1.clone()));
        proof {
            assert(v@.take(i + 1) =~= v@.take(i as int).push(v@[i as int]));
        }
        i = i + 1;
    }
    proof {
        assert(v@.take(n as int) =~= v@);
    }
    r
}

impl NftMarketplace {
    /// The admin list, as a copy.
    pub fn admins(&self) -> (r: Vec<ActorId>)
        ensures
            r@ == self.admins@,
    {
        copy_ids(&self.admins)
    }

    /// The current configuration.
    pub fn config(&self) -> (r: Config)
        ensures
            r == self.config,
    {
        self.config
    }

    /// The template registered under `name`, if any.
    pub fn get_collection_info(&self, name: &String) -> (r: Option<&TypeCollectionInfo>)
        requires
            self.wf(),
        ensures
            match r {
                Some(info) => self.type_collections@.contains_key(name@) && *info
                    == self.type_collections@[name@],
                None => !self.type_collections@.contains_key(name@),
            },
    {
        self.type_collections.get(name)
    }

    /// Who owns the deployed collection, which template it came from, and
    /// that template's metadata link.  Answers only for collections whose
    /// template is still registered.
    pub fn collection_info(&self, collection: ActorId) -> (r: Option<CollectionInfo>)
        requires
            self.wf(),
        ensures
            match r {
                Some(info) => ({
                    let record = self.collection_to_owner@[collection];
                    &&& self.collection_to_owner@.contains_key(collection)
                    &&& self.type_collections@.contains_key(record.name@)
                    &&& info.owner == record.owner
                    &&& info.name@ == record.name@
                    &&& info.meta_link == self.type_collections@[record.name@].meta_link
                }),
                None => !self.collection_to_owner@.contains_key(collection)
                    || !self.type_collections@.contains_key(
                    self.collection_to_owner@[collection].name@,
                ),
            },
    {
        let record = match self.collection_to_owner.get(&collection) {
            Some(record) => record,
            None => {
                return None;
            },
        };
        let template = match self.type_collections.get(&record.name) {
            Some(template) => template,
            None => {
                return None;
            },
        };
        Some(
            CollectionInfo {
                owner: record.owner,
                name: record.name.clone(),
                meta_link: template.meta_link.clone(),
            },
        )
    }

    /// A full snapshot: every record set as a vector holding each binding
    /// exactly once, beside the admin list and the configuration.
    pub fn state(&self) -> (r: State)
        requires
            self.wf(),
        ensures
            r.admins@ == self.admins@,
            r.config == self.config,
            r.collection_to_owner@.len() == self.collection_to_owner@.dom().len(),
            forall|i: int|
                0 <= i < r.collection_to_owner@.len() ==> self.collection_to_owner@.contains_key(
                    (#[trigger] r.collection_to_owner@[i]).0,
                ) && self.collection_to_owner@[r.collection_to_owner@[i].0]
                    == r.collection_to_owner@[i].1,
            r.time_creation@.len() == self.time_creation@.dom().len(),
            forall|i: int|
                0 <= i < r.time_creation@.len() ==> self.time_creation@.contains_key(
                    (#[trigger] r.time_creation@[i]).0,
                ) && self.time_creation@[r.time_creation@[i].0] == r.time_creation@[i].1,
            r.type_collections@.len() == self.type_collections@.dom().len(),
            forall|i: int|
                0 <= i < r.type_collections@.len() ==> self.type_collections@.contains_key(
                    (#[trigger] r.type_collections@[i]).0@,
                ) && self.type_collections@[r.type_collections@[i].0@] == r.type_collections@[i].1,
            r.sales@.len() == self.sales@.dom().len(),
            forall|i: int|
                0 <= i < r.sales@.len() ==> self.sales@.contains_key(
                    (#[trigger] r.sales@[i]).0,
                ) && self.sales@[r.sales@[i].0] == r.sales@[i].1,
            r.auctions@.len() == self.auctions@.dom().len(),
            forall|i: int|
                0 <= i < r.auctions@.len() ==> self.auctions@.contains_key(
                    (#[trigger] r.auctions@[i]).0,
                ) && self.auctions@[r.auctions@[i].0] == r.auctions@[i].1,
            r.offers@.len() == self.offers@.dom().len(),
            forall|i: int|
                0 <= i < r.offers@.len() ==> self.offers@.contains_key(
                    (#[trigger] r.offers@[i]).0,
                ) && self.offers@[r.offers@[i].0] == r.offers@[i].1,
    {
        State {
            admins: copy_ids(&self.admins),
            collection_to_owner: clone_record_pairs(self.collection_to_owner.entries()),
            time_creation: copy_pairs(self.time_creation.entries()),
            type_collections: clone_template_pairs(self.type_collections.entries()),
            sales: copy_pairs(self.sales.entries()),
            auctions: copy_pairs(self.auctions.entries()),
            offers: copy_pairs(self.offers.entries()),
            config: self.config,
        }
    }
}

} // verus!
