//! One page of the asset listing.

use crate::api::pagination::Links;
use crate::model::{Asset, AssetClass};
use vstd::prelude::*;

verus! {

/// The payload.
pub struct GetAssetsResponse {
    pub data: Vec<Data>,
    pub links: Links,
}

/// One asset record.
pub struct Data {
    pub id: String,
    pub attributes: Attributes,
}

/// The fields of an asset record.
pub struct Attributes {
    pub symbol: String,
    pub name: String,
    pub pid: String,
}

impl Data {
    /// The record as an asset of the given class.
    pub open spec fn asset(self, class: AssetClass) -> Asset {
        Asset {
            id: self.id,
            name: self.attributes.name,
            pid: self.attributes.pid,
            symbol: self.attributes.symbol,
            type_: class,
        }
    }
}

impl GetAssetsResponse {
    /// The number of the page that follows, if the page names one.
    pub fn next_page(&self) -> (r: Option<usize>)
        ensures
            r == self.links.page(),
    {
        self.links.next_page()
    }

    /// The assets of the page, one for one and in order, each of the given
    /// class.
    pub open spec fn assets(self, class: AssetClass) -> Seq<Asset> {
        Seq::new(self.data@.len(), |i: int| self.data@[i].asset(class))
    }

    /// Turns the page into assets of the class that was asked for; the
    /// payload itself names no class.
    pub fn into_assets(self, class: AssetClass) -> (r: Vec<Asset>)
        ensures
            r@ == self.assets(class),
    {
        let ghost all = self.data@;
        let mut assets = Vec::with_capacity(self.data.len());
        for data in it: self.data.into_iter()
            invariant
                it.seq() == all,
                assets@.len() == it.index(),
                forall|i: int| 0 <= i < assets@.len() ==> assets@[i] == all[i].asset(class),
        {
            assets.push(
                Asset {
                    id: data.id,
                    name: data.attributes.name,
                    pid: data.attributes.pid,
                    symbol: data.attributes.symbol,
                    type_: class,
                },
            );
        }
        assert(assets@ =~= self.assets(class));
        assets
    }
}

} // verus!
