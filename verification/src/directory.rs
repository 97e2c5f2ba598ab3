//! The directory of known collections, and what an answer of the directory
//! service says about it.

use crate::error::FetchError;
use vstd::hash_set::StringHashSet;
use vstd::prelude::*;

verus! {

/// One collection in the directory service's answer.
pub struct DataEntry {
    /// The policy id of the collection.
    pub collection_id: String,
    /// What the collection is.
    pub description: String,
    /// The blockchain the collection lives on.
    pub blockchain: String,
    /// The network of that blockchain.
    pub network: String,
}

/// The body of a successful answer of the directory service.
pub struct CollectionsResponse {
    /// The kind of list that the answer holds.
    pub data_type: String,
    /// The collections.
    pub data: Vec<DataEntry>,
}

/// Whether an HTTP status code reports success: the codes 200 to 299.
pub open spec fn is_success_status(status: u16) -> bool {
    200 <= status < 300
}

/// The policy ids that `data` lists.
pub open spec fn listed_ids(data: Seq<DataEntry>) -> Set<Seq<char>> {
    Set::new(
        |id: Seq<char>|
            exists|i: int| 0 <= i < data.len() && (#[trigger] data[i]).collection_id@ == id,
    )
}

/// The policy ids known after an answer with status `status` whose body, if
/// it could be read, is `body`. An answer without success makes no policy
/// known, whatever its body. A successful answer whose body could not be read
/// leaves the question open: `None`.
pub open spec fn known_policy_ids(status: u16, body: Option<CollectionsResponse>) -> Option<
    Set<Seq<char>>,
> {
    if !is_success_status(status) {
        Some(Set::empty())
    } else {
        match body {
            Some(response) => Some(listed_ids(response.data@)),
            None => None,
        }
    }
}

/// Tells whether an HTTP status code reports success.
pub fn is_success(status: u16) -> (ok: bool)
    ensures
        ok == is_success_status(status),
{
    300 > status && status >= 200
}

/// Collects the known policy ids from an answer of the directory service.
/// Fails exactly when the answer reports success and its body could not be
/// read.
pub fn collections(status: u16, body: &Option<CollectionsResponse>) -> (res: Result<
    StringHashSet,
    FetchError,
>)
    ensures
        match res {
            Ok(ids) => known_policy_ids(status, *body) == Some(ids@),
            Err(e) => e == FetchError::MalformedDirectory && known_policy_ids(status, *body)
                is None,
        },
{
    let mut ids = StringHashSet::new();
    if !is_success(status) {
        return Ok(ids);
    }
    match body {
        None => Err(FetchError::MalformedDirectory),
        Some(response) => {
            let mut i: usize = 0;
            assert(listed_ids(response.data@.take(0)) =~= Set::<Seq<char>>::empty());
            while i < response.data.len()
                invariant
                    i <= response.data.len(),
                    ids@ == listed_ids(response.data@.take(i as int)),
                decreases response.data.len() - i,
            {
                let ghost before = response.data@.take(i as int);
                let ghost after = response.data@.take(i + 1);
                let id = response.data[i].collection_id.clone();
                assert(listed_ids(after) =~= listed_ids(before).insert(id@)) by {
                    assert(after[i as int].collection_id@ == id@);
                    assert forall|other: Seq<char>|
                        listed_ids(before).contains(other) implies listed_ids(after).contains(
                        other,
                    ) by {
                        let j = choose|j: int|
                            0 <= j < before.len() && (#[trigger] before[j]).collection_id@
                                == other;
                        assert(after[j].collection_id@ == other);
                    }
                    assert forall|other: Seq<char>|
                        listed_ids(after).contains(other) && other != id@ implies listed_ids(
                        before,
                    ).contains(other) by {
                        let j = choose|j: int|
                            0 <= j < after.len() && (#[trigger] after[j]).collection_id@ == other;
                        assert(before[j].collection_id@ == other);
                    }
                }
                ids.insert(id);
                i = i + 1;
            }
            assert(response.data@.take(i as int) =~= response.data@);
            Ok(ids)
        },
    }
}

} // verus!
