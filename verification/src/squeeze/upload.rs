//! The address under which an uploaded blob can be read.

use vstd::prelude::*;
use vstd::string::StringExecFns;
use crate::squeeze::constants::TEMP_EPOCHS;
use crate::text::ends_with_char;

verus! {

/// The address of a blob: the aggregator's URL, a slash unless the URL
/// ends in one, `v1/blobs/` and the blob's id.
pub open spec fn access_url(aggregator_url: Seq<char>, blob_id: Seq<char>) -> Seq<char> {
    if aggregator_url.len() > 0 && aggregator_url.last() == '/' {
        aggregator_url + "v1/blobs/"@ + blob_id
    } else {
        aggregator_url + "/v1/blobs/"@ + blob_id
    }
}

/// Builds the address of a blob from the aggregator's URL and the blob's id.
pub fn build_walrus_access_url(aggregator_url: &str, blob_id: &str) -> (url: String)
    ensures
        url@ == access_url(aggregator_url@, blob_id@),
{
    let mut url = aggregator_url.to_owned();
    if ends_with_char(aggregator_url, '/') {
        url.append("v1/blobs/");
    } else {
        url.append("/v1/blobs/");
    }
    url.append(blob_id);
    url
}

/// The number of epochs for an upload: one for a temporary file, else the
/// number that was asked for.
pub fn storage_epochs(epochs: Option<u64>, temp: bool) -> (r: Option<u64>)
    ensures
        r == (if temp {
            Some(TEMP_EPOCHS)
        } else {
            epochs
        }),
{
    if temp {
        Some(TEMP_EPOCHS)
    } else {
        epochs
    }
}

} // verus!
