//! The options of an upload to Walrus storage.

use vstd::prelude::*;
use crate::squeeze::constants::DEFAULT_EPOCHS;
use crate::squeeze::constants::DEFAULT_WALRUS_AGGREGATOR;
use crate::squeeze::constants::DEFAULT_WALRUS_PUBLISHER;

verus! {

/// Where to store a blob and for how long.
#[derive(Debug, Clone)]
pub struct WalrusOptions {
    /// The aggregator, from which blobs are read.
    pub aggregator_url: String,
    /// The publisher, to which blobs are sent.
    pub publisher_url: String,
    /// The number of epochs to keep the blob.
    pub epochs: Option<u64>,
}

impl Default for WalrusOptions {
    fn default() -> (options: Self)
        ensures
            options.aggregator_url@ == DEFAULT_WALRUS_AGGREGATOR@,
            options.publisher_url@ == DEFAULT_WALRUS_PUBLISHER@,
            options.epochs == Some(DEFAULT_EPOCHS),
    {
        WalrusOptions {
            aggregator_url: DEFAULT_WALRUS_AGGREGATOR.to_owned(),
            publisher_url: DEFAULT_WALRUS_PUBLISHER.to_owned(),
            epochs: Some(DEFAULT_EPOCHS),
        }
    }
}

impl WalrusOptions {
    /// Options with the default URL wherever none is given. The epochs are
    /// taken as they are.
    pub fn new(
        aggregator_url: Option<String>,
        publisher_url: Option<String>,
        epochs: Option<u64>,
    ) -> (options: Self)
        ensures
            options.aggregator_url@ == match aggregator_url {
                Some(url) => url@,
                None => DEFAULT_WALRUS_AGGREGATOR@,
            },
            options.publisher_url@ == match publisher_url {
                Some(url) => url@,
                None => DEFAULT_WALRUS_PUBLISHER@,
            },
            options.epochs == epochs,
    {
        let aggregator_url = match aggregator_url {
            Some(url) => url,
            None => DEFAULT_WALRUS_AGGREGATOR.to_owned(),
        };
        let publisher_url = match publisher_url {
            Some(url) => url,
            None => DEFAULT_WALRUS_PUBLISHER.to_owned(),
        };
        WalrusOptions { aggregator_url, publisher_url, epochs }
    }
}

} // verus!
