use vstd::prelude::*;
use crate::metrics::Metrics;

verus! {

/// The periodic human-readable report over the metrics.
#[derive(Debug)]
pub struct Dashboard {
    pub metrics: Metrics,
}

impl Dashboard {
    pub fn new(metrics: Metrics) -> (r: Dashboard)
        ensures
            r.metrics == metrics,
    {
        Dashboard { metrics }
    }
}

} // verus!
