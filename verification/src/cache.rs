//! Data-cache maintenance. The boot loader runs with the data cache disabled,
//! so there is nothing to write back: every operation leaves memory as it is.
use vstd::prelude::*;

verus! {

/// Write back the data-cache lines that hold `_area`; a no-op with the cache off.
pub fn clean_d_cache<T>(_area: &T) {
}

/// Write back the data-cache lines that hold the slice `_area`; a no-op with the cache off.
pub fn clean_d_cache_slice<T>(_area: &[T]) {
}

/// Write back and invalidate the whole data cache; a no-op with the cache off.
pub fn _clean_flush_d_cache() {
}

} // verus!
