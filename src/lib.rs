//! Types that make a caller say, in code, that they are sure.
//!
//! A function whose work is dangerous can return an [`AreYouSure`] instead of
//! doing the work. The caller then answers the question: `yes_i_am_sure`
//! yields the value, running a deferred computation at that moment, and
//! `no_i_am_not_sure` drops the wrapper without running anything.
//!
//! The wrapper is taken by value in both answers, so it is answered at most once.
//! A deferred computation is an `FnOnce`: the wrapper owns it alone and can run
//! it at most once.
use vstd::prelude::*;

pub mod sure;

pub use sure::AreYouSure;
