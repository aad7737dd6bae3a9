//! A policy decision engine that gatekeeps resource operations —
//! filesystem reads and writes, outbound network requests, process
//! execution — requested by an untrusted agent, against an
//! operator-authored policy.  It answers one question per request:
//! is this operation allowed, and why or why not.  It never performs
//! the operation itself.
//!
//! Decisions are pure functions of the immutable policy and the
//! request.  Paths are canonicalized lexically before matching; deny
//! patterns override allow lists; absence from an allow list means
//! denial.  Two facades — an embeddable engine and a service adapter
//! — share the same decision core and provably agree.

use vstd::prelude::*;

pub mod canon;
pub mod engine;
pub mod pattern;
pub mod policy;
pub mod service;
pub mod validator;

verus! {

/// A path string is absolute when it begins with a slash.
pub open spec fn is_abs(s: Seq<char>) -> bool {
    s.len() > 0 && s[0] == '/'
}

} // verus!
