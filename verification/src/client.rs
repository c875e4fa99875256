//! The paths of the daemon's resource routes.

use vstd::prelude::*;
use vstd::string::*;

verus! {

/// The path of the resources: `/<version>/resources`.
pub open spec fn resources(version: Seq<char>) -> Seq<char> {
    "/"@ + version + "/resources"@
}

/// The path of one resource: `/<version>/resources/<key>`.
pub open spec fn resource(version: Seq<char>, key: Seq<char>) -> Seq<char> {
    resources(version) + "/"@ + key
}

/// The path of the history of one resource: `/<version>/resources/<key>/histories`.
pub open spec fn histories(version: Seq<char>, key: Seq<char>) -> Seq<char> {
    resource(version, key) + "/histories"@
}

/// The path that resets the resource `name` to its version `key`:
/// `/<version>/resources/<name>/histories/<key>/reset`.
pub open spec fn reset(version: Seq<char>, name: Seq<char>, key: Seq<char>) -> Seq<char> {
    histories(version, name) + "/"@ + key + "/reset"@
}

/// The path to list resources and to create one.
pub fn resources_path(version: &str) -> (path: String)
    ensures
        path@ == resources(version@),
{
    let mut path = String::from_str("/");
    path.append(version);
    path.append("/resources");
    path
}

/// The path to inspect, patch or delete the resource `key`.
pub fn resource_path(version: &str, key: &str) -> (path: String)
    ensures
        path@ == resource(version@, key@),
{
    let mut path = resources_path(version);
    path.append("/");
    path.append(key);
    path
}

/// The path to list the history of the resource `key`.
pub fn resource_histories_path(version: &str, key: &str) -> (path: String)
    ensures
        path@ == histories(version@, key@),
{
    let mut path = resource_path(version, key);
    path.append("/histories");
    path
}

/// The path to reset the resource `name` to its version `key`.
pub fn resource_reset_path(version: &str, name: &str, key: &str) -> (path: String)
    ensures
        path@ == reset(version@, name@, key@),
{
    let mut path = resource_histories_path(version, name);
    path.append("/");
    path.append(key);
    path.append("/reset");
    path
}

} // verus!
