//! The tenant context: the immutable identity of the workload, resolved once
//! at startup and carried on every E3 call. When it cannot be resolved, the
//! crypto API facade refuses to serve.

use vstd::prelude::*;

verus! {

/// The `(team, app, cage)` identity tuple of the workload.
pub struct CageContext {
    pub team_uuid: String,
    pub app_uuid: String,
    pub cage_uuid: String,
    pub cage_name: String,
}

impl CageContext {
    pub fn new(team_uuid: String, app_uuid: String, cage_uuid: String, cage_name: String) -> (c:
        Self)
        ensures
            c.team_uuid@ == team_uuid@,
            c.app_uuid@ == app_uuid@,
            c.cage_uuid@ == cage_uuid@,
            c.cage_name@ == cage_name@,
    {
        CageContext { team_uuid, app_uuid, cage_uuid, cage_name }
    }

    pub fn team_uuid(&self) -> (r: String)
        ensures
            r@ == self.team_uuid@,
    {
        self.team_uuid.clone()
    }

    pub fn app_uuid(&self) -> (r: String)
        ensures
            r@ == self.app_uuid@,
    {
        self.app_uuid.clone()
    }

    pub fn cage_uuid(&self) -> (r: String)
        ensures
            r@ == self.cage_uuid@,
    {
        self.cage_uuid.clone()
    }

    pub fn cage_name(&self) -> (r: String)
        ensures
            r@ == self.cage_name@,
    {
        self.cage_name.clone()
    }
}

} // verus!
