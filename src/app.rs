//! The state the presentation layer renders: one row per endpoint.

use vstd::prelude::*;
use crate::config::{method_text, Api, ApisConfig};
use crate::health::HealthStatus;

verus! {

/// The rendered outcome of one endpoint's latest verification.
#[derive(Clone, Debug)]
pub struct ApiInformation {
    pub name: String,
    pub url: String,
    pub method: String,
    pub status: HealthStatus,
}

/// One row of the result table: an endpoint's position in the
/// configuration, its latest outcome and the seconds until its next poll.
#[derive(Clone, Debug)]
pub struct ListRequests {
    pub id: usize,
    pub data: ApiInformation,
    pub interval: u64,
}

/// The dashboard state: the configuration and the rows last read from
/// the result table.
pub struct App {
    pub configs: ApisConfig,
    pub apis_infos: Vec<ListRequests>,
}

/// `info` describes `api` with the given status.
pub open spec fn describes(info: ApiInformation, api: Api, status: HealthStatus) -> bool {
    &&& info.name@ == api.name@
    &&& info.url@ == api.request.url@
    &&& info.method@ == method_text(api.request.method)
    &&& info.status == status
}

/// `row` is the not-yet-verified row for `api` at position `id`.
pub open spec fn pending_row(row: ListRequests, id: int, api: Api) -> bool {
    &&& row.id == id
    &&& describes(row.data, api, HealthStatus::Pending)
    &&& row.interval == api.interval
}

impl ApiInformation {
    /// The row text for `api` with the given status.
    pub fn describe(api: &Api, status: HealthStatus) -> (r: ApiInformation)
        ensures
            describes(r, *api, status),
    {
        ApiInformation {
            name: api.name.clone(),
            url: api.request.url.clone(),
            method: api.request.method.to_string(),
            status,
        }
    }

    /// A copy, field by field.
    pub fn copy(&self) -> (r: ApiInformation)
        ensures
            r == *self,
    {
        ApiInformation {
            name: self.name.clone(),
            url: self.url.clone(),
            method: self.method.clone(),
            status: self.status,
        }
    }
}

impl ListRequests {
    /// A copy, field by field.
    pub fn copy(&self) -> (r: ListRequests)
        ensures
            r == *self,
    {
        ListRequests { id: self.id, data: self.data.copy(), interval: self.interval }
    }
}

impl App {
    pub fn new(configs: ApisConfig) -> (r: App)
        ensures
            r.configs == configs,
            r.apis_infos@.len() == 0,
    {
        App { configs, apis_infos: Vec::<ListRequests>::new() }
    }

    /// Replaces the rows with a fresh snapshot of the result table.
    pub fn append_satus2(&mut self, result: Vec<ListRequests>)
        ensures
            final(self).apis_infos == result,
            final(self).configs == old(self).configs,
    {
        self.apis_infos = result
    }

    /// Appends a pending row for every configured endpoint, in order.
    pub fn format_api_infos(&mut self)
        ensures
            final(self).configs == old(self).configs,
            final(self).apis_infos@.len() == old(self).apis_infos@.len()
                + old(self).configs.requests@.len(),
            final(self).apis_infos@.take(old(self).apis_infos@.len() as int)
                == old(self).apis_infos@,
            forall|i: int|
                0 <= i < old(self).configs.requests@.len() ==> pending_row(
                    #[trigger] final(self).apis_infos@[old(self).apis_infos@.len() + i],
                    i,
                    old(self).configs.requests@[i].1,
                ),
    {
        let ghost start = self.apis_infos@;
        let n = self.configs.requests.len();
        let mut id: usize = 0;
        while id < n
            invariant
                n == self.configs.requests@.len(),
                self.configs == old(self).configs,
                start == old(self).apis_infos@,
                id <= n,
                self.apis_infos@.len() == start.len() + id,
                self.apis_infos@.take(start.len() as int) == start,
                forall|i: int|
                    0 <= i < id ==> pending_row(
                        #[trigger] self.apis_infos@[start.len() + i],
                        i,
                        self.configs.requests@[i].1,
                    ),
            decreases n - id,
        {
            let api = &self.configs.requests[id].1;
            let new_request = ListRequests {
                id,
                data: ApiInformation::describe(api, HealthStatus::Pending),
                interval: api.interval,
            };
            let ghost before = self.apis_infos@;
            self.apis_infos.push(new_request);
            assert(self.apis_infos@.take(start.len() as int) =~= before.take(start.len() as int));
            assert forall|i: int| 0 <= i < id + 1 implies pending_row(
                #[trigger] self.apis_infos@[start.len() + i],
                i,
                self.configs.requests@[i].1,
            ) by {
                if i < id {
                    assert(self.apis_infos@[start.len() + i] == before[start.len() + i]);
                }
            }
            id = id + 1;
        }
    }
}

} // verus!
