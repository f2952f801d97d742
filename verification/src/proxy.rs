//! Wire-level types of the federation layer: the cluster descriptor, the
//! federated batch, and the per-cluster entries of its response.

use vstd::prelude::*;
use crate::search::{SearchRequest, SearchRequestView, SearchResponse, SearchResponseView};

verus! {

/// Token carried by the proxy endpoint's query string.
#[derive(Clone, Debug)]
pub struct QueryParamProxyURL {
    pub proxy_token: String,
}

impl View for QueryParamProxyURL {
    type V = Seq<char>;

    open spec fn view(&self) -> Seq<char> {
        self.proxy_token@
    }
}

/// Path parameters of the proxy endpoint: the forwarding target and the
/// organization the call is made for.
#[derive(Clone, Debug)]
pub struct PathParamProxyURL {
    pub target_url: String,
    pub org_id: String,
}

/// Mathematical image of a `PathParamProxyURL`.
pub struct PathParamProxyURLView {
    pub target_url: Seq<char>,
    pub org_id: Seq<char>,
}

impl View for PathParamProxyURL {
    type V = PathParamProxyURLView;

    open spec fn view(&self) -> PathParamProxyURLView {
        PathParamProxyURLView { target_url: self.target_url@, org_id: self.org_id@ }
    }
}

/// A query target: an empty `url` selects the local engine, any other
/// value names a remote peer endpoint reached with `auth` attached.
///
/// The descriptor is echoed back on the result that answers its
/// sub-query; callers that hand results onward should consider
/// [`redacted`](Cluster::redacted) first, since `auth` is a credential.
#[derive(Clone, Debug)]
pub struct Cluster {
    pub url: String,
    pub auth: String,
}

/// Mathematical image of a `Cluster`.
pub struct ClusterView {
    pub url: Seq<char>,
    pub auth: Seq<char>,
}

impl View for Cluster {
    type V = ClusterView;

    open spec fn view(&self) -> ClusterView {
        ClusterView { url: self.url@, auth: self.auth@ }
    }
}

impl Default for Cluster {
    /// The local target with no credential.
    fn default() -> (r: Self)
        ensures
            r@.url.len() == 0,
            r@.auth.len() == 0,
    {
        Cluster { url: String::new(), auth: String::new() }
    }
}

impl Cluster {
    /// True exactly when this descriptor selects local execution.
    pub fn is_local(&self) -> (r: bool)
        ensures
            r == (self@.url.len() == 0),
    {
        self.url.as_str().is_empty()
    }

    /// The same target with the credential blanked, fit to leave the
    /// process.
    pub fn redacted(&self) -> (r: Cluster)
        ensures
            r@.url == self@.url,
            r@.auth.len() == 0,
    {
        Cluster { url: self.url.clone(), auth: String::new() }
    }
}

/// One element of the federated batch: where to run, and what to run.
pub struct ClusterRequest {
    pub cluster: Cluster,
    pub search_request: SearchRequest,
}

/// Mathematical image of a `ClusterRequest`.
pub struct ClusterRequestView {
    pub cluster: ClusterView,
    pub search_request: SearchRequestView,
}

impl View for ClusterRequest {
    type V = ClusterRequestView;

    open spec fn view(&self) -> ClusterRequestView {
        ClusterRequestView { cluster: self.cluster@, search_request: self.search_request@ }
    }
}

/// A whole federated search: the caller-ordered batch of sub-queries.
pub struct FedSearchRequest {
    pub queries: Vec<ClusterRequest>,
}

impl View for FedSearchRequest {
    type V = Seq<ClusterRequestView>;

    open spec fn view(&self) -> Seq<ClusterRequestView> {
        self.queries@.map_values(|q: ClusterRequest| q@)
    }
}

/// One entry of the federated response: the originating target and its
/// (possibly degraded) answer.
pub struct ClusterResponse {
    pub cluster: Cluster,
    pub response: SearchResponse,
}

/// Mathematical image of a `ClusterResponse`.
pub struct ClusterResponseView {
    pub cluster: ClusterView,
    pub response: SearchResponseView,
}

impl View for ClusterResponse {
    type V = ClusterResponseView;

    open spec fn view(&self) -> ClusterResponseView {
        ClusterResponseView { cluster: self.cluster@, response: self.response@ }
    }
}

} // verus!
