//! Endpoint configuration: where the search backend and the dashboard live,
//! and the vocabularies that an alarm's status and tag are chosen from.

use vstd::prelude::*;
use vstd::string::*;
use crate::text::{ends_with, ensure_trailing_slash, join, with_trailing_slash};

verus! {

/// The status and tag vocabularies that the deployment is configured with.
#[derive(Clone, Debug, PartialEq)]
pub struct DsiemConfig {
    pub status: Vec<String>,
    pub tags: Vec<String>,
}

/// Base addresses of the search backend and of the dashboard.
#[derive(Clone, Debug, PartialEq)]
pub struct SearchConfig {
    pub search: String,
    pub dashboard: String,
}

/// What a [`DsiemConfig`] holds, as sequences of characters.
pub struct DsiemConfigModel {
    pub status: Seq<Seq<char>>,
    pub tags: Seq<Seq<char>>,
}

/// What a [`SearchConfig`] holds, as sequences of characters.
pub struct SearchConfigModel {
    pub search: Seq<char>,
    pub dashboard: Seq<char>,
}

impl View for DsiemConfig {
    type V = DsiemConfigModel;

    open spec fn view(&self) -> DsiemConfigModel {
        DsiemConfigModel { status: self.status.deep_view(), tags: self.tags.deep_view() }
    }
}

impl DeepView for DsiemConfig {
    type V = DsiemConfigModel;

    open spec fn deep_view(&self) -> DsiemConfigModel {
        self@
    }
}

impl View for SearchConfig {
    type V = SearchConfigModel;

    open spec fn view(&self) -> SearchConfigModel {
        SearchConfigModel { search: self.search@, dashboard: self.dashboard@ }
    }
}

impl DeepView for SearchConfig {
    type V = SearchConfigModel;

    open spec fn deep_view(&self) -> SearchConfigModel {
        self@
    }
}

impl Default for SearchConfig {
    fn default() -> (result: SearchConfig)
        ensures
            result@.search.len() == 0,
            result@.dashboard.len() == 0,
    {
        SearchConfig { search: String::new(), dashboard: String::new() }
    }
}

/// Path of the endpoint description below the platform's base address.
pub open spec fn endpoints_path() -> Seq<char> {
    "/ui/assets/config/esconfig.json"@
}

/// Path of the vocabulary description below the platform's base address.
pub open spec fn vocabulary_path() -> Seq<char> {
    "/config/dsiem_config.json"@
}

/// Both addresses of `c`, each made to end with a `/`.
pub open spec fn normalized(c: SearchConfigModel) -> SearchConfigModel {
    SearchConfigModel {
        search: with_trailing_slash(c.search),
        dashboard: with_trailing_slash(c.dashboard),
    }
}

/// Whether both addresses of `c` end with a `/`.
pub open spec fn is_normalized(c: SearchConfigModel) -> bool {
    ends_with(c.search, '/') && ends_with(c.dashboard, '/')
}

/// Address from which the endpoint description of the platform at
/// `dsiem_baseurl` is fetched.
pub fn endpoints_url(dsiem_baseurl: &str) -> (result: String)
    ensures
        result@ == dsiem_baseurl@ + endpoints_path(),
{
    join(dsiem_baseurl, "/ui/assets/config/esconfig.json")
}

/// Address from which the vocabularies of the platform at `dsiem_baseurl`
/// are fetched.
pub fn vocabulary_url(dsiem_baseurl: &str) -> (result: String)
    ensures
        result@ == dsiem_baseurl@ + vocabulary_path(),
{
    join(dsiem_baseurl, "/config/dsiem_config.json")
}

/// Turns the endpoint description as the platform serves it into the one the
/// rest of the library works with: both addresses end with a `/`, and are
/// otherwise unchanged.
pub fn get_search_endpoints(served: SearchConfig) -> (result: SearchConfig)
    ensures
        result@ == normalized(served@),
        is_normalized(result@),
{
    let SearchConfig { search, dashboard } = served;
    SearchConfig {
        search: ensure_trailing_slash(search),
        dashboard: ensure_trailing_slash(dashboard),
    }
}

/// Normalizing twice changes nothing more.
pub proof fn lemma_normalized_idempotent(c: SearchConfigModel)
    ensures
        normalized(normalized(c)) == normalized(c),
        is_normalized(normalized(c)),
{
    assert(ends_with(with_trailing_slash(c.search), '/'));
    assert(ends_with(with_trailing_slash(c.dashboard), '/'));
}

} // verus!
