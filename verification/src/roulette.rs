//! The roulette service: its request and response bodies, and the
//! endpoints the bot talks to.

use vstd::prelude::*;

verus! {

/// Where the roulette service lives.
#[derive(Clone, Debug, PartialEq, Eq)]
pub struct RouletteClient {
    pub base_url: String,
}

/// One slot of a roulette wheel.
#[derive(Clone, Debug, PartialEq, Eq)]
pub struct RouletteItem {
    pub label: String,
}

impl DeepView for RouletteItem {
    type V = Seq<char>;

    open spec fn deep_view(&self) -> Seq<char> {
        self.label@
    }
}

/// Body of a request that creates a roulette.
#[derive(Clone, Debug, PartialEq, Eq)]
pub struct RouletteCreateRequest {
    pub title: String,
    pub items: Vec<RouletteItem>,
}

/// Model of a creation request: its title and the labels of its slots.
pub struct RouletteRequestView {
    pub title: Seq<char>,
    pub items: Seq<Seq<char>>,
}

impl DeepView for RouletteCreateRequest {
    type V = RouletteRequestView;

    open spec fn deep_view(&self) -> RouletteRequestView {
        RouletteRequestView { title: self.title@, items: self.items.deep_view() }
    }
}

/// What the service answers to a creation request.
#[derive(Clone, Debug, PartialEq, Eq)]
pub struct RouletteCreateResponse {
    pub id: String,
    pub title: String,
    pub items: Vec<RouletteItem>,
    /// UNIX time, as the service writes it.
    pub created_at: String,
    pub secret: String,
}

/// What the service answers when a roulette is looked up.
#[derive(Clone, Debug, PartialEq, Eq)]
pub struct RouletteGetResponse {
    pub id: String,
    pub title: String,
    pub items: Vec<RouletteItem>,
    pub created_at: String,
    pub result: Option<usize>,
}

/// Body of a request that spins a roulette.
#[derive(Clone, Debug, PartialEq, Eq)]
pub struct RouletteStartRequest {
    pub secret: String,
}

/// Endpoint that creates roulettes.
pub open spec fn create_url_of(base_url: Seq<char>) -> Seq<char> {
    base_url + "/api/roulette"@
}

/// Endpoint that spins the roulette `id`.
pub open spec fn start_url_of(base_url: Seq<char>, id: Seq<char>) -> Seq<char> {
    base_url + "/api/roulette/"@ + id + "/start"@
}

/// Page where users watch the roulette `id`.
pub open spec fn page_url_of(base_url: Seq<char>, id: Seq<char>) -> Seq<char> {
    base_url + "/roulette/"@ + id
}

impl RouletteClient {
    /// A client for the service at `base_url`.
    pub fn new(base_url: String) -> (client: RouletteClient)
        ensures
            client.base_url == base_url,
    {
        RouletteClient { base_url }
    }

    /// The endpoint a creation request is posted to.
    pub fn create_url(&self) -> (url: String)
        ensures
            url@ == create_url_of(self.base_url@),
    {
        let mut url = self.base_url.clone();
        url.append("/api/roulette");
        url
    }

    /// The endpoint a start request for roulette `id` is posted to.
    pub fn start_url(&self, id: &String) -> (url: String)
        ensures
            url@ == start_url_of(self.base_url@, id@),
    {
        let mut url = self.base_url.clone();
        url.append("/api/roulette/");
        url.append(id.as_str());
        url.append("/start");
        url
    }

    /// The page where roulette `id` can be watched.
    pub fn page_url(&self, id: &String) -> (url: String)
        ensures
            url@ == page_url_of(self.base_url@, id@),
    {
        let mut url = self.base_url.clone();
        url.append("/roulette/");
        url.append(id.as_str());
        url
    }
}

/// The service's endpoints: creation at `<base>/api/roulette`, spinning a
/// roulette one level below it at `/<id>/start`, and the roulette's page at
/// `<base>/roulette/<id>`.
pub proof fn law_endpoints(base_url: Seq<char>, id: Seq<char>)
    ensures
        create_url_of(base_url) == base_url + "/api/roulette"@,
        start_url_of(base_url, id) == create_url_of(base_url) + "/"@ + id + "/start"@,
        page_url_of(base_url, id) == base_url + "/roulette/"@ + id,
{
    reveal_strlit("/api/roulette/");
    reveal_strlit("/api/roulette");
    reveal_strlit("/");
    assert("/api/roulette/"@ =~= "/api/roulette"@ + "/"@);
    assert(start_url_of(base_url, id) =~= create_url_of(base_url) + "/"@ + id + "/start"@);
}

} // verus!
