//! Status queries against indexers: the requests that are sent, the shape of
//! what comes back, and how a reply becomes a result or an error.

use crate::decimal::{parse_i64, parse_i64_spec};
use crate::json::{JsonMember, JsonModel, JsonValue};
use vstd::prelude::*;
use vstd::string::*;

verus! {

/// An indexer and the base URL of its public status API.
#[derive(Debug, Clone, PartialEq, Eq)]
pub struct IndexerUrl {
    pub id: String,
    pub url: String,
}

/// What one indexer reported about a deployment.
#[derive(Debug, Clone, PartialEq, Eq)]
pub struct IndexerInfo {
    pub info: IndexerUrl,
    pub status: IndexingStatus,
}

/// The indexing status of one deployment on one indexer.
#[derive(Debug, Clone, PartialEq, Eq)]
pub struct IndexingStatus {
    pub health: SubgraphHealth,
    pub synced: bool,
    pub chains: Vec<ChainStatus>,
}

/// Health of a deployment, spelled as the status API spells it.
#[allow(non_camel_case_types)]
#[derive(Debug, Clone, Copy, PartialEq, Eq, Structural)]
pub enum SubgraphHealth {
    healthy,
    unhealthy,
    failed,
}

/// Progress of a deployment on one chain.
#[derive(Debug, Clone, PartialEq, Eq)]
pub struct ChainStatus {
    pub network: String,
    pub latest_block: Block,
    pub chain_head_block: Block,
}

/// A block as the status API reports it: its number in decimal, and its hash.
#[derive(Debug, Clone, PartialEq, Eq)]
pub struct Block {
    pub number: String,
    pub hash: String,
}

/// Why a reply could not be read as the expected result.
#[derive(Debug, Clone, Copy, PartialEq, Eq, Structural)]
pub enum DecodeFault {
    /// The endpoint answered a status query with a status code outside
    /// 200..=299.
    HttpStatus(u16),
    /// The body was not a JSON document.
    MalformedBody,
    /// The body was JSON of another shape than the expected one, or held a
    /// block number that is no decimal integer of 64 bits.
    UnexpectedShape,
}

/// Failure of one query.
#[derive(Debug, Clone, PartialEq, Eq)]
pub enum QueryError {
    /// The endpoint could not be reached; the text says why.
    Network(String),
    /// The endpoint answered, but not with the expected result.
    Decode(DecodeFault),
}

/// A request for the transport: the body is posted to `url` under the
/// header `Content-Type: <content_type>`.
#[derive(Debug, PartialEq, Eq)]
pub struct HttpPost {
    pub url: String,
    pub content_type: String,
    pub body: JsonValue,
}

/// What the transport hands back for one request.
#[derive(Debug, PartialEq, Eq)]
pub enum HttpReply {
    /// The request did not complete; the text says why.
    Unreachable(String),
    /// A response arrived. `body` is `None` where it was not JSON.
    Answered { status: u16, body: Option<JsonValue> },
}

/// An [`IndexerUrl`] with its texts as sequences of characters.
pub struct IndexerUrlView {
    pub id: Seq<char>,
    pub url: Seq<char>,
}

/// A [`Block`] with its texts as sequences of characters.
pub struct BlockView {
    pub number: Seq<char>,
    pub hash: Seq<char>,
}

/// A [`ChainStatus`] with its texts as sequences of characters.
pub struct ChainStatusView {
    pub network: Seq<char>,
    pub latest_block: BlockView,
    pub chain_head_block: BlockView,
}

/// An [`IndexingStatus`] with its chains as a sequence of views.
pub struct IndexingStatusView {
    pub health: SubgraphHealth,
    pub synced: bool,
    pub chains: Seq<ChainStatusView>,
}

/// An [`IndexerInfo`] as the views of its parts.
pub struct IndexerInfoView {
    pub info: IndexerUrlView,
    pub status: IndexingStatusView,
}

impl View for IndexerUrl {
    type V = IndexerUrlView;

    open spec fn view(&self) -> IndexerUrlView {
        IndexerUrlView { id: self.id@, url: self.url@ }
    }
}

impl View for Block {
    type V = BlockView;

    open spec fn view(&self) -> BlockView {
        BlockView { number: self.number@, hash: self.hash@ }
    }
}

impl View for ChainStatus {
    type V = ChainStatusView;

    open spec fn view(&self) -> ChainStatusView {
        ChainStatusView {
            network: self.network@,
            latest_block: self.latest_block@,
            chain_head_block: self.chain_head_block@,
        }
    }
}

impl View for IndexingStatus {
    type V = IndexingStatusView;

    open spec fn view(&self) -> IndexingStatusView {
        IndexingStatusView {
            health: self.health,
            synced: self.synced,
            chains: self.chains@.map_values(|c: ChainStatus| c@),
        }
    }
}

impl View for IndexerInfo {
    type V = IndexerInfoView;

    open spec fn view(&self) -> IndexerInfoView {
        IndexerInfoView { info: self.info@, status: self.status@ }
    }
}

impl IndexingStatusView {
    /// Whether the block numbers of every chain are decimal integers of 64
    /// bits.
    pub open spec fn block_numbers_readable(self) -> bool {
        forall|i: int|
            0 <= i < self.chains.len() ==> {
                &&& parse_i64_spec((#[trigger] self.chains[i]).latest_block.number) is Some
                &&& parse_i64_spec(self.chains[i].chain_head_block.number) is Some
            }
    }

    /// How far the indexer has come on the first chain. `None` where no
    /// chain is reported or the number is not a decimal 64-bit integer.
    pub open spec fn latest_block_number(self) -> Option<i64> {
        if self.chains.len() > 0 {
            parse_i64_spec(self.chains[0].latest_block.number)
        } else {
            None
        }
    }

    /// The tip of the first chain as the indexer sees it. `None` where no
    /// chain is reported or the number is not a decimal 64-bit integer.
    pub open spec fn chain_head_block_number(self) -> Option<i64> {
        if self.chains.len() > 0 {
            parse_i64_spec(self.chains[0].chain_head_block.number)
        } else {
            None
        }
    }
}

impl IndexerInfo {
    /// The latest block the indexer has processed on the first chain.
    pub fn latest_block_number(&self) -> (r: Option<i64>)
        ensures
            r == self@.status.latest_block_number(),
    {
        if self.status.chains.len() > 0 {
            parse_i64(self.status.chains[0].latest_block.number.as_str())
        } else {
            None
        }
    }

    /// The head block of the first chain.
    pub fn chain_head_block_number(&self) -> (r: Option<i64>)
        ensures
            r == self@.status.chain_head_block_number(),
    {
        if self.status.chains.len() > 0 {
            parse_i64(self.status.chains[0].chain_head_block.number.as_str())
        } else {
            None
        }
    }
}

/// The GraphQL document that asks the network subgraph for the indexers
/// allocated to the current deployment of a subgraph.
pub const ACTIVE_INDEXER_DOCUMENT: &'static str =
    r#"query subgraph($id: String!){
            subgraph(id: $id) {
            currentVersion{
              subgraphDeployment{
                indexerAllocations{
                  indexer {
                    id
                    url
                  }
                }
              }
            }
          }
        }"#;

/// The GraphQL document that asks an indexer for the indexing status of
/// deployments.
pub const INDEXING_STATUS_DOCUMENT: &'static str =
    r#"query indexingStatus($subgraphs: [String!]!) {
            indexingStatuses(subgraphs: $subgraphs) {
                subgraph
                health
                synced
                chains {
                    network
                    ... on EthereumIndexingStatus {
                        latestBlock { number hash }
                        chainHeadBlock { number hash }
                    }
                }
            }
        }"#;

/// The body of a GraphQL request: the document and its variables.
pub open spec fn graphql_request(document: Seq<char>, variables: JsonModel) -> JsonModel {
    JsonModel::Object(seq![("query"@, JsonModel::Text(document)), ("variables"@, variables)])
}

fn graphql_body(document: &str, variables: JsonValue) -> (q: JsonValue)
    ensures
        q@ == graphql_request(document@, variables@),
{
    let mut members: Vec<JsonMember> = Vec::new();
    members.push(JsonMember { name: "query".to_owned(), value: JsonValue::text(document) });
    members.push(JsonMember { name: "variables".to_owned(), value: variables });
    let q = JsonValue::Object(members);
    assert(q@->Object_0 =~= seq![
        ("query"@, JsonModel::Text(document@)),
        ("variables"@, variables@),
    ]);
    q
}

/// Construct indexer url query
pub fn active_indexer_url(subgraph_id: &str) -> (q: JsonValue)
    ensures
        q@ == graphql_request(
            ACTIVE_INDEXER_DOCUMENT@,
            JsonModel::Object(seq![("id"@, JsonModel::Text(subgraph_id@))]),
        ),
{
    graphql_body(ACTIVE_INDEXER_DOCUMENT, JsonValue::object_of("id", JsonValue::text(subgraph_id)))
}

/// Construct indexing status query
pub fn status_query(deployment: &str) -> (q: JsonValue)
    ensures
        q@ == graphql_request(
            INDEXING_STATUS_DOCUMENT@,
            JsonModel::Object(
                seq![("subgraphs"@, JsonModel::Array(seq![JsonModel::Text(deployment@)]))],
            ),
        ),
{
    graphql_body(
        INDEXING_STATUS_DOCUMENT,
        JsonValue::object_of("subgraphs", JsonValue::array_of(JsonValue::text(deployment))),
    )
}

/// Where the status API of an indexer is posted to: its base URL followed
/// by `status`.
pub fn status_endpoint(indexer_url: &IndexerUrl) -> (endpoint: String)
    ensures
        endpoint@ == indexer_url.url@ + "status"@,
{
    let mut endpoint = indexer_url.url.clone();
    endpoint.append("status");
    endpoint
}

/// The content type of every request: JSON.
pub open spec fn json_content_type() -> Seq<char> {
    "application/json"@
}

/// The request that asks the indexer at `indexer_url` for the indexing
/// status of `deployment`.
pub fn status_request(indexer_url: &IndexerUrl, deployment: &str) -> (post: HttpPost)
    ensures
        post.url@ == indexer_url.url@ + "status"@,
        post.content_type@ == json_content_type(),
        post.body@ == graphql_request(
            INDEXING_STATUS_DOCUMENT@,
            JsonModel::Object(
                seq![("subgraphs"@, JsonModel::Array(seq![JsonModel::Text(deployment@)]))],
            ),
        ),
{
    HttpPost {
        url: status_endpoint(indexer_url),
        content_type: "application/json".to_owned(),
        body: status_query(deployment),
    }
}

/// The request that asks the network subgraph at
/// `network_subgraph_endpoint` for the indexers allocated to `subgraph_id`.
pub fn active_indexer_request(network_subgraph_endpoint: &str, subgraph_id: &str) -> (post:
    HttpPost)
    ensures
        post.url@ == network_subgraph_endpoint@,
        post.content_type@ == json_content_type(),
        post.body@ == graphql_request(
            ACTIVE_INDEXER_DOCUMENT@,
            JsonModel::Object(seq![("id"@, JsonModel::Text(subgraph_id@))]),
        ),
{
    HttpPost {
        url: network_subgraph_endpoint.to_owned(),
        content_type: "application/json".to_owned(),
        body: active_indexer_url(subgraph_id),
    }
}

/// Whether an HTTP status code reports success.
pub open spec fn is_success(status: u16) -> bool {
    200 <= status < 300
}

/// The text of the member `name`, where there is one and it is a string.
pub open spec fn text_field(m: JsonModel, name: Seq<char>) -> Option<Seq<char>> {
    match m.member(name) {
        Some(v) => v.text(),
        None => None,
    }
}

/// A block: an object with the string members `number` and `hash`, the
/// number being a decimal integer of 64 bits.
pub open spec fn block_of(m: JsonModel) -> Option<BlockView> {
    match (text_field(m, "number"@), text_field(m, "hash"@)) {
        (Some(number), Some(hash)) => if parse_i64_spec(number) is Some {
            Some(BlockView { number, hash })
        } else {
            None
        },
        _ => None,
    }
}

/// The member `name` read as a block.
pub open spec fn block_field(m: JsonModel, name: Seq<char>) -> Option<BlockView> {
    match m.member(name) {
        Some(v) => block_of(v),
        None => None,
    }
}

/// A chain status: an object with the string member `network` and the
/// blocks `latestBlock` and `chainHeadBlock`.
pub open spec fn chain_of(m: JsonModel) -> Option<ChainStatusView> {
    match (
        text_field(m, "network"@),
        block_field(m, "latestBlock"@),
        block_field(m, "chainHeadBlock"@),
    ) {
        (Some(network), Some(latest_block), Some(chain_head_block)) => Some(
            ChainStatusView { network, latest_block, chain_head_block },
        ),
        _ => None,
    }
}

/// Every element read as a chain status; `None` if any of them is none.
pub open spec fn chains_of(items: Seq<JsonModel>) -> Option<Seq<ChainStatusView>> {
    if forall|i: int| 0 <= i < items.len() ==> (#[trigger] chain_of(items[i])) is Some {
        Some(Seq::new(items.len(), |i: int| chain_of(items[i])->0))
    } else {
        None
    }
}

/// The health that a word of the status API names.
pub open spec fn health_of(word: Seq<char>) -> Option<SubgraphHealth> {
    if word == "healthy"@ {
        Some(SubgraphHealth::healthy)
    } else if word == "unhealthy"@ {
        Some(SubgraphHealth::unhealthy)
    } else if word == "failed"@ {
        Some(SubgraphHealth::failed)
    } else {
        None
    }
}

/// The member `health` read as a health.
pub open spec fn health_field(m: JsonModel) -> Option<SubgraphHealth> {
    match text_field(m, "health"@) {
        Some(word) => health_of(word),
        None => None,
    }
}

/// The member `synced`, where it is a boolean.
pub open spec fn synced_field(m: JsonModel) -> Option<bool> {
    match m.member("synced"@) {
        Some(v) => v.boolean(),
        None => None,
    }
}

/// The member `chains`, where it is an array of chain statuses.
pub open spec fn chains_field(m: JsonModel) -> Option<Seq<ChainStatusView>> {
    match m.member("chains"@) {
        Some(v) => match v.elements() {
            Some(items) => chains_of(items),
            None => None,
        },
        None => None,
    }
}

/// An indexing status: an object with the members `health`, `synced` and
/// `chains`, each of its own shape. Other members are ignored.
pub open spec fn indexing_status_of(m: JsonModel) -> Option<IndexingStatusView> {
    match (health_field(m), synced_field(m), chains_field(m)) {
        (Some(health), Some(synced), Some(chains)) => Some(
            IndexingStatusView { health, synced, chains },
        ),
        _ => None,
    }
}

/// The value at `data.indexingStatuses[0]` of a response.
pub open spec fn first_indexing_status(doc: JsonModel) -> Option<JsonModel> {
    match doc.member("data"@) {
        Some(data) => match data.member("indexingStatuses"@) {
            Some(statuses) => statuses.element(0),
            None => None,
        },
        None => None,
    }
}

/// What a response body says about the deployment that was asked for.
pub open spec fn status_in_body(doc: JsonModel) -> Option<IndexingStatusView> {
    match first_indexing_status(doc) {
        Some(status) => indexing_status_of(status),
        None => None,
    }
}

/// A status that was read from a body has block numbers that can be read:
/// on every chain, both are decimal integers of 64 bits.
pub proof fn lemma_decoded_block_numbers_readable(m: JsonModel)
    requires
        indexing_status_of(m) is Some,
    ensures
        indexing_status_of(m)->0.block_numbers_readable(),
{
    let status = indexing_status_of(m)->0;
    let items = m.member("chains"@)->0.elements()->0;
    assert forall|i: int| 0 <= i < status.chains.len() implies {
        &&& parse_i64_spec((#[trigger] status.chains[i]).latest_block.number) is Some
        &&& parse_i64_spec(status.chains[i].chain_head_block.number) is Some
    } by {
        assert(chain_of(items[i]) is Some);
    }
}

/// How the reply to a status query is classified: a transport failure is a
/// network error and keeps its text; a response that is not a success, not
/// JSON, or of another shape is a decode error, and so is one with a block
/// number that is no decimal integer of 64 bits; anything else is the
/// status that the body holds.
pub open spec fn status_outcome(reply: HttpReply) -> Result<IndexingStatusView, QueryError> {
    match reply {
        HttpReply::Unreachable(why) => Err(QueryError::Network(why)),
        HttpReply::Answered { status, body } => if !is_success(status) {
            Err(QueryError::Decode(DecodeFault::HttpStatus(status)))
        } else {
            match body {
                None => Err(QueryError::Decode(DecodeFault::MalformedBody)),
                Some(doc) => match status_in_body(doc@) {
                    Some(found) => Ok(found),
                    None => Err(QueryError::Decode(DecodeFault::UnexpectedShape)),
                },
            }
        },
    }
}

fn text_member(value: &JsonValue, name: &str) -> (r: Option<String>)
    ensures
        match r {
            Some(t) => text_field(value@, name@) == Some(t@),
            None => text_field(value@, name@) is None,
        },
{
    match value.get(name) {
        Some(v) => match v.as_text() {
            Some(t) => Some(t.clone()),
            None => None,
        },
        None => None,
    }
}

fn decode_block(value: &JsonValue) -> (r: Option<Block>)
    ensures
        match r {
            Some(b) => block_of(value@) == Some(b@),
            None => block_of(value@) is None,
        },
{
    let number = text_member(value, "number");
    let hash = text_member(value, "hash");
    match (number, hash) {
        (Some(number), Some(hash)) => {
            if parse_i64(number.as_str()).is_some() {
                Some(Block { number, hash })
            } else {
                None
            }
        },
        _ => None,
    }
}

fn block_member(value: &JsonValue, name: &str) -> (r: Option<Block>)
    ensures
        match r {
            Some(b) => block_field(value@, name@) == Some(b@),
            None => block_field(value@, name@) is None,
        },
{
    match value.get(name) {
        Some(v) => decode_block(v),
        None => None,
    }
}

fn decode_chain(value: &JsonValue) -> (r: Option<ChainStatus>)
    ensures
        match r {
            Some(c) => chain_of(value@) == Some(c@),
            None => chain_of(value@) is None,
        },
{
    let network = text_member(value, "network");
    let latest_block = block_member(value, "latestBlock");
    let chain_head_block = block_member(value, "chainHeadBlock");
    match (network, latest_block, chain_head_block) {
        (Some(network), Some(latest_block), Some(chain_head_block)) => Some(
            ChainStatus { network, latest_block, chain_head_block },
        ),
        _ => None,
    }
}

fn decode_chains(items: &Vec<JsonValue>, Ghost(models): Ghost<Seq<JsonModel>>) -> (r: Option<
    Vec<ChainStatus>,
>)
    requires
        models.len() == items.len(),
        forall|i: int| 0 <= i < items.len() ==> #[trigger] models[i] == items[i]@,
    ensures
        match r {
            Some(chains) => chains_of(models) == Some(chains@.map_values(|c: ChainStatus| c@)),
            None => chains_of(models) is None,
        },
{
    let mut chains: Vec<ChainStatus> = Vec::new();
    let mut i: usize = 0;
    while i < items.len()
        invariant
            i <= items.len(),
            chains.len() == i,
            models.len() == items.len(),
            forall|j: int| 0 <= j < items.len() ==> #[trigger] models[j] == items[j]@,
            forall|j: int| 0 <= j < i ==> (#[trigger] chain_of(models[j])) == Some(chains[j]@),
        decreases items.len() - i,
    {
        match decode_chain(&items[i]) {
            Some(chain) => {
                chains.push(chain);
            },
            None => {
                assert(chain_of(models[i as int]) is None);
                return None;
            },
        }
        i = i + 1;
    }
    Some(chains)
}

fn decode_health(value: &JsonValue) -> (r: Option<SubgraphHealth>)
    ensures
        r == health_field(value@),
{
    match text_member(value, "health") {
        Some(word) => {
            if word == "healthy".to_owned() {
                Some(SubgraphHealth::healthy)
            } else if word == "unhealthy".to_owned() {
                Some(SubgraphHealth::unhealthy)
            } else if word == "failed".to_owned() {
                Some(SubgraphHealth::failed)
            } else {
                None
            }
        },
        None => None,
    }
}

fn decode_synced(value: &JsonValue) -> (r: Option<bool>)
    ensures
        r == synced_field(value@),
{
    match value.get("synced") {
        Some(v) => v.as_bool(),
        None => None,
    }
}

fn decode_chains_member(value: &JsonValue) -> (r: Option<Vec<ChainStatus>>)
    ensures
        match r {
            Some(chains) => chains_field(value@) == Some(
                chains@.map_values(|c: ChainStatus| c@),
            ),
            None => chains_field(value@) is None,
        },
{
    match value.get("chains") {
        Some(v) => match v.as_array() {
            Some(items) => decode_chains(items, Ghost(v@.elements()->0)),
            None => None,
        },
        None => None,
    }
}

/// Reads an indexing status from the JSON value that describes it. There
/// is none where a member is missing or of another kind, or where a block
/// number of any chain is no decimal integer of 64 bits.
pub fn decode_indexing_status(value: &JsonValue) -> (r: Option<IndexingStatus>)
    ensures
        match r {
            Some(status) => indexing_status_of(value@) == Some(status@)
                && status@.block_numbers_readable(),
            None => indexing_status_of(value@) is None,
        },
{
    proof {
        if indexing_status_of(value@) is Some {
            lemma_decoded_block_numbers_readable(value@);
        }
    }
    let health = decode_health(value);
    let synced = decode_synced(value);
    let chains = decode_chains_member(value);
    match (health, synced, chains) {
        (Some(health), Some(synced), Some(chains)) => Some(
            IndexingStatus { health, synced, chains },
        ),
        _ => None,
    }
}

fn find_first_indexing_status(doc: &JsonValue) -> (r: Option<&JsonValue>)
    ensures
        match r {
            Some(v) => first_indexing_status(doc@) == Some(v@),
            None => first_indexing_status(doc@) is None,
        },
{
    match doc.get("data") {
        Some(data) => match data.get("indexingStatuses") {
            Some(statuses) => statuses.at(0),
            None => None,
        },
        None => None,
    }
}

/// Turns the reply to a status query into the result for that indexer.
///
/// A reply that carries a status with no chains at all is still a result
/// here; whoever sums results up decides what it counts for. A reply with a
/// block number that cannot be read is a decode error.
pub fn query_indexing_status(indexer_url: IndexerUrl, reply: HttpReply) -> (r: Result<
    IndexerInfo,
    QueryError,
>)
    ensures
        match status_outcome(reply) {
            Ok(found) => r matches Ok(info) && info.info == indexer_url && info.status@ == found,
            Err(e) => r == Err::<IndexerInfo, QueryError>(e),
        },
        r matches Ok(info) ==> info@.status.block_numbers_readable(),
{
    match reply {
        HttpReply::Unreachable(why) => Err(QueryError::Network(why)),
        HttpReply::Answered { status, body } => {
            if status < 200 || status >= 300 {
                return Err(QueryError::Decode(DecodeFault::HttpStatus(status)));
            }
            match body {
                None => Err(QueryError::Decode(DecodeFault::MalformedBody)),
                Some(doc) => {
                    let decoded = match find_first_indexing_status(&doc) {
                        Some(value) => decode_indexing_status(value),
                        None => None,
                    };
                    match decoded {
                        Some(status) => Ok(IndexerInfo { info: indexer_url, status }),
                        None => Err(QueryError::Decode(DecodeFault::UnexpectedShape)),
                    }
                },
            }
        },
    }
}

/// The array at
/// `data.subgraph.currentVersion.subgraphDeployment.indexerAllocations`
/// of a response.
pub open spec fn allocations_in_body(doc: JsonModel) -> Option<Seq<JsonModel>> {
    match doc.member("data"@) {
        Some(data) => match data.member("subgraph"@) {
            Some(subgraph) => match subgraph.member("currentVersion"@) {
                Some(version) => match version.member("subgraphDeployment"@) {
                    Some(deployment) => match deployment.member("indexerAllocations"@) {
                        Some(allocations) => allocations.elements(),
                        None => None,
                    },
                    None => None,
                },
                None => None,
            },
            None => None,
        },
        None => None,
    }
}

/// The indexer of an allocation: its member `indexer`, an object with the
/// string members `id` and `url`.
pub open spec fn indexer_url_of(allocation: JsonModel) -> Option<IndexerUrlView> {
    match allocation.member("indexer"@) {
        Some(indexer) => match (text_field(indexer, "id"@), text_field(indexer, "url"@)) {
            (Some(id), Some(url)) => Some(IndexerUrlView { id, url }),
            _ => None,
        },
        None => None,
    }
}

/// [`indexer_url_of`] as a value.
pub open spec fn indexer_url_fn() -> spec_fn(JsonModel) -> Option<IndexerUrlView> {
    |allocation: JsonModel| indexer_url_of(allocation)
}

/// The indexers of those allocations that name one, in the order of the
/// allocations. An allocation of another shape is passed over.
pub open spec fn indexer_urls_of(allocations: Seq<JsonModel>) -> Seq<IndexerUrlView> {
    allocations.filter_map(indexer_url_fn())
}

/// How the reply to the query for active indexers is classified, by its
/// body alone and whatever its status code: a transport failure is a
/// network error and keeps its text; a body that is not JSON, or that
/// holds no array of allocations, is a decode error; anything else is the
/// list of the indexers that the allocations name.
pub open spec fn discovery_outcome(reply: HttpReply) -> Result<Seq<IndexerUrlView>, QueryError> {
    match reply {
        HttpReply::Unreachable(why) => Err(QueryError::Network(why)),
        HttpReply::Answered { status, body } => match body {
            None => Err(QueryError::Decode(DecodeFault::MalformedBody)),
            Some(doc) => match allocations_in_body(doc@) {
                Some(allocations) => Ok(indexer_urls_of(allocations)),
                None => Err(QueryError::Decode(DecodeFault::UnexpectedShape)),
            },
        },
    }
}

fn decode_indexer_url(allocation: &JsonValue) -> (r: Option<IndexerUrl>)
    ensures
        match r {
            Some(found) => indexer_url_of(allocation@) == Some(found@),
            None => indexer_url_of(allocation@) is None,
        },
{
    match allocation.get("indexer") {
        Some(indexer) => {
            let id = text_member(indexer, "id");
            let url = text_member(indexer, "url");
            match (id, url) {
                (Some(id), Some(url)) => Some(IndexerUrl { id, url }),
                _ => None,
            }
        },
        None => None,
    }
}

fn find_allocations(doc: &JsonValue) -> (r: Option<&Vec<JsonValue>>)
    ensures
        match r {
            Some(items) => match allocations_in_body(doc@) {
                Some(models) => models.len() == items.len() && forall|i: int|
                    0 <= i < items.len() ==> #[trigger] models[i] == items[i]@,
                None => false,
            },
            None => allocations_in_body(doc@) is None,
        },
{
    let data = match doc.get("data") {
        Some(v) => v,
        None => {
            return None;
        },
    };
    let subgraph = match data.get("subgraph") {
        Some(v) => v,
        None => {
            return None;
        },
    };
    let version = match subgraph.get("currentVersion") {
        Some(v) => v,
        None => {
            return None;
        },
    };
    let deployment = match version.get("subgraphDeployment") {
        Some(v) => v,
        None => {
            return None;
        },
    };
    match deployment.get("indexerAllocations") {
        Some(allocations) => allocations.as_array(),
        None => None,
    }
}

/// The views of a list of indexers.
pub open spec fn indexer_url_views(urls: Seq<IndexerUrl>) -> Seq<IndexerUrlView> {
    urls.map_values(|u: IndexerUrl| u@)
}

fn decode_indexer_urls(items: &Vec<JsonValue>, Ghost(models): Ghost<Seq<JsonModel>>) -> (urls: Vec<
    IndexerUrl,
>)
    requires
        models.len() == items.len(),
        forall|i: int| 0 <= i < items.len() ==> #[trigger] models[i] == items[i]@,
    ensures
        indexer_url_views(urls@) == indexer_urls_of(models),
{
    let mut urls: Vec<IndexerUrl> = Vec::new();
    let mut i: usize = 0;
    while i < items.len()
        invariant
            i <= items.len(),
            models.len() == items.len(),
            forall|j: int| 0 <= j < items.len() ==> #[trigger] models[j] == items[j]@,
            indexer_url_views(urls@) == indexer_urls_of(models.take(i as int)),
        decreases items.len() - i,
    {
        proof {
            models.lemma_filter_map_take_succ(indexer_url_fn(), i as int);
        }
        if let Some(found) = decode_indexer_url(&items[i]) {
            urls.push(found);
        }
        i = i + 1;
    }
    assert(models.take(i as int) =~= models);
    urls
}

/// Turns the reply to the query for active indexers into the list of
/// their status endpoints, in the order in which the reply names them. The
/// status code of the reply plays no part.
pub fn query_indexer_public_api(reply: HttpReply) -> (r: Result<Vec<IndexerUrl>, QueryError>)
    ensures
        match discovery_outcome(reply) {
            Ok(found) => r matches Ok(urls) && indexer_url_views(urls@) == found,
            Err(e) => r == Err::<Vec<IndexerUrl>, QueryError>(e),
        },
{
    match reply {
        HttpReply::Unreachable(why) => Err(QueryError::Network(why)),
        HttpReply::Answered { status: _, body } => match body {
            None => Err(QueryError::Decode(DecodeFault::MalformedBody)),
            Some(doc) => match find_allocations(&doc) {
                Some(items) => Ok(decode_indexer_urls(items, Ghost(allocations_in_body(doc@)->0))),
                None => Err(QueryError::Decode(DecodeFault::UnexpectedShape)),
            },
        },
    }
}

/// Turns the replies of a round of status queries into results: one per
/// indexer that was asked, in the same order, each as
/// [`query_indexing_status`] gives it.
pub fn query_indexing_statuses(replies: Vec<(IndexerUrl, HttpReply)>) -> (results: Vec<
    Result<IndexerInfo, QueryError>,
>)
    ensures
        results.len() == replies.len(),
        forall|i: int|
            0 <= i < replies.len() ==> match status_outcome(replies[i].1) {
                Ok(found) => (#[trigger] results[i]) matches Ok(info) && info.info == replies[i].0
                    && info.status@ == found && found.block_numbers_readable(),
                Err(e) => results[i] == Err::<IndexerInfo, QueryError>(e),
            },
{
    let mut results: Vec<Result<IndexerInfo, QueryError>> = Vec::new();
    let ghost all = replies@;
    for pair in it: replies
        invariant
            it.seq() == all,
            results.len() == it.index(),
            forall|i: int|
                0 <= i < it.index() ==> match status_outcome(all[i].1) {
                    Ok(found) => (#[trigger] results[i]) matches Ok(info) && info.info == all[i].0
                        && info.status@ == found && found.block_numbers_readable(),
                    Err(e) => results[i] == Err::<IndexerInfo, QueryError>(e),
                },
    {
        let (indexer_url, reply) = pair;
        let result = query_indexing_status(indexer_url, reply);
        results.push(result);
    }
    results
}

} // verus!
