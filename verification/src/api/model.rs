//! Mathematical model of the configuration values.
//!
//! A configuration is modelled by plain values: strings are sequences of
//! characters, and every query parameter is an `Option` that is `None` while
//! the parameter is absent. The operations of the executable types are
//! specified as functions on these models.

use vstd::prelude::*;

use crate::api::settings::QueryOrder;
use crate::{CARDANO_MAINNET_NETWORK, CARDANO_TESTNET_NETWORK};

verus! {

/// Model of the query parameters: five fields, each present or absent on its
/// own.
pub struct QueryParametersView {
    pub count: Option<u8>,
    pub page: Option<u64>,
    pub order: Option<QueryOrder>,
    pub from: Option<Seq<char>>,
    pub to: Option<Seq<char>>,
}

impl QueryParametersView {
    /// The parameters with every field absent.
    pub open spec fn empty() -> Self {
        QueryParametersView { count: None, page: None, order: None, from: None, to: None }
    }

    pub open spec fn set_count(self, count: u8) -> Self {
        QueryParametersView { count: Some(count), ..self }
    }

    pub open spec fn set_page(self, page: u64) -> Self {
        QueryParametersView { page: Some(page), ..self }
    }

    pub open spec fn set_order(self, order: QueryOrder) -> Self {
        QueryParametersView { order: Some(order), ..self }
    }

    pub open spec fn set_from(self, from: Seq<char>) -> Self {
        QueryParametersView { from: Some(from), ..self }
    }

    pub open spec fn set_to(self, to: Seq<char>) -> Self {
        QueryParametersView { to: Some(to), ..self }
    }

    pub open spec fn unset_count(self) -> Self {
        QueryParametersView { count: None, ..self }
    }

    pub open spec fn unset_page(self) -> Self {
        QueryParametersView { page: None, ..self }
    }

    pub open spec fn unset_order(self) -> Self {
        QueryParametersView { order: None, ..self }
    }

    pub open spec fn unset_from(self) -> Self {
        QueryParametersView { from: None, ..self }
    }

    pub open spec fn unset_to(self) -> Self {
        QueryParametersView { to: None, ..self }
    }
}

/// Model of the settings: the endpoint and the query parameters.
pub struct SettingsView {
    pub network_endpoint: Seq<char>,
    pub query_parameters: QueryParametersView,
}

impl SettingsView {
    /// The settings a client starts from: mainnet, no query parameter.
    pub open spec fn initial() -> Self {
        SettingsView {
            network_endpoint: CARDANO_MAINNET_NETWORK@,
            query_parameters: QueryParametersView::empty(),
        }
    }

    pub open spec fn set_network(self, network: Seq<char>) -> Self {
        SettingsView { network_endpoint: network, ..self }
    }

    pub open spec fn use_mainnet(self) -> Self {
        self.set_network(CARDANO_MAINNET_NETWORK@)
    }

    pub open spec fn use_testnet(self) -> Self {
        self.set_network(CARDANO_TESTNET_NETWORK@)
    }

    /// Whether an endpoint is named at all.
    pub open spec fn has_network(self) -> bool {
        self.network_endpoint.len() > 0
    }
}

/// The two preset endpoints are non-empty and differ from each other.
pub proof fn lemma_presets_distinct()
    ensures
        CARDANO_MAINNET_NETWORK@.len() > 0,
        CARDANO_TESTNET_NETWORK@.len() > 0,
        CARDANO_MAINNET_NETWORK@ != CARDANO_TESTNET_NETWORK@,
{
    reveal_strlit("https://cardano-mainnet.blockfrost.io/api/v0");
    reveal_strlit("https://cardano-testnet.blockfrost.io/api/v0");
    assert(CARDANO_MAINNET_NETWORK@[16] == 'm');
    assert(CARDANO_TESTNET_NETWORK@[16] == 't');
}

/// The endpoint chosen last is the one in force: switching to mainnet and
/// then to testnet leaves testnet, the reverse order leaves mainnet, and in
/// general a later `set_network` overrides every earlier choice. The query
/// parameters are untouched throughout.
pub proof fn lemma_last_network_wins(s: SettingsView, first: Seq<char>, last: Seq<char>)
    ensures
        s.use_mainnet().use_testnet().network_endpoint == CARDANO_TESTNET_NETWORK@,
        s.use_testnet().use_mainnet().network_endpoint == CARDANO_MAINNET_NETWORK@,
        s.use_mainnet().use_testnet() == s.use_testnet(),
        s.use_testnet().use_mainnet() == s.use_mainnet(),
        s.set_network(first).set_network(last) == s.set_network(last),
        s.set_network(last).network_endpoint == last,
        s.set_network(last).query_parameters == s.query_parameters,
        s.use_mainnet().has_network(),
        s.use_testnet().has_network(),
        s.set_network(last).has_network() <==> last.len() > 0,
{
    lemma_presets_distinct();
}

/// Setting a field and reading it back yields the value that was set;
/// unsetting it afterwards leaves it absent. This holds of each of the five
/// fields, whatever the parameters held before.
pub proof fn lemma_set_then_unset(
    q: QueryParametersView,
    count: u8,
    page: u64,
    order: QueryOrder,
    from: Seq<char>,
    to: Seq<char>,
)
    ensures
        q.set_count(count).count == Some(count),
        q.set_count(count).unset_count().count is None,
        q.set_page(page).page == Some(page),
        q.set_page(page).unset_page().page is None,
        q.set_order(order).order == Some(order),
        q.set_order(order).unset_order().order is None,
        q.set_from(from).from == Some(from),
        q.set_from(from).unset_from().from is None,
        q.set_to(to).to == Some(to),
        q.set_to(to).unset_to().to is None,
{
}

/// Writing one field leaves the other four as they were.
pub proof fn lemma_fields_independent(
    q: QueryParametersView,
    count: u8,
    page: u64,
    order: QueryOrder,
    from: Seq<char>,
    to: Seq<char>,
)
    ensures
        q.set_count(count) == (QueryParametersView { count: q.set_count(count).count, ..q }),
        q.unset_count() == (QueryParametersView { count: q.unset_count().count, ..q }),
        q.set_page(page) == (QueryParametersView { page: q.set_page(page).page, ..q }),
        q.unset_page() == (QueryParametersView { page: q.unset_page().page, ..q }),
        q.set_order(order) == (QueryParametersView { order: q.set_order(order).order, ..q }),
        q.unset_order() == (QueryParametersView { order: q.unset_order().order, ..q }),
        q.set_from(from) == (QueryParametersView { from: q.set_from(from).from, ..q }),
        q.unset_from() == (QueryParametersView { from: q.unset_from().from, ..q }),
        q.set_to(to) == (QueryParametersView { to: q.set_to(to).to, ..q }),
        q.unset_to() == (QueryParametersView { to: q.unset_to().to, ..q }),
{
}

/// Setters of different fields commute: the order in which a chain sets
/// them does not show in the result.
pub proof fn lemma_setters_commute(
    q: QueryParametersView,
    count: u8,
    page: u64,
    order: QueryOrder,
    from: Seq<char>,
    to: Seq<char>,
)
    ensures
        q.set_count(count).set_page(page) == q.set_page(page).set_count(count),
        q.set_count(count).set_order(order) == q.set_order(order).set_count(count),
        q.set_count(count).set_from(from) == q.set_from(from).set_count(count),
        q.set_count(count).set_to(to) == q.set_to(to).set_count(count),
        q.set_page(page).set_order(order) == q.set_order(order).set_page(page),
        q.set_page(page).set_from(from) == q.set_from(from).set_page(page),
        q.set_page(page).set_to(to) == q.set_to(to).set_page(page),
        q.set_order(order).set_from(from) == q.set_from(from).set_order(order),
        q.set_order(order).set_to(to) == q.set_to(to).set_order(order),
        q.set_from(from).set_to(to) == q.set_to(to).set_from(from),
{
}

} // verus!
