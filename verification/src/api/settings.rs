//! Endpoint selection and query parameters of a client.
//!
//! [`Settings`] names the endpoint that requests go to and owns the
//! [`QueryParameters`] that are attached to them. Both are plain values:
//! every operation is total and changes exactly what its contract names.

use vstd::prelude::*;

use crate::api::model::{lemma_presets_distinct, QueryParametersView, SettingsView};
use crate::{CARDANO_MAINNET_NETWORK, CARDANO_TESTNET_NETWORK};

verus! {

/// Sort order of a listing.
#[derive(Debug, Clone, Copy, PartialEq, Eq, Structural)]
pub enum QueryOrder {
    Ascending,
    Descending,
}

impl QueryOrder {
    /// The token that stands for this order in a query string.
    pub open spec fn rendering(self) -> Seq<char> {
        match self {
            QueryOrder::Ascending => seq!['a', 's', 'c'],
            QueryOrder::Descending => seq!['d', 'e', 's', 'c'],
        }
    }

    /// The renderings are the literals `asc` and `desc`.
    pub proof fn lemma_rendering_literals()
        ensures
            QueryOrder::Ascending.rendering() == "asc"@,
            QueryOrder::Descending.rendering() == "desc"@,
    {
        reveal_strlit("asc");
        reveal_strlit("desc");
        assert("asc"@ =~= seq!['a', 's', 'c']);
        assert("desc"@ =~= seq!['d', 'e', 's', 'c']);
    }

    /// The lowercase token of this order, `asc` or `desc`.
    pub fn as_str(&self) -> (token: &'static str)
        ensures
            token@ == self.rendering(),
    {
        proof {
            Self::lemma_rendering_literals();
        }
        match self {
            QueryOrder::Ascending => "asc",
            QueryOrder::Descending => "desc",
        }
    }

    /// The token of this order as an owned string.
    pub fn to_string(&self) -> (token: String)
        ensures
            token@ == self.rendering(),
    {
        self.as_str().to_string()
    }
}

impl Default for QueryOrder {
    /// Listings ascend unless told otherwise.
    fn default() -> (order: Self)
        ensures
            order == QueryOrder::Ascending,
    {
        QueryOrder::Ascending
    }
}

/// Optional modifiers of a request. Each field is present or absent
/// independently of the others.
#[derive(Debug)]
pub struct QueryParameters {
    /// Page size.
    pub count: Option<u8>,
    /// Page index.
    pub page: Option<u64>,
    /// Sort order.
    pub order: Option<QueryOrder>,
    /// Lower bound of the range.
    pub from: Option<String>,
    /// Upper bound of the range.
    pub to: Option<String>,
}

impl View for QueryParameters {
    type V = QueryParametersView;

    open spec fn view(&self) -> QueryParametersView {
        QueryParametersView {
            count: self.count,
            page: self.page,
            order: self.order,
            from: match self.from {
                Some(s) => Some(s@),
                None => None,
            },
            to: match self.to {
                Some(s) => Some(s@),
                None => None,
            },
        }
    }
}

impl Default for QueryParameters {
    /// Parameters with every field absent.
    fn default() -> (q: Self)
        ensures
            q@ == QueryParametersView::empty(),
    {
        QueryParameters { count: None, page: None, order: None, from: None, to: None }
    }
}

impl Clone for QueryParameters {
    fn clone(&self) -> (q: Self)
        ensures
            q == *self,
            q@ == self@,
    {
        QueryParameters {
            count: self.count,
            page: self.page,
            order: self.order,
            from: self.from.clone(),
            to: self.to.clone(),
        }
    }
}

impl QueryParameters {
    /// Sets the page size; no other field changes. The parameters come
    /// back for chaining.
    pub fn set_count(&mut self, count: u8) -> (ret: &mut Self)
        ensures
            *ret == (QueryParameters { count: Some(count), ..*old(self) }),
            ret@ == old(self)@.set_count(count),
            *final(self) == *final(ret),
    {
        self.count = Some(count);
        self
    }

    /// Sets the page index; no other field changes. The parameters come
    /// back for chaining.
    pub fn set_page(&mut self, page: u64) -> (ret: &mut Self)
        ensures
            *ret == (QueryParameters { page: Some(page), ..*old(self) }),
            ret@ == old(self)@.set_page(page),
            *final(self) == *final(ret),
    {
        self.page = Some(page);
        self
    }

    /// Sets the sort order; no other field changes. The parameters come
    /// back for chaining.
    pub fn set_order(&mut self, order: QueryOrder) -> (ret: &mut Self)
        ensures
            *ret == (QueryParameters { order: Some(order), ..*old(self) }),
            ret@ == old(self)@.set_order(order),
            *final(self) == *final(ret),
    {
        self.order = Some(order);
        self
    }

    /// Sets the lower bound of the range; no other field changes. The parameters come
    /// back for chaining.
    pub fn set_from(&mut self, from: String) -> (ret: &mut Self)
        ensures
            *ret == (QueryParameters { from: Some(from), ..*old(self) }),
            ret@ == old(self)@.set_from(from@),
            *final(self) == *final(ret),
    {
        self.from = Some(from);
        self
    }

    /// Sets the upper bound of the range; no other field changes. The parameters come
    /// back for chaining.
    pub fn set_to(&mut self, to: String) -> (ret: &mut Self)
        ensures
            *ret == (QueryParameters { to: Some(to), ..*old(self) }),
            ret@ == old(self)@.set_to(to@),
            *final(self) == *final(ret),
    {
        self.to = Some(to);
        self
    }

    /// Clears the page size; no other field changes. The parameters come
    /// back for chaining.
    pub fn unset_count(&mut self) -> (ret: &mut Self)
        ensures
            *ret == (QueryParameters { count: None, ..*old(self) }),
            ret@ == old(self)@.unset_count(),
            *final(self) == *final(ret),
    {
        self.count = None;
        self
    }

    /// Clears the page index; no other field changes. The parameters come
    /// back for chaining.
    pub fn unset_page(&mut self) -> (ret: &mut Self)
        ensures
            *ret == (QueryParameters { page: None, ..*old(self) }),
            ret@ == old(self)@.unset_page(),
            *final(self) == *final(ret),
    {
        self.page = None;
        self
    }

    /// Clears the sort order; no other field changes. The parameters come
    /// back for chaining.
    pub fn unset_order(&mut self) -> (ret: &mut Self)
        ensures
            *ret == (QueryParameters { order: None, ..*old(self) }),
            ret@ == old(self)@.unset_order(),
            *final(self) == *final(ret),
    {
        self.order = None;
        self
    }

    /// Clears the lower bound of the range; no other field changes. The parameters come
    /// back for chaining.
    pub fn unset_from(&mut self) -> (ret: &mut Self)
        ensures
            *ret == (QueryParameters { from: None, ..*old(self) }),
            ret@ == old(self)@.unset_from(),
            *final(self) == *final(ret),
    {
        self.from = None;
        self
    }

    /// Clears the upper bound of the range; no other field changes. The parameters come
    /// back for chaining.
    pub fn unset_to(&mut self) -> (ret: &mut Self)
        ensures
            *ret == (QueryParameters { to: None, ..*old(self) }),
            ret@ == old(self)@.unset_to(),
            *final(self) == *final(ret),
    {
        self.to = None;
        self
    }
}

/// The endpoint that requests go to, and the query parameters attached to
/// them.
#[derive(Debug)]
pub struct Settings {
    network_endpoint: String,
    query_parameters: QueryParameters,
}

impl View for Settings {
    type V = SettingsView;

    open spec fn view(&self) -> SettingsView {
        SettingsView {
            network_endpoint: self.network(),
            query_parameters: self.parameters()@,
        }
    }
}

impl Settings {
    /// The characters of the endpoint.
    pub closed spec fn network(&self) -> Seq<char> {
        self.network_endpoint@
    }

    /// The query parameters that these settings own.
    pub closed spec fn parameters(&self) -> QueryParameters {
        self.query_parameters
    }

    /// Settings for mainnet with no query parameter.
    pub fn new() -> (settings: Self)
        ensures
            settings@ == SettingsView::initial(),
            settings@.has_network(),
    {
        proof {
            lemma_presets_distinct();
        }
        Self {
            network_endpoint: CARDANO_MAINNET_NETWORK.to_string(),
            query_parameters: QueryParameters::default(),
        }
    }

    /// Points the settings at mainnet, whatever they named before.
    pub fn use_mainnet(self) -> (settings: Self)
        ensures
            settings@ == self@.use_mainnet(),
            settings@.has_network(),
            settings.parameters() == self.parameters(),
    {
        proof {
            lemma_presets_distinct();
        }
        let mut settings = self;
        settings.network_endpoint = CARDANO_MAINNET_NETWORK.to_string();
        settings
    }

    /// Points the settings at testnet, whatever they named before.
    pub fn use_testnet(self) -> (settings: Self)
        ensures
            settings@ == self@.use_testnet(),
            settings@.has_network(),
            settings.parameters() == self.parameters(),
    {
        proof {
            lemma_presets_distinct();
        }
        let mut settings = self;
        settings.network_endpoint = CARDANO_TESTNET_NETWORK.to_string();
        settings
    }

    /// Replaces the endpoint by `network`, which is taken as it is: an empty
    /// or malformed endpoint is stored like any other.
    pub fn set_network(&mut self, network: &str)
        ensures
            final(self)@ == old(self)@.set_network(network@),
            final(self).parameters() == old(self).parameters(),
    {
        self.network_endpoint = network.to_string();
    }

    /// The endpoint in force.
    pub fn current_network(&self) -> (network: &str)
        ensures
            network@ == self@.network_endpoint,
    {
        self.network_endpoint.as_str()
    }

    /// The query parameters in force.
    pub fn query_parameters(&self) -> (parameters: &QueryParameters)
        ensures
            *parameters == self.parameters(),
    {
        &self.query_parameters
    }

    /// Hands the query parameters to `function` once and keeps what it
    /// leaves in them. The endpoint stays as it is.
    ///
    /// `function` must accept the parameters as they stand; the result holds
    /// the parameters in a state that one call of `function` on them can
    /// end in.
    pub fn configure<F>(self, function: F) -> (settings: Self) where
        F: FnOnce(&mut QueryParameters),

        requires
            forall|q: &mut QueryParameters|
                *q == self.parameters() ==> #[trigger] call_requires(function, (q,)),
        ensures
            settings@.network_endpoint == self@.network_endpoint,
            exists|q: &mut QueryParameters|
                *q == self.parameters() && #[trigger] call_ensures(function, (q,), ())
                    && *final(q) == settings.parameters(),
    {
        let mut settings = self;
        function(&mut settings.query_parameters);
        settings
    }
}

impl Default for Settings {
    /// The same settings as [`Settings::new`].
    fn default() -> (settings: Self)
        ensures
            settings@ == SettingsView::initial(),
            settings@.has_network(),
    {
        Settings::new()
    }
}

impl Clone for Settings {
    fn clone(&self) -> (settings: Self)
        ensures
            settings == *self,
            settings@ == self@,
    {
        Settings {
            network_endpoint: self.network_endpoint.clone(),
            query_parameters: self.query_parameters.clone(),
        }
    }
}

} // verus!
