//! The "online" provider: the inventory comes as ranges of products, and
//! the availability of one product as the list of datacenters that stock it.

use crate::error::ErrorView;
use crate::providers::{listed, ServerInfo, ServerInfoView};
use crate::text::{decimal, decimal_text, join, joined, strip_whitespace, without_spaces};
use crate::{
    api_error_check, api_error_text, csv_outcome, env_outcome, env_text, get_env_var,
    get_env_var_option, option_text, status_is_success, tokenize_optional_csv_str, Authentication,
    Environment, LibError, STATUS_NOT_FOUND,
};
use array_tool::vec::Intersect;
use vstd::prelude::*;

verus! {

/// Common name to identify the provider.
pub const ONLINE_NAME: &'static str = "online";

/// Environment variable that holds the API key.
pub const ENV_ONLINE_PRIVATE_TOKEN: &'static str = "ONLINE_PRIVATE_TOKEN";

/// Environment variable that lists the datacenters that count.
pub const ENV_ONLINE_DATACENTERS: &'static str = "ONLINE_DATACENTERS";

/// The address that lists all plans.
pub const ONLINE_PLANS_URL: &'static str = "https://api.online.net/api/v1/dedibox/plans";

/// What goes before the status in the report of a refused request.
pub const ONLINE_REQUEST_ERROR: &'static str = "Online dedibox request error";

/// The texts that stand in both lists: each once, in the order of the
/// first list.
pub open spec fn common(a: Seq<Seq<char>>, b: Seq<Seq<char>>) -> Seq<Seq<char>>
    decreases a.len(),
{
    if a.len() == 0 {
        Seq::<Seq<char>>::empty()
    } else {
        let head = common(a.drop_last(), b);
        if b.contains(a.last()) && !a.drop_last().contains(a.last()) {
            head.push(a.last())
        } else {
            head
        }
    }
}

/// Intersects two lists with `Intersect::intersect` of the `array_tool`
/// crate: what comes back holds the strings of `wanted` that also stand in
/// `stocked`, without duplicates, in the order of `wanted`.
#[verifier::external_body]
fn intersect(wanted: &Vec<String>, stocked: Vec<String>) -> (both: Vec<String>)
    ensures
        both.deep_view() == common(wanted.deep_view(), stocked.deep_view()),
{
    wanted.intersect(stocked)
}

/// The two lists share a text exactly where their intersection is not empty.
proof fn lemma_common_nonempty(a: Seq<Seq<char>>, b: Seq<Seq<char>>)
    ensures
        common(a, b).len() > 0 <==> shares_one(a, b),
    decreases a.len(),
{
    if a.len() > 0 {
        let head = a.drop_last();
        lemma_common_nonempty(head, b);
        if exists|i: int| 0 <= i < head.len() && b.contains(#[trigger] head[i]) {
            let i = choose|i: int| 0 <= i < head.len() && b.contains(#[trigger] head[i]);
            assert(b.contains(a[i]));
        }
        if b.contains(a.last()) {
            assert(b.contains(a[a.len() - 1]));
            if head.contains(a.last()) {
                let j = choose|j: int| 0 <= j < head.len() && head[j] == a.last();
                assert(b.contains(head[j]));
            }
        }
        if exists|i: int| 0 <= i < a.len() && b.contains(#[trigger] a[i]) {
            let i = choose|i: int| 0 <= i < a.len() && b.contains(#[trigger] a[i]);
            if i < head.len() {
                assert(b.contains(head[i]));
            }
        }
    }
}

/// The hardware of a product, as texts.
#[derive(Clone, Debug, PartialEq, Eq)]
pub struct OnlineDediboxProductSpecs {
    pub cpu: String,
    pub ram: String,
    pub disks: String,
}

/// A datacenter.
#[derive(Clone, Debug, PartialEq, Eq)]
pub struct OnlineDediboxProductDatacenter {
    pub name: String,
}

/// How many servers of a product a datacenter has.
#[derive(Clone, Debug, PartialEq, Eq)]
pub struct OnlineDediboxProductStock {
    pub datacenter: OnlineDediboxProductDatacenter,
    pub stock: u32,
}

/// One product of the inventory.
#[derive(Clone, Debug, PartialEq, Eq)]
pub struct OnlineDediboxProduct {
    pub id: u32,
    pub slug: String,
    pub specs: OnlineDediboxProductSpecs,
    pub stocks: Vec<OnlineDediboxProductStock>,
}

/// The availability of one product: the datacenters that stock it now,
/// and the flag that the API sends along.
#[derive(Clone, Debug, PartialEq, Eq)]
pub struct OnlineDediboxProductAvailability {
    pub available: bool,
    pub datacenters: Vec<OnlineDediboxProductDatacenter>,
}

/// The names of the datacenters of some stocks, in order.
pub open spec fn stock_names(stocks: Seq<OnlineDediboxProductStock>) -> Seq<Seq<char>> {
    stocks.map_values(|s: OnlineDediboxProductStock| s.datacenter.name@)
}

/// The names of some datacenters, in order.
pub open spec fn datacenter_names(datacenters: Seq<OnlineDediboxProductDatacenter>) -> Seq<
    Seq<char>,
> {
    datacenters.map_values(|d: OnlineDediboxProductDatacenter| d.name@)
}

impl OnlineDediboxProduct {
    /// Available means: some datacenter has at least one.
    pub open spec fn available(&self) -> bool {
        exists|i: int| 0 <= i < self.stocks.len() && (#[trigger] self.stocks[i]).stock > 0
    }

    /// Tells whether any datacenter has the product in stock.
    pub fn is_available(&self) -> (b: bool)
        ensures
            b == self.available(),
    {
        let mut i: usize = 0;
        while i < self.stocks.len()
            invariant
                i <= self.stocks.len(),
                forall|k: int| 0 <= k < i ==> (#[trigger] self.stocks[k]).stock == 0,
            decreases self.stocks.len() - i,
        {
            if self.stocks[i].stock > 0 {
                return true;
            }
            i += 1;
        }
        false
    }

    /// What `server_info` makes of this product.
    pub open spec fn info_view(&self) -> ServerInfoView {
        ServerInfoView {
            reference: decimal_text(self.id as nat) + " ("@ + self.slug@ + "@"@ + joined(
                stock_names(self.stocks@),
                ","@,
            ) + ")"@,
            memory: without_spaces(self.specs.ram@),
            storage: without_spaces(self.specs.disks@),
            available: self.available(),
        }
    }

    /// Extracts what is common to all providers.
    pub fn server_info(&self) -> (info: ServerInfo)
        ensures
            info@ == self.info_view(),
    {
        let mut names: Vec<String> = Vec::new();
        let mut i: usize = 0;
        while i < self.stocks.len()
            invariant
                i <= self.stocks.len(),
                names.len() == i,
                forall|k: int| 0 <= k < i ==> (#[trigger] names@[k])@ == self.stocks@[k].datacenter.name@,
            decreases self.stocks.len() - i,
        {
            names.push(self.stocks[i].datacenter.name.clone());
            i += 1;
        }
        assert(names.deep_view() =~= stock_names(self.stocks@));
        let mut reference = decimal(self.id as u128);
        reference.append(" (");
        reference.append(self.slug.as_str());
        reference.append("@");
        reference.append(join(&names, ",").as_str());
        reference.append(")");
        ServerInfo {
            reference,
            memory: strip_whitespace(self.specs.ram.as_str()),
            storage: strip_whitespace(self.specs.disks.as_str()),
            available: self.is_available(),
        }
    }
}

/// One entry of a range of plans: a product, or the reason why the entry
/// could not be read as one.
#[derive(Debug)]
pub enum OnlineProductEntry {
    Product(OnlineDediboxProduct),
    Malformed(serde_json::Error),
}

/// One range of plans as the API returned it; `products` is `None` where
/// the range is not a JSON object.
#[derive(Debug)]
pub struct OnlinePlanRange {
    pub name: String,
    pub products: Option<Vec<OnlineProductEntry>>,
}

/// The failure that reports a value which is not a JSON object.
pub open spec fn not_an_object(name: Seq<char>) -> ErrorView {
    ErrorView::ApiError { message: "Dedibox value "@ + name + " is not a json object"@ }
}

/// The products of some entries in order, or the failure of the first
/// entry that is none.
pub open spec fn entries_outcome(entries: Seq<OnlineProductEntry>) -> Result<
    Seq<OnlineDediboxProduct>,
    ErrorView,
>
    decreases entries.len(),
{
    if entries.len() == 0 {
        Ok(Seq::empty())
    } else {
        match entries_outcome(entries.drop_last()) {
            Err(e) => Err(e),
            Ok(before) => match entries.last() {
                OnlineProductEntry::Product(product) => Ok(before.push(product)),
                OnlineProductEntry::Malformed(source) => Err(ErrorView::JsonError { source }),
            },
        }
    }
}

/// The products of one range, or the first failure in it.
pub open spec fn range_outcome(range: OnlinePlanRange) -> Result<
    Seq<OnlineDediboxProduct>,
    ErrorView,
> {
    match range.products {
        None => Err(not_an_object(range.name@)),
        Some(entries) => entries_outcome(entries@),
    }
}

/// The products of all ranges in order, or the first failure.
pub open spec fn ranges_outcome(ranges: Seq<OnlinePlanRange>) -> Result<
    Seq<OnlineDediboxProduct>,
    ErrorView,
>
    decreases ranges.len(),
{
    if ranges.len() == 0 {
        Ok(Seq::empty())
    } else {
        match ranges_outcome(ranges.drop_last()) {
            Err(e) => Err(e),
            Ok(before) => match range_outcome(ranges.last()) {
                Err(e) => Err(e),
                Ok(products) => Ok(before + products),
            },
        }
    }
}

/// What `get_plans` answers; no root at all means that the answer was not
/// a JSON object.
pub open spec fn plans_outcome(root: Option<Vec<OnlinePlanRange>>) -> Result<
    Seq<OnlineDediboxProduct>,
    ErrorView,
> {
    match root {
        None => Err(not_an_object("root"@)),
        Some(ranges) => ranges_outcome(ranges@),
    }
}

/// The view of a result that holds products or a failure.
pub open spec fn plans_view(r: Result<Vec<OnlineDediboxProduct>, LibError>) -> Result<
    Seq<OnlineDediboxProduct>,
    ErrorView,
> {
    match r {
        Ok(products) => Ok(products@),
        Err(e) => Err(e@),
    }
}

/// What every provider tells about each of the products.
pub open spec fn product_infos(products: Seq<OnlineDediboxProduct>) -> Seq<ServerInfoView> {
    products.map_values(|product: OnlineDediboxProduct| product.info_view())
}

/// Gets server inventory and availability.
#[derive(Clone, Debug, PartialEq, Eq)]
pub struct Online {
    pub api_token: String,
    pub datacenters: Vec<String>,
}

/// What `Online::new` answers: the token and the datacenters, or the
/// first objection.
pub open spec fn online_outcome(api_token: Seq<char>, dc_csv: Option<Seq<char>>) -> Result<
    (Seq<char>, Seq<Seq<char>>),
    ErrorView,
> {
    if api_token.len() == 0 {
        Err(ErrorView::ValueError { name: "found empty online api token"@, value: api_token })
    } else {
        match csv_outcome(dc_csv) {
            Err(e) => Err(e),
            Ok(datacenters) => Ok((api_token, datacenters)),
        }
    }
}

/// What `Online::from_env` answers.
pub open spec fn online_env_outcome(env: Environment) -> Result<
    (Seq<char>, Seq<Seq<char>>),
    ErrorView,
> {
    match env_outcome(env, ENV_ONLINE_PRIVATE_TOKEN@) {
        Err(e) => Err(e),
        Ok(api_token) => online_outcome(api_token, env_text(env, ENV_ONLINE_DATACENTERS@)),
    }
}

/// The view of a result that holds a provider or a failure.
pub open spec fn built_view(r: Result<Online, LibError>) -> Result<
    (Seq<char>, Seq<Seq<char>>),
    ErrorView,
> {
    match r {
        Ok(online) => Ok((online.api_token@, online.datacenters.deep_view())),
        Err(e) => Err(e@),
    }
}

/// What the status of an answer about one product says: whether an
/// availability follows.
pub open spec fn availability_outcome(status: u16) -> Result<bool, ErrorView> {
    if status == STATUS_NOT_FOUND {
        Ok(false)
    } else if status_is_success(status) {
        Ok(true)
    } else {
        Err(ErrorView::ApiError { message: api_error_text(ONLINE_REQUEST_ERROR@, status) })
    }
}

/// Tells whether some text of the first list stands in the second.
pub open spec fn shares_one(a: Seq<Seq<char>>, b: Seq<Seq<char>>) -> bool {
    exists|i: int| 0 <= i < a.len() && b.contains(#[trigger] a[i])
}

/// Whether a product counts as available: where any datacenter stocks it
/// if no datacenter was configured, else where a configured datacenter
/// stocks it. The flag that comes with the list decides nothing.
pub open spec fn counts_as_available(
    wanted: Seq<Seq<char>>,
    availability: OnlineDediboxProductAvailability,
) -> bool {
    if wanted.len() == 0 {
        availability.datacenters@.len() > 0
    } else {
        shares_one(wanted, datacenter_names(availability.datacenters@))
    }
}

/// What `check` answers.
pub open spec fn check_outcome(
    wanted: Seq<Seq<char>>,
    server: Seq<char>,
    lookup: Option<OnlineDediboxProductAvailability>,
) -> Result<bool, ErrorView> {
    match lookup {
        None => Err(ErrorView::UnknownServer { server }),
        Some(availability) => Ok(counts_as_available(wanted, availability)),
    }
}

impl Online {
    /// Builds a new instance from a token, which may not be empty, and an
    /// optional comma separated list of datacenters.
    pub fn new(api_token: &str, dc_csv: &Option<String>) -> (r: Result<Self, LibError>)
        ensures
            built_view(r) == online_outcome(api_token@, option_text(*dc_csv)),
    {
        if api_token.is_empty() {
            return Err(
                LibError::ValueError {
                    name: "found empty online api token".to_owned(),
                    value: api_token.to_owned(),
                },
            );
        }
        let datacenters = tokenize_optional_csv_str(dc_csv)?;
        Ok(Self { api_token: api_token.to_owned(), datacenters })
    }

    /// Builds an Online provider from environment variables.
    pub fn from_env(env: &Environment) -> (r: Result<Self, LibError>)
        ensures
            built_view(r) == online_env_outcome(*env),
    {
        let api_token = get_env_var(env, ENV_ONLINE_PRIVATE_TOKEN)?;
        let dc_csv = get_env_var_option(env, ENV_ONLINE_DATACENTERS);
        Self::new(api_token.as_str(), &dc_csv)
    }

    /// Gets the actual name of the provider.
    pub fn name(&self) -> (name: &'static str)
        ensures
            name@ == ONLINE_NAME@,
    {
        ONLINE_NAME
    }

    /// The header that authenticates every request.
    pub fn authentication(&self) -> (auth: Authentication)
        ensures
            auth.header@ == "Authorization"@,
            auth.value@ == "Bearer "@ + self.api_token@,
    {
        Authentication::bearer_token(self.api_token.as_str())
    }

    /// The address that tells the availability of one product.
    pub fn availability_url(product_id: &str) -> (url: String)
        ensures
            url@ == "https://api.online.net/api/v1/dedibox/availability/"@ + product_id@,
    {
        let mut url = "https://api.online.net/api/v1/dedibox/availability/".to_owned();
        url.append(product_id);
        url
    }

    /// Judges the status of an answer that is expected to succeed.
    pub fn get_authenticated_url(status: u16) -> (r: Result<(), LibError>)
        ensures
            crate::unit_result_view(r) == crate::status_outcome(ONLINE_REQUEST_ERROR@, status),
    {
        api_error_check(status, ONLINE_REQUEST_ERROR)
    }

    /// Judges the status of an answer about one product: "not found" is no
    /// failure of the request, the provider just has no such product.
    pub fn get_product_availability(status: u16) -> (r: Result<bool, LibError>)
        ensures
            crate::providers::check_view(r) == availability_outcome(status),
    {
        if status == STATUS_NOT_FOUND {
            return Ok(false);
        }
        api_error_check(status, ONLINE_REQUEST_ERROR)?;
        Ok(true)
    }

    /// The failure that reports a value which is not a JSON object.
    pub fn object_expected(name: &str) -> (e: LibError)
        ensures
            e@ == not_an_object(name@),
    {
        let mut message = "Dedibox value ".to_owned();
        message.append(name);
        message.append(" is not a json object");
        LibError::ApiError { message }
    }

    /// Flattens the ranges of plans into one list of products, and stops at
    /// the first range that is no object and at the first entry that is no
    /// product.
    pub fn get_plans(root: Option<Vec<OnlinePlanRange>>) -> (r: Result<
        Vec<OnlineDediboxProduct>,
        LibError,
    >)
        ensures
            plans_view(r) == plans_outcome(root),
    {
        let ranges = match root {
            Some(ranges) => ranges,
            None => {
                return Err(Self::object_expected("root"));
            },
        };
        let mut results: Vec<OnlineDediboxProduct> = Vec::new();
        let ghost all = ranges@;
        assert(all.take(0) =~= Seq::<OnlinePlanRange>::empty());
        for range in ranges_iter: ranges
            invariant
                ranges_iter.seq() == all,
                plans_outcome(root) == ranges_outcome(all),
                ranges_outcome(all.take(ranges_iter.index() as int)) == Ok::<
                    Seq<OnlineDediboxProduct>,
                    ErrorView,
                >(results@),
        {
            let ghost done = ranges_iter.index() as int;
            let ghost start = results@;
            proof {
                assert(done < all.len());
                assert(all.take(done + 1).drop_last() =~= all.take(done));
                assert(all.take(done + 1).last() == range);
            }
            let entries = match range.products {
                Some(entries) => entries,
                None => {
                    let e = Self::object_expected(range.name.as_str());
                    proof {
                        lemma_failure_stays(all, done + 1);
                    }
                    return Err(e);
                },
            };
            let ghost listed_entries = entries@;
            assert(listed_entries.take(0) =~= Seq::<OnlineProductEntry>::empty());
            assert(start + Seq::<OnlineDediboxProduct>::empty() =~= start);
            for entry in entries_iter: entries
                invariant
                    entries_iter.seq() == listed_entries,
                    range_outcome(range) == entries_outcome(listed_entries),
                    plans_outcome(root) == ranges_outcome(all),
                    0 <= done,
                    done + 1 <= all.len(),
                    ranges_outcome(all.take(done)) == Ok::<Seq<OnlineDediboxProduct>, ErrorView>(
                        start,
                    ),
                    ranges_outcome(all.take(done + 1)) == match range_outcome(range) {
                        Err(e) => Err(e),
                        Ok(products) => Ok(start + products),
                    },
                    exists|found: Seq<OnlineDediboxProduct>|
                        entries_outcome(listed_entries.take(entries_iter.index() as int)) == Ok::<
                            Seq<OnlineDediboxProduct>,
                            ErrorView,
                        >(found) && results@ == start + found,
            {
                let ghost seen = entries_iter.index() as int;
                let ghost found = choose|found: Seq<OnlineDediboxProduct>|
                    entries_outcome(listed_entries.take(seen)) == Ok::<
                        Seq<OnlineDediboxProduct>,
                        ErrorView,
                    >(found) && results@ == start + found;
                proof {
                    assert(seen < listed_entries.len());
                    assert(listed_entries.take(seen + 1).drop_last() =~= listed_entries.take(seen));
                    assert(listed_entries.take(seen + 1).last() == entry);
                }
                match entry {
                    OnlineProductEntry::Product(product) => {
                        results.push(product);
                        assert(results@ =~= start + found.push(product));
                    },
                    OnlineProductEntry::Malformed(source) => {
                        proof {
                            lemma_entry_failure_stays(listed_entries, seen + 1);
                            lemma_failure_stays(all, done + 1);
                        }
                        return Err(LibError::JsonError { source });
                    },
                }
            }
            proof {
                assert(listed_entries.take(listed_entries.len() as int) =~= listed_entries);
            }
        }
        assert(all.take(all.len() as int) =~= all);
        Ok(results)
    }

    /// Collects provider inventory out of the products of all plans.
    pub fn inventory(products: &Vec<OnlineDediboxProduct>, include_unavailable: bool) -> (servers:
        Vec<ServerInfo>)
        ensures
            servers.deep_view() == listed(product_infos(products@), include_unavailable),
    {
        let mut servers: Vec<ServerInfo> = Vec::new();
        let mut i: usize = 0;
        let ghost shown = |info: ServerInfoView| info.available || include_unavailable;
        proof {
            assert(product_infos(products@.take(0)) =~= Seq::<ServerInfoView>::empty());
            assert(servers.deep_view() =~= Seq::<ServerInfoView>::empty());
        }
        while i < products.len()
            invariant
                i <= products.len(),
                shown == (|info: ServerInfoView| info.available || include_unavailable),
                servers.deep_view() == product_infos(products@.take(i as int)).filter(shown),
            decreases products.len() - i,
        {
            let ghost before = servers.deep_view();
            proof {
                assert(product_infos(products@.take(i + 1)).drop_last() =~= product_infos(
                    products@.take(i as int),
                ));
                assert(product_infos(products@.take(i + 1)).last() == products@[i as int].info_view());
                reveal(Seq::filter);
            }
            if products[i].is_available() || include_unavailable {
                let info = products[i].server_info();
                servers.push(info);
                assert(servers.deep_view() =~= before.push(info@));
            }
            i += 1;
        }
        assert(products@.take(products.len() as int) =~= products@);
        servers
    }

    /// Tells whether a product is available, out of what the API answered
    /// for it; no answer means that the provider has no such product.
    pub fn check(&self, server: &str, lookup: &Option<OnlineDediboxProductAvailability>) -> (r:
        Result<bool, LibError>)
        ensures
            crate::providers::check_view(r) == check_outcome(
                self.datacenters.deep_view(),
                server@,
                *lookup,
            ),
    {
        let availability = match lookup {
            Some(availability) => availability,
            None => {
                return Err(LibError::UnknownServer { server: server.to_owned() });
            },
        };
        // if we do not filter on datacenters, any of them will be fine
        if self.datacenters.len() == 0 {
            assert(self.datacenters.deep_view().len() == 0);
            return Ok(availability.datacenters.len() > 0);
        }
        // extract available datacenter names, and find if any are in common with desired ones
        let mut stocked: Vec<String> = Vec::new();
        let mut i: usize = 0;
        while i < availability.datacenters.len()
            invariant
                i <= availability.datacenters.len(),
                stocked.len() == i,
                forall|k: int| 0 <= k < i ==> (#[trigger] stocked@[k])@ == availability.datacenters@[k].name@,
            decreases availability.datacenters.len() - i,
        {
            stocked.push(availability.datacenters[i].name.clone());
            i += 1;
        }
        assert(stocked.deep_view() =~= datacenter_names(availability.datacenters@));
        let result = intersect(&self.datacenters, stocked);
        proof {
            assert(result.deep_view().len() == result.len());
            assert(self.datacenters.deep_view().len() > 0);
            lemma_common_nonempty(
                self.datacenters.deep_view(),
                datacenter_names(availability.datacenters@),
            );
        }
        Ok(result.len() > 0)
    }
}

proof fn lemma_entry_failure_stays(entries: Seq<OnlineProductEntry>, upto: int)
    requires
        0 <= upto <= entries.len(),
        entries_outcome(entries.take(upto)) is Err,
    ensures
        entries_outcome(entries) == entries_outcome(entries.take(upto)),
    decreases entries.len() - upto,
{
    if upto == entries.len() {
        assert(entries.take(upto) =~= entries);
    } else {
        assert(entries.take(upto + 1).drop_last() =~= entries.take(upto));
        lemma_entry_failure_stays(entries, upto + 1);
    }
}

proof fn lemma_failure_stays(ranges: Seq<OnlinePlanRange>, upto: int)
    requires
        0 <= upto <= ranges.len(),
        ranges_outcome(ranges.take(upto)) is Err,
    ensures
        ranges_outcome(ranges) == ranges_outcome(ranges.take(upto)),
    decreases ranges.len() - upto,
{
    if upto == ranges.len() {
        assert(ranges.take(upto) =~= ranges);
    } else {
        assert(ranges.take(upto + 1).drop_last() =~= ranges.take(upto));
        lemma_failure_stays(ranges, upto + 1);
    }
}

} // verus!
