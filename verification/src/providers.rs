//! The providers of dedicated servers, and what is common to them.

use crate::error::ErrorView;
use crate::notifiers::{Notification, NotificationView, Notifier, NotifierView};
use crate::providers::online::{
    online_env_outcome, plans_outcome, product_infos, Online, OnlineDediboxProductAvailability,
    OnlinePlanRange, ONLINE_NAME,
};
use crate::providers::ovh::{
    info_views, lists_server, Ovh, OvhDedicatedServerInformation, ENV_NAME_OVH_EXCLUDE_DATACENTER,
    OVH_NAME,
};
use crate::providers::scaleway::{
    any_seen, merged_zones, offer_infos, scaleway_env_outcome, sighting_views, zone_views,
    Scaleway, ScalewayBaremetalOffer, SCALEWAY_NAME,
};
use crate::sorting::{sort_strings, sorted_texts};
use crate::storage::{
    equal_outcome, fingerprint, law_first_run_differs, law_written_record_matches, path_under,
    record_name, CheckResultStorage, DirectoryProbe, RecordRead, StoredRecord,
};
use crate::text::text_eq;
use crate::{csv_outcome, env_text, CheckResult, CheckResultView, Environment, LibError};
use vstd::prelude::*;

pub mod online;
pub mod ovh;
pub mod scaleway;

verus! {

/// What every provider tells about one kind of server.
#[derive(Clone, Debug, PartialEq, Eq)]
pub struct ServerInfo {
    pub reference: String,
    pub memory: String,
    pub storage: String,
    pub available: bool,
}

/// What a `ServerInfo` holds, with every text as a sequence of characters.
pub struct ServerInfoView {
    pub reference: Seq<char>,
    pub memory: Seq<char>,
    pub storage: Seq<char>,
    pub available: bool,
}

impl View for ServerInfo {
    type V = ServerInfoView;

    open spec fn view(&self) -> ServerInfoView {
        ServerInfoView {
            reference: self.reference@,
            memory: self.memory@,
            storage: self.storage@,
            available: self.available,
        }
    }
}

impl DeepView for ServerInfo {
    type V = ServerInfoView;

    open spec fn deep_view(&self) -> ServerInfoView {
        self@
    }
}

/// The kinds of server that an inventory shows: all of them, or only those
/// that are available.
pub open spec fn listed(all: Seq<ServerInfoView>, include_unavailable: bool) -> Seq<
    ServerInfoView,
> {
    all.filter(|info: ServerInfoView| info.available || include_unavailable)
}

/// The view of what a check answers.
pub open spec fn check_view(r: Result<bool, crate::LibError>) -> Result<
    bool,
    crate::error::ErrorView,
> {
    match r {
        Ok(available) => Ok(available),
        Err(e) => Err(e@),
    }
}

/// Every provider that the library knows.
#[derive(Clone, Debug, PartialEq, Eq)]
pub enum Provider {
    Online(Online),
    Ovh(Ovh),
    Scaleway(Scaleway),
}

/// What a `Provider` holds, with every text as a sequence of characters:
/// for "online" the token and the datacenters, for "ovh" the datacenters
/// that are left out, for "scaleway" the key and the zones.
pub enum ProviderView {
    Online(Seq<char>, Seq<Seq<char>>),
    Ovh(Seq<Seq<char>>),
    Scaleway(Seq<char>, Seq<Seq<char>>),
}

impl View for Provider {
    type V = ProviderView;

    open spec fn view(&self) -> ProviderView {
        match *self {
            Provider::Online(online) => ProviderView::Online(
                online.api_token@,
                online.datacenters.deep_view(),
            ),
            Provider::Ovh(ovh) => ProviderView::Ovh(ovh.excluded_datacenters.deep_view()),
            Provider::Scaleway(scaleway) => ProviderView::Scaleway(
                scaleway.secret_key@,
                scaleway.zones.deep_view(),
            ),
        }
    }
}

impl ProviderView {
    /// The name under which the provider is registered.
    pub open spec fn name(self) -> Seq<char> {
        match self {
            ProviderView::Online(_, _) => ONLINE_NAME@,
            ProviderView::Ovh(_) => OVH_NAME@,
            ProviderView::Scaleway(_, _) => SCALEWAY_NAME@,
        }
    }
}

/// What a provider answered when it was asked for its whole inventory.
#[derive(Debug)]
pub enum InventoryAnswer {
    /// The ranges of plans of "online", or nothing where the answer was
    /// no JSON object.
    Online(Option<Vec<OnlinePlanRange>>),
    /// The availabilities of all servers of "ovh".
    Ovh(Vec<OvhDedicatedServerInformation>),
    /// The offers of "scaleway", zone by zone.
    Scaleway(Vec<Vec<ScalewayBaremetalOffer>>),
}

/// What a provider answered when it was asked about one server.
#[derive(Clone, Debug, PartialEq, Eq)]
pub enum CheckAnswer {
    /// The availability of the product at "online", or nothing where the
    /// provider has no such product.
    Online(Option<OnlineDediboxProductAvailability>),
    /// The availabilities that "ovh" lists for the server.
    Ovh(Vec<OvhDedicatedServerInformation>),
    /// The offer at "scaleway" zone by zone, with nothing for a zone that
    /// does not have it.
    Scaleway(Vec<Option<ScalewayBaremetalOffer>>),
}

/// The failure that reports an answer of another provider.
pub open spec fn foreign_answer(name: Seq<char>) -> ErrorView {
    ErrorView::ApiError { message: "this is no answer of the provider "@ + name }
}

/// Every kind of server in an answer, for the provider that the answer
/// comes from.
pub open spec fn inventory_outcome(provider: Provider, answer: InventoryAnswer) -> Result<
    Seq<ServerInfoView>,
    ErrorView,
> {
    match (provider, answer) {
        (Provider::Online(_), InventoryAnswer::Online(root)) => match plans_outcome(root) {
            Ok(products) => Ok(product_infos(products)),
            Err(e) => Err(e),
        },
        (Provider::Ovh(_), InventoryAnswer::Ovh(all)) => Ok(info_views(all@)),
        (Provider::Scaleway(_), InventoryAnswer::Scaleway(zones)) => Ok(
            offer_infos(merged_zones(zone_views(zones@))),
        ),
        _ => Err(foreign_answer(provider@.name())),
    }
}

/// Tells whether an answer comes from the provider.
pub open spec fn answers_for(provider: Provider, answer: CheckAnswer) -> bool {
    match (provider, answer) {
        (Provider::Online(_), CheckAnswer::Online(_)) => true,
        (Provider::Ovh(_), CheckAnswer::Ovh(_)) => true,
        (Provider::Scaleway(_), CheckAnswer::Scaleway(_)) => true,
        _ => false,
    }
}

/// Tells whether the provider knows the server, going by its answer.
pub open spec fn knows_server(answer: CheckAnswer, server: Seq<char>) -> bool {
    match answer {
        CheckAnswer::Online(lookup) => lookup is Some,
        CheckAnswer::Ovh(listed) => lists_server(listed@, server),
        CheckAnswer::Scaleway(sightings) => any_seen(sighting_views(sightings@)),
    }
}

/// What a check answers, for the provider that the answer comes from.
pub open spec fn check_outcome(provider: Provider, server: Seq<char>, answer: CheckAnswer) -> Result<
    bool,
    ErrorView,
> {
    match (provider, answer) {
        (Provider::Online(online), CheckAnswer::Online(lookup)) => online::check_outcome(
            online.datacenters.deep_view(),
            server,
            lookup,
        ),
        (Provider::Ovh(_), CheckAnswer::Ovh(listed)) => ovh::check_outcome(listed@, server),
        (Provider::Scaleway(_), CheckAnswer::Scaleway(sightings)) => scaleway::check_outcome(
            server,
            sighting_views(sightings@),
        ),
        _ => Err(foreign_answer(provider@.name())),
    }
}

/// The view of a result that holds an inventory or a failure.
pub open spec fn inventory_view(r: Result<Vec<ServerInfo>, LibError>) -> Result<
    Seq<ServerInfoView>,
    ErrorView,
> {
    match r {
        Ok(servers) => Ok(servers.deep_view()),
        Err(e) => Err(e@),
    }
}

/// The inventory that is shown of all the kinds of server in an answer.
pub open spec fn shown_inventory(
    all: Result<Seq<ServerInfoView>, ErrorView>,
    include_unavailable: bool,
) -> Result<Seq<ServerInfoView>, ErrorView> {
    match all {
        Ok(servers) => Ok(listed(servers, include_unavailable)),
        Err(e) => Err(e),
    }
}

impl Provider {
    /// Gets the actual name of the provider.
    pub fn name(&self) -> (name: &'static str)
        ensures
            name@ == self@.name(),
    {
        match self {
            Provider::Online(online) => online.name(),
            Provider::Ovh(ovh) => ovh.name(),
            Provider::Scaleway(scaleway) => scaleway.name(),
        }
    }

    fn foreign(&self) -> (e: LibError)
        ensures
            e@ == foreign_answer(self@.name()),
    {
        let mut message = "this is no answer of the provider ".to_owned();
        message.append(self.name());
        LibError::ApiError { message }
    }

    /// Lists every kind of server in the provider's answer; those out of
    /// stock only where `include_unavailable` is set.
    pub fn inventory(&self, include_unavailable: bool, answer: InventoryAnswer) -> (r: Result<
        Vec<ServerInfo>,
        LibError,
    >)
        ensures
            inventory_view(r) == shown_inventory(
                inventory_outcome(*self, answer),
                include_unavailable,
            ),
    {
        match (self, answer) {
            (Provider::Online(_), InventoryAnswer::Online(root)) => {
                let products = Online::get_plans(root)?;
                Ok(Online::inventory(&products, include_unavailable))
            },
            (Provider::Ovh(ovh), InventoryAnswer::Ovh(all)) => Ok(
                ovh.inventory(&all, include_unavailable),
            ),
            (Provider::Scaleway(_), InventoryAnswer::Scaleway(zones)) => Ok(
                Scaleway::inventory(&zones, include_unavailable),
            ),
            _ => Err(self.foreign()),
        }
    }

    /// Tells whether a server is available, going by the provider's answer
    /// about it. A server that the provider does not know is reported as
    /// unknown, whichever provider it is.
    pub fn check(&self, server: &str, answer: &CheckAnswer) -> (r: Result<bool, LibError>)
        ensures
            check_view(r) == check_outcome(*self, server@, *answer),
    {
        match (self, answer) {
            (Provider::Online(online), CheckAnswer::Online(lookup)) => online.check(server, lookup),
            (Provider::Ovh(ovh), CheckAnswer::Ovh(listed)) => ovh.check(server, listed),
            (Provider::Scaleway(_), CheckAnswer::Scaleway(sightings)) => Scaleway::check(
                server,
                sightings,
            ),
            _ => Err(self.foreign()),
        }
    }
}

/// Whichever the provider, a check of its own answer reports an unknown
/// server exactly where the provider does not know the server. (That a
/// check answers either whether the server is available or with a failure,
/// and never with both, is in its type.)
pub proof fn law_unknown_server(provider: Provider, server: Seq<char>, answer: CheckAnswer)
    requires
        answers_for(provider, answer),
    ensures
        check_outcome(provider, server, answer) == Err::<bool, ErrorView>(
            ErrorView::UnknownServer { server },
        ) <==> !knows_server(answer, server),
{
    match (provider, answer) {
        (Provider::Ovh(_), CheckAnswer::Ovh(listed)) => {
            ovh::law_unknown_iff_not_listed(listed@, server);
        },
        (Provider::Scaleway(_), CheckAnswer::Scaleway(sightings)) => {
            scaleway::law_lookup_only_upgrades(sighting_views(sightings@));
        },
        _ => {},
    }
}

/// The names of the providers, in the order of the registry.
pub open spec fn provider_names() -> Seq<Seq<char>> {
    seq![ONLINE_NAME@, OVH_NAME@, SCALEWAY_NAME@]
}

/// What the factory answers for a name: the provider that is registered
/// under it, built from the environment, or the failure to build it, or
/// the complaint that no provider goes by the name.
pub open spec fn factory_outcome(provider: Seq<char>, env: Environment) -> Result<
    ProviderView,
    ErrorView,
> {
    if provider == ONLINE_NAME@ {
        match online_env_outcome(env) {
            Ok((token, datacenters)) => Ok(ProviderView::Online(token, datacenters)),
            Err(e) => Err(e),
        }
    } else if provider == OVH_NAME@ {
        match csv_outcome(env_text(env, ENV_NAME_OVH_EXCLUDE_DATACENTER@)) {
            Ok(excluded) => Ok(ProviderView::Ovh(excluded)),
            Err(e) => Err(e),
        }
    } else if provider == SCALEWAY_NAME@ {
        match scaleway_env_outcome(env) {
            Ok((key, zones)) => Ok(ProviderView::Scaleway(key, zones)),
            Err(e) => Err(e),
        }
    } else {
        Err(ErrorView::UnknownProvider { provider })
    }
}

/// The view of a result that holds a provider or a failure.
pub open spec fn provider_result_view(r: Result<Provider, LibError>) -> Result<
    ProviderView,
    ErrorView,
> {
    match r {
        Ok(provider) => Ok(provider@),
        Err(e) => Err(e@),
    }
}

/// Helps create providers.
pub struct Factory;

impl Factory {
    /// The names of all providers, in the order of the registry.
    pub fn names() -> (names: Vec<String>)
        ensures
            names.deep_view() == provider_names(),
    {
        let mut names: Vec<String> = Vec::new();
        names.push(ONLINE_NAME.to_owned());
        names.push(OVH_NAME.to_owned());
        names.push(SCALEWAY_NAME.to_owned());
        assert(names.deep_view() =~= provider_names());
        names
    }

    /// Selects the desired provider type and builds it from environment
    /// variables.
    pub fn from_env_by_name(provider: &str, env: &Environment) -> (r: Result<Provider, LibError>)
        ensures
            provider_result_view(r) == factory_outcome(provider@, *env),
            r matches Ok(built) ==> built@.name() == provider@,
            !provider_names().contains(provider@) ==> r is Err,
    {
        proof {
            let names = provider_names();
            assert(names[0] == ONLINE_NAME@ && names[1] == OVH_NAME@ && names[2] == SCALEWAY_NAME@);
        }
        if text_eq(provider, ONLINE_NAME) {
            Ok(Provider::Online(Online::from_env(env)?))
        } else if text_eq(provider, OVH_NAME) {
            Ok(Provider::Ovh(Ovh::from_env(env)?))
        } else if text_eq(provider, SCALEWAY_NAME) {
            Ok(Provider::Scaleway(Scaleway::from_env(env)?))
        } else {
            Err(LibError::UnknownProvider { provider: provider.to_owned() })
        }
    }
}

/// What there is to print once a result has changed.
#[derive(Clone, Debug, PartialEq, Eq)]
pub enum Report {
    /// No notifier was asked for: the available servers, one per line.
    Print(Vec<String>),
    /// The notification to send.
    Notify(Notification),
}

/// What a `Report` holds, with every text as a sequence of characters.
pub enum ReportView {
    Print(Seq<Seq<char>>),
    Notify(NotificationView),
}

impl View for Report {
    type V = ReportView;

    open spec fn view(&self) -> ReportView {
        match *self {
            Report::Print(lines) => ReportView::Print(lines.deep_view()),
            Report::Notify(notification) => ReportView::Notify(notification@),
        }
    }
}

/// The report that is due for a result: the notification of the notifier
/// where there is one, else the available servers to print.
pub open spec fn report_outcome(notifier: Option<Notifier>, result: CheckResultView) -> Result<
    ReportView,
    ErrorView,
> {
    match notifier {
        None => Ok(ReportView::Print(result.available_servers)),
        Some(chosen) => match chosen@.planned(result) {
            Ok(notification) => Ok(ReportView::Notify(notification)),
            Err(e) => Err(e),
        },
    }
}

/// The view of a result that holds a report or a failure.
pub open spec fn report_result_view(r: Result<Report, LibError>) -> Result<ReportView, ErrorView> {
    match r {
        Ok(report) => Ok(report@),
        Err(e) => Err(e@),
    }
}

/// Builds the parts that the runners work with.
pub struct Runner;

impl Runner {
    /// Builds an actual provider from a provider name.
    pub fn build_provider(name: &str, env: &Environment) -> (r: Result<Provider, LibError>)
        ensures
            provider_result_view(r) == factory_outcome(name@, *env),
            r matches Ok(built) ==> built@.name() == name@,
    {
        Factory::from_env_by_name(name, env)
    }

    /// Builds an actual notifier from a notifier name, if one is given.
    pub fn build_notifier(name: &Option<String>, env: &Environment) -> (r: Result<
        Option<Notifier>,
        LibError,
    >)
        ensures
            match *name {
                None => r matches Ok(None),
                Some(chosen) => match r {
                    Ok(Some(notifier)) => crate::notifiers::factory_outcome(chosen@, *env) == Ok::<
                        NotifierView,
                        ErrorView,
                    >(notifier@),
                    Ok(None) => false,
                    Err(e) => crate::notifiers::factory_outcome(chosen@, *env) == Err::<
                        NotifierView,
                        ErrorView,
                    >(e@),
                },
            },
    {
        match name {
            None => Ok(None),
            Some(notifier) => Ok(
                Some(crate::notifiers::Factory::from_env_by_name(notifier.as_str(), env)?),
            ),
        }
    }

    /// Builds an accessor for stored results on a directory that the
    /// caller has tried to create.
    pub fn build_storage(path: &str, probe: DirectoryProbe) -> (r: Result<
        CheckResultStorage,
        LibError,
    >)
        ensures
            match probe {
                DirectoryProbe::Directory => r matches Ok(storage) && storage.path@ == path@,
                DirectoryProbe::NotADirectory => r matches Err(e) && e@ == (ErrorView::ValueError {
                    name: "Storage directory is not an accessible directory"@,
                    value: path@,
                }),
                DirectoryProbe::Failed(source) => r matches Err(e) && e@ == (ErrorView::IOError {
                    source,
                }),
            },
    {
        CheckResultStorage::new(path, probe)
    }

    /// Prepares the report of a result: the notification of the notifier
    /// where there is one, else the lines to print.
    pub fn notify_result(notifier: &Option<Notifier>, result: &CheckResult) -> (r: Result<
        Report,
        LibError,
    >)
        ensures
            report_result_view(r) == report_outcome(*notifier, result@),
    {
        match notifier {
            None => {
                let mut lines: Vec<String> = Vec::new();
                let mut i: usize = 0;
                while i < result.available_servers.len()
                    invariant
                        i <= result.available_servers.len(),
                        lines.len() == i,
                        forall|k: int|
                            0 <= k < i ==> (#[trigger] lines@[k])@
                                == result.available_servers@[k]@,
                    decreases result.available_servers.len() - i,
                {
                    lines.push(result.available_servers[i].clone());
                    i += 1;
                }
                assert(lines.deep_view() =~= result@.available_servers);
                Ok(Report::Print(lines))
            },
            Some(notifier) => Ok(Report::Notify(notifier.notify(result)?)),
        }
    }
}

/// Lists the providers.
pub struct ListRunner;

impl ListRunner {
    /// The heading of the list.
    pub fn heading() -> (text: &'static str)
        ensures
            text@ == "Available providers:"@,
    {
        "Available providers:"
    }

    /// The names of all available providers, sorted.
    pub fn names() -> (names: Vec<String>)
        ensures
            names.deep_view() == sorted_texts(provider_names()),
    {
        sort_strings(&Factory::names())
    }
}

/// How the reference of a line of the inventory is set off.
#[derive(Clone, Copy, Debug, PartialEq, Eq, Structural)]
pub enum Highlight {
    /// The server can be had.
    Available,
    /// The server is out of stock.
    Unavailable,
}

/// One line of the inventory: the three texts to print, and how to set
/// off the first.
#[derive(Clone, Debug, PartialEq, Eq)]
pub struct InventoryLine {
    pub reference: String,
    pub memory: String,
    pub storage: String,
    pub highlight: Highlight,
}

/// What an `InventoryLine` holds, with every text as a sequence of
/// characters.
pub struct InventoryLineView {
    pub reference: Seq<char>,
    pub memory: Seq<char>,
    pub storage: Seq<char>,
    pub highlight: Highlight,
}

impl View for InventoryLine {
    type V = InventoryLineView;

    open spec fn view(&self) -> InventoryLineView {
        InventoryLineView {
            reference: self.reference@,
            memory: self.memory@,
            storage: self.storage@,
            highlight: self.highlight,
        }
    }
}

impl DeepView for InventoryLine {
    type V = InventoryLineView;

    open spec fn deep_view(&self) -> InventoryLineView {
        self@
    }
}

/// The line that shows one kind of server.
pub open spec fn line_of(info: ServerInfoView) -> InventoryLineView {
    InventoryLineView {
        reference: info.reference,
        memory: info.memory,
        storage: info.storage,
        highlight: if info.available {
            Highlight::Available
        } else {
            Highlight::Unavailable
        },
    }
}

/// Lists the inventory of a provider.
#[derive(Clone, Debug, PartialEq, Eq)]
pub struct InventoryRunner {
    pub provider: Provider,
}

impl InventoryRunner {
    /// Builds an instance for the provider that goes by a name.
    pub fn new(provider_name: &str, env: &Environment) -> (r: Result<Self, LibError>)
        ensures
            match r {
                Ok(runner) => factory_outcome(provider_name@, *env) == Ok::<
                    ProviderView,
                    ErrorView,
                >(runner.provider@),
                Err(e) => factory_outcome(provider_name@, *env) == Err::<ProviderView, ErrorView>(
                    e@,
                ),
            },
    {
        Ok(Self { provider: Runner::build_provider(provider_name, env)? })
    }

    /// The lines that show an inventory: one per kind of server, in
    /// order.
    pub fn list_inventory(&self, inventory: &Vec<ServerInfo>) -> (lines: Vec<InventoryLine>)
        ensures
            lines.deep_view() == inventory.deep_view().map_values(|info: ServerInfoView| line_of(info)),
    {
        let mut lines: Vec<InventoryLine> = Vec::new();
        let mut i: usize = 0;
        while i < inventory.len()
            invariant
                i <= inventory.len(),
                lines.len() == i,
                forall|k: int| 0 <= k < i ==> (#[trigger] lines@[k])@ == line_of(inventory@[k]@),
            decreases inventory.len() - i,
        {
            let info = &inventory[i];
            lines.push(
                InventoryLine {
                    reference: info.reference.clone(),
                    memory: info.memory.clone(),
                    storage: info.storage.clone(),
                    highlight: if info.available {
                        Highlight::Available
                    } else {
                        Highlight::Unavailable
                    },
                },
            );
            i += 1;
        }
        assert(lines.deep_view() =~= inventory.deep_view().map_values(
            |info: ServerInfoView| line_of(info),
        ));
        lines
    }
}

/// One server of a cycle, with what came of asking the provider about it.
#[derive(Debug)]
pub struct ServerCheck {
    pub server: String,
    pub outcome: Result<bool, LibError>,
}

/// The servers that were found available, in the order of the checks.
pub open spec fn available_of(checks: Seq<ServerCheck>) -> Seq<Seq<char>>
    decreases checks.len(),
{
    if checks.len() == 0 {
        Seq::<Seq<char>>::empty()
    } else if checks.last().outcome == Ok::<bool, LibError>(true) {
        available_of(checks.drop_last()).push(checks.last().server@)
    } else {
        available_of(checks.drop_last())
    }
}

/// The failure of the first check that failed, if any did.
pub open spec fn first_failure(checks: Seq<ServerCheck>) -> Option<ErrorView>
    decreases checks.len(),
{
    if checks.len() == 0 {
        None
    } else {
        match first_failure(checks.drop_last()) {
            Some(e) => Some(e),
            None => match checks.last().outcome {
                Err(e) => Some(e@),
                Ok(_) => None,
            },
        }
    }
}

/// The servers that were asked about, in the order of the checks.
pub open spec fn checked_servers(checks: Seq<ServerCheck>) -> Seq<Seq<char>> {
    checks.map_values(|check: ServerCheck| check.server@)
}

/// Every server of a result was asked about in its cycle, and the result
/// holds no more servers than were asked about.
pub proof fn law_available_were_requested(checks: Seq<ServerCheck>)
    ensures
        available_of(checks).len() <= checks.len(),
        forall|i: int|
            0 <= i < available_of(checks).len() ==> checked_servers(checks).contains(
                #[trigger] available_of(checks)[i],
            ),
    decreases checks.len(),
{
    if checks.len() > 0 {
        let head = checks.drop_last();
        law_available_were_requested(head);
        let found = available_of(checks);
        assert forall|i: int| 0 <= i < found.len() implies checked_servers(checks).contains(
            #[trigger] found[i],
        ) by {
            if i < available_of(head).len() {
                let k = choose|k: int|
                    0 <= k < head.len() && checked_servers(head)[k] == available_of(head)[i];
                assert(checked_servers(checks)[k] == found[i]);
            } else {
                assert(checked_servers(checks)[checks.len() - 1] == found[i]);
            }
        }
    }
}

/// What one cycle comes to, once the servers are checked and the record
/// is read.
#[derive(Debug)]
pub enum CheckDecision {
    /// The result is the one on record: there is nothing to do.
    Unchanged,
    /// The result is new: the record is to be written first, then the
    /// report made, or the failure to prepare it handed on.
    Changed { record: StoredRecord, report: Result<Report, LibError> },
}

/// Checks a provider, compares with the previous result and reports a
/// change.
#[derive(Clone, Debug, PartialEq, Eq)]
pub struct CheckRunner {
    pub provider: Provider,
    pub servers: Vec<String>,
    pub notifier: Option<Notifier>,
    pub storage: CheckResultStorage,
}

impl CheckRunner {
    /// Builds an instance so that the arguments need not be repeated.
    pub fn new(
        provider: Provider,
        servers: Vec<String>,
        notifier: Option<Notifier>,
        storage: CheckResultStorage,
    ) -> (runner: Self)
        ensures
            runner.provider == provider,
            runner.servers == servers,
            runner.notifier == notifier,
            runner.storage == storage,
    {
        Self { provider, servers, notifier, storage }
    }

    /// Makes the result of a cycle out of what the provider answered for
    /// each server. Every server has been asked about before this is
    /// called: one that failed hides no other, and the first failure is
    /// reported once all are seen.
    pub fn check_servers(&self, checks: Vec<ServerCheck>) -> (r: Result<CheckResult, LibError>)
        ensures
            match first_failure(checks@) {
                Some(failure) => r matches Err(e) && e@ == failure,
                None => r matches Ok(result) && result@ == (CheckResultView {
                    provider_name: self.provider@.name(),
                    available_servers: available_of(checks@),
                }),
            },
    {
        let mut result = CheckResult::new(self.provider.name());
        let mut available: Vec<String> = Vec::new();
        let mut failure: Option<LibError> = None;
        let ghost all = checks@;
        proof {
            assert(all.take(0) =~= Seq::<ServerCheck>::empty());
            assert(available.deep_view() =~= Seq::<Seq<char>>::empty());
        }
        for check in it: checks
            invariant
                it.seq() == all,
                available.deep_view() == available_of(all.take(it.index() as int)),
                match failure {
                    Some(e) => first_failure(all.take(it.index() as int)) == Some(e@),
                    None => first_failure(all.take(it.index() as int)) is None,
                },
        {
            let ghost done = it.index() as int;
            let ghost before = available.deep_view();
            proof {
                assert(done < all.len());
                assert(all.take(done + 1).drop_last() =~= all.take(done));
                assert(all.take(done + 1).last() == check);
            }
            match check.outcome {
                Ok(true) => {
                    available.push(check.server);
                    assert(available.deep_view() =~= before.push(check.server@));
                },
                Ok(false) => {},
                Err(e) => {
                    if failure.is_none() {
                        failure = Some(e);
                    }
                },
            }
        }
        assert(all.take(all.len() as int) =~= all);
        match failure {
            Some(e) => Err(e),
            None => {
                result.available_servers = available;
                Ok(result)
            },
        }
    }

    /// The path of the record that a cycle compares with.
    pub fn record_path(&self) -> (r: Result<String, LibError>)
        ensures
            r matches Ok(path) && path@ == path_under(
                self.storage.path@,
                record_name(self.provider@.name(), self.servers.deep_view()),
            ),
    {
        self.storage.get_path(self.provider.name(), &self.servers)
    }

    /// Compares the latest result with the record that was read, and says
    /// what is left to do: nothing where the two agree, else the record to
    /// write and the report to make, in that order.
    pub fn check_once(&self, latest: &CheckResult, read: RecordRead) -> (r: Result<
        CheckDecision,
        LibError,
    >)
        ensures
            match equal_outcome(latest@.available_servers, read) {
                Err(failure) => r matches Err(e) && e@ == failure,
                Ok(true) => r matches Ok(CheckDecision::Unchanged),
                Ok(false) => {
                    &&& r matches Ok(CheckDecision::Changed { record, report })
                    &&& record.hash@ == fingerprint(latest@.available_servers)
                    &&& record.path@ == path_under(
                        self.storage.path@,
                        record_name(self.provider@.name(), self.servers.deep_view()),
                    )
                    &&& report_result_view(report) == report_outcome(self.notifier, latest@)
                },
            },
    {
        // do nothing more if there was no change
        if self.storage.is_equal(latest, read)? {
            return Ok(CheckDecision::Unchanged);
        }
        // store latest, then notify of the new
        let record = match self.storage.put_hash(self.provider.name(), &self.servers, latest) {
            Ok(record) => record,
            Err(e) => {
                return Err(e);
            },
        };
        let report = Runner::notify_result(&self.notifier, latest);
        Ok(CheckDecision::Changed { record, report })
    }
}

/// Three cycles on a fresh storage. The first result meets no record and
/// counts as a change. The same result again, once its record is written,
/// counts as none. A result with other available servers counts as a
/// change against that record, and once its own record is written it
/// compares equal to it while the first result no longer does. The two
/// results are taken to have different fingerprints: that two lists of
/// servers never share a digest is a property of SHA-256 that is not
/// proved here.
pub proof fn law_three_cycles(
    first: Seq<Seq<char>>,
    third: Seq<Seq<char>>,
    first_record: StoredRecord,
    third_record: StoredRecord,
)
    requires
        first_record.hash@ == fingerprint(first),
        third_record.hash@ == fingerprint(third),
        fingerprint(first) != fingerprint(third),
    ensures
        equal_outcome(first, RecordRead::Missing) == Ok::<bool, ErrorView>(false),
        equal_outcome(first, RecordRead::Content(first_record.hash)) == Ok::<bool, ErrorView>(true),
        equal_outcome(third, RecordRead::Content(first_record.hash)) == Ok::<bool, ErrorView>(
            false,
        ),
        equal_outcome(third, RecordRead::Content(third_record.hash)) == Ok::<bool, ErrorView>(true),
        equal_outcome(first, RecordRead::Content(third_record.hash)) == Ok::<bool, ErrorView>(
            false,
        ),
{
    law_first_run_differs(first);
    law_written_record_matches(first, first_record);
    law_written_record_matches(third, third_record);
}

} // verus!
