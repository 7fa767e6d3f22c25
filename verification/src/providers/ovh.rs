//! The "ovh" provider: one endpoint lists every kind of server with its
//! availability in each datacenter.

use crate::error::ErrorView;
use crate::providers::{listed, ServerInfo, ServerInfoView};
use crate::text::{join, joined, text_eq};
use crate::{
    csv_outcome, env_text, get_env_var_option, option_text, tokenize_optional_csv_str, Environment,
    LibError,
};
use vstd::prelude::*;

verus! {

/// Common name to identify the provider.
pub const OVH_NAME: &'static str = "ovh";

/// Environment variable that lists the datacenters to leave out.
pub const ENV_NAME_OVH_EXCLUDE_DATACENTER: &'static str = "OVH_EXCLUDE_DATACENTER";

/// What goes before the status in the report of a refused request.
pub const OVH_REQUEST_ERROR: &'static str = "OVH request error";

/// Provider API endpoint.
pub const OVH_URL: &'static str =
    "https://api.ovh.com/1.0/dedicated/server/datacenter/availabilities";

/// The availability of one kind of server in one datacenter.
#[derive(Clone, Debug, PartialEq, Eq)]
pub struct OvhDedicatedServerDatacenterAvailability {
    pub availability: String,
    pub datacenter: String,
}

impl OvhDedicatedServerDatacenterAvailability {
    /// Available means: neither "unavailable" nor "unknown".
    pub open spec fn available(&self) -> bool {
        self.availability@ != "unavailable"@ && self.availability@ != "unknown"@
    }

    /// Tells whether the datacenter has the server.
    pub fn is_available(&self) -> (b: bool)
        ensures
            b == self.available(),
    {
        !text_eq(self.availability.as_str(), "unavailable") && !text_eq(
            self.availability.as_str(),
            "unknown",
        )
    }
}

/// One kind of server as the API describes it.
#[derive(Clone, Debug, PartialEq, Eq)]
pub struct OvhDedicatedServerInformation {
    pub datacenters: Vec<OvhDedicatedServerDatacenterAvailability>,
    pub memory: Option<String>,
    pub storage: Option<String>,
    pub server: String,
}

/// The names of the datacenters, in order.
pub open spec fn datacenter_names(
    datacenters: Seq<OvhDedicatedServerDatacenterAvailability>,
) -> Seq<Seq<char>> {
    datacenters.map_values(|d: OvhDedicatedServerDatacenterAvailability| d.datacenter@)
}

impl OvhDedicatedServerInformation {
    /// Available means: available in at least one datacenter.
    pub open spec fn available(&self) -> bool {
        exists|i: int| 0 <= i < self.datacenters.len() && (#[trigger] self.datacenters[i]).available()
    }

    /// Tells whether any datacenter has the server.
    pub fn is_available(&self) -> (b: bool)
        ensures
            b == self.available(),
    {
        let mut i: usize = 0;
        while i < self.datacenters.len()
            invariant
                i <= self.datacenters.len(),
                forall|k: int| 0 <= k < i ==> !(#[trigger] self.datacenters[k]).available(),
            decreases self.datacenters.len() - i,
        {
            if self.datacenters[i].is_available() {
                return true;
            }
            i += 1;
        }
        false
    }

    /// What `server_info` makes of this description.
    pub open spec fn info_view(&self) -> ServerInfoView {
        ServerInfoView {
            reference: self.server@ + " (@"@ + joined(datacenter_names(self.datacenters@), ","@)
                + ")"@,
            memory: match self.memory {
                Some(text) => text@,
                None => "N/A"@,
            },
            storage: match self.storage {
                Some(text) => text@,
                None => "N/A"@,
            },
            available: self.available(),
        }
    }

    /// Extracts what is common to all providers.
    pub fn server_info(&self) -> (info: ServerInfo)
        ensures
            info@ == self.info_view(),
    {
        let mut names: Vec<String> = Vec::new();
        let mut i: usize = 0;
        while i < self.datacenters.len()
            invariant
                i <= self.datacenters.len(),
                names.len() == i,
                forall|k: int| 0 <= k < i ==> (#[trigger] names@[k])@ == self.datacenters@[k].datacenter@,
            decreases self.datacenters.len() - i,
        {
            names.push(self.datacenters[i].datacenter.clone());
            i += 1;
        }
        assert(names.deep_view() =~= datacenter_names(self.datacenters@));
        let mut reference = self.server.clone();
        reference.append(" (@");
        reference.append(join(&names, ",").as_str());
        reference.append(")");
        let memory = match &self.memory {
            Some(text) => text.clone(),
            None => "N/A".to_owned(),
        };
        let storage = match &self.storage {
            Some(text) => text.clone(),
            None => "N/A".to_owned(),
        };
        ServerInfo { reference, memory, storage, available: self.is_available() }
    }
}

/// What the API's answer shows of every kind of server.
pub open spec fn info_views(answer: Seq<OvhDedicatedServerInformation>) -> Seq<ServerInfoView> {
    answer.map_values(|item: OvhDedicatedServerInformation| item.info_view())
}

/// The entries of the answer that describe the server `server`.
pub open spec fn matches_of(answer: Seq<OvhDedicatedServerInformation>, server: Seq<char>) -> Seq<
    OvhDedicatedServerInformation,
> {
    answer.filter(|item: OvhDedicatedServerInformation| item.server@ == server)
}

/// The query that asks for availabilities: whether datacenters are left
/// out, which ones, and the one server that is asked for, if any.
pub open spec fn query_view(excluded: Seq<Seq<char>>, server: Option<Seq<char>>) -> Seq<
    (Seq<char>, Seq<char>),
> {
    let exclusion = if excluded.len() == 0 {
        seq![("excludeDatacenters"@, "false"@)]
    } else {
        seq![("excludeDatacenters"@, "true"@), ("datacenters"@, joined(excluded, ","@))]
    };
    match server {
        Some(name) => exclusion.push(("server"@, name)),
        None => exclusion,
    }
}

/// What `check` answers for a server and the API's answer for it.
pub open spec fn check_outcome(answer: Seq<OvhDedicatedServerInformation>, server: Seq<char>) -> Result<
    bool,
    ErrorView,
> {
    let found = matches_of(answer, server);
    if found.len() == 0 {
        Err(ErrorView::UnknownServer { server })
    } else if found.len() > 1 {
        Err(ErrorView::ApiError { message: "OVH knows several servers by the name `"@ + server + "`"@ })
    } else {
        Ok(found[0].available())
    }
}

/// Gets server inventory and availability.
#[derive(Clone, Debug, PartialEq, Eq)]
pub struct Ovh {
    /// The datacenters to leave out, by their id.
    /// Examples : ["ca","bhs","fr","gra","rbx","sbg"]
    pub excluded_datacenters: Vec<String>,
}

/// The view of a result that holds a provider or a failure.
pub open spec fn built_view(r: Result<Ovh, LibError>) -> Result<Seq<Seq<char>>, ErrorView> {
    match r {
        Ok(ovh) => Ok(ovh.excluded_datacenters.deep_view()),
        Err(e) => Err(e@),
    }
}

impl Ovh {
    /// Builds a new instance from an optional comma separated list of
    /// datacenters to leave out.
    pub fn new(excluded_datacenters: &Option<String>) -> (r: Result<Self, LibError>)
        ensures
            built_view(r) == csv_outcome(option_text(*excluded_datacenters)),
    {
        let excluded_datacenters = tokenize_optional_csv_str(excluded_datacenters)?;
        Ok(Self { excluded_datacenters })
    }

    /// Builds an Ovh provider from environment variables.
    pub fn from_env(env: &Environment) -> (r: Result<Self, LibError>)
        ensures
            built_view(r) == csv_outcome(env_text(*env, ENV_NAME_OVH_EXCLUDE_DATACENTER@)),
    {
        let excluded_datacenters = get_env_var_option(env, ENV_NAME_OVH_EXCLUDE_DATACENTER);
        Self::new(&excluded_datacenters)
    }

    /// Gets the actual name of the provider.
    pub fn name(&self) -> (name: &'static str)
        ensures
            name@ == OVH_NAME@,
    {
        OVH_NAME
    }

    /// Judges the status of the API's answer.
    pub fn api_get_dedicated_server_datacenter_availabilities(status: u16) -> (r: Result<
        (),
        LibError,
    >)
        ensures
            crate::unit_result_view(r) == crate::status_outcome(OVH_REQUEST_ERROR@, status),
    {
        crate::api_error_check(status, OVH_REQUEST_ERROR)
    }

    /// The query parameters that ask the API for availabilities, for one
    /// server or for all.
    pub fn availability_query(&self, server: Option<&str>) -> (query: Vec<(String, String)>)
        ensures
            query.deep_view() == query_view(
                self.excluded_datacenters.deep_view(),
                match server {
                    Some(name) => Some(name@),
                    None => None,
                },
            ),
    {
        let mut query: Vec<(String, String)> = Vec::new();
        if self.excluded_datacenters.len() == 0 {
            query.push(("excludeDatacenters".to_owned(), "false".to_owned()));
        } else {
            query.push(("excludeDatacenters".to_owned(), "true".to_owned()));
            query.push(("datacenters".to_owned(), join(&self.excluded_datacenters, ",")));
        }
        if let Some(name) = server {
            query.push(("server".to_owned(), name.to_owned()));
        }
        assert(query.deep_view() =~= query_view(
            self.excluded_datacenters.deep_view(),
            match server {
                Some(name) => Some(name@),
                None => None,
            },
        ));
        query
    }

    /// The kinds of server in the API's answer, all of them or only those
    /// that are available.
    pub fn get_servers_info(
        &self,
        answer: &Vec<OvhDedicatedServerInformation>,
        include_unavailable: bool,
    ) -> (servers: Vec<ServerInfo>)
        ensures
            servers.deep_view() == listed(info_views(answer@), include_unavailable),
    {
        let mut servers: Vec<ServerInfo> = Vec::new();
        let mut i: usize = 0;
        let ghost shown = |info: ServerInfoView| info.available || include_unavailable;
        proof {
            assert(info_views(answer@.take(0)) =~= Seq::<ServerInfoView>::empty());
            assert(servers.deep_view() =~= Seq::<ServerInfoView>::empty());
        }
        while i < answer.len()
            invariant
                i <= answer.len(),
                shown == (|info: ServerInfoView| info.available || include_unavailable),
                servers.deep_view() == info_views(answer@.take(i as int)).filter(shown),
            decreases answer.len() - i,
        {
            let info = answer[i].server_info();
            let ghost before = servers.deep_view();
            proof {
                assert(info_views(answer@.take(i + 1)).drop_last() =~= info_views(
                    answer@.take(i as int),
                ));
                assert(info_views(answer@.take(i + 1)).last() == info@);
                reveal(Seq::filter);
            }
            if info.available || include_unavailable {
                servers.push(info);
                assert(servers.deep_view() =~= before.push(info@));
            }
            i += 1;
        }
        assert(answer@.take(answer.len() as int) =~= answer@);
        servers
    }

    /// Collects provider inventory out of the API's answer for all servers.
    pub fn inventory(
        &self,
        answer: &Vec<OvhDedicatedServerInformation>,
        include_unavailable: bool,
    ) -> (servers: Vec<ServerInfo>)
        ensures
            servers.deep_view() == listed(info_views(answer@), include_unavailable),
    {
        self.get_servers_info(answer, include_unavailable)
    }

    /// Tells whether `server` is available, out of the API's answer to a
    /// query for it. No entry for the server means that the provider does
    /// not know it; several entries are ambiguous.
    pub fn check(&self, server: &str, answer: &Vec<OvhDedicatedServerInformation>) -> (r: Result<
        bool,
        LibError,
    >)
        ensures
            crate::providers::check_view(r) == check_outcome(answer@, server@),
    {
        let mut found: usize = 0;
        let mut available = false;
        let mut i: usize = 0;
        let ghost same = |item: OvhDedicatedServerInformation| item.server@ == server@;
        proof {
            assert(answer@.take(0).filter(same) =~= Seq::<OvhDedicatedServerInformation>::empty());
        }
        while i < answer.len()
            invariant
                i <= answer.len(),
                same == (|item: OvhDedicatedServerInformation| item.server@ == server@),
                found == answer@.take(i as int).filter(same).len(),
                found == 1 ==> available == answer@.take(i as int).filter(same)[0].available(),
            decreases answer.len() - i,
        {
            proof {
                assert(answer@.take(i + 1).drop_last() =~= answer@.take(i as int));
                reveal(Seq::filter);
            }
            if text_eq(answer[i].server.as_str(), server) {
                if found == 0 {
                    available = answer[i].is_available();
                }
                found += 1;
            }
            i += 1;
        }
        assert(answer@.take(answer.len() as int) =~= answer@);
        if found == 0 {
            Err(LibError::UnknownServer { server: server.to_owned() })
        } else if found > 1 {
            let mut message = "OVH knows several servers by the name `".to_owned();
            message.append(server);
            message.append("`");
            Err(LibError::ApiError { message })
        } else {
            Ok(available)
        }
    }
}

/// Tells whether the answer holds an entry for the server `server`.
pub open spec fn lists_server(answer: Seq<OvhDedicatedServerInformation>, server: Seq<char>) -> bool {
    exists|i: int| 0 <= i < answer.len() && (#[trigger] answer[i]).server@ == server
}

proof fn lemma_matches_of(answer: Seq<OvhDedicatedServerInformation>, server: Seq<char>)
    ensures
        matches_of(answer, server).len() > 0 <==> lists_server(answer, server),
    decreases answer.len(),
{
    reveal(Seq::filter);
    if answer.len() > 0 {
        let head = answer.drop_last();
        lemma_matches_of(head, server);
        if lists_server(head, server) {
            let i = choose|i: int| 0 <= i < head.len() && (#[trigger] head[i]).server@ == server;
            assert(answer[i].server@ == server);
        }
        if answer.last().server@ == server {
            assert(answer[answer.len() - 1].server@ == server);
        }
        if lists_server(answer, server) {
            let i = choose|i: int| 0 <= i < answer.len() && (#[trigger] answer[i]).server@ == server;
            if i < head.len() {
                assert(head[i].server@ == server);
            }
        }
    }
}

/// A check reports an unknown server exactly where the answer holds no
/// entry for it.
pub proof fn law_unknown_iff_not_listed(answer: Seq<OvhDedicatedServerInformation>, server: Seq<char>)
    ensures
        check_outcome(answer, server) == Err::<bool, ErrorView>(
            ErrorView::UnknownServer { server },
        ) <==> !lists_server(answer, server),
{
    lemma_matches_of(answer, server);
}

} // verus!
