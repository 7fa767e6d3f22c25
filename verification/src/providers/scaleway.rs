//! The "scaleway" provider: every zone is asked on its own, and what the
//! zones answer is merged offer by offer. An offer that any zone reports
//! available stays available, whatever the zones after it say.

use crate::error::ErrorView;
use crate::providers::{listed, ServerInfo, ServerInfoView};
use crate::text::{decimal, decimal_text, text_eq};
use crate::{
    any_empty, api_error_check, api_error_text, csv_tokens, env_outcome, get_env_var, has_empty,
    split_csv, status_is_success, Authentication, Environment, LibError, STATUS_NOT_FOUND,
};
use uuid::Uuid;
use vstd::prelude::*;

verus! {

/// Common name to identify the provider.
pub const SCALEWAY_NAME: &'static str = "scaleway";

/// Environment variable that holds the API key.
pub const ENV_SCALEWAY_SECRET_KEY: &'static str = "SCALEWAY_SECRET_KEY";

/// Environment variable that holds the comma separated list of zones.
pub const ENV_SCALEWAY_BAREMETAL_ZONES: &'static str = "SCALEWAY_BAREMETAL_ZONES";

/// What goes before the status in the report of a refused request.
pub const SCALEWAY_REQUEST_ERROR: &'static str = "Scaleway baremetal request error";

/// What the `uuid` crate objects to in a text: nothing where the text is a
/// UUID in one of the notations that the crate reads, else its complaint.
pub uninterp spec fn uuid_fault(text: Seq<char>) -> Option<Seq<char>>;

/// Checks a text with `Uuid::parse_str`, and where the parser refuses it
/// hands back the refusal's own message, as `to_string` renders it. Both
/// depend on the text alone.
#[verifier::external_body]
fn parse_uuid(text: &str) -> (r: Result<(), String>)
    ensures
        match r {
            Ok(_) => uuid_fault(text@) is None,
            Err(complaint) => uuid_fault(text@) == Some(complaint@),
        },
{
    match Uuid::parse_str(text) {
        Ok(_) => Ok(()),
        Err(source) => Err(source.to_string()),
    }
}

/// One memory module of an offer.
#[derive(Clone, Copy, Debug, PartialEq, Eq)]
pub struct ScalewayBaremetalOfferMemory {
    pub capacity: u64,
}

/// One disk of an offer.
#[derive(Clone, Copy, Debug, PartialEq, Eq)]
pub struct ScalewayBaremetalOfferDisk {
    pub capacity: u64,
}

/// One offer as a zone describes it.
#[derive(Clone, Debug, PartialEq, Eq)]
pub struct ScalewayBaremetalOffer {
    pub id: String,
    pub name: String,
    /// Either "empty", "low", or "available".
    pub stock: String,
    pub disks: Vec<ScalewayBaremetalOfferDisk>,
    pub enable: bool,
    pub memories: Vec<ScalewayBaremetalOfferMemory>,
}

/// What an offer holds, with texts and lists as sequences.
pub struct OfferView {
    pub id: Seq<char>,
    pub name: Seq<char>,
    pub stock: Seq<char>,
    pub disks: Seq<ScalewayBaremetalOfferDisk>,
    pub enable: bool,
    pub memories: Seq<ScalewayBaremetalOfferMemory>,
}

impl View for ScalewayBaremetalOffer {
    type V = OfferView;

    open spec fn view(&self) -> OfferView {
        OfferView {
            id: self.id@,
            name: self.name@,
            stock: self.stock@,
            disks: self.disks@,
            enable: self.enable,
            memories: self.memories@,
        }
    }
}

impl DeepView for ScalewayBaremetalOffer {
    type V = OfferView;

    open spec fn deep_view(&self) -> OfferView {
        self@
    }
}

/// The sum of the capacities of the disks.
pub open spec fn disk_total(disks: Seq<ScalewayBaremetalOfferDisk>) -> nat
    decreases disks.len(),
{
    if disks.len() == 0 {
        0
    } else {
        disk_total(disks.drop_last()) + disks.last().capacity as nat
    }
}

/// The sum of the capacities of the memory modules.
pub open spec fn memory_total(memories: Seq<ScalewayBaremetalOfferMemory>) -> nat
    decreases memories.len(),
{
    if memories.len() == 0 {
        0
    } else {
        memory_total(memories.drop_last()) + memories.last().capacity as nat
    }
}

/// A number of bytes in whole units of a thousand million, followed by `G`.
pub open spec fn gigabytes_text(bytes: nat) -> Seq<char> {
    decimal_text(bytes / 1000000000) + "G"@
}

impl OfferView {
    /// Available means: enabled, and the stock is not "empty".
    pub open spec fn available(self) -> bool {
        self.enable && self.stock != "empty"@
    }

    /// This offer with the stock and the switch of another.
    pub open spec fn restocked(self, other: OfferView) -> OfferView {
        OfferView { enable: other.enable, stock: other.stock, ..self }
    }

    /// What every provider tells about a kind of server, for this offer.
    pub open spec fn info_view(self) -> ServerInfoView {
        ServerInfoView {
            reference: self.id + " ("@ + self.name + ")"@,
            memory: gigabytes_text(memory_total(self.memories)),
            storage: gigabytes_text(disk_total(self.disks)),
            available: self.available(),
        }
    }
}

fn gigabytes(bytes: u128) -> (text: String)
    ensures
        text@ == gigabytes_text(bytes as nat),
{
    let mut text = decimal(bytes / 1000000000);
    text.append("G");
    text
}

impl ScalewayBaremetalOffer {
    /// Tells whether the offer can be had.
    pub fn is_available(&self) -> (b: bool)
        ensures
            b == self@.available(),
    {
        self.enable && !text_eq(self.stock.as_str(), "empty")
    }

    /// A copy of this offer.
    pub fn duplicate(&self) -> (copy: Self)
        ensures
            copy@ == self@,
    {
        self.with_stock_of(self)
    }

    /// A copy of this offer with the stock and the switch of `other`.
    pub fn with_stock_of(&self, other: &Self) -> (copy: Self)
        ensures
            copy@ == self@.restocked(other@),
    {
        let mut disks: Vec<ScalewayBaremetalOfferDisk> = Vec::new();
        let mut i: usize = 0;
        while i < self.disks.len()
            invariant
                i <= self.disks.len(),
                disks@ == self.disks@.take(i as int),
            decreases self.disks.len() - i,
        {
            disks.push(self.disks[i]);
            assert(self.disks@.take(i + 1) =~= self.disks@.take(i as int).push(self.disks@[i as int]));
            i += 1;
        }
        assert(self.disks@.take(self.disks.len() as int) =~= self.disks@);
        let mut memories: Vec<ScalewayBaremetalOfferMemory> = Vec::new();
        let mut k: usize = 0;
        while k < self.memories.len()
            invariant
                k <= self.memories.len(),
                memories@ == self.memories@.take(k as int),
            decreases self.memories.len() - k,
        {
            memories.push(self.memories[k]);
            assert(self.memories@.take(k + 1) =~= self.memories@.take(k as int).push(
                self.memories@[k as int],
            ));
            k += 1;
        }
        assert(self.memories@.take(self.memories.len() as int) =~= self.memories@);
        Self {
            id: self.id.clone(),
            name: self.name.clone(),
            stock: other.stock.clone(),
            disks,
            enable: other.enable,
            memories,
        }
    }

    fn total_memory(&self) -> (total: u128)
        ensures
            total == memory_total(self.memories@),
    {
        let mut total: u128 = 0;
        let mut i: usize = 0;
        assert(self.memories@.take(0) =~= Seq::<ScalewayBaremetalOfferMemory>::empty());
        while i < self.memories.len()
            invariant
                i <= self.memories.len(),
                total == memory_total(self.memories@.take(i as int)),
                total <= i * 0xffff_ffff_ffff_ffff,
            decreases self.memories.len() - i,
        {
            assert(self.memories@.take(i + 1).drop_last() =~= self.memories@.take(i as int));
            total = total + self.memories[i].capacity as u128;
            i += 1;
        }
        assert(self.memories@.take(self.memories.len() as int) =~= self.memories@);
        total
    }

    fn total_disk(&self) -> (total: u128)
        ensures
            total == disk_total(self.disks@),
    {
        let mut total: u128 = 0;
        let mut i: usize = 0;
        assert(self.disks@.take(0) =~= Seq::<ScalewayBaremetalOfferDisk>::empty());
        while i < self.disks.len()
            invariant
                i <= self.disks.len(),
                total == disk_total(self.disks@.take(i as int)),
                total <= i * 0xffff_ffff_ffff_ffff,
            decreases self.disks.len() - i,
        {
            assert(self.disks@.take(i + 1).drop_last() =~= self.disks@.take(i as int));
            total = total + self.disks[i].capacity as u128;
            i += 1;
        }
        assert(self.disks@.take(self.disks.len() as int) =~= self.disks@);
        total
    }

    /// Extracts what is common to all providers.
    pub fn server_info(&self) -> (info: ServerInfo)
        ensures
            info@ == self@.info_view(),
    {
        let mut reference = self.id.clone();
        reference.append(" (");
        reference.append(self.name.as_str());
        reference.append(")");
        ServerInfo {
            reference,
            memory: gigabytes(self.total_memory()),
            storage: gigabytes(self.total_disk()),
            available: self.is_available(),
        }
    }
}

/// Where the offer `id` stands in a list of offers, if it does.
pub open spec fn position_of(offers: Seq<OfferView>, id: Seq<char>) -> Option<int>
    decreases offers.len(),
{
    if offers.len() == 0 {
        None
    } else {
        match position_of(offers.drop_last(), id) {
            Some(at) => Some(at),
            None => if offers.last().id == id {
                Some(offers.len() - 1)
            } else {
                None
            },
        }
    }
}

/// The list of known offers after one more sighting: a new offer is added
/// at the end; a known one takes the stock of the sighting where the
/// sighting is available, and stays as it is where it is not.
pub open spec fn merged_with(known: Seq<OfferView>, sighting: OfferView) -> Seq<OfferView> {
    match position_of(known, sighting.id) {
        Some(at) => if sighting.available() {
            known.update(at, known[at].restocked(sighting))
        } else {
            known
        },
        None => known.push(sighting),
    }
}

/// The known offers after all the sightings of one zone, in order.
pub open spec fn merged_zone(known: Seq<OfferView>, zone: Seq<OfferView>) -> Seq<OfferView>
    decreases zone.len(),
{
    if zone.len() == 0 {
        known
    } else {
        merged_with(merged_zone(known, zone.drop_last()), zone.last())
    }
}

/// The offers of all zones merged, zone after zone.
pub open spec fn merged_zones(zones: Seq<Seq<OfferView>>) -> Seq<OfferView>
    decreases zones.len(),
{
    if zones.len() == 0 {
        Seq::<OfferView>::empty()
    } else {
        merged_zone(merged_zones(zones.drop_last()), zones.last())
    }
}

/// The one offer that the zones' answers to a direct lookup amount to: the
/// first that was found, with the stock of the first available one after it
/// where it is not available itself. A zone that does not have the offer
/// counts for nothing.
pub open spec fn picked(sightings: Seq<Option<OfferView>>) -> Option<OfferView>
    decreases sightings.len(),
{
    if sightings.len() == 0 {
        None
    } else {
        match (picked(sightings.drop_last()), sightings.last()) {
            (None, found) => found,
            (Some(info), None) => Some(info),
            (Some(info), Some(offer)) => if !info.available() && offer.available() {
                Some(info.restocked(offer))
            } else {
                Some(info)
            },
        }
    }
}

/// The views of what the zones answered to a direct lookup.
pub open spec fn sighting_views(sightings: Seq<Option<ScalewayBaremetalOffer>>) -> Seq<
    Option<OfferView>,
> {
    sightings.map_values(
        |s: Option<ScalewayBaremetalOffer>|
            match s {
                Some(offer) => Some(offer@),
                None => None,
            },
    )
}

/// The views of what the zones answered to a listing.
pub open spec fn zone_views(zones: Seq<Vec<ScalewayBaremetalOffer>>) -> Seq<Seq<OfferView>> {
    zones.map_values(|zone: Vec<ScalewayBaremetalOffer>| zone.deep_view())
}

/// What every provider tells about each of the offers.
pub open spec fn offer_infos(offers: Seq<OfferView>) -> Seq<ServerInfoView> {
    offers.map_values(|offer: OfferView| offer.info_view())
}

/// Gets server inventory and availability.
#[derive(Clone, Debug, PartialEq, Eq)]
pub struct Scaleway {
    pub secret_key: String,
    pub zones: Vec<String>,
}

/// What `Scaleway::new` answers: the key and the zones, or the first
/// objection.
pub open spec fn scaleway_outcome(secret_key: Seq<char>, zones_csv: Seq<char>) -> Result<
    (Seq<char>, Seq<Seq<char>>),
    ErrorView,
> {
    match uuid_fault(secret_key) {
        Some(complaint) => Err(
            ErrorView::ValueError { name: "malformed scaleway secret key"@, value: complaint },
        ),
        None => if has_empty(csv_tokens(zones_csv)) {
            Err(ErrorView::ValueError { name: "found empty scaleway zone"@, value: zones_csv })
        } else {
            Ok((secret_key, csv_tokens(zones_csv)))
        },
    }
}

/// What `Scaleway::from_env` answers.
pub open spec fn scaleway_env_outcome(env: Environment) -> Result<
    (Seq<char>, Seq<Seq<char>>),
    ErrorView,
> {
    match env_outcome(env, ENV_SCALEWAY_SECRET_KEY@) {
        Err(e) => Err(e),
        Ok(secret_key) => match env_outcome(env, ENV_SCALEWAY_BAREMETAL_ZONES@) {
            Err(e) => Err(e),
            Ok(zones_csv) => scaleway_outcome(secret_key, zones_csv),
        },
    }
}

/// The view of a result that holds a provider or a failure.
pub open spec fn built_view(r: Result<Scaleway, LibError>) -> Result<
    (Seq<char>, Seq<Seq<char>>),
    ErrorView,
> {
    match r {
        Ok(scaleway) => Ok((scaleway.secret_key@, scaleway.zones.deep_view())),
        Err(e) => Err(e@),
    }
}

/// What a zone's status says of a direct lookup: whether an offer follows.
pub open spec fn zone_offer_outcome(status: u16) -> Result<bool, ErrorView> {
    if status == STATUS_NOT_FOUND {
        Ok(false)
    } else if status_is_success(status) {
        Ok(true)
    } else {
        Err(ErrorView::ApiError { message: api_error_text(SCALEWAY_REQUEST_ERROR@, status) })
    }
}

/// What `get_offer` answers.
pub open spec fn offer_outcome(offer_id: Seq<char>, sightings: Seq<Option<OfferView>>) -> Result<
    OfferView,
    ErrorView,
> {
    match picked(sightings) {
        Some(offer) => Ok(offer),
        None => Err(ErrorView::UnknownServer { server: offer_id }),
    }
}

/// The view of a result that holds an offer or a failure.
pub open spec fn offer_result_view(r: Result<ScalewayBaremetalOffer, LibError>) -> Result<
    OfferView,
    ErrorView,
> {
    match r {
        Ok(offer) => Ok(offer@),
        Err(e) => Err(e@),
    }
}

/// What `check` answers.
pub open spec fn check_outcome(offer_id: Seq<char>, sightings: Seq<Option<OfferView>>) -> Result<
    bool,
    ErrorView,
> {
    match picked(sightings) {
        Some(offer) => Ok(offer.available()),
        None => Err(ErrorView::UnknownServer { server: offer_id }),
    }
}

impl Scaleway {
    /// Builds a new instance from a secret key, which is a UUID, and a
    /// comma separated list of zones, none of them empty.
    pub fn new(secret_key: &str, zones_csv: &str) -> (r: Result<Self, LibError>)
        ensures
            built_view(r) == scaleway_outcome(secret_key@, zones_csv@),
    {
        if let Err(complaint) = parse_uuid(secret_key) {
            return Err(
                LibError::ValueError {
                    name: "malformed scaleway secret key".to_owned(),
                    value: complaint,
                },
            );
        }
        let zones = split_csv(zones_csv);
        if any_empty(&zones) {
            return Err(
                LibError::ValueError {
                    name: "found empty scaleway zone".to_owned(),
                    value: zones_csv.to_owned(),
                },
            );
        }
        Ok(Self { secret_key: secret_key.to_owned(), zones })
    }

    /// Builds a Scaleway provider from environment variables.
    pub fn from_env(env: &Environment) -> (r: Result<Self, LibError>)
        ensures
            built_view(r) == scaleway_env_outcome(*env),
    {
        let secret_key = get_env_var(env, ENV_SCALEWAY_SECRET_KEY)?;
        let zones_csv = get_env_var(env, ENV_SCALEWAY_BAREMETAL_ZONES)?;
        Self::new(secret_key.as_str(), zones_csv.as_str())
    }

    /// Gets the actual name of the provider.
    pub fn name(&self) -> (name: &'static str)
        ensures
            name@ == SCALEWAY_NAME@,
    {
        SCALEWAY_NAME
    }

    /// The header that authenticates every request.
    pub fn authentication(&self) -> (auth: Authentication)
        ensures
            auth.header@ == "X-Auth-Token"@,
            auth.value@ == self.secret_key@,
    {
        Authentication::x_auth_token(self.secret_key.as_str())
    }

    /// The address that lists all offers of a zone.
    pub fn zone_offers_url(zone: &str) -> (url: String)
        ensures
            url@ == "https://api.scaleway.com/baremetal/v1/zones/"@ + zone@ + "/offers"@,
    {
        let mut url = "https://api.scaleway.com/baremetal/v1/zones/".to_owned();
        url.append(zone);
        url.append("/offers");
        url
    }

    /// The address of one offer in a zone.
    pub fn zone_offer_url(zone: &str, offer_id: &str) -> (url: String)
        ensures
            url@ == "https://api.scaleway.com/baremetal/v1/zones/"@ + zone@ + "/offers/"@
                + offer_id@,
    {
        let mut url = "https://api.scaleway.com/baremetal/v1/zones/".to_owned();
        url.append(zone);
        url.append("/offers/");
        url.append(offer_id);
        url
    }

    /// Judges the status of a zone's answer to a listing.
    pub fn get_zone_offers(status: u16) -> (r: Result<(), LibError>)
        ensures
            crate::unit_result_view(r) == crate::status_outcome(SCALEWAY_REQUEST_ERROR@, status),
    {
        api_error_check(status, SCALEWAY_REQUEST_ERROR)
    }

    /// Judges the status of a zone's answer to a direct lookup: "not found"
    /// is no failure, the zone just does not have the offer.
    pub fn get_zone_offer(status: u16) -> (r: Result<bool, LibError>)
        ensures
            crate::providers::check_view(r) == zone_offer_outcome(status),
    {
        if status == STATUS_NOT_FOUND {
            return Ok(false);
        }
        api_error_check(status, SCALEWAY_REQUEST_ERROR)?;
        Ok(true)
    }

    /// Inserts an offer into the known ones if it is not among them, or
    /// gives the known one its stock if the offer is available. Known
    /// offers that differ in their ids keep doing so.
    pub fn insert_or_update_offer(
        known: &mut Vec<ScalewayBaremetalOffer>,
        offer: &ScalewayBaremetalOffer,
    )
        ensures
            final(known).deep_view() == merged_with(old(known).deep_view(), offer@),
            distinct_ids(old(known).deep_view()) ==> distinct_ids(final(known).deep_view()),
    {
        let ghost before = known.deep_view();
        proof {
            lemma_merged_with(before, offer@, offer@.id);
        }
        let mut i: usize = 0;
        assert(before.take(0) =~= Seq::<OfferView>::empty());
        while i < known.len()
            invariant
                i <= known.len(),
                before == known.deep_view(),
                before == old(known).deep_view(),
                position_of(before.take(i as int), offer@.id) is None,
            decreases known.len() - i,
        {
            assert(before.take(i + 1).drop_last() =~= before.take(i as int));
            if text_eq(known[i].id.as_str(), offer.id.as_str()) {
                proof {
                    lemma_position_prefix(before, i + 1, offer@.id);
                }
                if offer.is_available() {
                    let updated = known[i].with_stock_of(offer);
                    known.set(i, updated);
                    assert(known.deep_view() =~= before.update(
                        i as int,
                        before[i as int].restocked(offer@),
                    ));
                }
                return ;
            }
            i += 1;
        }
        assert(before.take(known.len() as int) =~= before);
        known.push(offer.duplicate());
        assert(known.deep_view() =~= before.push(offer@));
    }

    /// Merges the offers that the zones listed, zone after zone.
    pub fn get_offers(zones: &Vec<Vec<ScalewayBaremetalOffer>>) -> (offers: Vec<
        ScalewayBaremetalOffer,
    >)
        ensures
            offers.deep_view() == merged_zones(zone_views(zones@)),
            distinct_ids(offers.deep_view()),
    {
        proof {
            law_merge_only_upgrades(zone_views(zones@), Seq::<char>::empty());
        }
        let mut offers: Vec<ScalewayBaremetalOffer> = Vec::new();
        let mut z: usize = 0;
        proof {
            assert(zone_views(zones@).take(0) =~= Seq::<Seq<OfferView>>::empty());
            assert(offers.deep_view() =~= Seq::<OfferView>::empty());
        }
        while z < zones.len()
            invariant
                z <= zones.len(),
                offers.deep_view() == merged_zones(zone_views(zones@).take(z as int)),
            decreases zones.len() - z,
        {
            let zone = &zones[z];
            let ghost start = offers.deep_view();
            let mut k: usize = 0;
            assert(zone.deep_view().take(0) =~= Seq::<OfferView>::empty());
            while k < zone.len()
                invariant
                    k <= zone.len(),
                    offers.deep_view() == merged_zone(start, zone.deep_view().take(k as int)),
                decreases zone.len() - k,
            {
                proof {
                    assert(zone.deep_view().take(k + 1).drop_last() =~= zone.deep_view().take(
                        k as int,
                    ));
                    assert(zone.deep_view().take(k + 1).last() == zone@[k as int]@);
                }
                Self::insert_or_update_offer(&mut offers, &zone[k]);
                k += 1;
            }
            proof {
                assert(zone.deep_view().take(zone.len() as int) =~= zone.deep_view());
                assert(zone_views(zones@).take(z + 1).drop_last() =~= zone_views(zones@).take(
                    z as int,
                ));
                assert(zone_views(zones@).take(z + 1).last() == zone.deep_view());
            }
            z += 1;
        }
        assert(zone_views(zones@).take(zones.len() as int) =~= zone_views(zones@));
        offers
    }

    /// Makes one offer of what the zones answered to a direct lookup.
    pub fn get_offer(offer_id: &str, sightings: &Vec<Option<ScalewayBaremetalOffer>>) -> (r: Result<
        ScalewayBaremetalOffer,
        LibError,
    >)
        ensures
            offer_result_view(r) == offer_outcome(offer_id@, sighting_views(sightings@)),
    {
        let mut result: Option<ScalewayBaremetalOffer> = None;
        let mut i: usize = 0;
        let ghost views = sighting_views(sightings@);
        assert(views.take(0) =~= Seq::<Option<OfferView>>::empty());
        while i < sightings.len()
            invariant
                i <= sightings.len(),
                views == sighting_views(sightings@),
                match result {
                    Some(offer) => picked(views.take(i as int)) == Some(offer@),
                    None => picked(views.take(i as int)) is None,
                },
            decreases sightings.len() - i,
        {
            proof {
                assert(views.take(i + 1).drop_last() =~= views.take(i as int));
                assert(views.take(i + 1).last() == views[i as int]);
            }
            match &sightings[i] {
                None => {},
                Some(offer) => {
                    result = match result {
                        None => Some(offer.duplicate()),
                        Some(info) => {
                            if !info.is_available() && offer.is_available() {
                                Some(info.with_stock_of(offer))
                            } else {
                                Some(info)
                            }
                        },
                    };
                },
            }
            i += 1;
        }
        assert(views.take(sightings.len() as int) =~= views);
        match result {
            Some(offer) => Ok(offer),
            None => Err(LibError::UnknownServer { server: offer_id.to_owned() }),
        }
    }

    /// Collects provider inventory out of what the zones listed.
    pub fn inventory(zones: &Vec<Vec<ScalewayBaremetalOffer>>, include_unavailable: bool) -> (servers:
        Vec<ServerInfo>)
        ensures
            servers.deep_view() == listed(
                offer_infos(merged_zones(zone_views(zones@))),
                include_unavailable,
            ),
    {
        let offers = Self::get_offers(zones);
        let mut servers: Vec<ServerInfo> = Vec::new();
        let mut i: usize = 0;
        let ghost shown = |info: ServerInfoView| info.available || include_unavailable;
        let ghost all = offers.deep_view();
        proof {
            assert(offer_infos(all.take(0)) =~= Seq::<ServerInfoView>::empty());
            assert(servers.deep_view() =~= Seq::<ServerInfoView>::empty());
        }
        while i < offers.len()
            invariant
                i <= offers.len(),
                all == offers.deep_view(),
                shown == (|info: ServerInfoView| info.available || include_unavailable),
                servers.deep_view() == offer_infos(all.take(i as int)).filter(shown),
            decreases offers.len() - i,
        {
            let ghost before = servers.deep_view();
            proof {
                assert(offer_infos(all.take(i + 1)).drop_last() =~= offer_infos(all.take(i as int)));
                assert(offer_infos(all.take(i + 1)).last() == offers@[i as int]@.info_view());
                reveal(Seq::filter);
            }
            if offers[i].is_available() || include_unavailable {
                let info = offers[i].server_info();
                servers.push(info);
                assert(servers.deep_view() =~= before.push(info@));
            }
            i += 1;
        }
        assert(all.take(offers.len() as int) =~= all);
        servers
    }

    /// Tells whether an offer is available, out of what the zones answered
    /// to a direct lookup. An offer that no zone has is unknown.
    pub fn check(server: &str, sightings: &Vec<Option<ScalewayBaremetalOffer>>) -> (r: Result<
        bool,
        LibError,
    >)
        ensures
            crate::providers::check_view(r) == check_outcome(server@, sighting_views(sightings@)),
    {
        Ok(Self::get_offer(server, sightings)?.is_available())
    }
}

/// No offer `id` in a list means none in any of its prefixes, and an offer
/// `id` at the end of a prefix that holds no other stands at that place in
/// the whole list.
proof fn lemma_position_prefix(offers: Seq<OfferView>, upto: int, id: Seq<char>)
    requires
        0 < upto <= offers.len(),
        position_of(offers.take(upto - 1), id) is None,
        offers[upto - 1].id == id,
    ensures
        position_of(offers, id) == Some(upto - 1),
    decreases offers.len() - upto,
{
    assert(offers.take(upto).drop_last() =~= offers.take(upto - 1));
    assert(position_of(offers.take(upto), id) == Some(upto - 1));
    lemma_position_extends(offers, upto, id);
}

proof fn lemma_position_extends(offers: Seq<OfferView>, upto: int, id: Seq<char>)
    requires
        0 <= upto <= offers.len(),
        position_of(offers.take(upto), id) is Some,
    ensures
        position_of(offers, id) == position_of(offers.take(upto), id),
    decreases offers.len() - upto,
{
    if upto == offers.len() {
        assert(offers.take(upto) =~= offers);
    } else {
        assert(offers.take(upto + 1).drop_last() =~= offers.take(upto));
        lemma_position_extends(offers, upto + 1, id);
    }
}

/// Tells whether a list holds an available offer `id`.
pub open spec fn has_available(offers: Seq<OfferView>, id: Seq<char>) -> bool {
    exists|i: int| 0 <= i < offers.len() && (#[trigger] offers[i]).id == id && offers[i].available()
}

/// Tells whether a list holds an offer `id`.
pub open spec fn has_offer(offers: Seq<OfferView>, id: Seq<char>) -> bool {
    exists|i: int| 0 <= i < offers.len() && (#[trigger] offers[i]).id == id
}

/// Tells whether no two offers of a list share an id.
pub open spec fn distinct_ids(offers: Seq<OfferView>) -> bool {
    forall|i: int, j: int|
        0 <= i < j < offers.len() ==> (#[trigger] offers[i]).id != (#[trigger] offers[j]).id
}

proof fn lemma_position(offers: Seq<OfferView>, id: Seq<char>)
    ensures
        match position_of(offers, id) {
            Some(at) => 0 <= at < offers.len() && offers[at].id == id,
            None => !has_offer(offers, id),
        },
    decreases offers.len(),
{
    if offers.len() > 0 {
        lemma_position(offers.drop_last(), id);
        if position_of(offers.drop_last(), id) is None && offers.last().id != id {
            assert forall|i: int| 0 <= i < offers.len() implies (#[trigger] offers[i]).id != id by {
                if i < offers.len() - 1 {
                    assert(offers.drop_last()[i].id != id);
                }
            }
        }
    }
}

proof fn lemma_merged_with(known: Seq<OfferView>, sighting: OfferView, id: Seq<char>)
    ensures
        has_available(merged_with(known, sighting), id) <==> has_available(known, id) || (
        sighting.id == id && sighting.available()),
        has_offer(merged_with(known, sighting), id) <==> has_offer(known, id) || sighting.id == id,
        distinct_ids(known) ==> distinct_ids(merged_with(known, sighting)),
{
    lemma_position(known, sighting.id);
    let after = merged_with(known, sighting);
    match position_of(known, sighting.id) {
        Some(at) => {
            assert(after.len() == known.len());
            assert forall|i: int| 0 <= i < known.len() implies (#[trigger] after[i]).id
                == known[i].id by {}
            if has_available(known, id) {
                let j = choose|j: int|
                    0 <= j < known.len() && (#[trigger] known[j]).id == id && known[j].available();
                assert(after[j].id == id && after[j].available());
            }
            if sighting.id == id && sighting.available() {
                assert(after[at].id == id && after[at].available());
            }
            if has_available(after, id) {
                let j = choose|j: int|
                    0 <= j < after.len() && (#[trigger] after[j]).id == id && after[j].available();
                if j != at || !sighting.available() {
                    assert(known[j].id == id && known[j].available());
                }
            }
            if has_offer(known, id) {
                let j = choose|j: int| 0 <= j < known.len() && (#[trigger] known[j]).id == id;
                assert(after[j].id == id);
            }
            if sighting.id == id {
                assert(after[at].id == id);
            }
            if has_offer(after, id) {
                let j = choose|j: int| 0 <= j < after.len() && (#[trigger] after[j]).id == id;
                assert(known[j].id == id);
            }
            if distinct_ids(known) {
                assert forall|i: int, j: int| 0 <= i < j < after.len() implies (#[trigger] after[i]).id
                    != (#[trigger] after[j]).id by {
                    assert(known[i].id != known[j].id);
                }
            }
        },
        None => {
            assert(after.len() == known.len() + 1);
            assert(after.last() == sighting);
            assert forall|i: int| 0 <= i < known.len() implies #[trigger] after[i] == known[i] by {}
            if has_available(known, id) {
                let j = choose|j: int|
                    0 <= j < known.len() && (#[trigger] known[j]).id == id && known[j].available();
                assert(after[j].id == id && after[j].available());
            }
            if sighting.id == id && sighting.available() {
                assert(after[known.len() as int].id == id);
            }
            if has_available(after, id) {
                let j = choose|j: int|
                    0 <= j < after.len() && (#[trigger] after[j]).id == id && after[j].available();
                if j < known.len() {
                    assert(known[j].id == id && known[j].available());
                }
            }
            if has_offer(known, id) {
                let j = choose|j: int| 0 <= j < known.len() && (#[trigger] known[j]).id == id;
                assert(after[j].id == id);
            }
            if sighting.id == id {
                assert(after[known.len() as int].id == id);
            }
            if has_offer(after, id) {
                let j = choose|j: int| 0 <= j < after.len() && (#[trigger] after[j]).id == id;
                if j < known.len() {
                    assert(known[j].id == id);
                }
            }
            if distinct_ids(known) {
                assert forall|i: int, j: int| 0 <= i < j < after.len() implies (#[trigger] after[i]).id
                    != (#[trigger] after[j]).id by {
                    if j < known.len() {
                        assert(known[i].id != known[j].id);
                    } else {
                        assert(known[i].id != sighting.id);
                    }
                }
            }
        },
    }
}

proof fn lemma_merged_zone(known: Seq<OfferView>, zone: Seq<OfferView>, id: Seq<char>)
    ensures
        has_available(merged_zone(known, zone), id) <==> has_available(known, id) || has_available(
            zone,
            id,
        ),
        has_offer(merged_zone(known, zone), id) <==> has_offer(known, id) || has_offer(zone, id),
        distinct_ids(known) ==> distinct_ids(merged_zone(known, zone)),
    decreases zone.len(),
{
    if zone.len() > 0 {
        let head = zone.drop_last();
        lemma_merged_zone(known, head, id);
        lemma_merged_with(merged_zone(known, head), zone.last(), id);
        if has_available(head, id) {
            let j = choose|j: int|
                0 <= j < head.len() && (#[trigger] head[j]).id == id && head[j].available();
            assert(zone[j].id == id && zone[j].available());
        }
        if zone.last().id == id && zone.last().available() {
            assert(zone[zone.len() - 1].id == id);
        }
        if has_available(zone, id) {
            let j = choose|j: int|
                0 <= j < zone.len() && (#[trigger] zone[j]).id == id && zone[j].available();
            if j < head.len() {
                assert(head[j].id == id && head[j].available());
            }
        }
        if has_offer(head, id) {
            let j = choose|j: int| 0 <= j < head.len() && (#[trigger] head[j]).id == id;
            assert(zone[j].id == id);
        }
        if zone.last().id == id {
            assert(zone[zone.len() - 1].id == id);
        }
        if has_offer(zone, id) {
            let j = choose|j: int| 0 <= j < zone.len() && (#[trigger] zone[j]).id == id;
            if j < head.len() {
                assert(head[j].id == id);
            }
        }
    }
}

/// The merged inventory holds an offer as available exactly where some
/// zone reported it available, wherever in the order of zones that was: a
/// later sighting never takes availability away. It holds an offer exactly
/// where some zone reported it, and holds none twice.
pub proof fn law_merge_only_upgrades(zones: Seq<Seq<OfferView>>, id: Seq<char>)
    ensures
        has_available(merged_zones(zones), id) <==> exists|z: int|
            0 <= z < zones.len() && has_available(#[trigger] zones[z], id),
        has_offer(merged_zones(zones), id) <==> exists|z: int|
            0 <= z < zones.len() && has_offer(#[trigger] zones[z], id),
        distinct_ids(merged_zones(zones)),
    decreases zones.len(),
{
    if zones.len() > 0 {
        let head = zones.drop_last();
        law_merge_only_upgrades(head, id);
        lemma_merged_zone(merged_zones(head), zones.last(), id);
        if exists|z: int| 0 <= z < head.len() && has_available(#[trigger] head[z], id) {
            let z = choose|z: int| 0 <= z < head.len() && has_available(#[trigger] head[z], id);
            assert(has_available(zones[z], id));
        }
        if has_available(zones.last(), id) {
            assert(has_available(zones[zones.len() - 1], id));
        }
        if exists|z: int| 0 <= z < zones.len() && has_available(#[trigger] zones[z], id) {
            let z = choose|z: int| 0 <= z < zones.len() && has_available(#[trigger] zones[z], id);
            if z < head.len() {
                assert(has_available(head[z], id));
            }
        }
        if exists|z: int| 0 <= z < head.len() && has_offer(#[trigger] head[z], id) {
            let z = choose|z: int| 0 <= z < head.len() && has_offer(#[trigger] head[z], id);
            assert(has_offer(zones[z], id));
        }
        if has_offer(zones.last(), id) {
            assert(has_offer(zones[zones.len() - 1], id));
        }
        if exists|z: int| 0 <= z < zones.len() && has_offer(#[trigger] zones[z], id) {
            let z = choose|z: int| 0 <= z < zones.len() && has_offer(#[trigger] zones[z], id);
            if z < head.len() {
                assert(has_offer(head[z], id));
            }
        }
    }
}

/// Tells whether a zone answered a direct lookup with an available offer.
pub open spec fn seen_available(sighting: Option<OfferView>) -> bool {
    match sighting {
        Some(offer) => offer.available(),
        None => false,
    }
}

/// Tells whether any zone answered a direct lookup with an available offer.
pub open spec fn any_seen_available(sightings: Seq<Option<OfferView>>) -> bool {
    exists|z: int| 0 <= z < sightings.len() && seen_available(#[trigger] sightings[z])
}

/// Tells whether any zone answered a direct lookup with an offer.
pub open spec fn any_seen(sightings: Seq<Option<OfferView>>) -> bool {
    exists|z: int| 0 <= z < sightings.len() && (#[trigger] sightings[z]) is Some
}

/// A direct lookup finds an offer exactly where some zone has it, and finds
/// it available exactly where some zone has it available.
pub proof fn law_lookup_only_upgrades(sightings: Seq<Option<OfferView>>)
    ensures
        picked(sightings) is Some <==> any_seen(sightings),
        seen_available(picked(sightings)) <==> any_seen_available(sightings),
    decreases sightings.len(),
{
    if sightings.len() > 0 {
        let head = sightings.drop_last();
        law_lookup_only_upgrades(head);
        let last = sightings.last();
        if any_seen(head) {
            let z = choose|z: int| 0 <= z < head.len() && (#[trigger] head[z]) is Some;
            assert(sightings[z] is Some);
        }
        if last is Some {
            assert(sightings[sightings.len() - 1] is Some);
        }
        if any_seen(sightings) {
            let z = choose|z: int| 0 <= z < sightings.len() && (#[trigger] sightings[z]) is Some;
            if z < head.len() {
                assert(head[z] is Some);
            }
        }
        if any_seen_available(head) {
            let z = choose|z: int| 0 <= z < head.len() && seen_available(#[trigger] head[z]);
            assert(seen_available(sightings[z]));
        }
        if seen_available(last) {
            assert(seen_available(sightings[sightings.len() - 1]));
        }
        if any_seen_available(sightings) {
            let z = choose|z: int|
                0 <= z < sightings.len() && seen_available(#[trigger] sightings[z]);
            if z < head.len() {
                assert(seen_available(head[z]));
            }
        }
    }
}

} // verus!
