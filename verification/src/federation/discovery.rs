//! Service discovery on the local network.
//!
//! An instance announces itself under [`SERVICE_TYPE`] and watches for others that do.
//! [`browse_peers`] says what each event asks for. Where that takes an answer from
//! elsewhere, it hands out a [`Discovery`] or a [`Removal`] that takes the answer.

use mdns_sd::ServiceInfo;
use vstd::prelude::*;
use vstd::string::*;

use super::{PeerHealth, PeerSource, PeerState};
use crate::outside::{
    escaped, new_service_info, service_fullname, service_hostname, service_port, service_type,
    without_doubled_local,
};
use crate::text::{
    before, before_suffix, decimal, occurs_at, occurs_in, part_before, print_decimal, rest_before,
};

verus! {

/// The service type under which instances announce themselves.
pub const SERVICE_TYPE: &'static str = "_herald._tcp.local.";

/// How long an announcement stands before the instance looks up again, in seconds.
pub const REGISTRATION_PAUSE: u64 = 3600;

/// How long to wait after an error while watching for peers, in seconds.
pub const BROWSE_ERROR_PAUSE: u64 = 5;

/// An announcement ready to be made.
pub struct Registration {
    pub info: ServiceInfo,
    /// To be logged once the announcement is made.
    pub log: String,
}

/// The full name under which an instance is registered: its dots and backslashes are
/// escaped. On the network the name stands without the escaping, see [`received_name`].
pub open spec fn fullname_of(instance_name: Seq<char>) -> Seq<char> {
    escaped(instance_name) + "."@ + SERVICE_TYPE@
}

/// The full name of an instance as an event carries it.
pub open spec fn received_name(instance_name: Seq<char>) -> Seq<char> {
    instance_name + "."@ + SERVICE_TYPE@
}

proof fn service_type_has_no_subtype()
    ensures
        !occurs_in(SERVICE_TYPE@, "._sub."@),
{
    reveal_strlit("_herald._tcp.local.");
    reveal_strlit("._sub.");
    let ty = SERVICE_TYPE@;
    let mark = "._sub."@;
    assert forall|at: int| !occurs_at(ty, mark, at) by {
        if occurs_at(ty, mark, at) {
            let part = ty.subrange(at, at + mark.len());
            assert(part[0] == ty[at]);
            assert(part[1] == ty[at + 1]);
            assert(part[2] == ty[at + 2]);
        }
    }
}

/// The announcement of this instance.
pub fn register_service(instance_name: &str, port: u16) -> (registration: Result<
    Registration,
    String,
>)
    ensures
        registration is Ok,
        service_type(registration->Ok_0.info) == SERVICE_TYPE@,
        service_fullname(registration->Ok_0.info) == fullname_of(instance_name@),
        service_hostname(registration->Ok_0.info) == without_doubled_local(
            instance_name@ + ".local."@,
        ),
        service_port(registration->Ok_0.info) == port,
        registration->Ok_0.log@ == "[federation] mDNS: registered as '"@ + instance_name@
            + "' on port "@ + decimal(port as nat),
{
    proof {
        service_type_has_no_subtype();
        reveal_strlit("");
    }
    let mut host = instance_name.to_owned();
    host.append(".local.");
    match new_service_info(SERVICE_TYPE, instance_name, host.as_str(), "", port) {
        Ok(info) => {
            let mut log = "[federation] mDNS: registered as '".to_owned();
            log.append(instance_name);
            log.append("' on port ");
            log.append(print_decimal(port as u64).as_str());
            Ok(Registration { info, log })
        },
        Err(reason) => {
            let mut message = "failed to create service info: ".to_owned();
            message.append(reason.as_str());
            Err(message)
        },
    }
}

/// What ends one wait of an announced instance.
pub enum RegistrationEvent {
    /// The instance is to shut down.
    Cancelled,
    /// [`REGISTRATION_PAUSE`] has passed.
    Elapsed,
}

/// What an announced instance does next.
pub enum RegistrationStep {
    /// Log, withdraw the announcement and end.
    Shutdown { log: String },
    /// Wait for so many seconds, or until cancelled.
    Wait { secs: u64 },
}

/// Keeps an announcement up until the instance is told to shut down.
pub fn hold_registration(event: RegistrationEvent) -> (step: RegistrationStep)
    ensures
        match event {
            RegistrationEvent::Cancelled => step matches RegistrationStep::Shutdown { log }
                && log@ == "[federation] mDNS: unregistering service"@,
            RegistrationEvent::Elapsed => step == (RegistrationStep::Wait {
                secs: REGISTRATION_PAUSE,
            }),
        },
{
    match event {
        RegistrationEvent::Cancelled => RegistrationStep::Shutdown {
            log: "[federation] mDNS: unregistering service".to_owned(),
        },
        RegistrationEvent::Elapsed => RegistrationStep::Wait { secs: REGISTRATION_PAUSE },
    }
}

/// An instance that watches for peers.
pub struct PeerBrowser {
    /// The name under which the instance announces itself.
    pub own_instance: String,
    /// The secret that it shows to peers found on the local network.
    pub global_secret: String,
}

/// What happens while watching.
pub enum BrowseEvent {
    /// The instance is to shut down.
    Cancelled,
    /// An announcement was resolved. `address` is one of its addresses, if it has any.
    Resolved { fullname: String, port: u16, address: Option<String> },
    /// An announcement was withdrawn.
    Removed { fullname: String },
    /// Something of no interest here.
    Other,
    /// No event could be received.
    Failed { reason: String },
}

/// What an event asks for.
pub enum BrowseAction {
    /// Log, stop watching and end.
    Stop { log: String },
    /// Nothing.
    Ignore,
    /// Log, ask the peer for its agents, and take the answer to [`Discovery::finish`].
    Discover { discovery: Discovery, log: String },
    /// List the known peers and take them to [`Removal::decide`].
    Review { removal: Removal },
    /// Log and wait for so many seconds.
    Pause { secs: u64, log: String },
}

/// A peer that was found and is to be asked for its agents.
pub struct Discovery {
    pub fullname: String,
    pub short_name: String,
    pub url: String,
    pub secret: String,
}

/// A name whose announcement was withdrawn.
pub struct Removal {
    pub short_name: String,
}

/// The instance that a full name of this service type names.
pub open spec fn instance_in(fullname: Seq<char>) -> Option<Seq<char>> {
    before_suffix(fullname, "."@ + SERVICE_TYPE@)
}

/// The name under which the sender of an announcement is known: that of the instance, and
/// for a full name of some other form what stands before its first dot.
pub open spec fn short_name_of(fullname: Seq<char>) -> Seq<char> {
    match instance_in(fullname) {
        Some(name) => name,
        None => before(fullname, '.'),
    }
}

/// The instance that a full name names.
fn find_instance(fullname: &str) -> (instance: Option<String>)
    ensures
        match instance {
            Some(name) => instance_in(fullname@) == Some(name@),
            None => instance_in(fullname@) is None,
        },
{
    let mut suffix = ".".to_owned();
    suffix.append(SERVICE_TYPE);
    match rest_before(fullname, suffix.as_str()) {
        Some(name) => Some(name.to_owned()),
        None => None,
    }
}

/// The name under which the sender of an announcement is known.
fn find_short_name(fullname: &str) -> (name: String)
    ensures
        name@ == short_name_of(fullname@),
{
    match find_instance(fullname) {
        Some(name) => name,
        None => part_before(fullname, '.').to_owned(),
    }
}

/// Where a peer is reached.
pub open spec fn peer_url(address: Seq<char>, port: u16) -> Seq<char> {
    "http://"@ + address + ":"@ + decimal(port as nat)
}

impl PeerBrowser {
    /// The announcement of this instance itself is not that of a peer.
    pub open spec fn skips(self, fullname: Seq<char>) -> bool {
        instance_in(fullname) == Some(self.own_instance@)
    }

    /// `action` is what the event asks for.
    pub open spec fn answers(self, event: BrowseEvent, action: BrowseAction) -> bool {
        match event {
            BrowseEvent::Cancelled => action matches BrowseAction::Stop { log } && log@
                == "[federation] mDNS: browse task shutting down"@,
            BrowseEvent::Resolved { fullname, port, address } => match address {
                Some(address) if !self.skips(fullname@) => {
                    &&& action matches BrowseAction::Discover { discovery, log }
                    &&& discovery.fullname@ == fullname@
                    &&& discovery.short_name@ == short_name_of(fullname@)
                    &&& discovery.url@ == peer_url(address@, port)
                    &&& discovery.secret@ == self.global_secret@
                    &&& log@ == "[federation] mDNS: discovered peer '"@ + short_name_of(fullname@)
                        + "' at "@ + peer_url(address@, port)
                },
                _ => action is Ignore,
            },
            BrowseEvent::Removed { fullname } => action matches BrowseAction::Review { removal }
                && removal.short_name@ == short_name_of(fullname@),
            BrowseEvent::Other => action is Ignore,
            BrowseEvent::Failed { reason } => action matches BrowseAction::Pause { secs, log }
                && secs == BROWSE_ERROR_PAUSE && log@ == "[federation] mDNS browse error: "@
                + reason@,
        }
    }
}

/// What an event asks of the instance that watches for peers.
pub fn browse_peers(browser: &PeerBrowser, event: BrowseEvent) -> (action: BrowseAction)
    ensures
        browser.answers(event, action),
{
    match event {
        BrowseEvent::Cancelled => BrowseAction::Stop {
            log: "[federation] mDNS: browse task shutting down".to_owned(),
        },
        BrowseEvent::Resolved { fullname, port, address } => {
            if let Some(instance) = find_instance(fullname.as_str()) {
                if instance == browser.own_instance {
                    return BrowseAction::Ignore;
                }
            }
            match address {
                Some(address) => {
                    let short_name = find_short_name(fullname.as_str());
                    let mut url = "http://".to_owned();
                    url.append(address.as_str());
                    url.append(":");
                    url.append(print_decimal(port as u64).as_str());
                    let mut log = "[federation] mDNS: discovered peer '".to_owned();
                    log.append(short_name.as_str());
                    log.append("' at ");
                    log.append(url.as_str());
                    let secret = browser.global_secret.clone();
                    BrowseAction::Discover {
                        discovery: Discovery { fullname, short_name, url, secret },
                        log,
                    }
                },
                None => BrowseAction::Ignore,
            }
        },
        BrowseEvent::Removed { fullname } => BrowseAction::Review {
            removal: Removal { short_name: find_short_name(fullname.as_str()) },
        },
        BrowseEvent::Other => BrowseAction::Ignore,
        BrowseEvent::Failed { reason } => {
            let mut log = "[federation] mDNS browse error: ".to_owned();
            log.append(reason.as_str());
            BrowseAction::Pause { secs: BROWSE_ERROR_PAUSE, log }
        },
    }
}

/// A peer to be entered in the registry.
pub struct PeerUpdate<A> {
    pub peer: PeerState<A>,
    pub log: Option<String>,
}

impl Discovery {
    /// Enters the peer with what it answered. A peer that did not answer is entered
    /// all the same, so that health checks find it later.
    pub fn finish<A>(self, answer: Result<Vec<A>, String>) -> (update: PeerUpdate<A>)
        ensures
            update.peer.name == self.short_name,
            update.peer.url == self.url,
            update.peer.shared_secret == self.secret,
            update.peer.source == PeerSource::Mdns,
            match answer {
                Ok(agents) => {
                    &&& update.peer.agents == agents
                    &&& update.peer.health == PeerHealth::Healthy
                    &&& update.log is None
                },
                Err(reason) => {
                    &&& update.peer.agents@ == Seq::<A>::empty()
                    &&& update.peer.health == PeerHealth::Unknown
                    &&& update.log matches Some(log)
                    &&& log@ == "[federation] mDNS: failed to discover agents from '"@
                        + self.fullname@ + "': "@ + reason@
                },
            },
    {
        let (agents, health, log) = match answer {
            Ok(agents) => (agents, PeerHealth::Healthy, None),
            Err(reason) => {
                let mut log = "[federation] mDNS: failed to discover agents from '".to_owned();
                log.append(self.fullname.as_str());
                log.append("': ");
                log.append(reason.as_str());
                (Vec::new(), PeerHealth::Unknown, Some(log))
            },
        };
        PeerUpdate {
            peer: PeerState {
                name: self.short_name,
                url: self.url,
                shared_secret: self.secret,
                agents,
                health,
                source: PeerSource::Mdns,
            },
            log,
        }
    }
}

/// The first of `peers` that is called `name`.
pub open spec fn first_named<A>(peers: Seq<PeerState<A>>, name: Seq<char>) -> Option<PeerState<A>>
    decreases peers.len(),
{
    if peers.len() == 0 {
        None
    } else if peers[0].name@ == name {
        Some(peers[0])
    } else {
        first_named(peers.skip(1), name)
    }
}

/// A withdrawn announcement of `name` takes a peer out of the registry that lists
/// `peers`.
pub open spec fn evicts<A>(peers: Seq<PeerState<A>>, name: Seq<char>) -> bool {
    first_named(peers, name) matches Some(peer) && peer.source == PeerSource::Mdns
}

/// A peer to be taken out of the registry.
pub struct Eviction {
    pub name: String,
    pub log: String,
}

impl Removal {
    /// Takes out the peer of that name if it was found on the local network; one from
    /// the configuration stays.
    pub fn decide<A>(self, peers: &Vec<PeerState<A>>) -> (eviction: Option<Eviction>)
        ensures
            eviction is Some <==> evicts(peers@, self.short_name@),
            eviction matches Some(eviction) ==> {
                &&& eviction.name == self.short_name
                &&& eviction.log@ == "[federation] mDNS: peer '"@ + self.short_name@
                    + "' removed"@
            },
    {
        let mut i: usize = 0;
        assert(peers@.skip(0) =~= peers@);
        while i < peers.len()
            invariant
                i <= peers.len(),
                first_named(peers@, self.short_name@) == first_named(
                    peers@.skip(i as int),
                    self.short_name@,
                ),
            decreases peers.len() - i,
        {
            if peers[i].name == self.short_name {
                if peers[i].source == PeerSource::Mdns {
                    let mut log = "[federation] mDNS: peer '".to_owned();
                    log.append(self.short_name.as_str());
                    log.append("' removed");
                    return Some(Eviction { name: self.short_name, log });
                }
                return None;
            }
            assert(peers@.skip(i as int).skip(1) =~= peers@.skip(i + 1));
            i += 1;
        }
        None
    }
}

/// A full name names the instance that it is made of, whatever characters that name holds.
pub proof fn received_name_names_its_instance(name: Seq<char>)
    ensures
        instance_in(received_name(name)) == Some(name),
{
    let suffix = "."@ + SERVICE_TYPE@;
    let fullname = received_name(name);
    assert(fullname =~= name + suffix);
    assert(suffix.is_suffix_of(fullname));
    assert(fullname.take(fullname.len() - suffix.len()) =~= name);
}

/// A name in which nothing is to be escaped.
pub open spec fn is_plain_name(name: Seq<char>) -> bool {
    !name.contains('.') && !name.contains('\\')
}

proof fn plain_name_is_its_own_escaping(name: Seq<char>)
    requires
        is_plain_name(name),
    ensures
        escaped(name) == name,
    decreases name.len(),
{
    if name.len() > 0 {
        let rest = name.skip(1);
        assert(name.contains(name[0]));
        assert forall|c: char| rest.contains(c) implies name.contains(c) by {
            let i = choose|i: int| 0 <= i < rest.len() && rest[i] == c;
            assert(name[i + 1] == c);
        }
        plain_name_is_its_own_escaping(rest);
        assert(seq![name[0]] + rest =~= name);
    }
}

/// A name that needs no escaping is registered as it is received.
pub proof fn plain_name_is_registered_as_received(name: Seq<char>)
    requires
        is_plain_name(name),
    ensures
        fullname_of(name) == received_name(name),
{
    plain_name_is_its_own_escaping(name);
}

/// An instance skips its own announcement.
pub proof fn own_announcement_is_skipped(browser: PeerBrowser)
    ensures
        browser.skips(received_name(browser.own_instance@)),
{
    received_name_names_its_instance(browser.own_instance@);
}

/// A peer is known under its own name.
pub proof fn announced_name_is_found_again(name: Seq<char>)
    ensures
        short_name_of(received_name(name)) == name,
{
    received_name_names_its_instance(name);
}

/// A peer whose name holds no dot is known under what stands before the first dot of its
/// full name.
pub proof fn dotless_name_ends_at_the_first_dot(name: Seq<char>)
    requires
        !name.contains('.'),
    ensures
        short_name_of(received_name(name)) == before(received_name(name), '.'),
{
    reveal_strlit(".");
    let fullname = received_name(name);
    let at = name.len() as int;
    announced_name_is_found_again(name);
    fullname.index_of_first_ensures('.');
    assert(fullname[at] == '.');
    assert forall|i: int| 0 <= i < at implies fullname[i] != '.' by {
        assert(fullname[i] == name[i]);
    }
    assert(fullname.index_of_first('.') == Some(at));
    assert(fullname.take(at) =~= name);
}

/// Every other instance that is announced with an address is found: it is asked for its
/// agents under its own name.
pub proof fn every_other_instance_is_found(
    browser: PeerBrowser,
    name: Seq<char>,
    fullname: String,
    port: u16,
    address: String,
    action: BrowseAction,
)
    requires
        name != browser.own_instance@,
        fullname@ == received_name(name),
        browser.answers(
            BrowseEvent::Resolved { fullname, port, address: Some(address) },
            action,
        ),
    ensures
        action matches BrowseAction::Discover { discovery, .. } && discovery.short_name@ == name
            && discovery.url@ == peer_url(address@, port),
{
    received_name_names_its_instance(name);
}

/// Of everything that is announced with an address, an instance skips its own full name
/// and nothing else.
pub proof fn only_the_own_announcement_is_skipped(
    browser: PeerBrowser,
    fullname: String,
    port: u16,
    address: String,
    action: BrowseAction,
)
    requires
        browser.answers(
            BrowseEvent::Resolved { fullname, port, address: Some(address) },
            action,
        ),
    ensures
        action is Ignore <==> fullname@ == received_name(browser.own_instance@),
        action is Discover <==> fullname@ != received_name(browser.own_instance@),
{
    let suffix = "."@ + SERVICE_TYPE@;
    let own = browser.own_instance@;
    received_name_names_its_instance(own);
    if browser.skips(fullname@) {
        assert(fullname@ =~= fullname@.take(fullname@.len() - suffix.len()) + suffix);
        assert(received_name(own) =~= own + suffix);
    }
}

/// A withdrawn announcement never takes out a peer from the configuration.
pub proof fn configured_peers_stay<A>(peers: Seq<PeerState<A>>, name: Seq<char>)
    requires
        forall|i: int|
            0 <= i < peers.len() && #[trigger] peers[i].name@ == name ==> peers[i].source
                == PeerSource::Static,
    ensures
        !evicts(peers, name),
    decreases peers.len(),
{
    if peers.len() > 0 && peers[0].name@ != name {
        assert forall|i: int|
            0 <= i < peers.skip(1).len() && #[trigger] peers.skip(1)[i].name@
                == name implies peers.skip(1)[i].source == PeerSource::Static by {
            assert(peers.skip(1)[i] == peers[i + 1]);
        }
        configured_peers_stay(peers.skip(1), name);
    }
}

/// A peer found on the local network leaves with its announcement, in a registry that
/// holds one peer for each name.
pub proof fn found_peer_leaves_with_its_announcement<A>(
    peers: Seq<PeerState<A>>,
    peer: PeerState<A>,
    fullname: Seq<char>,
)
    requires
        peers.contains(peer),
        peer.name@ == short_name_of(fullname),
        peer.source == PeerSource::Mdns,
        forall|i: int, j: int|
            0 <= i < j < peers.len() ==> #[trigger] peers[i].name@ != #[trigger] peers[j].name@,
    ensures
        evicts(peers, short_name_of(fullname)),
    decreases peers.len(),
{
    let at = choose|i: int| 0 <= i < peers.len() && peers[i] == peer;
    if at != 0 {
        let rest = peers.skip(1);
        assert(rest[at - 1] == peer);
        assert forall|i: int, j: int| 0 <= i < j < rest.len() implies #[trigger] rest[i].name@
            != #[trigger] rest[j].name@ by {
            assert(rest[i] == peers[i + 1] && rest[j] == peers[j + 1]);
        }
        found_peer_leaves_with_its_announcement(rest, peer, fullname);
        assert(peers[0].name@ != peers[at].name@);
    }
}

/// The peers that are not called `name`.
pub open spec fn without_named<A>(peers: Seq<PeerState<A>>, name: Seq<char>) -> Seq<PeerState<A>>
    decreases peers.len(),
{
    if peers.len() == 0 {
        Seq::empty()
    } else if peers[0].name@ == name {
        without_named(peers.skip(1), name)
    } else {
        seq![peers[0]] + without_named(peers.skip(1), name)
    }
}

proof fn new_peer_is_taken_out_again<A>(peers: Seq<PeerState<A>>, peer: PeerState<A>)
    requires
        forall|i: int| 0 <= i < peers.len() ==> #[trigger] peers[i].name@ != peer.name@,
        peer.source == PeerSource::Mdns,
    ensures
        evicts(peers.push(peer), peer.name@),
        without_named(peers.push(peer), peer.name@) == peers,
    decreases peers.len(),
{
    let all = peers.push(peer);
    if peers.len() == 0 {
        assert(all.skip(1) =~= Seq::empty());
        assert(without_named(all.skip(1), peer.name@) =~= peers);
    } else {
        let rest = peers.skip(1);
        assert forall|i: int| 0 <= i < rest.len() implies #[trigger] rest[i].name@
            != peer.name@ by {
            assert(rest[i] == peers[i + 1]);
        }
        new_peer_is_taken_out_again(rest, peer);
        assert(all.skip(1) =~= rest.push(peer));
        assert(seq![peers[0]] + rest =~= peers);
    }
}

/// A removal undoes the discovery of the same announcement: a peer that was entered under
/// a new name, whether or not it answered, is taken out by that name, and the peers are
/// those from before.
pub proof fn removal_undoes_the_discovery<A>(
    browser: PeerBrowser,
    fullname: String,
    port: u16,
    address: String,
    found: BrowseAction,
    withdrawn: BrowseAction,
    peers: Seq<PeerState<A>>,
    peer: PeerState<A>,
)
    requires
        browser.answers(
            BrowseEvent::Resolved { fullname, port, address: Some(address) },
            found,
        ),
        browser.answers(BrowseEvent::Removed { fullname }, withdrawn),
        found matches BrowseAction::Discover { discovery, .. } && peer.name@
            == discovery.short_name@,
        peer.source == PeerSource::Mdns,
        forall|i: int| 0 <= i < peers.len() ==> #[trigger] peers[i].name@ != peer.name@,
    ensures
        withdrawn matches BrowseAction::Review { removal } && evicts(
            peers.push(peer),
            removal.short_name@,
        ) && without_named(peers.push(peer), removal.short_name@) == peers,
{
    new_peer_is_taken_out_again(peers, peer);
}

}
