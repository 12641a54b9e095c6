//! Laws of announcing an instance and finding others.

use vstd::prelude::*;
use vstd::string::*;

use super::text::{
    is_number, number_is_written_in_base_ten, number_is_written_in_one_way,
    part_before_ends_at_the_first_separator, rest_and_suffix_give_the_text,
};
use crate::federation::discovery::{
    browse_peers, first_named, hold_registration, instance_in, register_service, short_name_of,
    BrowseAction, BrowseEvent, Discovery, Eviction, PeerBrowser, PeerUpdate, Registration,
    RegistrationEvent, RegistrationStep, Removal,
};
use crate::federation::{PeerHealth, PeerSource, PeerState};
use crate::outside::{
    escaped, service_fullname, service_hostname, service_port, service_type, without_doubled_local,
};

verus! {

/// Escaping goes character by character: a dot and a backslash get a backslash before them,
/// and every other character stays as it is.
pub proof fn escaping_goes_character_by_character(name: Seq<char>, c: char)
    ensures
        escaped(Seq::empty()).len() == 0,
        c == '.' || c == '\\' ==> escaped(name.push(c)) == escaped(name).push('\\').push(c),
        c != '.' && c != '\\' ==> escaped(name.push(c)) == escaped(name).push(c),
    decreases name.len(),
{
    let longer = name.push(c);
    if name.len() == 0 {
        assert(longer.skip(1) =~= Seq::empty());
        reveal_with_fuel(escaped, 2);
        assert(escaped(name) =~= Seq::empty());
        assert(escaped(longer) =~= if c == '.' || c == '\\' {
            seq!['\\', c]
        } else {
            seq![c]
        });
    } else {
        assert(longer.skip(1) =~= name.skip(1).push(c));
        escaping_goes_character_by_character(name.skip(1), c);
        if c == '.' || c == '\\' {
            assert(escaped(longer) =~= escaped(name).push('\\').push(c));
        } else {
            assert(escaped(longer) =~= escaped(name).push(c));
        }
    }
}

/// An instance is announced under its own name, escaped, and on the port given. Its host is
/// called like it, with `.local` behind where the name does not end so, and a dot.
pub proof fn instance_is_announced_under_its_name(
    instance_name: &str,
    port: u16,
    registration: Result<Registration, String>,
)
    requires
        call_ensures(register_service, (instance_name, port), registration),
    ensures
        registration is Ok,
        service_type(registration->Ok_0.info) == "_herald._tcp.local."@,
        service_fullname(registration->Ok_0.info) == escaped(instance_name@)
            + "._herald._tcp.local."@,
        ".local"@.is_suffix_of(instance_name@) ==> service_hostname(registration->Ok_0.info)
            == instance_name@ + "."@,
        !".local"@.is_suffix_of(instance_name@) ==> service_hostname(registration->Ok_0.info)
            == instance_name@ + ".local."@,
        service_port(registration->Ok_0.info) == port,
        exists|digits: Seq<char>| #[trigger]
            is_number(digits, port as int) && registration->Ok_0.log@
                == "[federation] mDNS: registered as '"@ + instance_name@ + "' on port "@ + digits,
{
    number_is_written_in_base_ten(port as nat);
    reveal_strlit(".");
    reveal_strlit(".local");
    reveal_strlit(".local.");
    reveal_strlit(".local.local.");
    reveal_strlit("_herald._tcp.local.");
    reveal_strlit("._herald._tcp.local.");
    assert(escaped(instance_name@) + "."@ + "_herald._tcp.local."@ =~= escaped(instance_name@)
        + "._herald._tcp.local."@);
    let name = instance_name@;
    let host = name + ".local."@;
    let doubled = ".local.local."@;
    if ".local"@.is_suffix_of(name) {
        let cut = name.len() - 6;
        assert(name.subrange(cut, name.len() as int) =~= ".local"@);
        assert forall|i: int| 0 <= i < 13 implies host[cut + i] == doubled[i] by {
            if i < 6 {
                assert(host[cut + i] == name.subrange(cut, name.len() as int)[i]);
            }
        }
        assert(host.subrange(host.len() - 13, host.len() as int) =~= doubled);
        assert(without_doubled_local(host) =~= name + "."@);
    } else if doubled.is_suffix_of(host) {
        assert(host.subrange(host.len() - 13, host.len() as int) =~= doubled);
        let cut = name.len() - 6;
        assert forall|i: int| 0 <= i < 6 implies name[cut + i] == ".local"@[i] by {
            assert(host.subrange(host.len() - 13, host.len() as int)[i] == doubled[i]);
        }
        assert(name.subrange(cut, name.len() as int) =~= ".local"@);
    }
}

/// An announcement stands until the instance is told to shut down: until then every wait is
/// followed by another, of an hour.
pub proof fn announcement_is_held(event: RegistrationEvent, step: RegistrationStep)
    requires
        call_ensures(hold_registration, (event,), step),
    ensures
        event is Cancelled ==> (step matches RegistrationStep::Shutdown { log } && log@
            == "[federation] mDNS: unregistering service"@),
        event is Elapsed ==> (step matches RegistrationStep::Wait { secs } && secs == 3600),
{
}

/// `name` is how the sender of a full name is known: what the service type is put behind,
/// with a dot, to give the full name, and where there is no such thing, what stands before
/// the first dot.
pub open spec fn is_sender(name: Seq<char>, fullname: Seq<char>) -> bool {
    ||| fullname == name + "._herald._tcp.local."@
    ||| {
        &&& forall|other: Seq<char>| fullname != #[trigger] (other + "._herald._tcp.local."@)
        &&& name.is_prefix_of(fullname)
        &&& !name.contains('.')
        &&& name == fullname || name.push('.').is_prefix_of(fullname)
    }
}

proof fn instance_stands_before_the_type(fullname: Seq<char>, name: Seq<char>)
    ensures
        instance_in(fullname) == Some(name) <==> fullname == name + "._herald._tcp.local."@,
{
    reveal_strlit(".");
    reveal_strlit("_herald._tcp.local.");
    reveal_strlit("._herald._tcp.local.");
    assert("."@ + "_herald._tcp.local."@ =~= "._herald._tcp.local."@);
    rest_and_suffix_give_the_text(fullname, "._herald._tcp.local."@, name);
}

proof fn short_name_is_the_sender(fullname: Seq<char>)
    ensures
        is_sender(short_name_of(fullname), fullname),
{
    match instance_in(fullname) {
        Some(name) => {
            instance_stands_before_the_type(fullname, name);
        },
        None => {
            assert forall|other: Seq<char>| fullname != #[trigger] (other
                + "._herald._tcp.local."@) by {
                instance_stands_before_the_type(fullname, other);
            }
            part_before_ends_at_the_first_separator(fullname, '.');
        },
    }
}

/// The sender of a full name is known under one name.
pub proof fn sender_has_one_name(fullname: Seq<char>, a: Seq<char>, b: Seq<char>)
    requires
        is_sender(a, fullname),
        is_sender(b, fullname),
    ensures
        a == b,
{
    let ty = "._herald._tcp.local."@;
    if fullname == a + ty {
        assert((a + ty).take(a.len() as int) =~= a);
        assert((b + ty).take(b.len() as int) =~= b);
    } else {
        if a.len() < b.len() {
            assert(a.push('.')[a.len() as int] == '.');
            assert(fullname[a.len() as int] == '.');
            assert(b[a.len() as int] == '.');
        }
        if b.len() < a.len() {
            assert(b.push('.')[b.len() as int] == '.');
            assert(fullname[b.len() as int] == '.');
            assert(a[b.len() as int] == '.');
        }
        assert(a =~= b);
    }
}

/// An announcement that was resolved with an address is that of a peer, but for the
/// instance's own. The peer is known under the name of the sender. It is asked for its
/// agents with the instance's secret at `http://`, the address, a colon and the port in
/// base ten.
pub proof fn peer_is_asked_at_its_address_and_port(
    browser: PeerBrowser,
    fullname: String,
    port: u16,
    address: String,
    action: BrowseAction,
)
    requires
        call_ensures(
            browse_peers,
            (&browser, BrowseEvent::Resolved { fullname, port, address: Some(address) }),
            action,
        ),
    ensures
        fullname@ == browser.own_instance@ + "._herald._tcp.local."@ ==> action is Ignore,
        fullname@ != browser.own_instance@ + "._herald._tcp.local."@ ==> (
        action matches BrowseAction::Discover { discovery, log } && {
            &&& discovery.fullname@ == fullname@
            &&& is_sender(discovery.short_name@, fullname@)
            &&& discovery.secret@ == browser.global_secret@
            &&& exists|digits: Seq<char>| #[trigger]
                is_number(digits, port as int) && discovery.url@ == "http://"@ + address@ + ":"@
                    + digits
            &&& log@ == "[federation] mDNS: discovered peer '"@ + discovery.short_name@ + "' at "@
                + discovery.url@
        }),
{
    number_is_written_in_base_ten(port as nat);
    instance_stands_before_the_type(fullname@, browser.own_instance@);
    short_name_is_the_sender(fullname@);
}

/// One peer at two ports is asked at two URLs.
pub proof fn ports_have_their_own_urls(
    browser: PeerBrowser,
    fullname: String,
    address: String,
    port: u16,
    other: u16,
    first: BrowseAction,
    second: BrowseAction,
)
    requires
        fullname@ != browser.own_instance@ + "._herald._tcp.local."@,
        call_ensures(
            browse_peers,
            (&browser, BrowseEvent::Resolved { fullname, port, address: Some(address) }),
            first,
        ),
        call_ensures(
            browse_peers,
            (&browser, BrowseEvent::Resolved { fullname, port: other, address: Some(address) }),
            second,
        ),
    ensures
        first is Discover && second is Discover,
        first->discovery.url@ == second->discovery.url@ <==> port == other,
{
    peer_is_asked_at_its_address_and_port(browser, fullname, port, address, first);
    peer_is_asked_at_its_address_and_port(browser, fullname, other, address, second);
    let prefix = "http://"@ + address@ + ":"@;
    let a = choose|digits: Seq<char>| #[trigger]
        is_number(digits, port as int) && first->discovery.url@ == "http://"@ + address@ + ":"@
            + digits;
    let b = choose|digits: Seq<char>| #[trigger]
        is_number(digits, other as int) && second->discovery.url@ == "http://"@ + address@ + ":"@
            + digits;
    number_is_written_in_one_way(a, port as int, b, other as int);
    assert((prefix + a).skip(prefix.len() as int) =~= a);
    assert((prefix + b).skip(prefix.len() as int) =~= b);
}

/// An announcement that was withdrawn asks for a review of the peer that sent it, and one
/// without an address for nothing. Watching ends when it is cancelled, and goes on five
/// seconds after a failure, which is logged with its reason.
pub proof fn other_events_are_answered(
    browser: PeerBrowser,
    event: BrowseEvent,
    action: BrowseAction,
)
    requires
        call_ensures(browse_peers, (&browser, event), action),
    ensures
        event matches BrowseEvent::Removed { fullname } ==> (
        action matches BrowseAction::Review { removal } && is_sender(
            removal.short_name@,
            fullname@,
        )),
        event matches BrowseEvent::Resolved { address, .. } ==> address is None ==> action
            is Ignore,
        event is Other ==> action is Ignore,
        event is Cancelled ==> (action matches BrowseAction::Stop { log } && log@
            == "[federation] mDNS: browse task shutting down"@),
        event matches BrowseEvent::Failed { reason } ==> (
        action matches BrowseAction::Pause { secs, log } && secs == 5 && log@
            == "[federation] mDNS browse error: "@ + reason@),
{
    if let BrowseEvent::Removed { fullname } = event {
        short_name_is_the_sender(fullname@);
    }
}

/// A found peer is entered whether or not it answered, as found on the local network, under
/// the name, the URL and the secret with which it was asked. Its agents are those that it
/// told, and it is healthy where it told them.
pub proof fn found_peer_is_entered_as_asked<A>(
    discovery: Discovery,
    answer: Result<Vec<A>, String>,
    update: PeerUpdate<A>,
)
    requires
        call_ensures(Discovery::finish::<A>, (discovery, answer), update),
    ensures
        update.peer.name@ == discovery.short_name@,
        update.peer.url@ == discovery.url@,
        update.peer.shared_secret@ == discovery.secret@,
        update.peer.source == PeerSource::Mdns,
        answer matches Ok(agents) ==> {
            &&& update.peer.agents@ == agents@
            &&& update.peer.health == PeerHealth::Healthy
            &&& update.log is None
        },
        answer matches Err(reason) ==> {
            &&& update.peer.agents@.len() == 0
            &&& update.peer.health == PeerHealth::Unknown
            &&& update.log is Some
            &&& update.log->0@ == "[federation] mDNS: failed to discover agents from '"@
                + discovery.fullname@ + "': "@ + reason@
        },
{
}

proof fn first_named_is_the_first<A>(peers: Seq<PeerState<A>>, name: Seq<char>, i: int)
    requires
        0 <= i < peers.len(),
        peers[i].name@ == name,
        forall|j: int| 0 <= j < i ==> #[trigger] peers[j].name@ != name,
    ensures
        first_named(peers, name) == Some(peers[i]),
    decreases i,
{
    if i > 0 {
        assert(peers[0].name@ != name);
        let rest = peers.skip(1);
        assert forall|j: int| 0 <= j < i - 1 implies #[trigger] rest[j].name@ != name by {
            assert(rest[j] == peers[j + 1]);
        }
        first_named_is_the_first(rest, name, i - 1);
    }
}

proof fn no_one_is_named<A>(peers: Seq<PeerState<A>>, name: Seq<char>)
    requires
        forall|j: int| 0 <= j < peers.len() ==> #[trigger] peers[j].name@ != name,
    ensures
        first_named(peers, name) is None,
    decreases peers.len(),
{
    if peers.len() > 0 {
        let rest = peers.skip(1);
        assert(peers[0].name@ != name);
        assert forall|j: int| 0 <= j < rest.len() implies #[trigger] rest[j].name@ != name by {
            assert(rest[j] == peers[j + 1]);
        }
        no_one_is_named(rest, name);
    }
}

/// Wherever in the list the first peer of the withdrawn name stands, it is taken out where
/// it was found on the local network, and stays where it is from the configuration. Where
/// no peer has the name, none is taken out.
pub proof fn withdrawn_peer_is_taken_out<A>(
    removal: Removal,
    peers: Vec<PeerState<A>>,
    eviction: Option<Eviction>,
    i: int,
)
    requires
        call_ensures(Removal::decide::<A>, (removal, &peers), eviction),
    ensures
        0 <= i < peers@.len() && peers@[i].name@ == removal.short_name@ && (forall|j: int|
            0 <= j < i ==> #[trigger] peers@[j].name@ != removal.short_name@) ==> (eviction is Some
            <==> peers@[i].source == PeerSource::Mdns),
        (forall|j: int|
            0 <= j < peers@.len() ==> #[trigger] peers@[j].name@ != removal.short_name@)
            ==> eviction is None,
        eviction matches Some(eviction) ==> eviction.name@ == removal.short_name@ && eviction.log@
            == "[federation] mDNS: peer '"@ + removal.short_name@ + "' removed"@,
{
    let name = removal.short_name@;
    if 0 <= i < peers@.len() && peers@[i].name@ == name && (forall|j: int|
        0 <= j < i ==> #[trigger] peers@[j].name@ != name) {
        first_named_is_the_first(peers@, name, i);
    }
    if forall|j: int| 0 <= j < peers@.len() ==> #[trigger] peers@[j].name@ != name {
        no_one_is_named(peers@, name);
    }
}

/// From announcement to entry and back: what is withdrawn under a full name is the peer
/// that was entered under it, whatever it answered.
pub proof fn withdrawal_names_the_peer_that_was_entered<A>(
    browser: PeerBrowser,
    fullname: String,
    port: u16,
    address: String,
    found: BrowseAction,
    answer: Result<Vec<A>, String>,
    update: PeerUpdate<A>,
    withdrawn: BrowseAction,
)
    requires
        call_ensures(
            browse_peers,
            (&browser, BrowseEvent::Resolved { fullname, port, address: Some(address) }),
            found,
        ),
        found is Discover,
        call_ensures(Discovery::finish::<A>, (found->discovery, answer), update),
        call_ensures(browse_peers, (&browser, BrowseEvent::Removed { fullname }), withdrawn),
    ensures
        withdrawn is Review,
        withdrawn->removal.short_name@ == update.peer.name@,
{
    peer_is_asked_at_its_address_and_port(browser, fullname, port, address, found);
    other_events_are_answered(browser, BrowseEvent::Removed { fullname }, withdrawn);
    sender_has_one_name(fullname@, found->discovery.short_name@, withdrawn->removal.short_name@);
}

}
