//! Decisions of a discovery run: which local bindings to probe from, which
//! probe responses become candidates, how the candidates of several probes
//! merge, what request fetches a candidate's description, and which
//! described devices are kept.
//!
//! The network work itself (sockets, timeouts, threads) happens outside this
//! module; it hands plain values in and takes plain values back.
use vstd::prelude::*;
use crate::parse::{extract_header, extract_host_port, extract_path, extract_xml, header_of, host_port_of, path_of, tag_text};
use crate::text::{chars_of, find, find_from, string_of};

verus! {

/// An IP address: an IPv4 address as its 32 bits (first octet highest), or
/// an IPv6 address as its 128 bits.
#[derive(Clone, Copy, Debug, PartialEq, Eq, Hash, Structural)]
pub enum IpAddress {
    V4(u32),
    V6(u128),
}

/// A responder seen by a probe: where its reply came from and the URL of its
/// description document.
pub struct Candidate {
    pub source: IpAddress,
    pub location: String,
}

/// What a description document says of a device.
pub struct DeviceDescription {
    pub friendly_name: String,
    pub manufacturer: String,
}

/// The outcome of fetching one candidate's description; `None` when the
/// fetch failed or the document lacked a field.
pub struct Resolution {
    pub source: IpAddress,
    pub description: Option<DeviceDescription>,
}

/// A confirmed receiver: its address and its display name.
pub struct YamahaDevice {
    pub ip: IpAddress,
    pub name: String,
}

/// A local network interface as the system lists it.
pub struct NetInterface {
    pub name: String,
    pub addr: IpAddress,
    pub loopback: bool,
}

/// How a run chooses the local addresses to probe from.
#[derive(Clone, Copy, Debug, PartialEq, Eq, Structural)]
pub enum BindingStrategy {
    /// One socket on the wildcard address receives replies from every interface.
    SingleWildcardBinding,
    /// One socket per eligible interface, bound to that interface's address.
    PerInterfaceBinding,
}

/// The request that fetches a description document.
pub struct DescriptionRequest {
    /// The `host:port` to connect to.
    pub host_port: String,
    /// The complete HTTP request text.
    pub request: String,
}

pub type CandidateView = (IpAddress, Seq<char>);

pub type DescriptionView = (Seq<char>, Seq<char>);

pub type ResolutionView = (IpAddress, Option<DescriptionView>);

pub type DeviceView = (IpAddress, Seq<char>);

impl Candidate {
    pub open spec fn view(&self) -> CandidateView {
        (self.source, self.location@)
    }

    fn duplicate(&self) -> (r: Candidate)
        ensures
            r == *self,
    {
        Candidate { source: self.source, location: self.location.clone() }
    }
}

impl DeviceDescription {
    pub open spec fn view(&self) -> DescriptionView {
        (self.friendly_name@, self.manufacturer@)
    }
}

impl Resolution {
    pub open spec fn view(&self) -> ResolutionView {
        (
            self.source,
            match self.description {
                Some(d) => Some(d.view()),
                None => None,
            },
        )
    }
}

impl YamahaDevice {
    pub open spec fn view(&self) -> DeviceView {
        (self.ip, self.name@)
    }
}

pub open spec fn candidates_view(s: Seq<Candidate>) -> Seq<CandidateView> {
    s.map_values(|c: Candidate| c.view())
}

pub open spec fn probes_view(s: Seq<Vec<Candidate>>) -> Seq<Seq<CandidateView>> {
    s.map_values(|v: Vec<Candidate>| candidates_view(v@))
}

pub open spec fn resolutions_view(s: Seq<Resolution>) -> Seq<ResolutionView> {
    s.map_values(|r: Resolution| r.view())
}

pub open spec fn devices_view(s: Seq<YamahaDevice>) -> Seq<DeviceView> {
    s.map_values(|d: YamahaDevice| d.view())
}

/// The IPv4 multicast group that discovery queries go to.
pub open spec fn discovery_group() -> IpAddress {
    IpAddress::V4(0xEFFF_FFFA)
}

pub open spec fn wildcard() -> IpAddress {
    IpAddress::V4(0)
}

pub open spec fn location_header() -> Seq<char> {
    seq!['L', 'O', 'C', 'A', 'T', 'I', 'O', 'N']
}

pub open spec fn vendor() -> Seq<char> {
    "Yamaha Corporation"@
}

pub open spec fn virtual_prefix() -> Seq<char> {
    "vEthernet"@
}

pub open spec fn has_source(s: Seq<CandidateView>, a: IpAddress) -> bool {
    exists|i: int| 0 <= i < s.len() && (#[trigger] s[i]).0 == a
}

pub open spec fn distinct_sources(s: Seq<CandidateView>) -> bool {
    forall|i: int, j: int| 0 <= i < j < s.len() ==> (#[trigger] s[i]).0 != (#[trigger] s[j]).0
}

pub open spec fn has_ip(s: Seq<DeviceView>, a: IpAddress) -> bool {
    exists|i: int| 0 <= i < s.len() && (#[trigger] s[i]).0 == a
}

pub open spec fn distinct_ips(s: Seq<DeviceView>) -> bool {
    forall|i: int, j: int| 0 <= i < j < s.len() ==> (#[trigger] s[i]).0 != (#[trigger] s[j]).0
}

/// The candidates in order, keeping the first of each source address.
pub open spec fn first_per_source(s: Seq<CandidateView>) -> Seq<CandidateView>
    decreases s.len(),
{
    if s.len() == 0 {
        seq![]
    } else {
        let p = first_per_source(s.drop_last());
        if has_source(p, s.last().0) {
            p
        } else {
            p.push(s.last())
        }
    }
}

/// The candidates of all probes, in probe order, first of each source kept.
pub open spec fn merged(probes: Seq<Seq<CandidateView>>) -> Seq<CandidateView> {
    first_per_source(probes.flatten())
}

/// The collection a probe holds after one more datagram from `source`: a new
/// candidate when the source is new and the datagram names a location.
pub open spec fn after_datagram(s: Seq<CandidateView>, source: IpAddress, datagram: Seq<char>) -> Seq<
    CandidateView,
> {
    if has_source(s, source) {
        s
    } else {
        match header_of(datagram, location_header()) {
            Some(loc) => s.push((source, loc)),
            None => s,
        }
    }
}

pub open spec fn starts_with(s: Seq<char>, p: Seq<char>) -> bool {
    p.len() <= s.len() && s.subrange(0, p.len() as int) == p
}

/// An interface worth probing from: IPv4, not loopback, not virtual.
pub open spec fn eligible(i: NetInterface) -> bool {
    i.addr is V4 && !i.loopback && !starts_with(i.name@, virtual_prefix())
}

pub open spec fn eligible_addrs(s: Seq<NetInterface>) -> Seq<IpAddress>
    decreases s.len(),
{
    if s.len() == 0 {
        seq![]
    } else {
        let p = eligible_addrs(s.drop_last());
        if eligible(s.last()) {
            p.push(s.last().addr)
        } else {
            p
        }
    }
}

/// A resolution whose description names the expected vendor exactly.
pub open spec fn accepted(r: ResolutionView) -> bool {
    r.1 is Some && (r.1->0).1 == vendor()
}

pub open spec fn device_of(r: ResolutionView) -> DeviceView {
    (r.0, (r.1->0).0)
}

/// The devices of the accepted resolutions, in order, one per address.
pub open spec fn selected(rs: Seq<ResolutionView>) -> Seq<DeviceView>
    decreases rs.len(),
{
    if rs.len() == 0 {
        seq![]
    } else {
        let p = selected(rs.drop_last());
        let x = rs.last();
        if accepted(x) && !has_ip(p, x.0) {
            p.push(device_of(x))
        } else {
            p
        }
    }
}

/// The body of an HTTP response: what follows the first blank line, or the
/// whole text when there is none.
pub open spec fn body_of(response: Seq<char>) -> Seq<char> {
    match find_from(response, seq!['\r', '\n', '\r', '\n'], 0) {
        Some(k) => response.subrange(k + 4 as int, response.len() as int),
        None => response,
    }
}

/// The name and manufacturer that a description response declares.
pub open spec fn description_of(response: Seq<char>) -> Option<DescriptionView> {
    let body = body_of(response);
    match (tag_text(body, "friendlyName"@), tag_text(body, "manufacturer"@)) {
        (Some(n), Some(m)) => Some((n, m)),
        _ => None,
    }
}

pub open spec fn description_request_text(path: Seq<char>, host_port: Seq<char>) -> Seq<char> {
    "GET "@ + path + " HTTP/1\x2e1\r\nHost: "@ + host_port + "\r\nConnection: close\r\n\r\n"@
}

/// The discovery query sent to the multicast group.
pub fn discovery_query() -> (r: String)
    ensures
        r@ == "M-SEARCH * HTTP/1\x2e1\r\nHOST: 239\x2e255\x2e255\x2e250:1900\r\nMAN: \"ssdp:discover\"\r\nMX: 2\r\nST: ssdp:all\r\n\r\n"@,
{
    String::from_str(
        "M-SEARCH * HTTP/1\x2e1\r\nHOST: 239\x2e255\x2e255\x2e250:1900\r\nMAN: \"ssdp:discover\"\r\nMX: 2\r\nST: ssdp:all\r\n\r\n",
    )
}

/// The multicast group and port that discovery queries go to.
pub fn discovery_target() -> (r: (IpAddress, u16))
    ensures
        r == (discovery_group(), 1900u16),
{
    (IpAddress::V4(0xEFFF_FFFA), 1900)
}

fn has_source_exec(v: &Vec<Candidate>, a: IpAddress) -> (r: bool)
    ensures
        r == has_source(candidates_view(v@), a),
{
    let mut i: usize = 0;
    while i < v.len()
        invariant
            i <= v@.len(),
            forall|k: int| 0 <= k < i ==> v@[k].source != a,
        decreases v@.len() - i,
    {
        if v[i].source == a {
            assert(candidates_view(v@)[i as int].0 == a);
            return true;
        }
        i = i + 1;
    }
    assert forall|k: int| 0 <= k < candidates_view(v@).len() implies (#[trigger] candidates_view(
        v@,
    )[k]).0 != a by {
        assert(v@[k].source != a);
    }
    false
}

fn has_ip_exec(v: &Vec<YamahaDevice>, a: IpAddress) -> (r: bool)
    ensures
        r == has_ip(devices_view(v@), a),
{
    let mut i: usize = 0;
    while i < v.len()
        invariant
            i <= v@.len(),
            forall|k: int| 0 <= k < i ==> v@[k].ip != a,
        decreases v@.len() - i,
    {
        if v[i].ip == a {
            assert(devices_view(v@)[i as int].0 == a);
            return true;
        }
        i = i + 1;
    }
    assert forall|k: int| 0 <= k < devices_view(v@).len() implies (#[trigger] devices_view(
        v@,
    )[k]).0 != a by {
        assert(v@[k].ip != a);
    }
    false
}

/// The candidates that one probe has collected so far.
pub struct Probe {
    candidates: Vec<Candidate>,
}

impl Probe {
    /// No two collected candidates share a source.
    #[verifier::type_invariant]
    spec fn wf(&self) -> bool {
        distinct_sources(candidates_view(self.candidates@))
    }

    /// The candidates collected so far.
    pub closed spec fn view(&self) -> Seq<CandidateView> {
        candidates_view(self.candidates@)
    }

    /// A probe that has seen nothing yet.
    pub fn new() -> (r: Probe)
        ensures
            r.view() == Seq::<CandidateView>::empty(),
    {
        let r = Probe { candidates: Vec::new() };
        assert(r.view() =~= Seq::<CandidateView>::empty());
        r
    }

    /// Takes in one datagram received from `source`. A source already seen
    /// is ignored; otherwise the datagram's `LOCATION` header, if any,
    /// becomes a candidate. Returns whether a candidate was added.
    pub fn observe(&mut self, source: IpAddress, datagram: &str) -> (added: bool)
        ensures
            final(self).view() == after_datagram(old(self).view(), source, datagram@),
            added == (final(self).view().len() > old(self).view().len()),
            distinct_sources(final(self).view()),
    {
        proof {
            use_type_invariant(&*self);
            lemma_probe_sources_distinct(self.view(), source, datagram@);
        }
        if has_source_exec(&self.candidates, source) {
            return false;
        }
        let name = "LOCATION";
        proof {
            reveal_strlit("LOCATION");
        }
        assert(name@ =~= location_header());
        match extract_header(datagram, name) {
            Some(loc) => {
                let ghost before = self.candidates@;
                let c = Candidate { source, location: loc };
                let mut v: Vec<Candidate> = Vec::new();
                std::mem::swap(&mut v, &mut self.candidates);
                v.push(c);
                assert(candidates_view(v@) =~= candidates_view(before).push((source, loc@)));
                self.candidates = v;
                true
            },
            None => false,
        }
    }

    /// The collected candidates, in the order of their first datagram.
    pub fn into_candidates(self) -> (r: Vec<Candidate>)
        ensures
            candidates_view(r@) == self.view(),
            distinct_sources(candidates_view(r@)),
    {
        proof {
            use_type_invariant(&self);
        }
        self.candidates
    }
}

fn starts_with_exec(s: &[char], p: &[char]) -> (r: bool)
    ensures
        r == starts_with(s@, p@),
{
    crate::text::matches_at(s, p, 0)
}

fn is_eligible(i: &NetInterface) -> (r: bool)
    ensures
        r == eligible(*i),
{
    if i.loopback {
        return false;
    }
    match i.addr {
        IpAddress::V6(_) => false,
        IpAddress::V4(_) => {
            let name = chars_of(i.name.as_str());
            let prefix = chars_of("vEthernet");
            !starts_with_exec(name.as_slice(), prefix.as_slice())
        },
    }
}

/// The local addresses to probe from: the wildcard address alone, or the
/// address of each IPv4, non-loopback, non-virtual interface in order.
pub fn bindings(strategy: BindingStrategy, interfaces: &Vec<NetInterface>) -> (r: Vec<IpAddress>)
    ensures
        strategy == BindingStrategy::SingleWildcardBinding ==> r@ == seq![wildcard()],
        strategy == BindingStrategy::PerInterfaceBinding ==> r@ == eligible_addrs(interfaces@),
{
    let mut r: Vec<IpAddress> = Vec::new();
    match strategy {
        BindingStrategy::SingleWildcardBinding => {
            r.push(IpAddress::V4(0));
            assert(r@ =~= seq![wildcard()]);
        },
        BindingStrategy::PerInterfaceBinding => {
            let mut i: usize = 0;
            while i < interfaces.len()
                invariant
                    i <= interfaces@.len(),
                    r@ == eligible_addrs(interfaces@.take(i as int)),
                decreases interfaces@.len() - i,
            {
                assert(interfaces@.take(i + 1).drop_last() =~= interfaces@.take(i as int));
                if is_eligible(&interfaces[i]) {
                    r.push(interfaces[i].addr);
                }
                i = i + 1;
            }
            assert(interfaces@.take(i as int) =~= interfaces@);
        },
    }
    r
}

/// The candidates of all probes, in probe order, with the first candidate of
/// each source address kept and later ones from the same address dropped.
pub fn merge_candidates(probes: &Vec<Vec<Candidate>>) -> (r: Vec<Candidate>)
    ensures
        candidates_view(r@) == merged(probes_view(probes@)),
        distinct_sources(candidates_view(r@)),
{
    proof {
        lemma_first_per_source(probes_view(probes@).flatten());
    }
    let ghost pv = probes_view(probes@);
    let mut r: Vec<Candidate> = Vec::new();
    let mut i: usize = 0;
    while i < probes.len()
        invariant
            i <= probes@.len(),
            pv == probes_view(probes@),
            candidates_view(r@) == first_per_source(pv.take(i as int).flatten()),
        decreases probes@.len() - i,
    {
        let probe = &probes[i];
        let ghost done = pv.take(i as int).flatten();
        let mut j: usize = 0;
        assert(done + pv[i as int].take(0) =~= done);
        while j < probe.len()
            invariant
                i < probes@.len(),
                j <= probe@.len(),
                *probe == probes@[i as int],
                pv == probes_view(probes@),
                done == pv.take(i as int).flatten(),
                candidates_view(r@) == first_per_source(done + pv[i as int].take(j as int)),
            decreases probe@.len() - j,
        {
            let ghost s = done + pv[i as int].take(j as int);
            assert((done + pv[i as int].take(j + 1)).drop_last() =~= s);
            assert((done + pv[i as int].take(j + 1)).last() == probe@[j as int].view());
            if !has_source_exec(&r, probe[j].source) {
                let ghost before = r@;
                r.push(probe[j].duplicate());
                assert(candidates_view(r@) =~= candidates_view(before).push(probe@[j as int].view()));
            }
            j = j + 1;
        }
        proof {
            assert(pv[i as int].take(j as int) =~= pv[i as int]);
            assert(pv.take(i + 1) =~= pv.take(i as int).push(pv[i as int]));
            pv.take(i as int).lemma_flatten_push(pv[i as int]);
        }
        i = i + 1;
    }
    assert(pv.take(i as int) =~= pv);
    r
}

/// The connection target and request text that fetch the description
/// document at `location`; `None` when `location` has no `://`.
pub fn description_request(location: &str) -> (r: Option<DescriptionRequest>)
    ensures
        match r {
            Some(q) => host_port_of(location@) == Some(q.host_port@) && q.request@
                == description_request_text(path_of(location@)->0, q.host_port@),
            None => host_port_of(location@) is None,
        },
{
    match extract_host_port(location) {
        None => None,
        Some(host_port) => {
            let path = match extract_path(location) {
                Some(p) => p,
                None => String::new(),
            };
            let mut request = String::from_str("GET ");
            request.append(path.as_str());
            request.append(" HTTP/1\x2e1\r\nHost: ");
            request.append(host_port.as_str());
            request.append("\r\nConnection: close\r\n\r\n");
            Some(DescriptionRequest { host_port, request })
        },
    }
}

/// The body of an HTTP response text: what follows the first blank line, or
/// all of it when there is none.
pub fn response_body(response: &str) -> (r: String)
    ensures
        r@ == body_of(response@),
{
    let t = chars_of(response);
    let blank = vec!['\r', '\n', '\r', '\n'];
    assert(blank@ =~= seq!['\r', '\n', '\r', '\n']);
    match find(t.as_slice(), blank.as_slice(), 0) {
        Some(k) => {
            proof {
                crate::text::lemma_find_from(t@, blank@, 0);
            }
            let n = t.len();
            string_of(&t.as_slice()[k + 4..n])
        },
        None => string_of(t.as_slice()),
    }
}

/// The friendly name and manufacturer that a description response declares;
/// `None` when either tag is missing from its body.
pub fn parse_description(response: &str) -> (r: Option<DeviceDescription>)
    ensures
        match r {
            Some(d) => description_of(response@) == Some(d.view()),
            None => description_of(response@) is None,
        },
{
    let body = response_body(response);
    let friendly = extract_xml(body.as_str(), "friendlyName");
    let manufacturer = extract_xml(body.as_str(), "manufacturer");
    match (friendly, manufacturer) {
        (Some(friendly_name), Some(manufacturer)) => Some(
            DeviceDescription { friendly_name, manufacturer },
        ),
        _ => None,
    }
}

fn is_accepted(r: &Resolution) -> (b: bool)
    ensures
        b == accepted(r.view()),
{
    match &r.description {
        Some(d) => {
            let expected = String::from_str("Yamaha Corporation");
            d.manufacturer == expected
        },
        None => false,
    }
}

/// The devices whose description names the expected vendor exactly, in
/// order, one per address (the first one).
pub fn select_devices(resolutions: &Vec<Resolution>) -> (r: Vec<YamahaDevice>)
    ensures
        devices_view(r@) == selected(resolutions_view(resolutions@)),
        distinct_ips(devices_view(r@)),
{
    proof {
        lemma_selected_sound(resolutions_view(resolutions@));
    }
    let ghost rv = resolutions_view(resolutions@);
    let mut r: Vec<YamahaDevice> = Vec::new();
    let mut i: usize = 0;
    while i < resolutions.len()
        invariant
            i <= resolutions@.len(),
            rv == resolutions_view(resolutions@),
            devices_view(r@) == selected(rv.take(i as int)),
        decreases resolutions@.len() - i,
    {
        assert(rv.take(i + 1).drop_last() =~= rv.take(i as int));
        let x = &resolutions[i];
        if is_accepted(x) && !has_ip_exec(&r, x.source) {
            match &x.description {
                Some(d) => {
                    let ghost before = r@;
                    r.push(YamahaDevice { ip: x.source, name: d.friendly_name.clone() });
                    assert(devices_view(r@) =~= devices_view(before).push(device_of(rv[i as int])));
                },
                None => {},
            }
        }
        i = i + 1;
    }
    assert(rv.take(i as int) =~= rv);
    r
}

proof fn lemma_has_source_push(s: Seq<CandidateView>, x: CandidateView)
    ensures
        forall|a: IpAddress| #[trigger] has_source(s.push(x), a) <==> (has_source(s, a) || x.0 == a),
{
    assert forall|a: IpAddress| #[trigger] has_source(s.push(x), a) <==> (has_source(s, a) || x.0
        == a) by {
        if has_source(s.push(x), a) {
            let i = choose|i: int| 0 <= i < s.push(x).len() && (#[trigger] s.push(x)[i]).0 == a;
            if i < s.len() {
                assert(s[i] == s.push(x)[i]);
            }
        }
        if has_source(s, a) {
            let i = choose|i: int| 0 <= i < s.len() && (#[trigger] s[i]).0 == a;
            assert(s.push(x)[i] == s[i]);
        }
        if x.0 == a {
            assert(s.push(x)[s.len() as int] == x);
        }
    }
}

proof fn lemma_has_ip_push(s: Seq<DeviceView>, x: DeviceView)
    ensures
        forall|a: IpAddress| #[trigger] has_ip(s.push(x), a) <==> (has_ip(s, a) || x.0 == a),
{
    assert forall|a: IpAddress| #[trigger] has_ip(s.push(x), a) <==> (has_ip(s, a) || x.0 == a) by {
        if has_ip(s.push(x), a) {
            let i = choose|i: int| 0 <= i < s.push(x).len() && (#[trigger] s.push(x)[i]).0 == a;
            if i < s.len() {
                assert(s[i] == s.push(x)[i]);
            }
        }
        if has_ip(s, a) {
            let i = choose|i: int| 0 <= i < s.len() && (#[trigger] s[i]).0 == a;
            assert(s.push(x)[i] == s[i]);
        }
        if x.0 == a {
            assert(s.push(x)[s.len() as int] == x);
        }
    }
}

/// Keeping the first candidate of each source leaves no address twice and
/// loses no address.
pub proof fn lemma_first_per_source(s: Seq<CandidateView>)
    ensures
        distinct_sources(first_per_source(s)),
        forall|a: IpAddress| #[trigger] has_source(first_per_source(s), a) <==> has_source(s, a),
        forall|k: int| 0 <= k < first_per_source(s).len() ==> s.contains(#[trigger] first_per_source(s)[k]),
    decreases s.len(),
{
    if s.len() > 0 {
        let d = s.drop_last();
        let p = first_per_source(d);
        lemma_first_per_source(d);
        assert(s =~= d.push(s.last()));
        assert forall|k: int| 0 <= k < p.len() implies s.contains(#[trigger] p[k]) by {
            let i = choose|i: int| 0 <= i < d.len() && d[i] == p[k];
            assert(s[i] == d[i]);
        }
        assert(s[s.len() - 1] == s.last());
        lemma_has_source_push(d, s.last());
        lemma_has_source_push(p, s.last());
        if !has_source(p, s.last().0) {
            let q = p.push(s.last());
            assert forall|i: int, j: int| 0 <= i < j < q.len() implies (#[trigger] q[i]).0 != (
            #[trigger] q[j]).0 by {
                if j == p.len() {
                    assert(q[i] == p[i]);
                } else {
                    assert(q[i] == p[i] && q[j] == p[j]);
                }
            }
        }
    }
}

/// However many probes observed a device's address, the merged candidates
/// hold exactly one entry for it: the address is present, and no two
/// entries share an address.
pub proof fn lemma_merge_one_per_address(probes: Seq<Seq<CandidateView>>, a: IpAddress)
    ensures
        distinct_sources(merged(probes)),
        has_source(merged(probes), a) <==> has_source(probes.flatten(), a),
{
    lemma_first_per_source(probes.flatten());
}

/// Every selected device comes from an accepted resolution, and no two
/// selected devices share an address.
pub proof fn lemma_selected_sound(rs: Seq<ResolutionView>)
    ensures
        distinct_ips(selected(rs)),
        forall|k: int|
            0 <= k < selected(rs).len() ==> exists|j: int|
                0 <= j < rs.len() && accepted(rs[j]) && device_of(rs[j]) == #[trigger] selected(
                    rs,
                )[k],
    decreases rs.len(),
{
    if rs.len() > 0 {
        let d = rs.drop_last();
        let p = selected(d);
        let x = rs.last();
        lemma_selected_sound(d);
        assert forall|k: int| 0 <= k < p.len() implies exists|j: int|
            0 <= j < rs.len() && accepted(rs[j]) && device_of(rs[j]) == #[trigger] p[k] by {
            let j = choose|j: int| 0 <= j < d.len() && accepted(d[j]) && device_of(d[j]) == p[k];
            assert(rs[j] == d[j]);
        }
        if accepted(x) && !has_ip(p, x.0) {
            let q = p.push(device_of(x));
            assert forall|i: int, j: int| 0 <= i < j < q.len() implies (#[trigger] q[i]).0 != (
            #[trigger] q[j]).0 by {
                if j == p.len() {
                    assert(q[i] == p[i]);
                } else {
                    assert(q[i] == p[i] && q[j] == p[j]);
                }
            }
            assert forall|k: int| 0 <= k < q.len() implies exists|j: int|
                0 <= j < rs.len() && accepted(rs[j]) && device_of(rs[j]) == #[trigger] q[k] by {
                if k == p.len() {
                    assert(rs[rs.len() - 1] == x);
                } else {
                    assert(q[k] == p[k]);
                }
            }
        }
    }
}

/// A responder none of whose resolutions names the expected vendor (another
/// manufacturer, or no description at all) never appears among the devices.
pub proof fn lemma_other_vendor_excluded(rs: Seq<ResolutionView>, a: IpAddress)
    requires
        forall|j: int| 0 <= j < rs.len() && (#[trigger] rs[j]).0 == a ==> !accepted(rs[j]),
    ensures
        !has_ip(selected(rs), a),
{
    lemma_selected_sound(rs);
    if has_ip(selected(rs), a) {
        let k = choose|k: int| 0 <= k < selected(rs).len() && (#[trigger] selected(rs)[k]).0 == a;
        let j = choose|j: int|
            0 <= j < rs.len() && accepted(rs[j]) && device_of(rs[j]) == #[trigger] selected(rs)[k];
        assert(rs[j].0 == a);
    }
}

/// A candidate whose description could not be fetched changes nothing: the
/// devices selected with it are those selected without it.
pub proof fn lemma_failed_resolution_ignored(rs: Seq<ResolutionView>, i: int)
    requires
        0 <= i < rs.len(),
        rs[i].1 is None,
    ensures
        selected(rs.remove(i)) == selected(rs),
    decreases rs.len(),
{
    if i == rs.len() - 1 {
        assert(rs.remove(i) =~= rs.drop_last());
    } else {
        lemma_failed_resolution_ignored(rs.drop_last(), i);
        assert(rs.remove(i).drop_last() =~= rs.drop_last().remove(i));
        assert(rs.remove(i).last() == rs.last());
    }
}

/// Each address that is accepted more than once carries the same name.
pub open spec fn names_agree(rs: Seq<ResolutionView>) -> bool {
    forall|i: int, j: int|
        0 <= i < rs.len() && 0 <= j < rs.len() && accepted(#[trigger] rs[i]) && accepted(
            #[trigger] rs[j],
        ) && rs[i].0 == rs[j].0 ==> (rs[i].1->0).0 == (rs[j].1->0).0
}

/// The devices that the accepted resolutions describe.
pub open spec fn accepted_devices(rs: Seq<ResolutionView>) -> Set<DeviceView> {
    Set::new(
        |d: DeviceView|
            exists|i: int| 0 <= i < rs.len() && accepted(rs[i]) && #[trigger] device_of(rs[i]) == d,
    )
}

/// Where each address carries one name, the selected devices are, as a set,
/// the devices of the accepted resolutions.
pub proof fn lemma_selected_set(rs: Seq<ResolutionView>)
    requires
        names_agree(rs),
    ensures
        selected(rs).to_set() == accepted_devices(rs),
    decreases rs.len(),
{
    if rs.len() == 0 {
        assert(selected(rs).to_set() =~= accepted_devices(rs));
    } else {
        let d = rs.drop_last();
        let x = rs.last();
        let p = selected(d);
        assert forall|i: int, j: int|
            0 <= i < d.len() && 0 <= j < d.len() && accepted(#[trigger] d[i]) && accepted(
                #[trigger] d[j],
            ) && d[i].0 == d[j].0 implies (d[i].1->0).0 == (d[j].1->0).0 by {
            assert(rs[i] == d[i] && rs[j] == d[j]);
        }
        lemma_selected_set(d);
        assert(rs[rs.len() - 1] == x);
        assert forall|e: DeviceView| #[trigger] accepted_devices(rs).contains(e) <==> (
        accepted_devices(d).contains(e) || (accepted(x) && e == device_of(x))) by {
            if accepted_devices(rs).contains(e) {
                let i = choose|i: int| 0 <= i < rs.len() && accepted(rs[i]) && #[trigger] device_of(rs[i]) == e;
                if i < d.len() {
                    assert(d[i] == rs[i]);
                }
            }
            if accepted_devices(d).contains(e) {
                let i = choose|i: int| 0 <= i < d.len() && accepted(d[i]) && #[trigger] device_of(d[i]) == e;
                assert(rs[i] == d[i]);
            }
        }
        if accepted(x) {
            if has_ip(p, x.0) {
                let k = choose|k: int| 0 <= k < p.len() && (#[trigger] p[k]).0 == x.0;
                assert(p.to_set().contains(p[k]));
                let i = choose|i: int| 0 <= i < d.len() && accepted(d[i]) && #[trigger] device_of(d[i]) == p[k];
                assert(rs[i] == d[i]);
                assert(device_of(d[i]) == device_of(x));
                assert(selected(rs).to_set() =~= accepted_devices(rs));
            } else {
                p.lemma_push_to_set_commute(device_of(x));
                assert(selected(rs).to_set() =~= accepted_devices(rs));
            }
        } else {
            assert(selected(rs).to_set() =~= accepted_devices(rs));
        }
    }
}

/// Two runs that gather the same resolutions, in any order and any number of
/// times, from a network where each address carries one name, select the
/// same set of devices.
pub proof fn lemma_rerun_same_devices(run1: Seq<ResolutionView>, run2: Seq<ResolutionView>)
    requires
        run1.to_set() == run2.to_set(),
        names_agree(run1),
    ensures
        selected(run1).to_set() == selected(run2).to_set(),
{
    assert forall|i: int, j: int|
        0 <= i < run2.len() && 0 <= j < run2.len() && accepted(#[trigger] run2[i]) && accepted(
            #[trigger] run2[j],
        ) && run2[i].0 == run2[j].0 implies (run2[i].1->0).0 == (run2[j].1->0).0 by {
        assert(run2.to_set().contains(run2[i]));
        assert(run2.to_set().contains(run2[j]));
        let a = choose|a: int| 0 <= a < run1.len() && run1[a] == run2[i];
        let b = choose|b: int| 0 <= b < run1.len() && run1[b] == run2[j];
    }
    lemma_selected_set(run1);
    lemma_selected_set(run2);
    assert forall|e: DeviceView| accepted_devices(run1).contains(e) <==> accepted_devices(run2).contains(e) by {
        if accepted_devices(run1).contains(e) {
            let i = choose|i: int| 0 <= i < run1.len() && accepted(run1[i]) && #[trigger] device_of(run1[i]) == e;
            assert(run1.to_set().contains(run1[i]));
            let j = choose|j: int| 0 <= j < run2.len() && run2[j] == run1[i];
            assert(device_of(run2[j]) == e);
        }
        if accepted_devices(run2).contains(e) {
            let i = choose|i: int| 0 <= i < run2.len() && accepted(run2[i]) && #[trigger] device_of(run2[i]) == e;
            assert(run2.to_set().contains(run2[i]));
            let j = choose|j: int| 0 <= j < run1.len() && run1[j] == run2[i];
            assert(device_of(run1[j]) == e);
        }
    }
    assert(accepted_devices(run1) =~= accepted_devices(run2));
}

/// Each source address always names the same location.
pub open spec fn locations_agree(s: Seq<CandidateView>) -> bool {
    forall|i: int, j: int|
        0 <= i < s.len() && 0 <= j < s.len() && (#[trigger] s[i]).0 == (#[trigger] s[j]).0 ==> s[i].1
            == s[j].1
}

/// The resolutions of candidates on a network where the document at each
/// location reads as `describe` says.
pub open spec fn resolve_all(
    cs: Seq<CandidateView>,
    describe: spec_fn(Seq<char>) -> Option<DescriptionView>,
) -> Seq<ResolutionView> {
    cs.map_values(|c: CandidateView| (c.0, describe(c.1)))
}

proof fn lemma_first_per_source_set(s: Seq<CandidateView>)
    requires
        locations_agree(s),
    ensures
        first_per_source(s).to_set() == s.to_set(),
    decreases s.len(),
{
    if s.len() == 0 {
        assert(first_per_source(s).to_set() =~= s.to_set());
    } else {
        let d = s.drop_last();
        let x = s.last();
        let p = first_per_source(d);
        assert forall|i: int, j: int|
            0 <= i < d.len() && 0 <= j < d.len() && (#[trigger] d[i]).0 == (#[trigger] d[j]).0 implies d[i].1
            == d[j].1 by {
            assert(s[i] == d[i] && s[j] == d[j]);
        }
        lemma_first_per_source_set(d);
        lemma_first_per_source(d);
        assert(s =~= d.push(x));
        d.lemma_push_to_set_commute(x);
        if has_source(p, x.0) {
            let k = choose|k: int| 0 <= k < p.len() && (#[trigger] p[k]).0 == x.0;
            let i = choose|i: int| 0 <= i < d.len() && d[i] == p[k];
            assert(s[i] == d[i]);
            assert(s[s.len() - 1] == x);
            assert(p[k] == x);
            assert(p.to_set().contains(p[k]));
            assert(first_per_source(s).to_set() =~= s.to_set());
        } else {
            p.lemma_push_to_set_commute(x);
            assert(first_per_source(s).to_set() =~= s.to_set());
        }
    }
}

/// Running discovery twice against an unchanged network selects the same set
/// of devices: the probes of the two runs may see the replies in any order
/// and split over interfaces in any way, as long as they see the same
/// replies, each address always names the same location, and the document at
/// a location always reads the same.
pub proof fn lemma_discovery_idempotent(
    run1: Seq<Seq<CandidateView>>,
    run2: Seq<Seq<CandidateView>>,
    describe: spec_fn(Seq<char>) -> Option<DescriptionView>,
)
    requires
        run1.flatten().to_set() == run2.flatten().to_set(),
        locations_agree(run1.flatten()),
    ensures
        selected(resolve_all(merged(run1), describe)).to_set() == selected(
            resolve_all(merged(run2), describe),
        ).to_set(),
{
    let f1 = run1.flatten();
    let f2 = run2.flatten();
    assert forall|i: int, j: int|
        0 <= i < f2.len() && 0 <= j < f2.len() && (#[trigger] f2[i]).0 == (#[trigger] f2[j]).0 implies f2[i].1
        == f2[j].1 by {
        assert(f2.to_set().contains(f2[i]));
        assert(f2.to_set().contains(f2[j]));
        let a = choose|a: int| 0 <= a < f1.len() && f1[a] == f2[i];
        let b = choose|b: int| 0 <= b < f1.len() && f1[b] == f2[j];
    }
    lemma_first_per_source_set(f1);
    lemma_first_per_source_set(f2);
    lemma_first_per_source(f1);
    lemma_first_per_source(f2);
    let m1 = merged(run1);
    let m2 = merged(run2);
    let g = |c: CandidateView| (c.0, describe(c.1));
    m1.lemma_to_set_map_commutes(g);
    m2.lemma_to_set_map_commutes(g);
    let r1 = resolve_all(m1, describe);
    let r2 = resolve_all(m2, describe);
    assert(r1 == m1.map_values(g));
    assert(r2 == m2.map_values(g));
    assert forall|i: int, j: int|
        0 <= i < r1.len() && 0 <= j < r1.len() && accepted(#[trigger] r1[i]) && accepted(
            #[trigger] r1[j],
        ) && r1[i].0 == r1[j].0 implies (r1[i].1->0).0 == (r1[j].1->0).0 by {
        if i < j {
            assert(m1[i].0 != m1[j].0);
        } else if j < i {
            assert(m1[j].0 != m1[i].0);
        }
    }
    lemma_rerun_same_devices(r1, r2);
}

/// A probe's collection never holds two candidates from one source.
pub proof fn lemma_probe_sources_distinct(s: Seq<CandidateView>, source: IpAddress, datagram: Seq<char>)
    requires
        distinct_sources(s),
    ensures
        distinct_sources(after_datagram(s, source, datagram)),
{
    if !has_source(s, source) {
        if let Some(loc) = header_of(datagram, location_header()) {
            let q = s.push((source, loc));
            assert forall|i: int, j: int| 0 <= i < j < q.len() implies (#[trigger] q[i]).0 != (
            #[trigger] q[j]).0 by {
                if j == s.len() {
                    assert(q[i] == s[i]);
                } else {
                    assert(q[i] == s[i] && q[j] == s[j]);
                }
            }
        }
    }
}

} // verus!
