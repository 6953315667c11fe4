//! Destinations, and the border that is drawn from a table of them.

use crate::border::visa_view;
use crate::border::BorderControl;
use crate::border::BorderControlBuilder;
use crate::border::ClosedBorder;
use crate::border::Denial;
use crate::config::PROTOCOL;
use crate::context::find_header;
use crate::context::header_value;
use crate::context::RequestContext;
use crate::locator::url_host;
use crate::locator::url_port;
use crate::text::decimal;
use crate::text::push_decimal;
use url::Url;
use vstd::hash_map::StringHashMap;
use vstd::prelude::*;
use vstd::string::StringExecFns;

verus! {

/// An upstream that the gateway may forward to: a host and a port.
#[derive(Clone, Debug, PartialEq, Eq)]
pub struct Destination {
    host: String,
    port: u16,
}

impl View for Destination {
    type V = (Seq<char>, u16);

    closed spec fn view(&self) -> (Seq<char>, u16) {
        (self.host@, self.port)
    }
}

/// The port of a destination whose URL names none.
pub const DEFAULT_PORT: u16 = 80;

/// The text from which the outbound URL of a destination starts: the
/// scheme, the host, and the port in decimal.
pub open spec fn origin_text(dest: (Seq<char>, u16)) -> Seq<char> {
    PROTOCOL@ + dest.0 + ":"@ + decimal(dest.1 as nat)
}

impl Destination {
    /// The destination at `host` and `port`.
    pub fn new(host: &str, port: u16) -> (r: Destination)
        ensures
            r@ == (host@, port),
    {
        Destination { host: host.to_owned(), port }
    }

    /// The destination that a URL points at: its host, and its port or
    /// `DEFAULT_PORT` where it names none. A URL without host gives `None`.
    pub fn from_url(url: &Url) -> (r: Option<Destination>)
        ensures
            match r {
                Some(d) => url_host(*url) == Some(d@.0) && d@.1 == match url_port(*url) {
                    Some(p) => p,
                    None => DEFAULT_PORT,
                },
                None => url_host(*url) is None,
            },
    {
        match url.host_str() {
            Some(h) => {
                let port = match url.port() {
                    Some(p) => p,
                    None => DEFAULT_PORT,
                };
                Some(Destination { host: h.to_owned(), port })
            },
            None => None,
        }
    }

    /// The host.
    pub fn host(&self) -> (r: &str)
        ensures
            r@ == self@.0,
    {
        self.host.as_str()
    }

    /// The port.
    pub fn port(&self) -> (r: u16)
        ensures
            r == self@.1,
    {
        self.port
    }

    /// A copy of this destination.
    pub fn duplicate(&self) -> (r: Destination)
        ensures
            r@ == self@,
    {
        Destination { host: self.host.clone(), port: self.port }
    }

    /// The text `origin_text` of this destination.
    pub fn origin(&self) -> (r: String)
        ensures
            r@ == origin_text(self@),
    {
        let mut out = String::from_str(PROTOCOL);
        out.append(self.host.as_str());
        out.append(":");
        push_decimal(&mut out, self.port);
        out
    }
}

/// The name under which the table holds the fallback destination.
pub const DEFAULT: &'static str = "default";

/// The request header that names a destination.
pub const X_DESTINATION: &'static str = "X-DESTINATION";

/// How a border decides. Which of the three it is follows from the table
/// alone.
#[derive(Clone, Copy, Debug, PartialEq, Eq, Structural)]
pub enum BorderPolicy {
    /// The table is empty: every request is denied.
    Closed,
    /// The table holds the default and nothing else: every request goes
    /// there, whatever its headers say.
    SingleHost,
    /// The table holds named destinations: the request's `X-DESTINATION`
    /// header picks one.
    MultiHost,
}

/// The policy that a table stands for.
pub open spec fn policy_of(table: Map<Seq<char>, (Seq<char>, u16)>) -> BorderPolicy {
    if table.dom() =~= Set::empty() {
        BorderPolicy::Closed
    } else if table.dom() =~= set![DEFAULT@] {
        BorderPolicy::SingleHost
    } else {
        BorderPolicy::MultiHost
    }
}

/// The decision under the multi-host policy. A request with the header goes
/// where the header's value leads, and is denied where it leads nowhere; the
/// default is not consulted then. A request without the header goes to the
/// default, and is denied where there is none.
pub open spec fn named_visa(
    table: Map<Seq<char>, (Seq<char>, u16)>,
    lines: Seq<(Seq<char>, Seq<char>)>,
) -> Result<(Seq<char>, u16), Denial> {
    match find_header(lines, X_DESTINATION@) {
        Some(name) => if table.contains_key(name) {
            Ok(table[name])
        } else {
            Err(Denial::UnknownDestinationName)
        },
        None => if table.contains_key(DEFAULT@) {
            Ok(table[DEFAULT@])
        } else {
            Err(Denial::NoDefaultDestination)
        },
    }
}

/// The decision that a table gives for a request with these header lines.
pub open spec fn resolve(
    table: Map<Seq<char>, (Seq<char>, u16)>,
    lines: Seq<(Seq<char>, Seq<char>)>,
) -> Result<(Seq<char>, u16), Denial> {
    match policy_of(table) {
        BorderPolicy::Closed => Err(Denial::NoDestinationsConfigured),
        BorderPolicy::SingleHost => Ok(table[DEFAULT@]),
        BorderPolicy::MultiHost => named_visa(table, lines),
    }
}

/// A table without entries stands for the closed policy, and no other does.
pub proof fn closed_policy_is_the_empty_table(table: Map<Seq<char>, (Seq<char>, u16)>)
    ensures
        policy_of(table) == BorderPolicy::Closed <==> table.dom() =~= Set::empty(),
{
}

/// A table stands for the single-host policy exactly where `default` is its
/// one name.
pub proof fn single_host_policy_is_the_default_alone(table: Map<Seq<char>, (Seq<char>, u16)>)
    ensures
        policy_of(table) == BorderPolicy::SingleHost <==> (table.contains_key(DEFAULT@) && forall|
            name: Seq<char>,
        |
            table.contains_key(name) ==> name == DEFAULT@),
{
    if table.dom() =~= set![DEFAULT@] {
        assert(table.dom().contains(DEFAULT@));
    }
    if table.contains_key(DEFAULT@) && (forall|name: Seq<char>|
        table.contains_key(name) ==> name == DEFAULT@) {
        assert(table.dom() =~= set![DEFAULT@]);
    }
}

/// A table with any name other than `default` stands for the multi-host
/// policy, with or without a default.
pub proof fn multi_host_policy_is_any_named_entry(
    table: Map<Seq<char>, (Seq<char>, u16)>,
    name: Seq<char>,
)
    requires
        table.contains_key(name),
        name != DEFAULT@,
    ensures
        policy_of(table) == BorderPolicy::MultiHost,
{
    assert(!set![DEFAULT@].contains(name));
}

/// Under the closed policy every request is denied, for want of
/// destinations.
pub proof fn closed_denies_every_request(
    table: Map<Seq<char>, (Seq<char>, u16)>,
    lines: Seq<(Seq<char>, Seq<char>)>,
)
    requires
        policy_of(table) == BorderPolicy::Closed,
    ensures
        resolve(table, lines) == Err::<(Seq<char>, u16), Denial>(Denial::NoDestinationsConfigured),
{
}

/// Under the single-host policy every request resolves to the default
/// destination, whatever its header lines say: any two requests get the same
/// answer.
pub proof fn single_host_ignores_headers(
    table: Map<Seq<char>, (Seq<char>, u16)>,
    lines: Seq<(Seq<char>, Seq<char>)>,
    other_lines: Seq<(Seq<char>, Seq<char>)>,
)
    requires
        policy_of(table) == BorderPolicy::SingleHost,
    ensures
        resolve(table, lines) == Ok::<(Seq<char>, u16), Denial>(table[DEFAULT@]),
        resolve(table, lines) == resolve(table, other_lines),
{
}

/// Under the multi-host policy with a default `a` and a destination `b`
/// named `svc1`: a request whose header says `svc1` resolves to `b`, a
/// request without the header resolves to `a`, and a request whose header
/// says any other name but these two is denied and does not fall back to `a`.
pub proof fn multi_host_follows_the_header(
    a: (Seq<char>, u16),
    b: (Seq<char>, u16),
    lines: Seq<(Seq<char>, Seq<char>)>,
)
    ensures
        ({
            let table = Map::<Seq<char>, (Seq<char>, u16)>::empty().insert(DEFAULT@, a).insert(
                "svc1"@,
                b,
            );
            &&& policy_of(table) == BorderPolicy::MultiHost
            &&& find_header(lines, X_DESTINATION@) == Some("svc1"@) ==> resolve(table, lines)
                == Ok::<(Seq<char>, u16), Denial>(b)
            &&& find_header(lines, X_DESTINATION@) is None ==> resolve(table, lines) == Ok::<
                (Seq<char>, u16),
                Denial,
            >(a)
            &&& forall|name: Seq<char>|
                find_header(lines, X_DESTINATION@) == Some(name) && name != "svc1"@ && name
                    != DEFAULT@ ==> resolve(table, lines) == Err::<(Seq<char>, u16), Denial>(
                    Denial::UnknownDestinationName,
                )
        }),
{
    reveal_strlit("svc1");
    reveal_strlit("default");
    let table = Map::<Seq<char>, (Seq<char>, u16)>::empty().insert(DEFAULT@, a).insert("svc1"@, b);
    assert("svc1"@.len() != DEFAULT@.len());
    assert(table.dom().contains("svc1"@));
    assert(!set![DEFAULT@].contains("svc1"@));
}

/// Under the multi-host policy the header, where the request has one, alone
/// decides: the named destination where the table has the name, a denial
/// where it has not. Without the header the default decides, and its absence
/// denies.
pub proof fn multi_host_header_takes_precedence(
    table: Map<Seq<char>, (Seq<char>, u16)>,
    lines: Seq<(Seq<char>, Seq<char>)>,
)
    requires
        policy_of(table) == BorderPolicy::MultiHost,
    ensures
        match find_header(lines, X_DESTINATION@) {
            Some(name) => resolve(table, lines) == if table.contains_key(name) {
                Ok::<(Seq<char>, u16), Denial>(table[name])
            } else {
                Err::<(Seq<char>, u16), Denial>(Denial::UnknownDestinationName)
            },
            None => resolve(table, lines) == if table.contains_key(DEFAULT@) {
                Ok::<(Seq<char>, u16), Denial>(table[DEFAULT@])
            } else {
                Err::<(Seq<char>, u16), Denial>(Denial::NoDefaultDestination)
            },
        },
{
}

/// What a table of destinations says, name by name, as host and port.
pub open spec fn table_view(destinations: Map<Seq<char>, Destination>) -> Map<
    Seq<char>,
    (Seq<char>, u16),
> {
    destinations.map_values(|d: Destination| d@)
}

/// Collects named destinations, and draws the border that they call for.
pub struct HostControlBuilder {
    destinations: StringHashMap<Destination>,
}

impl HostControlBuilder {
    #[verifier::type_invariant]
    spec fn well_formed(self) -> bool {
        self.destinations@.dom().finite()
    }

    /// The destinations collected so far.
    pub closed spec fn entries(&self) -> Map<Seq<char>, (Seq<char>, u16)> {
        table_view(self.destinations@)
    }

    /// A builder without destinations.
    pub fn new() -> (r: Self)
        ensures
            r.entries() == Map::<Seq<char>, (Seq<char>, u16)>::empty(),
    {
        let r = HostControlBuilder { destinations: StringHashMap::new() };
        assert(r.entries() =~= Map::<Seq<char>, (Seq<char>, u16)>::empty());
        r
    }

    /// Sets the fallback destination, in place of an earlier one.
    pub fn with_default_destination(self, dest: Destination) -> (r: Self)
        ensures
            r.entries() == self.entries().insert(DEFAULT@, dest@),
    {
        self.with_named_destination(DEFAULT, dest)
    }

    /// Sets the destination of a name, in place of an earlier one.
    pub fn with_named_destination(self, name: &str, dest: Destination) -> (r: Self)
        ensures
            r.entries() == self.entries().insert(name@, dest@),
    {
        proof {
            use_type_invariant(&self);
        }
        let ghost before = self.destinations@;
        let mut destinations = self.destinations;
        destinations.insert(name.to_owned(), dest);
        assert(table_view(destinations@) =~= table_view(before).insert(name@, dest@));
        HostControlBuilder { destinations }
    }

    fn is_closed(&self) -> (r: bool)
        ensures
            r == (policy_of(self.entries()) == BorderPolicy::Closed),
    {
        let r = self.destinations.is_empty();
        assert(self.entries().dom() =~= self.destinations@.dom());
        r
    }

    fn has_only_default(&self) -> (r: bool)
        ensures
            r == (self.entries().dom() =~= set![DEFAULT@]),
    {
        proof {
            use_type_invariant(self);
        }
        let ghost names = self.destinations@.dom();
        assert(self.entries().dom() =~= names);
        let r = self.destinations.len() == 1 && self.destinations.contains_key(DEFAULT);
        proof {
            if r {
                Set::lemma_is_singleton(names);
                assert(names =~= set![DEFAULT@]);
            } else if names =~= set![DEFAULT@] {
                assert(names.contains(DEFAULT@));
                assert(set![DEFAULT@].len() == 1);
            }
        }
        r
    }
}

impl BorderControlBuilder for HostControlBuilder {
    open spec fn table(&self) -> Map<Seq<char>, (Seq<char>, u16)> {
        self.entries()
    }

    /// Draws the border that the table calls for: closed for an empty one,
    /// single-host for one with the default alone, multi-host otherwise.
    fn build(self) -> (r: Border) {
        if self.is_closed() {
            let r = Border { kind: BorderKind::Closed(ClosedBorder::new()) };
            assert(r.table() =~= self.entries());
            r
        } else {
            let only = if self.has_only_default() {
                match self.destinations.get(DEFAULT) {
                    Some(d) => Some(d.duplicate()),
                    None => None,
                }
            } else {
                None
            };
            match only {
                Some(dest) => {
                    let r = Border { kind: BorderKind::SingleHost(SingleHostBorder::new(dest)) };
                    assert(r.table() =~= self.entries());
                    r
                },
                None => {
                    proof {
                        use_type_invariant(&self);
                        assert(set![DEFAULT@].contains(DEFAULT@));
                    }
                    let many = ManyHostsBorder::new(self.destinations);
                    Border { kind: BorderKind::ManyHosts(many) }
                },
            }
        }
    }
}

/// A border with one destination: every request goes there.
pub struct SingleHostBorder {
    destination: Destination,
}

impl SingleHostBorder {
    /// Host and port of the one destination.
    pub closed spec fn target(&self) -> (Seq<char>, u16) {
        self.destination@
    }

    /// The border that sends every request to `destination`.
    pub fn new(destination: Destination) -> (r: Self)
        ensures
            r.target() == destination@,
    {
        SingleHostBorder { destination }
    }

    /// The border that sends every request to `host` and `port`.
    pub fn from_host_and_port(host: &str, port: u16) -> (r: Self)
        ensures
            r.target() == (host@, port),
    {
        SingleHostBorder::new(Destination::new(host, port))
    }
}

impl BorderControl for SingleHostBorder {
    open spec fn visa(&self, req: RequestContext) -> Result<(Seq<char>, u16), Denial> {
        Ok(self.target())
    }

    fn request_visa(&self, req: &RequestContext) -> (r: Result<&Destination, Denial>) {
        Ok(&self.destination)
    }
}

/// A border with named destinations: the request's header picks one.
pub struct ManyHostsBorder {
    destinations: StringHashMap<Destination>,
    has_default: bool,
}

impl ManyHostsBorder {
    #[verifier::type_invariant]
    spec fn well_formed(self) -> bool {
        &&& self.destinations@.dom().finite()
        &&& self.has_default == self.destinations@.contains_key(DEFAULT@)
    }

    /// The destinations of this border.
    pub closed spec fn entries(&self) -> Map<Seq<char>, (Seq<char>, u16)> {
        table_view(self.destinations@)
    }

    fn new(destinations: StringHashMap<Destination>) -> (r: Self)
        requires
            destinations@.dom().finite(),
        ensures
            r.entries() == table_view(destinations@),
    {
        let has_default = destinations.contains_key(DEFAULT);
        ManyHostsBorder { destinations, has_default }
    }

    /// Whether the border has a fallback destination.
    pub fn has_default(&self) -> (r: bool)
        ensures
            r == self.entries().contains_key(DEFAULT@),
    {
        proof {
            use_type_invariant(self);
        }
        self.has_default
    }

    /// Finds the destination of a request: the one that its `X-DESTINATION`
    /// header names, or the default where it has no such header.
    pub fn identify_destination(&self, req: &RequestContext) -> (r: Result<&Destination, Denial>)
        ensures
            visa_view(r) == named_visa(self.entries(), req.header_lines()),
    {
        match header_value(&req.headers, X_DESTINATION) {
            Some(name) => match self.destination_for(name.as_str()) {
                Some(d) => Ok(d),
                None => Err(Denial::UnknownDestinationName),
            },
            None => match self.destination_for(DEFAULT) {
                Some(d) => Ok(d),
                None => Err(Denial::NoDefaultDestination),
            },
        }
    }

    /// The destination of a name, where the border has it.
    fn destination_for(&self, key: &str) -> (r: Option<&Destination>)
        ensures
            match r {
                Some(d) => self.entries().contains_key(key@) && self.entries()[key@] == d@,
                None => !self.entries().contains_key(key@),
            },
    {
        self.destinations.get(key)
    }
}

impl BorderControl for ManyHostsBorder {
    open spec fn visa(&self, req: RequestContext) -> Result<(Seq<char>, u16), Denial> {
        named_visa(self.entries(), req.header_lines())
    }

    fn request_visa(&self, req: &RequestContext) -> (r: Result<&Destination, Denial>) {
        self.identify_destination(req)
    }
}

enum BorderKind {
    Closed(ClosedBorder),
    SingleHost(SingleHostBorder),
    ManyHosts(ManyHostsBorder),
}

/// The border of a gateway, drawn from a table of destinations. Which of the
/// three policies it follows is fixed when it is drawn.
pub struct Border {
    kind: BorderKind,
}

impl Border {
    #[verifier::type_invariant]
    spec fn well_formed(self) -> bool {
        self.kind matches BorderKind::ManyHosts(many) ==> policy_of(many.entries())
            == BorderPolicy::MultiHost
    }

    /// The table that the border was drawn from.
    pub closed spec fn table(&self) -> Map<Seq<char>, (Seq<char>, u16)> {
        match self.kind {
            BorderKind::Closed(_) => Map::empty(),
            BorderKind::SingleHost(single) => Map::empty().insert(DEFAULT@, single.target()),
            BorderKind::ManyHosts(many) => many.entries(),
        }
    }

    /// The policy that the border follows.
    pub fn policy(&self) -> (r: BorderPolicy)
        ensures
            r == policy_of(self.table()),
    {
        proof {
            use_type_invariant(self);
        }
        match &self.kind {
            BorderKind::Closed(_) => BorderPolicy::Closed,
            BorderKind::SingleHost(single) => {
                assert(self.table().dom() =~= set![DEFAULT@]);
                assert(self.table().dom().contains(DEFAULT@));
                BorderPolicy::SingleHost
            },
            BorderKind::ManyHosts(_) => BorderPolicy::MultiHost,
        }
    }
}

impl BorderControl for Border {
    open spec fn visa(&self, req: RequestContext) -> Result<(Seq<char>, u16), Denial> {
        resolve(self.table(), req.header_lines())
    }

    fn request_visa(&self, req: &RequestContext) -> (r: Result<&Destination, Denial>) {
        proof {
            use_type_invariant(self);
        }
        match &self.kind {
            BorderKind::Closed(closed) => closed.request_visa(req),
            BorderKind::SingleHost(single) => {
                assert(self.table().dom() =~= set![DEFAULT@]);
                assert(self.table().dom().contains(DEFAULT@));
                single.request_visa(req)
            },
            BorderKind::ManyHosts(many) => many.request_visa(req),
        }
    }
}

} // verus!
