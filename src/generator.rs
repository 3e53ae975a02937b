use crate::gateway::{gateway_of, generate, names_valid, paths_resolve};
use crate::model::{GenError, Service};
use vstd::prelude::*;

verus! {

/// The module path through which generated modules reach each other.
pub open spec fn enclosing_path() -> Seq<char> {
    "super"@
}

/// The text written for a compilation unit: the client section, then the
/// server section, then the gateway section.
pub open spec fn unit_output(clients: Seq<char>, servers: Seq<char>, gateways: Seq<char>) -> Seq<char> {
    clients + servers + gateways
}

/// Accumulates the generated modules of one compilation unit, one buffer per
/// kind of module, and writes them out when the unit is finished.
pub struct ServiceGenerator {
    pub clients: String,
    pub servers: String,
    pub gateways: String,
}

impl ServiceGenerator {
    /// A generator with nothing accumulated.
    pub fn new() -> (r: ServiceGenerator)
        ensures
            r.clients@.len() == 0,
            r.servers@.len() == 0,
            r.gateways@.len() == 0,
    {
        ServiceGenerator { clients: String::new(), servers: String::new(), gateways: String::new() }
    }

    /// Adds one service: its client and server modules, generated elsewhere,
    /// and its gateway module. Nothing is added where the gateway cannot be
    /// generated.
    pub fn generate(&mut self, service: &Service, client: &str, server: &str) -> (r: Result<(), GenError>)
        ensures
            r is Ok <==> names_valid(*service, enclosing_path()) && paths_resolve(*service, enclosing_path()),
            r matches Err(e) ==> (e == GenError::InvalidIdent <==> !names_valid(*service, enclosing_path())),
            r is Ok ==> {
                &&& final(self).clients@ == old(self).clients@ + client@
                &&& final(self).servers@ == old(self).servers@ + server@
                &&& final(self).gateways@ == old(self).gateways@ + gateway_of(*service, enclosing_path())
            },
            r is Err ==> *final(self) == *old(self),
    {
        let gateway = match generate(service, "super") {
            Ok(text) => text,
            Err(e) => {
                return Err(e);
            },
        };
        self.servers.append(server);
        self.clients.append(client);
        self.gateways.append(gateway.as_str());
        Ok(())
    }

    /// Ends the compilation unit: writes each non-empty buffer into `buf`,
    /// clients first, then servers, then gateways, and empties the buffers.
    pub fn finalize(&mut self, buf: &mut String)
        ensures
            final(buf)@ == old(buf)@ + unit_output(
                old(self).clients@,
                old(self).servers@,
                old(self).gateways@,
            ),
            final(self).clients@.len() == 0,
            final(self).servers@.len() == 0,
            final(self).gateways@.len() == 0,
    {
        if self.clients.unicode_len() > 0 {
            buf.append(self.clients.as_str());
            self.clients = String::new();
        }
        if self.servers.unicode_len() > 0 {
            buf.append(self.servers.as_str());
            self.servers = String::new();
        }
        if self.gateways.unicode_len() > 0 {
            buf.append(self.gateways.as_str());
            self.gateways = String::new();
        }
        assert(buf@ =~= old(buf)@ + unit_output(
            old(self).clients@,
            old(self).servers@,
            old(self).gateways@,
        ));
    }
}

/// Code can be generated for service `s`.
pub open spec fn service_ok(s: Service) -> bool {
    names_valid(s, enclosing_path()) && paths_resolve(s, enclosing_path())
}

/// The client modules of a unit's services, in order.
pub open spec fn clients_of(units: Seq<(Service, String, String)>) -> Seq<char>
    decreases units.len(),
{
    if units.len() == 0 {
        Seq::empty()
    } else {
        clients_of(units.drop_last()) + units.last().1@
    }
}

/// The server modules of a unit's services, in order.
pub open spec fn servers_of(units: Seq<(Service, String, String)>) -> Seq<char>
    decreases units.len(),
{
    if units.len() == 0 {
        Seq::empty()
    } else {
        servers_of(units.drop_last()) + units.last().2@
    }
}

/// The gateway modules of a unit's services, in order.
pub open spec fn gateways_of(units: Seq<(Service, String, String)>) -> Seq<char>
    decreases units.len(),
{
    if units.len() == 0 {
        Seq::empty()
    } else {
        gateways_of(units.drop_last()) + gateway_of(units.last().0, enclosing_path())
    }
}

/// Generates a whole compilation unit on a fresh generator: each service in
/// order, given with its client and server modules, then the flush. The text
/// is a function of the services alone, so generating the same unit twice
/// gives the same bytes; where a service fails, the first failing one
/// decides the error.
pub fn generate_unit(units: &Vec<(Service, String, String)>) -> (r: Result<String, GenError>)
    ensures
        r is Ok <==> forall|i: int| 0 <= i < units@.len() ==> service_ok(#[trigger] units@[i].0),
        r matches Err(e) ==> exists|i: int|
            0 <= i < units@.len() && !service_ok(#[trigger] units@[i].0) && (forall|j: int|
                0 <= j < i ==> service_ok(#[trigger] units@[j].0)) && (e == GenError::InvalidIdent
                <==> !names_valid(units@[i].0, enclosing_path())),
        r matches Ok(text) ==> text@ == unit_output(
            clients_of(units@),
            servers_of(units@),
            gateways_of(units@),
        ),
{
    let mut g = ServiceGenerator::new();
    let mut i: usize = 0;
    while i < units.len()
        invariant
            i <= units@.len(),
            g.clients@ == clients_of(units@.take(i as int)),
            g.servers@ == servers_of(units@.take(i as int)),
            g.gateways@ == gateways_of(units@.take(i as int)),
            forall|j: int| 0 <= j < i ==> service_ok(#[trigger] units@[j].0),
        decreases units@.len() - i,
    {
        proof {
            assert(units@.take(i + 1).drop_last() =~= units@.take(i as int));
            assert(units@.take(i + 1).last() == units@[i as int]);
        }
        match g.generate(&units[i].0, units[i].1.as_str(), units[i].2.as_str()) {
            Ok(()) => {},
            Err(e) => {
                assert(!service_ok(units@[i as int].0));
                return Err(e);
            },
        }
        i = i + 1;
    }
    proof {
        assert(units@.take(i as int) =~= units@);
    }
    let mut buf = String::new();
    g.finalize(&mut buf);
    assert(buf@ =~= unit_output(clients_of(units@), servers_of(units@), gateways_of(units@)));
    Ok(buf)
}

/// The output of a compilation unit is empty exactly when every buffer is,
/// and it holds the client, server and gateway sections in that order.
pub proof fn lemma_unit_output_sections(clients: Seq<char>, servers: Seq<char>, gateways: Seq<char>)
    ensures
        unit_output(clients, servers, gateways).len() == 0 <==> (clients.len() == 0
            && servers.len() == 0 && gateways.len() == 0),
        unit_output(clients, servers, gateways).subrange(0, clients.len() as int) == clients,
        unit_output(clients, servers, gateways).subrange(
            clients.len() as int,
            (clients.len() + servers.len()) as int,
        ) == servers,
        unit_output(clients, servers, gateways).subrange(
            (clients.len() + servers.len()) as int,
            (clients.len() + servers.len() + gateways.len()) as int,
        ) == gateways,
{
    let out = unit_output(clients, servers, gateways);
    let (a, b, c) = (
        clients.len() as int,
        (clients.len() + servers.len()) as int,
        (clients.len() + servers.len() + gateways.len()) as int,
    );
    assert(out.subrange(0, a) =~= clients);
    assert(out.subrange(a, b) =~= servers);
    assert(out.subrange(b, c) =~= gateways);
}

} // verus!
