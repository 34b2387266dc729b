//! The cluster endpoint the proxy opens for a websocket client.

use vstd::prelude::*;

verus! {

/// Why the proxy cannot name a cluster endpoint.
pub enum EndpointError {
    /// The Fluvio profile could not be loaded; the payload is the I/O error's text.
    Config(String),
    /// The current profile names no cluster.
    NoCluster,
}

/// The abstract form of `EndpointError`.
pub enum EndpointFault {
    Config(Seq<char>),
    NoCluster,
}

impl View for EndpointError {
    type V = EndpointFault;

    open spec fn view(&self) -> EndpointFault {
        match self {
            EndpointError::Config(m) => EndpointFault::Config(m@),
            EndpointError::NoCluster => EndpointFault::NoCluster,
        }
    }
}

/// The text the proxy answers a refused client with.
pub open spec fn endpoint_error_text(e: EndpointFault) -> Seq<char> {
    match e {
        EndpointFault::Config(m) => m,
        EndpointFault::NoCluster => "cluster config not found for current profile"@,
    }
}

/// The view of a profile lookup: the load error's text, or the current
/// cluster's endpoint where there is one.
pub open spec fn profile_view(p: Result<Option<String>, String>) -> Result<Option<Seq<char>>, Seq<char>> {
    match p {
        Err(m) => Err(m@),
        Ok(None) => Ok(None),
        Ok(Some(ep)) => Ok(Some(ep@)),
    }
}

/// The view of an endpoint outcome.
pub open spec fn endpoint_view(r: Result<String, EndpointError>) -> Result<Seq<char>, EndpointFault> {
    match r {
        Ok(ep) => Ok(ep@),
        Err(e) => Err(e@),
    }
}

/// The profile's streaming-controller endpoint.
pub open spec fn sc_endpoint_spec(profile: Result<Option<Seq<char>>, Seq<char>>) -> Result<Seq<char>, EndpointFault> {
    match profile {
        Err(m) => Err(EndpointFault::Config(m)),
        Ok(None) => Err(EndpointFault::NoCluster),
        Ok(Some(ep)) => Ok(ep),
    }
}

/// The endpoint opened for a client that asked for `addr`: the profile is
/// consulted first, then the client's address wins over the profile's.
pub open spec fn domain_endpoint_spec(
    addr: Option<Seq<char>>,
    profile: Result<Option<Seq<char>>, Seq<char>>,
) -> Result<Seq<char>, EndpointFault> {
    match sc_endpoint_spec(profile) {
        Err(e) => Err(e),
        Ok(ep) => match addr {
            Some(a) => Ok(a),
            None => Ok(ep),
        },
    }
}

impl EndpointError {
    /// The text of the error response.
    pub fn message(&self) -> (r: String)
        ensures
            r@ == endpoint_error_text(self@),
    {
        match self {
            EndpointError::Config(m) => m.clone(),
            EndpointError::NoCluster => String::from_str("cluster config not found for current profile"),
        }
    }

    /// The HTTP status of the error response: an internal server error in
    /// either case.
    pub fn status(&self) -> (r: u16)
        ensures
            r == 500,
    {
        500
    }
}

/// The endpoint of the streaming controller of the current profile's
/// cluster, given the outcome of reading the profile.
pub fn fluvio_sc_endpoint(profile: Result<Option<String>, String>) -> (r: Result<String, EndpointError>)
    ensures
        endpoint_view(r) == sc_endpoint_spec(profile_view(profile)),
        profile matches Ok(Some(ep)) ==> (r matches Ok(got) && got@ == ep@),
        profile is Ok && profile->Ok_0 is None ==> r matches Err(EndpointError::NoCluster),
        profile matches Err(m) ==> (r matches Err(EndpointError::Config(got)) && got@ == m@),
{
    match profile {
        Err(m) => Err(EndpointError::Config(m)),
        Ok(None) => Err(EndpointError::NoCluster),
        Ok(Some(ep)) => Ok(ep),
    }
}

/// The endpoint the proxy opens for a client that asked for `addr`.
pub fn fluvio_domain_endpoint(
    addr: Option<String>,
    profile: Result<Option<String>, String>,
) -> (r: Result<String, EndpointError>)
    ensures
        endpoint_view(r) == domain_endpoint_spec(crate::text::opt_view(addr), profile_view(profile)),
        profile matches Ok(Some(ep)) ==> (r matches Ok(got) && got@ == match addr {
            Some(a) => a@,
            None => ep@,
        }),
        profile is Ok && profile->Ok_0 is None ==> r matches Err(EndpointError::NoCluster),
        profile matches Err(m) ==> (r matches Err(EndpointError::Config(got)) && got@ == m@),
{
    let sc = match fluvio_sc_endpoint(profile) {
        Ok(ep) => ep,
        Err(e) => {
            return Err(e);
        },
    };
    match addr {
        Some(a) => Ok(a),
        None => Ok(sc),
    }
}

/// Whenever the current profile names a cluster with endpoint `ep`, that is
/// the streaming controller's endpoint, whatever `ep` is; a client that
/// named no address is given exactly `ep`, and one that named `a` is given
/// exactly `a`. Only a profile with no cluster, or one that does not load,
/// is refused, each with its own error.
pub proof fn law_profile_endpoint_is_used(ep: Seq<char>, a: Seq<char>, m: Seq<char>)
    ensures
        sc_endpoint_spec(Ok(Some(ep))) == Ok::<Seq<char>, EndpointFault>(ep),
        domain_endpoint_spec(None, Ok(Some(ep))) == Ok::<Seq<char>, EndpointFault>(ep),
        domain_endpoint_spec(Some(a), Ok(Some(ep))) == Ok::<Seq<char>, EndpointFault>(a),
        domain_endpoint_spec(None, Ok(None)) == Err::<Seq<char>, EndpointFault>(EndpointFault::NoCluster),
        domain_endpoint_spec(Some(a), Err(m)) == Err::<Seq<char>, EndpointFault>(EndpointFault::Config(m)),
{
}

/// Without a profile that names a cluster no client is served, whatever
/// address it asked for; with one, a client's own address is the one
/// opened, and a client without one gets the profile's endpoint.
pub proof fn law_endpoint_choice(
    addr: Option<Seq<char>>,
    profile: Result<Option<Seq<char>>, Seq<char>>,
)
    ensures
        sc_endpoint_spec(profile) is Err ==> domain_endpoint_spec(addr, profile)
            == sc_endpoint_spec(profile),
        sc_endpoint_spec(profile) is Ok ==> domain_endpoint_spec(addr, profile) == Ok::<
            Seq<char>,
            EndpointFault,
        >(
            match addr {
                Some(a) => a,
                None => sc_endpoint_spec(profile)->Ok_0,
            },
        ),
{
}

} // verus!
