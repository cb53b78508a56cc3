//! One scheduled benchmark and the steps it consists of.

use vstd::prelude::*;
use vstd::string::*;
use crate::artifact::{output_dir, output_dir_of};
use crate::server::Server;

verus! {

/// The part a process plays in a run.
#[derive(Clone, Copy, Debug, PartialEq, Eq, Structural)]
pub enum Role {
    /// The server that answers requests itself, on port 3000.
    Origin,
    /// The server that forwards requests to the origin, on port 3001.
    Proxy,
}

/// The address the origin under test listens on.
pub open spec fn origin_url() -> Seq<char> {
    "http://localhost:3000"@
}

/// The address the proxy under test listens on.
pub open spec fn proxy_url() -> Seq<char> {
    "http://localhost:3001"@
}

/// What a benchmark run is made of: the variant under test and, where that
/// variant is a proxy, the origin it forwards to. Everything else about the
/// run follows from these two.
pub struct RunSpec {
    pub variant: Server,
    pub dependent_origin: Option<Server>,
}

impl RunSpec {
    /// The role of the variant under test.
    pub open spec fn role(self) -> Role {
        if self.dependent_origin is Some {
            Role::Proxy
        } else {
            Role::Origin
        }
    }

    /// The address that is probed and load-tested.
    pub open spec fn target_url(self) -> Seq<char> {
        match self.role() {
            Role::Origin => origin_url(),
            Role::Proxy => proxy_url(),
        }
    }

    /// The run's directory, which is named after the variant under test.
    pub open spec fn output_dir(self) -> Seq<char> {
        output_dir_of(self.variant.spec_name())
    }

    /// Whether the run starts a process in the role `role`.
    pub open spec fn has(self, role: Role) -> bool {
        role == Role::Origin || self.dependent_origin is Some
    }

    /// The variant that plays `role` in the run.
    pub open spec fn server(self, role: Role) -> Server
        recommends
            self.has(role),
    {
        match (role, self.dependent_origin) {
            (Role::Origin, Some(origin)) => origin,
            _ => self.variant,
        }
    }
}

/// A scheduled benchmark of one variant.
pub struct BenchmarkRun {
    variant: Server,
    role: Role,
    dependent_origin: Option<Server>,
    target_url: String,
    output_dir: String,
}

impl View for BenchmarkRun {
    type V = RunSpec;

    closed spec fn view(&self) -> RunSpec {
        RunSpec { variant: self.variant, dependent_origin: self.dependent_origin }
    }
}

impl BenchmarkRun {
    #[verifier::type_invariant]
    spec fn consistent(&self) -> bool {
        &&& self.role == self@.role()
        &&& self.target_url@ == self@.target_url()
        &&& self.output_dir@ == self@.output_dir()
    }

    /// Schedules a benchmark of `variant` as an origin.
    pub fn origin(variant: Server) -> (run: BenchmarkRun)
        ensures
            run@ == (RunSpec { variant, dependent_origin: None }),
    {
        let name = variant.name();
        BenchmarkRun {
            variant,
            role: Role::Origin,
            dependent_origin: None,
            target_url: String::from_str("http://localhost:3000"),
            output_dir: output_dir(name.as_str()),
        }
    }

    /// Schedules a benchmark of `variant` as a proxy in front of `origin`.
    pub fn proxy(variant: Server, origin: Server) -> (run: BenchmarkRun)
        ensures
            run@ == (RunSpec { variant, dependent_origin: Some(origin) }),
    {
        let name = variant.name();
        BenchmarkRun {
            variant,
            role: Role::Proxy,
            dependent_origin: Some(origin),
            target_url: String::from_str("http://localhost:3001"),
            output_dir: output_dir(name.as_str()),
        }
    }

    /// The variant under test.
    pub fn variant(&self) -> (variant: &Server)
        ensures
            *variant == self@.variant,
    {
        &self.variant
    }

    /// The role of the variant under test.
    pub fn role(&self) -> (role: Role)
        ensures
            role == self@.role(),
    {
        proof {
            use_type_invariant(self);
        }
        self.role
    }

    /// The origin behind the proxy under test, if this is a proxy run.
    pub fn dependent_origin(&self) -> (origin: Option<&Server>)
        ensures
            origin is Some == self@.dependent_origin is Some,
            origin matches Some(o) ==> Some(*o) == self@.dependent_origin,
    {
        self.dependent_origin.as_ref()
    }

    /// The address that is probed and load-tested.
    pub fn target_url(&self) -> (url: &str)
        ensures
            url@ == self@.target_url(),
    {
        proof {
            use_type_invariant(self);
        }
        self.target_url.as_str()
    }

    /// The run's directory.
    pub fn output_dir(&self) -> (dir: &str)
        ensures
            dir@ == self@.output_dir(),
    {
        proof {
            use_type_invariant(self);
        }
        self.output_dir.as_str()
    }

    /// The variant that plays `role`, if the run has that role.
    pub fn server(&self, role: Role) -> (server: Option<&Server>)
        ensures
            server is Some == self@.has(role),
            server matches Some(s) ==> *s == self@.server(role),
    {
        match role {
            Role::Proxy => match &self.dependent_origin {
                Some(_) => Some(&self.variant),
                None => None,
            },
            Role::Origin => match &self.dependent_origin {
                Some(origin) => Some(origin),
                None => Some(&self.variant),
            },
        }
    }
}

} // verus!
