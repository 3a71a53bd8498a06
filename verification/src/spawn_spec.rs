//! What the launcher needs to start the sidecar: the executable, the
//! environment to inject, and the platform's spawn flags.

use crate::decimal::{decimal, law_decimal_is_injective, port_text};
use crate::platform::{creation_flags_for, leads_own_group, Platform, CREATE_NO_WINDOW};
use vstd::prelude::*;

verus! {

/// Name of the variable that tells the sidecar which port to listen on.
pub const PORT_VARIABLE: &'static str = "BORD_PORT";

/// Name of the variable that carries the database file's path.
pub const DATABASE_VARIABLE: &'static str = "BORD_DB_PATH";

/// Name of the variable that carries the schema file's path.
pub const SCHEMA_VARIABLE: &'static str = "BORD_SCHEMA_PATH";

/// One variable of the child's environment.
#[derive(Clone, Debug, PartialEq, Eq)]
pub struct EnvVar {
    pub name: String,
    pub value: String,
}

impl View for EnvVar {
    type V = (Seq<char>, Seq<char>);

    open spec fn view(&self) -> (Seq<char>, Seq<char>) {
        (self.name@, self.value@)
    }
}

/// A spawn specification as plain mathematical data.
pub struct SpawnSpecView {
    pub executable: Seq<char>,
    pub port: u16,
    pub env: Seq<(Seq<char>, Seq<char>)>,
    pub creation_flags: u32,
    pub new_process_group: bool,
}

/// Text of an optional path.
pub open spec fn text_of(path: Option<String>) -> Option<Seq<char>> {
    match path {
        Some(p) => Some(p@),
        None => None,
    }
}

/// The variables injected into the sidecar's environment, in the order in
/// which they are set: the port always, then the database path and the
/// schema path where they are known.
pub open spec fn injected_env(
    port: u16,
    database_path: Option<Seq<char>>,
    schema_path: Option<Seq<char>>,
) -> Seq<(Seq<char>, Seq<char>)> {
    let with_port = seq![(PORT_VARIABLE@, decimal(port as nat))];
    let with_database = match database_path {
        Some(p) => with_port.push((DATABASE_VARIABLE@, p)),
        None => with_port,
    };
    match schema_path {
        Some(p) => with_database.push((SCHEMA_VARIABLE@, p)),
        None => with_database,
    }
}

/// The specification for launching `executable` on `platform` with `port`.
pub open spec fn spawn_spec(
    platform: Platform,
    executable: Seq<char>,
    port: u16,
    database_path: Option<Seq<char>>,
    schema_path: Option<Seq<char>>,
) -> SpawnSpecView {
    SpawnSpecView {
        executable,
        port,
        env: injected_env(port, database_path, schema_path),
        creation_flags: creation_flags_for(platform),
        new_process_group: leads_own_group(platform),
    }
}

/// The environment tells the sidecar its port without ambiguity: the port
/// variable comes first whatever else is injected, and two specifications
/// that agree on its value were built for the same port.
pub proof fn law_port_variable_determines_port(
    platform: Platform,
    executable: Seq<char>,
    a: u16,
    b: u16,
    database_path: Option<Seq<char>>,
    schema_path: Option<Seq<char>>,
)
    ensures
        spawn_spec(platform, executable, a, database_path, schema_path).env[0] == (
            PORT_VARIABLE@,
            decimal(a as nat),
        ),
        spawn_spec(platform, executable, a, database_path, schema_path).env[0] == spawn_spec(
            platform,
            executable,
            b,
            database_path,
            schema_path,
        ).env[0] ==> a == b,
{
    if decimal(a as nat) == decimal(b as nat) {
        law_decimal_is_injective(a as nat, b as nat);
    }
}

/// The launch parameters of the sidecar. Fixed once built.
#[derive(Clone, Debug, PartialEq, Eq)]
pub struct SpawnSpec {
    executable: String,
    port: u16,
    env: Vec<EnvVar>,
    creation_flags: u32,
    new_process_group: bool,
}

impl View for SpawnSpec {
    type V = SpawnSpecView;

    closed spec fn view(&self) -> SpawnSpecView {
        SpawnSpecView {
            executable: self.executable@,
            port: self.port,
            env: self.env@.map_values(|v: EnvVar| v@),
            creation_flags: self.creation_flags,
            new_process_group: self.new_process_group,
        }
    }
}

impl SpawnSpec {
    /// Builds the specification for launching `executable` with `port`
    /// injected, and the two paths where they are given.
    pub fn new(
        platform: Platform,
        executable: String,
        port: u16,
        database_path: Option<String>,
        schema_path: Option<String>,
    ) -> (spec: SpawnSpec)
        ensures
            spec@ == spawn_spec(
                platform,
                executable@,
                port,
                text_of(database_path),
                text_of(schema_path),
            ),
    {
        let mut env: Vec<EnvVar> = Vec::new();
        env.push(EnvVar { name: String::from_str(PORT_VARIABLE), value: port_text(port) });
        if let Some(path) = database_path {
            env.push(EnvVar { name: String::from_str(DATABASE_VARIABLE), value: path });
        }
        if let Some(path) = schema_path {
            env.push(EnvVar { name: String::from_str(SCHEMA_VARIABLE), value: path });
        }
        let creation_flags: u32 = match platform {
            Platform::Windows => CREATE_NO_WINDOW,
            Platform::Posix => 0,
        };
        let new_process_group = match platform {
            Platform::Posix => true,
            Platform::Windows => false,
        };
        let spec = SpawnSpec { executable, port, env, creation_flags, new_process_group };
        assert(spec@.env =~= injected_env(port, text_of(database_path), text_of(schema_path)));
        spec
    }

    /// Path of the program to start.
    pub fn executable(&self) -> (path: &String)
        ensures
            path@ == self@.executable,
    {
        &self.executable
    }

    /// The port that the sidecar is told to listen on.
    pub fn port(&self) -> (port: u16)
        ensures
            port == self@.port,
    {
        self.port
    }

    /// The variables to add to the child's environment, in order.
    pub fn env(&self) -> (env: &Vec<EnvVar>)
        ensures
            env@.map_values(|v: EnvVar| v@) == self@.env,
    {
        &self.env
    }

    /// Creation flags for platforms that take them; zero elsewhere.
    pub fn creation_flags(&self) -> (flags: u32)
        ensures
            flags == self@.creation_flags,
    {
        self.creation_flags
    }

    /// Whether the child is to lead a new process group.
    pub fn new_process_group(&self) -> (own_group: bool)
        ensures
            own_group == self@.new_process_group,
    {
        self.new_process_group
    }
}

} // verus!
