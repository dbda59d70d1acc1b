//! Launch material: what the child process is started with, where its
//! endpoints live, and the login item that starts the shell itself.
//!
//! The shell resolves filesystem paths and secrets and performs the actual
//! spawn; this module assembles the exact program arguments, environment,
//! and URLs from those plain values, so the command line the service runs
//! with is pinned down by contract.

use vstd::prelude::*;

use crate::text::{decimal_string, spec_decimal};

verus! {

/// Everything a spawn needs: executable path, arguments, and environment
/// variables. Credential material arrives as opaque strings; sourcing it
/// from secure storage is the shell's responsibility.
pub struct LaunchSpec {
    pub program: String,
    pub args: Vec<String>,
    pub env: Vec<(String, String)>,
}

/// The fixed argument list of the backend service: a uvicorn app bound to
/// the loopback address.
pub open spec fn spec_service_args() -> Seq<Seq<char>> {
    seq![
        "-m"@,
        "uvicorn"@,
        "kiroku_memory.api:app"@,
        "--host"@,
        "127.0.0.1"@,
        "--port"@,
        "8000"@,
    ]
}

/// The environment of the backend service: module path, storage backend
/// and its URL, and — only when one is configured — the API key.
pub open spec fn spec_service_env(
    pythonpath: Seq<char>,
    surreal_url: Seq<char>,
    openai_key: Option<Seq<char>>,
) -> Seq<(Seq<char>, Seq<char>)> {
    let base = seq![
        ("PYTHONPATH"@, pythonpath),
        ("BACKEND"@, "surrealdb"@),
        ("SURREAL_URL"@, surreal_url),
        ("SURREAL_NAMESPACE"@, "kiroku"@),
        ("SURREAL_DATABASE"@, "memory"@),
        ("PYTHONUNBUFFERED"@, "1"@),
    ];
    match openai_key {
        Some(key) => base.push(("OPENAI_API_KEY"@, key)),
        None => base,
    }
}

/// Assembles the launch specification for the backend service from the
/// resolved interpreter path, module path, storage URL, and optional key.
pub fn build_launch_spec(
    python_bin: &str,
    pythonpath: &str,
    surreal_url: &str,
    openai_key: Option<String>,
) -> (r: LaunchSpec)
    ensures
        r.program@ == python_bin@,
        r.args.deep_view() == spec_service_args(),
        r.env.deep_view() == spec_service_env(
            pythonpath@,
            surreal_url@,
            match openai_key {
                Some(key) => Some(key@),
                None => None::<Seq<char>>,
            },
        ),
{
    let mut args: Vec<String> = Vec::new();
    args.push("-m".to_owned());
    args.push("uvicorn".to_owned());
    args.push("kiroku_memory.api:app".to_owned());
    args.push("--host".to_owned());
    args.push("127.0.0.1".to_owned());
    args.push("--port".to_owned());
    args.push("8000".to_owned());

    let mut env: Vec<(String, String)> = Vec::new();
    env.push(("PYTHONPATH".to_owned(), pythonpath.to_owned()));
    env.push(("BACKEND".to_owned(), "surrealdb".to_owned()));
    env.push(("SURREAL_URL".to_owned(), surreal_url.to_owned()));
    env.push(("SURREAL_NAMESPACE".to_owned(), "kiroku".to_owned()));
    env.push(("SURREAL_DATABASE".to_owned(), "memory".to_owned()));
    env.push(("PYTHONUNBUFFERED".to_owned(), "1".to_owned()));
    let has_key = openai_key.is_some();
    match openai_key {
        Some(key) => env.push(("OPENAI_API_KEY".to_owned(), key)),
        None => (),
    }

    proof {
        assert(args.deep_view() =~~= spec_service_args());
        if has_key {
            assert(env.deep_view().drop_last() =~~= spec_service_env(
                pythonpath@,
                surreal_url@,
                None::<Seq<char>>,
            ));
        }
        assert(env.deep_view() =~~= spec_service_env(
            pythonpath@,
            surreal_url@,
            match openai_key {
                Some(key) => Some(key@),
                None => None::<Seq<char>>,
            },
        ));
    }
    LaunchSpec { program: python_bin.to_owned(), args, env }
}

/// The file-backed storage URL inside the (slash-normalized) data
/// directory.
pub fn surreal_file_url(data_path: &str) -> (r: String)
    ensures
        r@ == "file://"@ + data_path@ + "/surrealdb/kiroku"@,
{
    let mut s = "file://".to_owned();
    s.append(data_path);
    s.append("/surrealdb/kiroku");
    s
}

/// Where the service listens: configuration handed to the supervisor at
/// construction, never baked into probe logic, so tests can point it at
/// an in-process fake.
pub struct ServiceEndpoint {
    pub host: String,
    pub port: u16,
}

impl ServiceEndpoint {
    /// An endpoint at the given host and port.
    pub fn new(host: String, port: u16) -> (r: Self)
        ensures
            r.host@ == host@,
            r.port == port,
    {
        ServiceEndpoint { host, port }
    }

    /// The base of every URL of this endpoint.
    pub open spec fn spec_base_url(&self) -> Seq<char> {
        "http://"@ + self.host@ + ":"@ + spec_decimal(self.port as int)
    }

    /// The health endpoint polled by probes.
    pub fn health_url(&self) -> (r: String)
        ensures
            r@ == self.spec_base_url() + "/health"@,
    {
        let mut s = self.base_url();
        s.append("/health");
        s
    }

    /// The metrics endpoint polled for the item count.
    pub fn stats_url(&self) -> (r: String)
        ensures
            r@ == self.spec_base_url() + "/v2/stats"@,
    {
        let mut s = self.base_url();
        s.append("/v2/stats");
        s
    }

    fn base_url(&self) -> (r: String)
        ensures
            r@ == self.spec_base_url(),
    {
        let mut s = "http://".to_owned();
        s.append(self.host.as_str());
        s.append(":");
        let digits = decimal_string(self.port as u64);
        s.append(digits.as_str());
        s
    }
}

/// The body of the login item that starts the shell in tray-only mode at
/// login: a property list naming the executable and the tray flag.
pub open spec fn spec_launch_agent_plist(exe: Seq<char>) -> Seq<char> {
    "<?xml version=\"1.0\" encoding=\"UTF-8\"?>\n<!DOCTYPE plist PUBLIC \"-//Apple//DTD PLIST 1.0//EN\" \"http://www.apple.com/DTDs/PropertyList-1.0.dtd\">\n<plist version=\"1.0\">\n<dict>\n  <key>Label</key>\n  <string>com.kiroku.memory</string>\n  <key>ProgramArguments</key>\n  <array>\n    <string>"@
        + exe
        + "</string>\n    <string>--tray</string>\n  </array>\n  <key>RunAtLoad</key>\n  <true/>\n  <key>KeepAlive</key>\n  <false/>\n  <key>EnvironmentVariables</key>\n  <dict>\n    <key>KIROKU_TRAY_ONLY</key>\n    <string>1</string>\n  </dict>\n</dict>\n</plist>\n"@
}

/// Builds the login item's property list around the executable path. The
/// path must already be valid text; converting it from an OS path is the
/// shell's concern.
pub fn build_launch_agent_plist(exe_path: &str) -> (r: String)
    ensures
        r@ == spec_launch_agent_plist(exe_path@),
{
    let mut s =
        "<?xml version=\"1.0\" encoding=\"UTF-8\"?>\n<!DOCTYPE plist PUBLIC \"-//Apple//DTD PLIST 1.0//EN\" \"http://www.apple.com/DTDs/PropertyList-1.0.dtd\">\n<plist version=\"1.0\">\n<dict>\n  <key>Label</key>\n  <string>com.kiroku.memory</string>\n  <key>ProgramArguments</key>\n  <array>\n    <string>".to_owned();
    s.append(exe_path);
    s.append(
        "</string>\n    <string>--tray</string>\n  </array>\n  <key>RunAtLoad</key>\n  <true/>\n  <key>KeepAlive</key>\n  <false/>\n  <key>EnvironmentVariables</key>\n  <dict>\n    <key>KIROKU_TRAY_ONLY</key>\n    <string>1</string>\n  </dict>\n</dict>\n</plist>\n",
    );
    s
}

} // verus!
