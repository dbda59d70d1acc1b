//! Launch material: the assembled command line, the endpoint URLs, the
//! storage URL, the login item, and decimal rendering.

use kiroku_supervisor::launch::{
    build_launch_agent_plist, build_launch_spec, surreal_file_url, ServiceEndpoint,
};
use kiroku_supervisor::text::decimal_string;

#[test]
fn launch_spec_pins_program_args_and_env() {
    let spec = build_launch_spec(
        "/opt/app/python/bin/python3",
        "/opt/app",
        "file:///data/surrealdb/kiroku",
        None,
    );
    assert_eq!(spec.program, "/opt/app/python/bin/python3");
    assert_eq!(
        spec.args,
        vec![
            "-m",
            "uvicorn",
            "kiroku_memory.api:app",
            "--host",
            "127.0.0.1",
            "--port",
            "8000",
        ]
    );
    assert_eq!(
        spec.env,
        vec![
            ("PYTHONPATH".to_string(), "/opt/app".to_string()),
            ("BACKEND".to_string(), "surrealdb".to_string()),
            (
                "SURREAL_URL".to_string(),
                "file:///data/surrealdb/kiroku".to_string()
            ),
            ("SURREAL_NAMESPACE".to_string(), "kiroku".to_string()),
            ("SURREAL_DATABASE".to_string(), "memory".to_string()),
            ("PYTHONUNBUFFERED".to_string(), "1".to_string()),
        ]
    );
}

#[test]
fn launch_spec_forwards_the_key_only_when_configured() {
    let without = build_launch_spec("/bin/py", "/app", "file:///d", None);
    assert_eq!(without.env.len(), 6);
    assert!(!without.env.iter().any(|(k, _)| k == "OPENAI_API_KEY"));

    let with = build_launch_spec("/bin/py", "/app", "file:///d", Some("sk-test".to_string()));
    assert_eq!(with.env.len(), 7);
    assert_eq!(
        with.env.last(),
        Some(&("OPENAI_API_KEY".to_string(), "sk-test".to_string()))
    );
}

#[test]
fn surreal_url_wraps_the_data_path() {
    assert_eq!(
        surreal_file_url("/home/user/.local/share/app"),
        "file:///home/user/.local/share/app/surrealdb/kiroku"
    );
}

#[test]
fn endpoint_urls_carry_host_and_port() {
    let endpoint = ServiceEndpoint::new("127.0.0.1".to_string(), 8000);
    assert_eq!(endpoint.health_url(), "http://127.0.0.1:8000/health");
    assert_eq!(endpoint.stats_url(), "http://127.0.0.1:8000/v2/stats");

    let other = ServiceEndpoint::new("localhost".to_string(), 9123);
    assert_eq!(other.health_url(), "http://localhost:9123/health");
}

#[test]
fn launch_agent_plist_embeds_the_executable() {
    let plist = build_launch_agent_plist("/Applications/Kiroku.app/Contents/MacOS/kiroku");
    let expected = "<?xml version=\"1.0\" encoding=\"UTF-8\"?>\n<!DOCTYPE plist PUBLIC \"-//Apple//DTD PLIST 1.0//EN\" \"http://www.apple.com/DTDs/PropertyList-1.0.dtd\">\n<plist version=\"1.0\">\n<dict>\n  <key>Label</key>\n  <string>com.kiroku.memory</string>\n  <key>ProgramArguments</key>\n  <array>\n    <string>/Applications/Kiroku.app/Contents/MacOS/kiroku</string>\n    <string>--tray</string>\n  </array>\n  <key>RunAtLoad</key>\n  <true/>\n  <key>KeepAlive</key>\n  <false/>\n  <key>EnvironmentVariables</key>\n  <dict>\n    <key>KIROKU_TRAY_ONLY</key>\n    <string>1</string>\n  </dict>\n</dict>\n</plist>\n";
    assert_eq!(plist, expected);
}

#[test]
fn decimal_rendering_is_exact() {
    assert_eq!(decimal_string(0), "0");
    assert_eq!(decimal_string(7), "7");
    assert_eq!(decimal_string(10), "10");
    assert_eq!(decimal_string(8000), "8000");
    assert_eq!(decimal_string(u64::MAX), "18446744073709551615");
}
