use vtcode_core::config::acp::{AgentClientProtocolConfig, AgentClientProtocolTransport};

#[test]
fn defaults_use_stdio_transport() {
    let cfg = AgentClientProtocolConfig::default();
    assert!(matches!(
        cfg.zed.transport,
        AgentClientProtocolTransport::Stdio
    ));
    assert!(cfg.zed.tools.read_file);
    assert!(cfg.zed.tools.list_files);
}
