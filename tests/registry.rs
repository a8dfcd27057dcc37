use helix_vte::error::Error;
use helix_vte::registry::VteRegistry;
use helix_vte::session::{PtyEvent, PtySpawnConfig};

#[test]
fn ids_are_fresh_and_increasing() {
    let mut reg: VteRegistry<&str> = VteRegistry::new();
    assert!(reg.has_free_id());
    assert_eq!(reg.register("a"), Ok(0));
    assert_eq!(reg.register("b"), Ok(1));
    assert!(reg.observe(0, &PtyEvent::Terminated(0)).is_some());
    assert_eq!(reg.register("c"), Ok(2));
    assert!(!reg.contains(0));
    assert!(reg.contains(2));
}

#[test]
fn terminate_unknown_id_is_not_found() {
    let mut reg: VteRegistry<&str> = VteRegistry::new();
    let a = reg.register("a").unwrap();
    assert_eq!(reg.terminate(7), Err(Error::TerminalNotFound(7)));
    assert_eq!(reg.cancel_requested(a), Ok(false));
    assert_eq!(reg.target(a), Ok(&"a"));
}

#[test]
fn terminate_twice_is_idempotent() {
    let mut reg: VteRegistry<&str> = VteRegistry::new();
    let a = reg.register("a").unwrap();
    let b = reg.register("b").unwrap();
    assert_eq!(reg.terminate(a), Ok(()));
    assert_eq!(reg.cancel_requested(a), Ok(true));
    assert_eq!(reg.terminate(a), Ok(()));
    assert_eq!(reg.cancel_requested(a), Ok(true));
    assert_eq!(reg.cancel_requested(b), Ok(false));
    assert_eq!(reg.target(a), Ok(&"a"));
}

#[test]
fn write_after_terminated_is_not_found() {
    let mut reg: VteRegistry<&str> = VteRegistry::new();
    let a = reg.register("a").unwrap();
    assert_eq!(reg.observe(a, &PtyEvent::Data(b"x".to_vec())), None);
    assert_eq!(reg.observe(a, &PtyEvent::Error("oops".to_string())), None);
    assert_eq!(reg.target(a), Ok(&"a"));
    assert_eq!(reg.observe(a, &PtyEvent::Terminated(0)), Some("a"));
    assert_eq!(reg.target(a), Err(Error::TerminalNotFound(a)));
    assert_eq!(reg.terminate(a), Err(Error::TerminalNotFound(a)));
    assert_eq!(reg.observe(a, &PtyEvent::Terminated(0)), None);
}

#[test]
fn two_sessions_keep_their_own_handles() {
    let mut reg: VteRegistry<String> = VteRegistry::new();
    let a = reg.register("first".to_string()).unwrap();
    let b = reg.register("second".to_string()).unwrap();
    assert_ne!(a, b);
    assert_eq!(reg.target(a).unwrap(), "first");
    assert_eq!(reg.target(b).unwrap(), "second");
    assert_eq!(reg.observe(a, &PtyEvent::Terminated(0)), Some("first".to_string()));
    assert_eq!(reg.target(b).unwrap(), "second");
}

#[test]
fn spawn_config_defaults() {
    let cfg = PtySpawnConfig::from_environment(None, Some("/tmp".to_string()));
    assert_eq!(cfg.command, "/bin/bash");
    assert_eq!(cfg.cwd, Some("/tmp".to_string()));
    assert!(cfg.arguments.is_none() && cfg.env.is_none() && cfg.size.is_none());
    assert_eq!(cfg.pty_size(), (24, 80));
    let mut cfg = PtySpawnConfig::from_environment(Some("/bin/zsh".to_string()), None);
    assert_eq!(cfg.command, "/bin/zsh");
    cfg.size = Some((50, 132));
    assert_eq!(cfg.pty_size(), (50, 132));
}
