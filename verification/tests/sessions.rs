use agenthost::agentmgr::{list_sessions, user_sessions_dir, SessionCache};
use agenthost::api::session_stream;

#[test]
fn cache_reads_back_writes() {
    let mut c: SessionCache<u32> = SessionCache::new();
    assert_eq!(c.get("bob", 1), None);
    c.insert("bob", 1, 10);
    c.insert("bob", 2, 20);
    c.insert("amy", 1, 30);
    assert_eq!(c.get("bob", 1), Some(&10));
    assert_eq!(c.get("bob", 2), Some(&20));
    assert_eq!(c.get("amy", 1), Some(&30));
    c.insert("bob", 1, 11);
    assert_eq!(c.get("bob", 1), Some(&11));
    c.remove("bob", 1);
    assert_eq!(c.get("bob", 1), None);
    assert_eq!(c.get("bob", 2), Some(&20));
    c.remove("nobody", 9);
    assert_eq!(c.get("amy", 1), Some(&30));
}

#[test]
fn session_listing() {
    assert_eq!(user_sessions_dir("bob"), "data/bob/sessions");
    let files = vec!["data/bob/sessions/3.json".to_string(), "data/bob/sessions/10.json".to_string()];
    assert_eq!(list_sessions(&files), vec!["3".to_string(), "10".to_string()]);
    assert_eq!(list_sessions(&vec!["..".to_string()]), Vec::<String>::new());
}

#[test]
fn reply_streams() {
    let mut streams: SessionCache<u32> = SessionCache::new();
    assert!(!streams.has_user("bob"));
    assert_eq!(session_stream(&streams, "bob", 1), Err((500, "User stream not found")));
    streams.insert("bob", 2, 9);
    assert!(streams.has_user("bob"));
    assert_eq!(session_stream(&streams, "bob", 1), Err((500, "Session not found")));
    assert_eq!(session_stream(&streams, "bob", 2), Ok(&9));
}
