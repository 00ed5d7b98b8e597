use xshell::lock::{Interest, LockCache, LockMisuse};
use xshell::scope::{pushd, ScopeError, ScopeState};

#[test]
fn test_pushd() {
    let mut cache = LockCache::new();
    let mut state = ScopeState::new("/work".to_string());
    let d1 = pushd(&mut cache, &mut state, "xshell-macros").unwrap();
    assert_eq!(state.current_dir(), "/work/xshell-macros");
    let d2 = pushd(&mut cache, &mut state, "src").unwrap();
    assert_eq!(state.current_dir(), "/work/xshell-macros/src");
    assert_eq!(d2.prev_dir(), "/work/xshell-macros");
    d2.pop(&mut cache, &mut state).unwrap();
    assert_eq!(state.current_dir(), "/work/xshell-macros");
    assert_eq!(cache.interest(), Interest::Writing);
    d1.pop(&mut cache, &mut state).unwrap();
    assert_eq!(state.current_dir(), "/work");
    assert_eq!(cache.interest(), Interest::Idle);
}

#[test]
fn pushd_parent_dir() {
    let mut cache = LockCache::new();
    let mut state = ScopeState::new("/home/user/project".to_string());
    let current = state.current_dir().to_string();
    let dirname = "project";
    let d1 = pushd(&mut cache, &mut state, "..").unwrap();
    assert_eq!(state.current_dir(), "/home/user");
    let d2 = pushd(&mut cache, &mut state, dirname).unwrap();
    assert_eq!(state.current_dir(), current);
    d2.pop(&mut cache, &mut state).unwrap();
    d1.pop(&mut cache, &mut state).unwrap();
    assert_eq!(state.current_dir(), current);
}

#[test]
fn pushd_resolves_dots_and_stops_at_root() {
    let mut cache = LockCache::new();
    let mut state = ScopeState::new("/a".to_string());
    let d1 = pushd(&mut cache, &mut state, "./b/../c//d/.").unwrap();
    assert_eq!(state.current_dir(), "/a/c/d");
    let d2 = pushd(&mut cache, &mut state, "../../../../..").unwrap();
    assert_eq!(state.current_dir(), "/");
    d2.pop(&mut cache, &mut state).unwrap();
    d1.pop(&mut cache, &mut state).unwrap();
    assert_eq!(state.current_dir(), "/a");
}

#[test]
fn resolve_keeps_leading_parent_of_relative_paths() {
    let cs: Vec<String> = ["..", "a", "..", "..", "b", "."].iter().map(|s| s.to_string()).collect();
    let r = xshell::scope::resolve(&cs);
    assert_eq!(r, vec!["..".to_string(), "..".to_string(), "b".to_string()]);
}

#[test]
fn pushd_absolute_replaces() {
    let mut cache = LockCache::new();
    let mut state = ScopeState::new("/work".to_string());
    let d = pushd(&mut cache, &mut state, "/etc").unwrap();
    assert_eq!(d.dir(), "/etc");
    assert_eq!(state.current_dir(), "/etc");
    d.pop(&mut cache, &mut state).unwrap();
    assert_eq!(state.current_dir(), "/work");
}

#[test]
fn pushd_while_reading_is_refused() {
    let mut cache = LockCache::new();
    let mut state = ScopeState::new("/work".to_string());
    let r = cache.acquire_read().unwrap();
    assert!(matches!(
        pushd(&mut cache, &mut state, "sub"),
        Err(ScopeError::Lock(LockMisuse::WriteWhileReading))
    ));
    assert_eq!(state.current_dir(), "/work");
    cache.release(r).unwrap();
}

#[test]
fn popping_out_of_order_is_detected() {
    let mut cache = LockCache::new();
    let mut state = ScopeState::new("/w".to_string());
    let d1 = pushd(&mut cache, &mut state, "a").unwrap();
    let d2 = pushd(&mut cache, &mut state, "b").unwrap();
    assert_eq!(d1.pop(&mut cache, &mut state), Err(ScopeError::ChangedConcurrently));
    assert_eq!(state.current_dir(), "/w/a/b");
    d2.pop(&mut cache, &mut state).unwrap();
}

const VAR: &str = "SPICA";

#[test]
fn test_pushenv() {
    let mut cache = LockCache::new();
    let mut state = ScopeState::new("/w".to_string());
    let e1 = state.var(VAR);
    {
        let p1 = xshell::scope::pushenv(&mut cache, &mut state, VAR, "1").unwrap();
        let e2 = state.var(VAR);
        assert_eq!(e2, Some("1".to_string()));
        {
            let p2 = xshell::scope::pushenv(&mut cache, &mut state, VAR, "2").unwrap();
            let e3 = state.var(VAR);
            assert_eq!(e3, Some("2".to_string()));
            p2.pop(&mut cache, &mut state).unwrap();
        }
        let e4 = state.var(VAR);
        assert_eq!(e4, e2);
        p1.pop(&mut cache, &mut state).unwrap();
    }
    let e5 = state.var(VAR);
    assert_eq!(e5, e1);
    assert_eq!(cache.interest(), Interest::Idle);
}

#[test]
fn pushenv_leaves_other_variables_and_directory() {
    let mut cache = LockCache::new();
    let mut state = ScopeState::new("/w".to_string());
    let a = xshell::scope::pushenv(&mut cache, &mut state, "A", "1").unwrap();
    let b = xshell::scope::pushenv(&mut cache, &mut state, "B", "2").unwrap();
    assert_eq!(state.var("A"), Some("1".to_string()));
    assert_eq!(state.var("B"), Some("2".to_string()));
    assert_eq!(state.current_dir(), "/w");
    b.pop(&mut cache, &mut state).unwrap();
    assert_eq!(state.var("B"), None);
    assert_eq!(state.var("A"), Some("1".to_string()));
    a.pop(&mut cache, &mut state).unwrap();
}

#[test]
fn pushenv_changed_underneath_is_detected() {
    let mut cache = LockCache::new();
    let mut state = ScopeState::new("/w".to_string());
    let a = xshell::scope::pushenv(&mut cache, &mut state, "A", "1").unwrap();
    let b = xshell::scope::pushenv(&mut cache, &mut state, "A", "2").unwrap();
    assert_eq!(a.pop(&mut cache, &mut state), Err(ScopeError::ChangedConcurrently));
    assert_eq!(state.var("A"), Some("2".to_string()));
    b.pop(&mut cache, &mut state).unwrap();
    assert_eq!(state.var("A"), Some("1".to_string()));
}
