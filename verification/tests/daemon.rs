use jwt_simple::prelude::{Claims, Duration, HS256Key, MACLike};
use plugind::auth::bearer_token;
use plugind::cache::LibraryCache;
use plugind::daemon::{plugin_list, plugin_upload, DaemonContext, UploadGate};
use plugind::upload::{UploadDecision, UploadForm};

#[test]
fn cache_insert_get_remove() {
    let mut cache: LibraryCache<u32> = LibraryCache::new();
    assert!(!cache.contains_key("a"));
    assert_eq!(cache.insert("a".to_string(), 1), None);
    assert_eq!(cache.insert("b".to_string(), 2), None);
    assert_eq!(cache.get("a"), Some(&1));
    assert_eq!(cache.insert("a".to_string(), 3), Some(1));
    assert_eq!(cache.get("a"), Some(&3));
    assert_eq!(cache.get("b"), Some(&2));
    assert_eq!(cache.remove("a"), Some(3));
    assert!(!cache.contains_key("a"));
    assert_eq!(cache.remove("a"), None);
    assert!(cache.contains_key("b"));
    assert_eq!(cache.get("c"), None);
}

#[test]
fn bearer_token_strips_every_prefix() {
    assert_eq!(bearer_token("Bearer abc"), "abc");
    assert_eq!(bearer_token("abc"), "abc");
    assert_eq!(bearer_token("xBearer Bearer y"), "xy");
    assert_eq!(bearer_token("BeBearer arer "), "Bearer ");
    assert_eq!(bearer_token("Bearer"), "Bearer");
    assert_eq!(bearer_token(""), "");
}

#[test]
fn upload_without_key_is_allowed() {
    let ctx: DaemonContext<(), u8> = DaemonContext::new();
    assert!(ctx.authorize_upload(None));
    assert!(ctx.authorize_upload(Some("Bearer nonsense")));
}

#[test]
fn upload_with_key_needs_a_valid_token() {
    let secret = "a secret of some length".to_string();
    let mut ctx: DaemonContext<(), u8> = DaemonContext::new();
    ctx.set_public_key(&Some(secret.clone()));
    assert_eq!(ctx.public_key, Some(secret.as_bytes().to_vec()));
    assert!(!ctx.authorize_upload(None));
    assert!(!ctx.authorize_upload(Some("Bearer not-a-token")));
    let key = HS256Key::from_bytes(secret.as_bytes());
    let token = key.authenticate(Claims::create(Duration::from_hours(1))).unwrap();
    assert!(ctx.authorize_upload(Some(&format!("Bearer {}", token))));
    assert!(ctx.authorize_upload(Some(&token)));
    let other = HS256Key::from_bytes(b"another long secret");
    let forged = other.authenticate(Claims::create(Duration::from_hours(1))).unwrap();
    assert!(!ctx.authorize_upload(Some(&format!("Bearer {}", forged))));
}

#[test]
fn upload_with_short_key_is_refused() {
    let mut ctx: DaemonContext<(), u8> = DaemonContext::new();
    ctx.set_public_key(&Some("short".to_string()));
    let key = HS256Key::from_bytes(b"short");
    let token = key.authenticate(Claims::create(Duration::from_hours(1)));
    if let Ok(token) = token {
        assert!(!ctx.authorize_upload(Some(&format!("Bearer {}", token))));
    }
    assert!(!ctx.authorize_upload(Some("Bearer x")));
}

#[test]
fn storage_is_kept_as_a_clone() {
    let mut ctx: DaemonContext<String, u8> = DaemonContext::new();
    assert!(ctx.storage.is_none());
    let client = "s3-client".to_string();
    ctx.set_storage(&client);
    assert_eq!(ctx.storage, Some(client));
}

#[test]
fn upload_missing_file_is_rejected() {
    let mut ctx: DaemonContext<(), u8> = DaemonContext::new();
    ctx.libs.insert("demo".to_string(), 1);
    let mut form = UploadForm::new();
    form.accept_field("name", b"demo".to_vec());
    match plugin_upload(&mut ctx, "/libs", form) {
        UploadDecision::Reject { status, message } => {
            assert_eq!(status, 400);
            assert_eq!(message, "Missing plugin name or file");
        }
        UploadDecision::Store { .. } => panic!("stored an upload without a file"),
    }
    assert!(ctx.libs.contains_key("demo"));
    let form = UploadForm::new();
    assert!(matches!(plugin_upload(&mut ctx, "/libs", form), UploadDecision::Reject { status: 400, .. }));
}

#[test]
fn upload_stores_file_and_evicts_cached_library() {
    let mut ctx: DaemonContext<(), u8> = DaemonContext::new();
    ctx.libs.insert("demo".to_string(), 1);
    ctx.libs.insert("other".to_string(), 2);
    let mut form = UploadForm::new();
    form.accept_field("file", vec![1, 2, 3]);
    form.accept_field("comment", b"ignored".to_vec());
    form.accept_field("name", b"first".to_vec());
    form.accept_field("name", b"demo".to_vec());
    match plugin_upload(&mut ctx, "/srv/libs", form) {
        UploadDecision::Store { path, bytes } => {
            assert_eq!(path, "/srv/libs/demo.so");
            assert_eq!(bytes, vec![1, 2, 3]);
        }
        UploadDecision::Reject { .. } => panic!("rejected a complete upload"),
    }
    assert!(!ctx.libs.contains_key("demo"));
    assert_eq!(ctx.libs.get("other"), Some(&2));
}

#[test]
fn upload_name_is_decoded_leniently() {
    let mut ctx: DaemonContext<(), u8> = DaemonContext::new();
    let mut form = UploadForm::new();
    form.accept_field("name", vec![b'p', 0xff]);
    form.accept_field("file", vec![]);
    match plugin_upload(&mut ctx, "/l", form) {
        UploadDecision::Store { path, .. } => assert_eq!(path, "/l/p\u{FFFD}.so"),
        UploadDecision::Reject { .. } => panic!("rejected a complete upload"),
    }
}

#[test]
fn plugin_list_one_name_per_line() {
    let (status, text) = plugin_list(&vec!["a".to_string(), "b".to_string(), "c".to_string()]);
    assert_eq!(status, 200);
    assert_eq!(text, "a\nb\nc");
    assert_eq!(plugin_list(&vec![]).1, "");
    assert_eq!(plugin_list(&vec!["only".to_string()]).1, "only");
}

#[test]
fn upload_gate_decides_what_to_check() {
    let mut ctx: DaemonContext<(), u8> = DaemonContext::new();
    assert!(matches!(ctx.upload_gate(None), UploadGate::Allow));
    assert!(matches!(ctx.upload_gate(Some("Bearer x")), UploadGate::Allow));
    ctx.set_public_key(&Some("k".to_string()));
    assert!(matches!(ctx.upload_gate(None), UploadGate::Deny));
    match ctx.upload_gate(Some("Bearer abc.Bearer def")) {
        UploadGate::Verify { key, token } => {
            assert_eq!(key, b"k");
            assert_eq!(token, "abc.def");
        }
        _ => panic!("a header with a key set is to be checked"),
    }
}
