use plugind::context::InvokeResult;
use plugind::ctl::{deploy_url, plugind_url, plugins_url, rpc_input, rpc_url};
use plugind::daemon::DaemonContext;
use plugind::http::HeadParse;
use plugind::mesh::{invoke_handler, plugin_upload, MeshContext};
use plugind::rpc::{plan_invoke, plugin_input, reply_from_head, rpc_handler, rpc_reply, try_rpc_handler, temp_path_for, temp_library_path, InvokeStep};
use plugind::upload::{UploadDecision, UploadForm};

#[test]
fn rpc_handler_failure_is_500_with_message() {
    assert_eq!(rpc_handler(Err("boom".to_string())), (500, b"boom".to_vec()));
    assert_eq!(try_rpc_handler(Err("boom".to_string())), Some((500, b"boom".to_vec())));
}

#[test]
fn rpc_handler_complete_head_gives_its_status_and_head() {
    let out = b"HTTP/1.1 201 Created\r\nA: b\r\n\r\nrest".to_vec();
    let (status, body) = rpc_handler(Ok(out.clone()));
    assert_eq!(status, 201);
    assert_eq!(body, out[..out.len() - 4].to_vec());
    assert_eq!(try_rpc_handler(Ok(out.clone())), Some((201, out[..out.len() - 4].to_vec())));
}

#[test]
fn rpc_handler_other_output_is_200_as_is() {
    assert_eq!(rpc_handler(Ok(b"plain text".to_vec())), (200, b"plain text".to_vec()));
    assert_eq!(rpc_handler(Ok(b"HTTP/1.1 20".to_vec())), (200, b"HTTP/1.1 20".to_vec()));
    assert_eq!(rpc_handler(Ok(vec![])), (200, vec![]));
    assert_eq!(try_rpc_handler(Ok(b"plain text".to_vec())), Some((200, b"plain text".to_vec())));
}

#[test]
fn rpc_handler_status_below_100_has_no_reply() {
    assert_eq!(try_rpc_handler(Ok(b"HTTP/1.1 099 Low\r\n\r\n".to_vec())), None);
}

#[test]
fn rpc_handler_head_with_too_many_headers_is_sent_as_is() {
    let mut out = b"HTTP/1.1 201 Created\r\n".to_vec();
    for _ in 0..129 {
        out.extend_from_slice(b"A: b\r\n");
    }
    out.extend_from_slice(b"\r\n");
    assert_eq!(rpc_handler(Ok(out.clone())), (200, out.clone()));
    let mut fits = b"HTTP/1.1 201 Created\r\n".to_vec();
    for _ in 0..128 {
        fits.extend_from_slice(b"A: b\r\n");
    }
    fits.extend_from_slice(b"\r\n");
    assert_eq!(rpc_handler(Ok(fits.clone())), (201, fits.clone()));
}

#[test]
fn reply_from_given_heads() {
    assert_eq!(reply_from_head(b"abcd".to_vec(), HeadParse::Complete(2, Some(302))), (302, b"ab".to_vec()));
    assert_eq!(reply_from_head(b"abcd".to_vec(), HeadParse::Partial), (200, b"abcd".to_vec()));
}

#[test]
fn rpc_reply_plain() {
    assert_eq!(rpc_reply(Ok(vec![1, 2])), (200, vec![1, 2]));
    assert_eq!(rpc_reply(Err("no such plugin".to_string())), (500, b"no such plugin".to_vec()));
}

#[test]
fn invoke_handler_maps_outcome() {
    assert_eq!(invoke_handler(InvokeResult::Success(vec![9])), (200, vec![9]));
    assert_eq!(invoke_handler(InvokeResult::Failure(b"bad".to_vec())), (500, b"bad".to_vec()));
}

#[test]
fn plugin_input_is_json_array() {
    assert_eq!(plugin_input(&vec![1, 2, 255]), b"[1,2,255]".to_vec());
    assert_eq!(plugin_input(&vec![]), b"[]".to_vec());
}

#[test]
fn temp_paths() {
    assert_eq!(temp_path_for("abc"), "/tmp/abc");
    let p = temp_library_path();
    assert!(p.starts_with("/tmp/"));
    assert_eq!(p.len(), 41);
    assert_ne!(p, temp_library_path());
}

#[test]
fn plan_invoke_loads_only_uncached() {
    let mut ctx: DaemonContext<(), u8> = DaemonContext::new();
    match plan_invoke(&ctx.libs, "demo") {
        InvokeStep::Load { bucket, key, temp_path } => {
            assert_eq!(bucket, "plugins");
            assert_eq!(key, "demo");
            assert!(temp_path.starts_with("/tmp/"));
        }
        InvokeStep::Run => panic!("ran an uncached plugin"),
    }
    ctx.libs.insert("demo".to_string(), 7);
    assert!(matches!(plan_invoke(&ctx.libs, "demo"), InvokeStep::Run));
}

#[test]
fn mesh_upload_and_storage() {
    let mut ctx: MeshContext<String, u8> = MeshContext::new();
    ctx.set_storage(&"client".to_string());
    assert_eq!(ctx.storage, Some("client".to_string()));
    ctx.libs.insert("m".to_string(), 1);
    let mut form = UploadForm::new();
    form.accept_field("name", b"m".to_vec());
    form.accept_field("file", vec![5]);
    assert!(matches!(plugin_upload(&mut ctx, "/x", form), UploadDecision::Store { .. }));
    assert!(!ctx.libs.contains_key("m"));
}

#[test]
fn ctl_addresses() {
    assert_eq!(plugind_url(None), "http://localhost:8080");
    assert_eq!(plugind_url(Some("http://h:1".to_string())), "http://h:1");
    assert_eq!(plugins_url("http://h"), "http://h/plugins");
    assert_eq!(deploy_url("http://h"), "http://h/plugin");
    assert_eq!(rpc_url("http://h", "demo"), "http://h/plugins/demo/rpc");
    assert_eq!(rpc_input(None), Vec::<u8>::new());
    assert_eq!(rpc_input(Some("hi".to_string())), b"hi".to_vec());
}
